use vstd::prelude::*;
use crate::text::opt_text;
use crate::user_agent::UserAgent;

verus! {

/// What a client sends: who it is.
#[derive(Debug, Clone, Copy, PartialEq, Eq, Structural)]
pub struct Request {
    pub user_agent: UserAgent,
}

impl Default for Request {
    /// A request from a client.
    fn default() -> (r: Self)
        ensures
            r.user_agent == UserAgent::Client,
    {
        Request { user_agent: UserAgent::Client }
    }
}

/// What a server answers: who it is, and the first and (optional) last name
/// that it reports.
#[derive(Debug, Clone)]
pub struct Response {
    user_agent: UserAgent,
    f_name: String,
    l_name: Option<String>,
}

/// A response's content, each text as its characters.
pub struct ResponseView {
    pub user_agent: UserAgent,
    pub f_name: Seq<char>,
    pub l_name: Option<Seq<char>>,
}

impl View for Response {
    type V = ResponseView;

    closed spec fn view(&self) -> ResponseView {
        ResponseView {
            user_agent: self.user_agent,
            f_name: self.f_name@,
            l_name: opt_text(self.l_name),
        }
    }
}

impl Response {
    /// A server's response carrying the given names.
    pub fn new(f_name: String, l_name: Option<String>) -> (r: Self)
        ensures
            r@ == (ResponseView {
                user_agent: UserAgent::Server,
                f_name: f_name@,
                l_name: opt_text(l_name),
            }),
    {
        Self { user_agent: UserAgent::Server, f_name, l_name }
    }

    /// A response with every field given, as read from the wire.
    pub fn from_parts(user_agent: UserAgent, f_name: String, l_name: Option<String>) -> (r: Self)
        ensures
            r@ == (ResponseView { user_agent, f_name: f_name@, l_name: opt_text(l_name) }),
    {
        Self { user_agent, f_name, l_name }
    }

    /// Who sent the response.
    pub fn user_agent(&self) -> (r: UserAgent)
        ensures
            r == self@.user_agent,
    {
        self.user_agent
    }

    /// The first name reported.
    pub fn f_name(&self) -> (r: &str)
        ensures
            r@ == self@.f_name,
    {
        self.f_name.as_str()
    }

    /// The last name reported, if any.
    pub fn l_name(&self) -> (r: Option<&str>)
        ensures
            match r {
                Some(t) => self@.l_name == Some(t@),
                None => self@.l_name is None,
            },
    {
        match &self.l_name {
            Some(s) => Some(s.as_str()),
            None => None,
        }
    }
}

} // verus!
