use vstd::prelude::*;
use crate::text::{has_prefix, spec_has_prefix};

verus! {

/// Which end of the exchange a peer declares itself to be.
#[derive(Debug, Clone, Copy, PartialEq, Eq, Structural)]
pub enum UserAgent {
    Client,
    Server,
}

/// The text did not name a known user agent.
#[derive(Debug, Clone, Copy, PartialEq, Eq, Structural)]
pub struct ParseUserAgentError;

impl ParseUserAgentError {
    /// The human-readable description of the error.
    pub fn message(&self) -> (m: String)
        ensures
            m@ == "Invalid UserAgent string"@,
    {
        String::from_str("Invalid UserAgent string")
    }
}

/// The prefix by which a client announces itself.
pub open spec fn client_prefix() -> Seq<char> {
    "rust-client"@
}

/// The prefix by which a server announces itself.
pub open spec fn server_prefix() -> Seq<char> {
    "rust-server"@
}

/// What `UserAgent::from_str` gives for a text: a client for any text that
/// begins with `rust-client`, else a server for any text that begins with
/// `rust-server`, else an error.
pub open spec fn spec_parse_user_agent(s: Seq<char>) -> Result<UserAgent, ParseUserAgentError> {
    if spec_has_prefix(s, client_prefix()) {
        Ok(UserAgent::Client)
    } else if spec_has_prefix(s, server_prefix()) {
        Ok(UserAgent::Server)
    } else {
        Err(ParseUserAgentError)
    }
}

/// The text by which a user agent is written on the wire.
pub open spec fn spec_user_agent_text(ua: UserAgent) -> Seq<char> {
    match ua {
        UserAgent::Client => "rust-client/0.0.1"@,
        UserAgent::Server => "rust-server/0.0.1"@,
    }
}

impl UserAgent {
    /// Reads a user agent from the start of a text.
    pub fn from_str(s: &str) -> (r: Result<UserAgent, ParseUserAgentError>)
        ensures
            r == spec_parse_user_agent(s@),
    {
        if has_prefix(s, "rust-client") {
            Ok(UserAgent::Client)
        } else if has_prefix(s, "rust-server") {
            Ok(UserAgent::Server)
        } else {
            Err(ParseUserAgentError)
        }
    }

    /// The text by which this user agent is written on the wire.
    pub fn as_str(&self) -> (r: &'static str)
        ensures
            r@ == spec_user_agent_text(*self),
    {
        match self {
            UserAgent::Client => "rust-client/0.0.1",
            UserAgent::Server => "rust-server/0.0.1",
        }
    }
}

impl core::str::FromStr for UserAgent {
    type Err = ParseUserAgentError;

    fn from_str(s: &str) -> (r: Result<UserAgent, ParseUserAgentError>)
        ensures
            r == spec_parse_user_agent(s@),
    {
        UserAgent::from_str(s)
    }
}

/// Reading back the text that a user agent is written as gives that user agent.
pub proof fn lemma_user_agent_text_round_trip(ua: UserAgent)
    ensures
        spec_parse_user_agent(spec_user_agent_text(ua)) == Ok::<UserAgent, ParseUserAgentError>(ua),
{
    reveal_strlit("rust-client");
    reveal_strlit("rust-server");
    reveal_strlit("rust-client/0.0.1");
    reveal_strlit("rust-server/0.0.1");
    let t = spec_user_agent_text(ua);
    match ua {
        UserAgent::Client => {
            assert(t.subrange(0, 11) =~= client_prefix());
        },
        UserAgent::Server => {
            assert(t.subrange(0, 11) =~= server_prefix());
            assert(t.subrange(0, 11) != client_prefix()) by {
                assert(t.subrange(0, 11)[5] != client_prefix()[5]);
            }
        },
    }
}

/// Any text that begins with `rust-client` reads as a client, any that
/// begins with `rust-server` as a server, whatever follows; every other text
/// is refused.
pub proof fn lemma_user_agent_by_prefix(s: Seq<char>)
    ensures
        s.len() >= 11 && s.subrange(0, 11) == "rust-client"@ ==> spec_parse_user_agent(s) == Ok::<
            UserAgent,
            ParseUserAgentError,
        >(UserAgent::Client),
        s.len() >= 11 && s.subrange(0, 11) == "rust-server"@ ==> spec_parse_user_agent(s) == Ok::<
            UserAgent,
            ParseUserAgentError,
        >(UserAgent::Server),
        !(s.len() >= 11 && s.subrange(0, 11) == "rust-client"@) && !(s.len() >= 11 && s.subrange(
            0,
            11,
        ) == "rust-server"@) ==> spec_parse_user_agent(s) == Err::<UserAgent, ParseUserAgentError>(
            ParseUserAgentError,
        ),
{
    reveal_strlit("rust-client");
    reveal_strlit("rust-server");
    if s.len() >= 11 && s.subrange(0, 11) == "rust-server"@ {
        assert(s.subrange(0, 11)[5] != "rust-client"@[5]);
    }
}

} // verus!
