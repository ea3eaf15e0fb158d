use std::str::FromStr;
use whoami::{ParseUserAgentError, Request, Response, UserAgent};

#[test]
fn client_text_reads_as_client() {
    assert_eq!(UserAgent::from_str("rust-client/0.0.1"), Ok(UserAgent::Client));
    assert_eq!(UserAgent::from_str("rust-client"), Ok(UserAgent::Client));
}

#[test]
fn server_text_reads_as_server() {
    assert_eq!(UserAgent::from_str("rust-server/0.0.1"), Ok(UserAgent::Server));
    assert_eq!(UserAgent::from_str("rust-server-anything"), Ok(UserAgent::Server));
}

#[test]
fn unknown_text_is_refused() {
    assert_eq!(UserAgent::from_str(""), Err(ParseUserAgentError));
    assert_eq!(UserAgent::from_str("rust-clien"), Err(ParseUserAgentError));
    assert_eq!(UserAgent::from_str("go-client/1.0"), Err(ParseUserAgentError));
    assert_eq!(UserAgent::from_str(" rust-client"), Err(ParseUserAgentError));
}

#[test]
fn std_from_str_agrees() {
    let ua: UserAgent = "rust-server/0.0.1".parse().unwrap();
    assert_eq!(ua, UserAgent::Server);
    assert!("nobody".parse::<UserAgent>().is_err());
}

#[test]
fn wire_text_of_each_agent() {
    assert_eq!(UserAgent::Client.as_str(), "rust-client/0.0.1");
    assert_eq!(UserAgent::Server.as_str(), "rust-server/0.0.1");
}

#[test]
fn wire_text_reads_back() {
    for ua in [UserAgent::Client, UserAgent::Server] {
        assert_eq!(UserAgent::from_str(ua.as_str()), Ok(ua));
    }
}

#[test]
fn parse_error_message() {
    assert_eq!(ParseUserAgentError.message(), "Invalid UserAgent string");
}

#[test]
fn default_request_is_from_a_client() {
    assert_eq!(Request::default().user_agent, UserAgent::Client);
}

#[test]
fn new_response_is_from_a_server() {
    let r = Response::new("Ada".to_string(), Some("Lovelace".to_string()));
    assert_eq!(r.user_agent(), UserAgent::Server);
    assert_eq!(r.f_name(), "Ada");
    assert_eq!(r.l_name(), Some("Lovelace"));
    let r = Response::new("Plato".to_string(), None);
    assert_eq!(r.f_name(), "Plato");
    assert_eq!(r.l_name(), None);
}

#[test]
fn response_from_parts_keeps_every_field() {
    let r = Response::from_parts(UserAgent::Client, "A".to_string(), None);
    assert_eq!(r.user_agent(), UserAgent::Client);
    assert_eq!(r.f_name(), "A");
    assert_eq!(r.l_name(), None);
}
