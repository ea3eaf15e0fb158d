//! Verified core of a libp2p "whoami" service: the user-agent text format,
//! the request and response messages, the receive buffer and decisions of a
//! stream exchange, and the translation of a URL into a multiaddress.

mod address;
mod exchange;
mod message;
mod text;
mod user_agent;

pub use text::{has_prefix, opt_text, same_text, spec_has_prefix};
pub use user_agent::{
    client_prefix, lemma_user_agent_by_prefix, lemma_user_agent_text_round_trip, server_prefix, spec_parse_user_agent,
    spec_user_agent_text, ParseUserAgentError, UserAgent,
};
pub use address::{
    address_from_url, extract_peer_id, from_url, lemma_address_shape, lemma_lossy_agrees_with_strict,
    lemma_lossy_never_loses_information, lemma_p2p_path_gives_peer_id,
    lemma_wrong_scheme_is_refused, lemma_bad_url_is_refused, lemma_strict_refuses_extras,
    lemma_peer_url_gives_full_address, AddrComponent, AddrPart, FromUrlErr, IpValue,
    UrlParts, UrlView,
};
pub use exchange::{
    encoding_failed, lemma_client_finishes_on_first_decode, lemma_client_stops_at_end,
    lemma_server_replies_at_end, no_data_received, server_step, spec_client_step,
    spec_server_step, undecodable_response, ClientStep, ExchangeError, FailureKind,
    FailureReason, ReceiveBuffer, ServerStep,
};
pub use message::{Request, Response, ResponseView};
