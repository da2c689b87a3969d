//! The coordination-protocol side: the wire DTOs, classification of
//! one HTTP exchange into success or a lifecycle error, and the exact
//! URL texts the protocol uses.
//!
//! The transport itself (TLS, body collection, JSON decoding into the
//! DTOs) lives outside the library; it hands in the observed status
//! and the decoded body, and takes back the classified outcome.

use vstd::prelude::*;
use vstd::string::*;

use crate::errors::DarkError;

verus! {

/// Body of `POST /join`: this host's public key and the admission code
/// of the invite.
#[derive(Debug)]
pub struct JoinRequest {
    pub pubkey: String,
    pub invite: String,
}

/// Answer of a successful join: the tunnel address (CIDR notation)
/// assigned to this host, and the server's own public key.
#[derive(Debug)]
pub struct JoinResponse {
    pub address: String,
    pub pubkey: String,
}

/// Answer of one status poll: an opaque serialized peer-stanza
/// fragment. The blob is never parsed here, only forwarded into the
/// interface configuration.
#[derive(Debug)]
pub struct StatusResponse {
    pub peers: String,
}

/// An HTTP status is a success exactly when it lies in the 2xx range.
pub open spec fn is_success_status(status: u16) -> bool {
    200 <= status < 300
}

/// Classify one coordination-protocol exchange.
///
/// `exchange` is `None` when the transport failed before any HTTP
/// status was received; otherwise it is the received status, paired
/// with the decoded body where the body decoded as an `R` (the decoded
/// part is ignored on a non-success status, which fails before any
/// body processing).
pub fn classify_response<R>(exchange: Option<(u16, Option<R>)>) -> (r: Result<R, DarkError>)
    ensures
        exchange is None ==> r == Err::<R, DarkError>(DarkError::NetworkError),
        exchange matches Some((status, decoded)) ==> if !is_success_status(status) {
            r == Err::<R, DarkError>(DarkError::ServerError(status))
        } else {
            match decoded {
                Some(v) => r == Ok::<R, DarkError>(v),
                None => r == Err::<R, DarkError>(DarkError::DeserializationError),
            }
        },
{
    match exchange {
        None => Err(DarkError::NetworkError),
        Some((status, decoded)) => {
            if !(200 <= status && status < 300) {
                Err(DarkError::ServerError(status))
            } else {
                match decoded {
                    Some(v) => Ok(v),
                    None => Err(DarkError::DeserializationError),
                }
            }
        },
    }
}

/// The join endpoint of the coordination server named by an invite.
pub open spec fn join_url_view(host: Seq<char>, port: Seq<char>) -> Seq<char> {
    "https://"@ + host + ":"@ + port + "/join"@
}

/// Build the URL of the coordination server's join endpoint.
pub fn join_url(host: &str, port: &str) -> (r: String)
    ensures
        r@ == join_url_view(host@, port@),
{
    let mut r = String::from_str("https://");
    r.append(host);
    r.append(":");
    r.append(port);
    r.append("/join");
    r
}

/// Build the URL of the status endpoint: once the tunnel is up, peer
/// updates are polled from a well-known loop-back address exposed by
/// the tunnel itself, not from the original join server.
pub fn status_url() -> (r: String)
    ensures
        r@ == "http://10.13.37.1:1337/status"@,
{
    String::from_str("http://10.13.37.1:1337/status")
}

} // verus!
