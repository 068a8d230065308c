//! The client side of a transfer: push one local file to one peer.
//!
//! The client derives a filename hint from the final component of the local
//! path, builds the peer's upload URL, and classifies what came back. The
//! actual file read and the HTTP exchange are I/O and stay outside this
//! crate; they hand these functions plain values.

use vstd::prelude::*;
use crate::filename::clone_bytes;
use crate::filename::lemma_sanitize_stable;
use crate::filename::lemma_unknown_name_safe;
use crate::filename::sanitize_file_name;
use crate::filename::sanitize_spec;
use crate::filename::unknown_default;
use crate::filename::unknown_name;

verus! {

/// The decimal digits of `n`, most significant first, as ASCII bytes.
pub open spec fn decimal_rep(n: nat) -> Seq<u8>
    decreases n,
{
    if n < 10 {
        seq![(48 + n) as u8]
    } else {
        decimal_rep(n / 10).push((48 + n % 10) as u8)
    }
}

/// The bytes of `http://`.
pub open spec fn http_prefix() -> Seq<u8> {
    seq![104u8, 116, 116, 112, 58, 47, 47]
}

/// The bytes of `/upload`, the single endpoint of the wire contract.
pub open spec fn upload_route() -> Seq<u8> {
    seq![47u8, 117, 112, 108, 111, 97, 100]
}

/// The upload URL for a host and port:
/// `http://` ++ host ++ `:` ++ port digits ++ `/upload`.
pub open spec fn upload_url_spec(host: Seq<u8>, port: u16) -> Seq<u8> {
    http_prefix() + host + seq![58u8] + decimal_rep(port as nat) + upload_route()
}

/// Why a client operation failed, each variant distinguishable to the
/// caller: the local file could not be read, the network exchange itself
/// failed, or the peer answered with a non-success status.
#[derive(Clone, Copy, Debug, PartialEq, Eq, Structural)]
pub enum ClientError {
    LocalRead,
    Network,
    PeerRejected(u16),
}

impl ClientError {
    /// A short human-readable account of the failure, for the caller that
    /// triggered the transfer.
    pub fn describe(&self) -> (r: &'static str)
        ensures
            self is LocalRead ==> r@ == "the local file could not be read"@,
            self is Network ==> r@ == "the peer could not be reached"@,
            self matches ClientError::PeerRejected(s) ==> r@ == "the peer refused the upload"@,
    {
        match self {
            ClientError::LocalRead => "the local file could not be read",
            ClientError::Network => "the peer could not be reached",
            ClientError::PeerRejected(s) => "the peer refused the upload",
        }
    }
}

/// One outbound upload request, ready for the network layer to send.
#[derive(Debug)]
pub struct SendRequest {
    /// The peer's upload URL.
    pub url: Vec<u8>,
    /// The sanitized filename hint, carried in the `X-File-Name` header.
    pub file_name: Vec<u8>,
    /// The full payload: the local file's bytes.
    pub body: Vec<u8>,
}

/// What the client does next: abort with an error before any network
/// activity, or dispatch exactly one request.
#[derive(Debug)]
pub enum SendAction {
    Abort(ClientError),
    Dispatch(SendRequest),
}

/// The decimal digits of `n` as ASCII bytes.
pub fn u16_decimal(n: u16) -> (r: Vec<u8>)
    ensures
        r@ == decimal_rep(n as nat),
    decreases n,
{
    if n < 10 {
        let mut r: Vec<u8> = Vec::new();
        r.push(48 + n as u8);
        proof {
            assert(r@ =~= decimal_rep(n as nat));
        }
        r
    } else {
        let mut r = u16_decimal(n / 10);
        r.push(48 + (n % 10) as u8);
        r
    }
}

/// The upload URL for `host` and `port`.
pub fn upload_url(host: &Vec<u8>, port: u16) -> (r: Vec<u8>)
    ensures
        r@ == upload_url_spec(host@, port),
{
    let mut r: Vec<u8> = Vec::new();
    r.push(104);
    r.push(116);
    r.push(116);
    r.push(112);
    r.push(58);
    r.push(47);
    r.push(47);
    let mut h = clone_bytes(host);
    r.append(&mut h);
    r.push(58);
    let mut d = u16_decimal(port);
    r.append(&mut d);
    let mut route: Vec<u8> = Vec::new();
    route.push(47);
    route.push(117);
    route.push(112);
    route.push(108);
    route.push(111);
    route.push(97);
    route.push(100);
    r.append(&mut route);
    proof {
        assert(r@ =~= upload_url_spec(host@, port));
    }
    r
}

/// The client's next step, given the local path, the target host, the port,
/// and the outcome of reading the file (`None`: the read failed). A failed
/// read aborts with a local-read error and dispatches nothing; a successful
/// read dispatches the full payload under the path's sanitized final
/// component, to the host's upload URL.
pub fn plan_send(path: &Vec<u8>, host: &Vec<u8>, port: u16, read_result: Option<Vec<u8>>) -> (r:
    SendAction)
    ensures
        match r {
            SendAction::Abort(e) => read_result is None && e == ClientError::LocalRead,
            SendAction::Dispatch(req) => {
                &&& read_result matches Some(b) && req.body@ == b@
                &&& req.url@ == upload_url_spec(host@, port)
                &&& req.file_name@ == sanitize_spec(path@, unknown_name())
            },
        },
{
    match read_result {
        None => SendAction::Abort(ClientError::LocalRead),
        Some(body) => {
            let default = unknown_default();
            let file_name = sanitize_file_name(path, &default);
            let url = upload_url(host, port);
            SendAction::Dispatch(SendRequest { url, file_name, body })
        },
    }
}

/// The filename round trip: the hint a client derives from a local path is
/// exactly the name a listener stores that upload under, whatever default
/// name the listener is configured with — so a sent file appears at the
/// receiver under the sender's own base name.
pub proof fn lemma_round_trip_name(path: Seq<u8>, listener_default: Seq<u8>)
    ensures
        sanitize_spec(sanitize_spec(path, unknown_name()), listener_default) == sanitize_spec(
            path,
            unknown_name(),
        ),
{
    lemma_unknown_name_safe();
    lemma_sanitize_stable(path, unknown_name(), listener_default);
}

/// A success status of the wire contract: the 2xx class.
pub open spec fn is_success_status(s: u16) -> bool {
    200 <= s < 300
}

/// Whether `s` is a success status.
pub fn status_is_success(s: u16) -> (r: bool)
    ensures
        r == is_success_status(s),
{
    200 <= s && s < 300
}

/// The client's outcome, given what the exchange produced: `None` where the
/// connection itself failed, `Some(status)` where the peer answered. Success
/// exactly on a 2xx answer; a peer answer outside 2xx carries its status
/// back to the caller; a failed exchange is a network error.
pub fn classify_response(status: Option<u16>) -> (r: Result<(), ClientError>)
    ensures
        match r {
            Ok(u) => status matches Some(s) && is_success_status(s),
            Err(ClientError::Network) => status is None,
            Err(ClientError::PeerRejected(s)) => status == Some(s) && !is_success_status(s),
            Err(ClientError::LocalRead) => false,
        },
{
    match status {
        None => Err(ClientError::Network),
        Some(s) => {
            if 200 <= s && s < 300 {
                Ok(())
            } else {
                Err(ClientError::PeerRejected(s))
            }
        },
    }
}

} // verus!
