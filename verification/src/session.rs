//! Who a connection is: the session it belongs to and the client it comes from.

use vstd::prelude::*;
use base64::alphabet::STANDARD;
use base64::engine::{GeneralPurpose, GeneralPurposeConfig};
use base64::Engine;
use rand::RngCore;
use vstd::string::StringSliceAdditionalSpecFns;

verus! {

/// Name of the cookie that carries the session id.
pub const SESSION_COOKIE: &'static str = "sessionid";

/// Number of random bytes a session id is made from.
pub const SESSION_BYTES: usize = 16;

/// Number of characters of a session id: the base64 text of sixteen bytes.
pub const SESSION_ID_LEN: usize = 24;

/// The base64 text of a byte string, standard alphabet, padded.
pub uninterp spec fn base64_standard(bytes: Seq<u8>) -> Seq<char>;

/// Length of the padded base64 text of `n` bytes: four characters for every
/// three bytes or part of them.
pub open spec fn spec_encoded_len(n: int) -> int {
    4 * ((n + 2) / 3)
}

/// Calls `Engine::encode` of the base64 crate on a `GeneralPurpose` engine
/// with the standard alphabet and the default configuration. The contract
/// names the text and gives its length, which the crate computes before it
/// encodes; the crate panics where that length does not fit a `usize`.
#[verifier::external_body]
fn encode_standard(bytes: &[u8]) -> (r: String)
    requires
        spec_encoded_len(bytes@.len() as int) <= usize::MAX,
    ensures
        r@ == base64_standard(bytes@),
        r@.len() == spec_encoded_len(bytes@.len() as int),
{
    GeneralPurpose::new(&STANDARD, GeneralPurposeConfig::default()).encode(bytes)
}

/// Calls `RngCore::fill_bytes` on `rand::thread_rng()` with a buffer of `len`
/// bytes. Nothing is claimed of the bytes but their number. The generator
/// panics if the system gives it no entropy to start from.
#[verifier::external_body]
fn random_bytes(len: usize) -> (r: Vec<u8>)
    ensures
        r@.len() == len,
{
    let mut buf = vec![0u8; len];
    rand::thread_rng().fill_bytes(&mut buf);
    buf
}

/// The session a request belongs to, and whether the response must set the
/// session cookie.
#[derive(Clone, Debug, PartialEq, Eq)]
pub struct SessionDecision {
    pub session_id: String,
    pub set_cookie: bool,
}

/// Who a connection is.
#[derive(Clone, Debug, PartialEq, Eq)]
pub struct Identity {
    pub session_id: String,
    pub client_id: String,
    /// Whether the session id is new and must be sent back as a cookie.
    pub set_cookie: bool,
}

/// The session id made from freshly drawn bytes.
pub fn session_id_from_bytes(bytes: &[u8]) -> (r: String)
    requires
        bytes@.len() == SESSION_BYTES,
    ensures
        r@ == base64_standard(bytes@),
        r@.len() == SESSION_ID_LEN,
{
    encode_standard(bytes)
}

/// The client id of a peer: the base64 text of its socket address. It is a
/// registry key, not a secret.
pub fn client_id_for(peer: &str) -> (r: String)
    requires
        spec_encoded_len(peer.spec_bytes().len() as int) <= usize::MAX,
    ensures
        r@ == base64_standard(peer.spec_bytes()),
{
    encode_standard(peer.as_bytes())
}

/// Decides the session of a request from the cookie it presented and from
/// bytes drawn for it: a presented session id is kept as it is and no cookie
/// is set; without one the id is made from the bytes and set as a cookie.
pub fn decide_session(cookie: Option<String>, fresh: &[u8]) -> (r: SessionDecision)
    requires
        fresh@.len() == SESSION_BYTES,
    ensures
        cookie matches Some(sid) ==> r.session_id == sid && !r.set_cookie,
        cookie is None ==> r.session_id@ == base64_standard(fresh@) && r.session_id@.len()
            == SESSION_ID_LEN && r.set_cookie,
{
    match cookie {
        Some(sid) => SessionDecision { session_id: sid, set_cookie: false },
        None => SessionDecision { session_id: session_id_from_bytes(fresh), set_cookie: true },
    }
}

/// The session of a request: the one its cookie names, or a new one made
/// from sixteen random bytes, drawn only when there is no cookie.
pub fn establish_session(cookie: Option<String>) -> (r: SessionDecision)
    ensures
        cookie matches Some(sid) ==> r.session_id == sid && !r.set_cookie,
        cookie is None ==> r.set_cookie && r.session_id@.len() == SESSION_ID_LEN && exists|
            bytes: Seq<u8>,
        |
            bytes.len() == SESSION_BYTES && r.session_id@ == #[trigger] base64_standard(bytes),
{
    match cookie {
        Some(sid) => SessionDecision { session_id: sid, set_cookie: false },
        None => {
            let sid_buf = random_bytes(SESSION_BYTES);
            decide_session(None, sid_buf.as_slice())
        },
    }
}

/// Identifies a connection that asks for an upgrade: its session as
/// [`establish_session`] decides it, its client id from the peer address.
pub fn identify_connection(cookie: Option<String>, peer: &str) -> (r: Identity)
    requires
        spec_encoded_len(peer.spec_bytes().len() as int) <= usize::MAX,
    ensures
        r.client_id@ == base64_standard(peer.spec_bytes()),
        cookie matches Some(sid) ==> r.session_id == sid && !r.set_cookie,
        cookie is None ==> r.set_cookie && r.session_id@.len() == SESSION_ID_LEN && exists|
            bytes: Seq<u8>,
        |
            bytes.len() == SESSION_BYTES && r.session_id@ == #[trigger] base64_standard(bytes),
{
    let session = establish_session(cookie);
    let client_id = client_id_for(peer);
    Identity { session_id: session.session_id, client_id, set_cookie: session.set_cookie }
}

} // verus!
