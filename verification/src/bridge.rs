//! The host bridge's two-call buffer protocol and its integrity checks.
//!
//! Every variable-length value crossing the host boundary (event body, event
//! query, identity strings) is transferred by a length probe followed by a
//! fill of a buffer of exactly that length. A mismatch between the probed
//! length and the reported fill count indicates buffer corruption and is a
//! fatal fault, never silently tolerated.

use vstd::prelude::*;
use vstd::utf8::decode_utf8;
use vstd::utf8::valid_utf8;

verus! {

/// A fatal environment fault: the hosting runtime broke its own contract.
/// None of these is recoverable; the activation terminates without side
/// effects.
#[derive(Clone, Copy, Debug, PartialEq, Eq, Structural)]
pub enum HostFault {
    /// The host returned an empty task identifier.
    MissingTaskId,
    /// An identity field read from the host is not valid UTF-8.
    InvalidIdentity,
    /// The host's fill step reported a count different from the probed
    /// length, or handed back a buffer of the wrong size.
    BufferIntegrity,
}

/// Completes one two-call transfer: `probed_len` is what the length probe
/// returned, and `filled` with `fill_count` are the buffer and count the
/// fill step handed back. Returns the transferred bytes exactly when the
/// counts agree; any mismatch is a fatal integrity fault.
pub fn retrieve_fixed_buffer(probed_len: usize, filled: Vec<u8>, fill_count: usize) -> (r: Result<
    Vec<u8>,
    HostFault,
>)
    ensures
        r is Ok <==> (fill_count == probed_len && filled@.len() == probed_len),
        r matches Ok(b) ==> b == filled,
        r matches Err(f) ==> f == HostFault::BufferIntegrity,
{
    if fill_count == probed_len && filled.len() == probed_len {
        Ok(filled)
    } else {
        Err(HostFault::BufferIntegrity)
    }
}

/// Recovers the event body stored at registration time from one two-call
/// transfer: the bytes the fill step wrote, verbatim, or a fatal integrity
/// fault on any count mismatch.
pub fn message_from_request(probed_len: usize, filled: Vec<u8>, fill_count: usize) -> (r: Result<
    Vec<u8>,
    HostFault,
>)
    ensures
        r is Ok <==> (fill_count == probed_len && filled@.len() == probed_len),
        r matches Ok(b) ==> b == filled,
        r matches Err(f) ==> f == HostFault::BufferIntegrity,
{
    retrieve_fixed_buffer(probed_len, filled, fill_count)
}

/// Relies on `String::from_utf8`: returns the decoded string exactly when
/// `bytes` is valid UTF-8, and nothing otherwise.
#[verifier::external_body]
pub(crate) fn utf8_to_string(bytes: Vec<u8>) -> (r: Option<String>)
    ensures
        r is Some <==> valid_utf8(bytes@),
        r matches Some(s) ==> s@ == decode_utf8(bytes@),
{
    match String::from_utf8(bytes) {
        Ok(s) => Some(s),
        Err(_) => None,
    }
}

/// Decodes an identity field (owner id, task id) read from the host.
/// Malformed UTF-8 in an identity field is a fatal environment fault.
pub fn decode_identity(bytes: Vec<u8>) -> (r: Result<String, HostFault>)
    ensures
        r is Ok <==> valid_utf8(bytes@),
        r matches Ok(s) ==> s@ == decode_utf8(bytes@),
        r matches Err(f) ==> f == HostFault::InvalidIdentity,
{
    match utf8_to_string(bytes) {
        Some(s) => Ok(s),
        None => Err(HostFault::InvalidIdentity),
    }
}

} // verus!
