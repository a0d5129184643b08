//! The out-of-band event lookup: a triggered activation that learns which
//! event fired from the host's event query, then fetches the stored event
//! from the scheduler by a secondary GET.

use crate::bridge::HostFault;
use crate::bridge::retrieve_fixed_buffer;
use crate::client::is_success_status;
use vstd::prelude::*;
use vstd::string::StringExecFns;
use vstd::utf8::decode_utf8;
use vstd::utf8::valid_utf8;

verus! {

/// The string value stored under `key` in the JSON object that `bytes`
/// spells: nothing when `bytes` is not a JSON object, the key is absent, or
/// the value there is not a JSON string.
pub uninterp spec fn json_string_at(bytes: Seq<u8>, key: Seq<char>) -> Option<Seq<char>>;

/// Relies on `serde_json::from_slice` and `serde_json::Value::as_str`:
/// parses `bytes` as a JSON object of string keys and returns the string
/// value stored under `key`, if there is one. The result depends on `bytes`
/// and `key` alone.
#[verifier::external_body]
fn json_lookup_string(bytes: &Vec<u8>, key: &str) -> (r: Option<String>)
    ensures
        r is Some <==> json_string_at(bytes@, key@) is Some,
        r matches Some(s) ==> (json_string_at(bytes@, key@) matches Some(k) && s@ == k),
{
    let map: std::collections::HashMap<String, serde_json::Value> = match serde_json::from_slice(
        bytes.as_slice(),
    ) {
        Ok(m) => m,
        Err(_) => return None,
    };
    match map.get(key) {
        Some(v) => match v.as_str() {
            Some(s) => Some(s.to_string()),
            None => None,
        },
        None => None,
    }
}

/// The scheduler address that serves the event stored under a key.
pub open spec fn event_url(base: Seq<char>, key: Seq<char>) -> Seq<char> {
    base + "/event/"@ + key
}

/// Builds the GET target for the event stored under `key`.
pub fn build_event_url(base: &str, key: &str) -> (url: String)
    ensures
        url@ == event_url(base@, key@),
{
    let mut url = String::new();
    url.append(base);
    url.append("/event/");
    url.append(key);
    proof {
        assert(url@ =~= event_url(base@, key@));
    }
    url
}

/// Decides what a triggered activation with an out-of-band event query must
/// fetch. `probed_len`, `filled` and `fill_count` are the host's two-call
/// transfer of the event query; a count mismatch is a fatal integrity
/// fault. Otherwise the query is read as a JSON object, and the value under
/// its `l_key` entry names the event to fetch from the scheduler: the
/// result carries the GET target for it, or nothing when the query names no
/// event.
pub fn request(base: &str, probed_len: usize, filled: Vec<u8>, fill_count: usize) -> (r: Result<
    Option<String>,
    HostFault,
>)
    ensures
        r is Ok <==> (fill_count == probed_len && filled@.len() == probed_len),
        r matches Err(f) ==> f == HostFault::BufferIntegrity,
        r matches Ok(u) ==> match u {
            Some(url) => json_string_at(filled@, "l_key"@) matches Some(k) && url@ == event_url(
                base@,
                k,
            ),
            None => json_string_at(filled@, "l_key"@) is None,
        },
{
    let query = match retrieve_fixed_buffer(probed_len, filled, fill_count) {
        Ok(q) => q,
        Err(f) => {
            return Err(f);
        },
    };
    match json_lookup_string(&query, "l_key") {
        Some(key) => Ok(Some(build_event_url(base, key.as_str()))),
        None => Ok(None),
    }
}

/// Decides what a fetched event is worth forwarding to the host: the
/// response body, decoded, exactly when the scheduler answered in the
/// success class and the body is valid UTF-8; nothing otherwise.
pub fn forward_event(status: u16, body: Vec<u8>) -> (r: Option<String>)
    ensures
        r is Some <==> (is_success_status(status) && valid_utf8(body@)),
        r matches Some(s) ==> s@ == decode_utf8(body@),
{
    if 200 <= status && status <= 299 {
        crate::bridge::utf8_to_string(body)
    } else {
        None
    }
}

} // verus!
