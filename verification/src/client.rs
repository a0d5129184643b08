//! Building the registration request and classifying the scheduler's answer.
//!
//! Registration is a single POST to `{base}/{owner}/{task}/listen` with the
//! cron expression percent-encoded in the query string and the caller's body
//! as the literal request payload. The response is classified strictly by
//! HTTP status class: 2xx yields a confirmation message for the success
//! sink, anything else yields the raw response body for the error sink.

use crate::bridge::HostFault;
use crate::bridge::decode_identity;
use vstd::prelude::*;
use vstd::string::StringExecFns;
use vstd::string::StringSliceAdditionalSpecFns;
use vstd::utf8::decode_utf8;
use vstd::utf8::valid_utf8;

verus! {

/// The bytes that percent-encoding leaves unchanged: ASCII alphanumerics
/// and `-`, `.`, `_`, `~`.
pub open spec fn is_url_unreserved(b: u8) -> bool {
    ||| 48 <= b <= 57  // '0' ..= '9'
    ||| 65 <= b <= 90  // 'A' ..= 'Z'
    ||| 97 <= b <= 122  // 'a' ..= 'z'
    ||| b == 45  // '-'
    ||| b == 46  // '.'
    ||| b == 95  // '_'
    ||| b == 126  // '~'
}

/// The upper-case hexadecimal digit for a value below 16.
pub open spec fn upper_hex_digit(d: u8) -> char
    recommends
        d < 16,
{
    if d < 10 {
        ((48 + d) as u8) as char
    } else {
        ((55 + d) as u8) as char  // 'A' is 65, so 55 + 10
    }
}

/// How percent-encoding renders one byte: unreserved bytes stand for
/// themselves, every other byte becomes `%` and two upper-case hex digits.
pub open spec fn url_encoded_byte(b: u8) -> Seq<char> {
    if is_url_unreserved(b) {
        seq![b as char]
    } else {
        seq!['%', upper_hex_digit(b / 16), upper_hex_digit(b % 16)]
    }
}

/// Percent-encoding of a byte sequence, byte for byte.
pub open spec fn url_encoded(bytes: Seq<u8>) -> Seq<char>
    decreases bytes.len(),
{
    if bytes.len() == 0 {
        Seq::empty()
    } else {
        url_encoded_byte(bytes[0]) + url_encoded(bytes.drop_first())
    }
}

/// Relies on `urlencoding::encode`: percent-encodes every byte of the UTF-8
/// form of `s` except ASCII alphanumerics and `-`, `.`, `_`, `~`, writing
/// upper-case hex digits.
#[verifier::external_body]
fn url_encode(s: &str) -> (r: String)
    ensures
        r@ == url_encoded(s.spec_bytes()),
{
    urlencoding::encode(s).into_owned()
}

/// The view of an optional string slice.
pub open spec fn opt_str_view(s: Option<&str>) -> Option<Seq<char>> {
    match s {
        Some(h) => Some(h@),
        None => None,
    }
}

/// The registration target: `{base}/{owner}/{task}/listen` with the
/// percent-encoded cron expression as the `cron` query parameter and, when a
/// named trigger entry point is used, a `handler_fn` parameter after it.
pub open spec fn registration_url(
    base: Seq<char>,
    owner: Seq<char>,
    task: Seq<char>,
    cron_bytes: Seq<u8>,
    handler_fn: Option<Seq<char>>,
) -> Seq<char> {
    let head = base + "/"@ + owner + "/"@ + task + "/listen?cron="@ + url_encoded(cron_bytes);
    match handler_fn {
        Some(h) => head + "&handler_fn="@ + h,
        None => head,
    }
}

/// Builds the registration URL from the configured base address, the
/// identity segments (trusted ASCII tokens from the host) and the cron
/// expression, which is the only value requiring percent-encoding.
pub fn build_registration_url(
    base: &str,
    owner: &str,
    task: &str,
    cron: &str,
    handler_fn: Option<&str>,
) -> (url: String)
    ensures
        url@ == registration_url(base@, owner@, task@, cron.spec_bytes(), opt_str_view(handler_fn)),
{
    let mut url = String::new();
    url.append(base);
    url.append("/");
    url.append(owner);
    url.append("/");
    url.append(task);
    url.append("/listen?cron=");
    let encoded = url_encode(cron);
    url.append(encoded.as_str());
    match handler_fn {
        Some(h) => {
            url.append("&handler_fn=");
            url.append(h);
            proof {
                assert(url@ =~= registration_url(
                    base@,
                    owner@,
                    task@,
                    cron.spec_bytes(),
                    opt_str_view(handler_fn),
                ));
            }
        },
        None => {
            proof {
                assert(url@ =~= registration_url(
                    base@,
                    owner@,
                    task@,
                    cron.spec_bytes(),
                    opt_str_view(handler_fn),
                ));
            }
        },
    }
    url
}

/// One outbound registration request, ready to send: the target URL and the
/// caller's body as the literal request payload, not wrapped, not
/// re-encoded.
pub struct RegistrationRequest {
    /// Where to POST.
    pub url: String,
    /// The raw request payload.
    pub body: Vec<u8>,
}

/// Prepares the single registration POST from the identity bytes the host
/// handed over. Identity faults come in the order the fields are read: a
/// malformed owner id first, then a missing task id, then a malformed task
/// id. On success the request carries the exact URL for this identity and
/// cron expression, and `body` verbatim.
pub fn listen_to_request(
    base: &str,
    owner_bytes: Vec<u8>,
    task_bytes: Vec<u8>,
    cron: &str,
    body: Vec<u8>,
    handler_fn: Option<&str>,
) -> (r: Result<RegistrationRequest, HostFault>)
    ensures
        r is Ok <==> (valid_utf8(owner_bytes@) && task_bytes@.len() > 0 && valid_utf8(
            task_bytes@,
        )),
        r matches Ok(req) ==> req.url@ == registration_url(
            base@,
            decode_utf8(owner_bytes@),
            decode_utf8(task_bytes@),
            cron.spec_bytes(),
            opt_str_view(handler_fn),
        ) && req.body == body,
        !valid_utf8(owner_bytes@) ==> (r matches Err(f) && f == HostFault::InvalidIdentity),
        valid_utf8(owner_bytes@) && task_bytes@.len() == 0 ==> (r matches Err(f) && f
            == HostFault::MissingTaskId),
        valid_utf8(owner_bytes@) && task_bytes@.len() > 0 && !valid_utf8(task_bytes@) ==> (
        r matches Err(f) && f == HostFault::InvalidIdentity),
{
    let owner = match decode_identity(owner_bytes) {
        Ok(s) => s,
        Err(f) => {
            return Err(f);
        },
    };
    if task_bytes.len() == 0 {
        return Err(HostFault::MissingTaskId);
    }
    let task = match decode_identity(task_bytes) {
        Ok(s) => s,
        Err(f) => {
            return Err(f);
        },
    };
    let url = build_registration_url(base, owner.as_str(), task.as_str(), cron, handler_fn);
    Ok(RegistrationRequest { url, body })
}

/// Whether an HTTP status is in the success class.
pub open spec fn is_success_status(status: u16) -> bool {
    200 <= status <= 299
}

/// The confirmation routed to the success sink: it names the registering
/// task and quotes the registered cron expression for operator visibility.
pub open spec fn success_message(task_name: Seq<char>, cron: Seq<char>) -> Seq<char> {
    "["@ + task_name + "] Your flow is scheduled at `"@ + cron + "`."@
}

/// How one registration attempt ended, consumed by routing to exactly one
/// of the two host sinks.
pub enum RegistrationOutcome {
    /// The scheduler accepted the registration: a human-readable
    /// confirmation for the success sink.
    Success(String),
    /// The scheduler refused: the raw response body, as a diagnostic for
    /// the error sink.
    Failure(Vec<u8>),
}

/// Classifies the scheduler's response strictly by status class: 2xx yields
/// the confirmation message, anything else yields the response body bytes,
/// exact and unmodified.
pub fn classify_response(task_name: &str, cron: &str, status: u16, response_body: Vec<u8>) -> (o:
    RegistrationOutcome)
    ensures
        is_success_status(status) ==> (o matches RegistrationOutcome::Success(m) && m@
            == success_message(task_name@, cron@)),
        !is_success_status(status) ==> (o matches RegistrationOutcome::Failure(b) && b
            == response_body),
{
    if 200 <= status && status <= 299 {
        let mut m = String::new();
        m.append("[");
        m.append(task_name);
        m.append("] Your flow is scheduled at `");
        m.append(cron);
        m.append("`.");
        proof {
            assert(m@ =~= success_message(task_name@, cron@));
        }
        RegistrationOutcome::Success(m)
    } else {
        RegistrationOutcome::Failure(response_body)
    }
}

/// The success confirmation always contains the registered cron expression,
/// verbatim, as a contiguous run.
pub proof fn lemma_success_message_contains_cron(task_name: Seq<char>, cron: Seq<char>)
    ensures
        exists|i: int|
            0 <= i && i + cron.len() <= success_message(task_name, cron).len()
                && #[trigger] success_message(task_name, cron).subrange(i, i + cron.len()) == cron,
{
    let msg = success_message(task_name, cron);
    let i: int = ("["@.len() + task_name.len() + "] Your flow is scheduled at `"@.len()) as int;
    assert(msg.subrange(i, i + cron.len()) =~= cron);
}

} // verus!
