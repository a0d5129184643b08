//! One guest activation, end to end: resolve the phase, then either prepare
//! the single registration request or deliver the triggered payload to the
//! handler — never both, never neither.

use crate::bridge::HostFault;
use crate::bridge::retrieve_fixed_buffer;
use crate::client::RegistrationRequest;
use crate::client::listen_to_request;
use crate::client::opt_str_view;
use crate::client::registration_url;
use crate::mode::ExecutionMode;
use crate::mode::mode_of;
use crate::mode::resolve_mode;
use vstd::prelude::*;
use vstd::string::StringSliceAdditionalSpecFns;
use vstd::utf8::decode_utf8;
use vstd::utf8::valid_utf8;

verus! {

/// What one activation decided: the outside work that remains, if any.
pub enum InvocationStep {
    /// The activation is the deploy-time call: this request, and nothing
    /// else, is to be POSTed to the scheduler.
    SendRegistration(RegistrationRequest),
    /// A scheduled trigger fired: the stored payload has been handed to the
    /// handler, exactly once, and no registration request is to be sent.
    Dispatched,
}

/// Delivers a retrieved payload to the handler: the handler is invoked
/// exactly once if and only if a payload is present.
pub fn dispatch_payload<F: FnOnce(Vec<u8>)>(payload: Option<Vec<u8>>, handler: F) -> (invoked:
    bool)
    requires
        payload matches Some(b) ==> call_requires(handler, (b,)),
    ensures
        invoked <==> payload is Some,
        payload matches Some(b) ==> call_ensures(handler, (b,), ()),
{
    match payload {
        Some(b) => {
            handler(b);
            true
        },
        None => false,
    }
}

/// The triggered entry point: recovers the stored event body from one
/// two-call transfer and hands it to the handler, exactly once. Any count
/// mismatch is a fatal integrity fault and the handler is never invoked.
pub fn schedule_handler<F: FnOnce(Vec<u8>)>(
    probed_len: usize,
    filled: Vec<u8>,
    fill_count: usize,
    handler: F,
) -> (r: Result<(), HostFault>)
    requires
        call_requires(handler, (filled,)),
    ensures
        r is Ok <==> (fill_count == probed_len && filled@.len() == probed_len),
        r is Ok ==> call_ensures(handler, (filled,), ()),
        r matches Err(f) ==> f == HostFault::BufferIntegrity,
{
    match retrieve_fixed_buffer(probed_len, filled, fill_count) {
        Ok(b) => {
            handler(b);
            Ok(())
        },
        Err(f) => Err(f),
    }
}

/// One whole activation of a scheduled task. The host's mode flag selects
/// the phase: nonzero asks the guest to register, zero means a trigger
/// fired. On the registering path the result carries the one registration
/// request to send, built from the identity bytes, the cron expression and
/// `body`; no handler runs. On the triggered path the event body recovered
/// from the two-call transfer is handed to `handler`, exactly once; no
/// request is sent. Exactly one of the two happens whenever the activation
/// does not end in a fatal host fault.
pub fn schedule_cron_job<F: FnOnce(Vec<u8>)>(
    mode_flag: i32,
    base: &str,
    owner_bytes: Vec<u8>,
    task_bytes: Vec<u8>,
    cron: &str,
    body: Vec<u8>,
    event_probe: usize,
    event_filled: Vec<u8>,
    event_fill_count: usize,
    handler: F,
) -> (r: Result<InvocationStep, HostFault>)
    requires
        mode_of(mode_flag) is Triggered ==> call_requires(handler, (event_filled,)),
    ensures
        r matches Ok(s) ==> ((s is SendRegistration) <==> mode_of(mode_flag) is Registering),
        mode_of(mode_flag) is Registering ==> {
            &&& r is Ok <==> (valid_utf8(owner_bytes@) && task_bytes@.len() > 0 && valid_utf8(
                task_bytes@,
            ))
            &&& (r matches Ok(s) ==> s matches InvocationStep::SendRegistration(req) && req.url@
                == registration_url(
                base@,
                decode_utf8(owner_bytes@),
                decode_utf8(task_bytes@),
                cron.spec_bytes(),
                opt_str_view(None),
            ) && req.body == body)
            &&& (!valid_utf8(owner_bytes@) ==> (r matches Err(f) && f
                == HostFault::InvalidIdentity))
            &&& (valid_utf8(owner_bytes@) && task_bytes@.len() == 0 ==> (r matches Err(f) && f
                == HostFault::MissingTaskId))
            &&& (valid_utf8(owner_bytes@) && task_bytes@.len() > 0 && !valid_utf8(task_bytes@)
                ==> (r matches Err(f) && f == HostFault::InvalidIdentity))
        },
        mode_of(mode_flag) is Triggered ==> {
            &&& r is Ok <==> (event_fill_count == event_probe && event_filled@.len()
                == event_probe)
            &&& (r is Ok ==> (r matches Ok(s) && s is Dispatched && call_ensures(
                handler,
                (event_filled,),
                (),
            )))
            &&& (r matches Err(f) ==> f == HostFault::BufferIntegrity)
        },
{
    match resolve_mode(mode_flag) {
        ExecutionMode::Registering => {
            match listen_to_request(base, owner_bytes, task_bytes, cron, body, None) {
                Ok(req) => Ok(InvocationStep::SendRegistration(req)),
                Err(f) => Err(f),
            }
        },
        ExecutionMode::Triggered => {
            match schedule_handler(event_probe, event_filled, event_fill_count, handler) {
                Ok(()) => Ok(InvocationStep::Dispatched),
                Err(f) => Err(f),
            }
        },
    }
}

} // verus!
