use schedule_flows::ExecutionMode;
use schedule_flows::HostFault;
use schedule_flows::InvocationStep;
use schedule_flows::RegistrationOutcome;
use schedule_flows::build_event_url;
use schedule_flows::build_registration_url;
use schedule_flows::classify_response;
use schedule_flows::dispatch_payload;
use schedule_flows::forward_event;
use schedule_flows::listen_to_request;
use schedule_flows::message_from_request;
use schedule_flows::request;
use schedule_flows::resolve_mode;
use schedule_flows::retrieve_fixed_buffer;
use schedule_flows::schedule_cron_job;
use schedule_flows::schedule_handler;

const BASE: &str = "https://schedule-flows-extension.vercel.app/api";

#[test]
fn mode_zero_is_triggered() {
    assert_eq!(resolve_mode(0), ExecutionMode::Triggered);
}

#[test]
fn mode_nonzero_is_registering() {
    assert_eq!(resolve_mode(1), ExecutionMode::Registering);
    assert_eq!(resolve_mode(-7), ExecutionMode::Registering);
    assert_eq!(resolve_mode(i32::MAX), ExecutionMode::Registering);
    assert_eq!(resolve_mode(i32::MIN), ExecutionMode::Registering);
}

#[test]
fn retrieve_returns_fill_bytes_on_matching_counts() {
    let r = retrieve_fixed_buffer(3, vec![10, 20, 30], 3);
    assert_eq!(r, Ok(vec![10, 20, 30]));
}

#[test]
fn retrieve_empty_transfer() {
    let r = retrieve_fixed_buffer(0, Vec::new(), 0);
    assert_eq!(r, Ok(Vec::new()));
}

#[test]
fn retrieve_faults_on_count_mismatch() {
    let r = retrieve_fixed_buffer(5, vec![1, 2, 3, 4], 4);
    assert_eq!(r, Err(HostFault::BufferIntegrity));
}

#[test]
fn retrieve_faults_on_short_buffer() {
    let r = retrieve_fixed_buffer(4, vec![1, 2, 3], 4);
    assert_eq!(r, Err(HostFault::BufferIntegrity));
}

#[test]
fn message_from_request_roundtrips_body() {
    let r = message_from_request(2, vec![7, 9], 2);
    assert_eq!(r, Ok(vec![7, 9]));
    let bad = message_from_request(2, vec![7, 9], 1);
    assert_eq!(bad, Err(HostFault::BufferIntegrity));
}

#[test]
fn url_percent_encodes_cron_only() {
    let url = build_registration_url(BASE, "acme", "t1", "50 8 * * *", None);
    assert_eq!(
        url,
        format!("{}/acme/t1/listen?cron=50%208%20%2A%20%2A%20%2A", BASE)
    );
}

#[test]
fn url_keeps_unreserved_cron_bytes() {
    let url = build_registration_url(BASE, "o", "t", "5.0_8-x~", None);
    assert_eq!(url, format!("{}/o/t/listen?cron=5.0_8-x~", BASE));
}

#[test]
fn url_encodes_reserved_and_multibyte_cron_bytes() {
    let url = build_registration_url(BASE, "o", "t", "é/%", None);
    assert_eq!(url, format!("{}/o/t/listen?cron=%C3%A9%2F%25", BASE));
}

#[test]
fn url_appends_handler_fn_parameter() {
    let url = build_registration_url(BASE, "acme", "t1", "0 9 1 1 1", Some("__schedule__on_triggered"));
    assert_eq!(
        url,
        format!(
            "{}/acme/t1/listen?cron=0%209%201%201%201&handler_fn=__schedule__on_triggered",
            BASE
        )
    );
}

#[test]
fn register_builds_one_post_with_verbatim_body() {
    let r = listen_to_request(
        BASE,
        b"acme".to_vec(),
        b"t1".to_vec(),
        "50 8 * * *",
        b"daily-ping".to_vec(),
        None,
    );
    let req = r.expect("identity is well formed");
    assert_eq!(
        req.url,
        format!("{}/acme/t1/listen?cron=50%208%20%2A%20%2A%20%2A", BASE)
    );
    assert_eq!(req.body, b"daily-ping".to_vec());
}

#[test]
fn register_tolerates_empty_owner() {
    let r = listen_to_request(BASE, Vec::new(), b"t1".to_vec(), "1 2 * * *", Vec::new(), None);
    let req = r.expect("an empty owner read is tolerated");
    assert_eq!(req.url, format!("{}//t1/listen?cron=1%202%20%2A%20%2A%20%2A", BASE));
}

#[test]
fn register_faults_on_missing_task_id() {
    let r = listen_to_request(BASE, b"acme".to_vec(), Vec::new(), "1 2 * * *", Vec::new(), None);
    assert_eq!(r.err(), Some(HostFault::MissingTaskId));
}

#[test]
fn register_faults_on_malformed_owner() {
    let r = listen_to_request(
        BASE,
        vec![0xff, 0xfe],
        b"t1".to_vec(),
        "1 2 * * *",
        Vec::new(),
        None,
    );
    assert_eq!(r.err(), Some(HostFault::InvalidIdentity));
}

#[test]
fn register_faults_on_malformed_task_id() {
    let r = listen_to_request(
        BASE,
        b"acme".to_vec(),
        vec![0x80],
        "1 2 * * *",
        Vec::new(),
        None,
    );
    assert_eq!(r.err(), Some(HostFault::InvalidIdentity));
}

#[test]
fn success_statuses_route_to_success_sink() {
    for status in [200u16, 204, 299] {
        match classify_response("my_flow", "50 8 * * *", status, b"ignored".to_vec()) {
            RegistrationOutcome::Success(m) => {
                assert_eq!(m, "[my_flow] Your flow is scheduled at `50 8 * * *`.");
                assert!(m.contains("50 8 * * *"));
            }
            RegistrationOutcome::Failure(_) => panic!("a 2xx answer must not reach the error sink"),
        }
    }
}

#[test]
fn failure_statuses_route_exact_body_to_error_sink() {
    for status in [199u16, 300, 404, 500] {
        match classify_response("my_flow", "50 8 * * *", status, b"rate limited".to_vec()) {
            RegistrationOutcome::Success(_) => panic!("a non-2xx answer must not reach the success sink"),
            RegistrationOutcome::Failure(b) => assert_eq!(b, b"rate limited".to_vec()),
        }
    }
}

#[test]
fn dispatch_invokes_handler_exactly_once_on_payload() {
    let mut calls: Vec<Vec<u8>> = Vec::new();
    let invoked = dispatch_payload(Some(b"hello-world".to_vec()), |b| calls.push(b));
    assert!(invoked);
    assert_eq!(calls, vec![b"hello-world".to_vec()]);
}

#[test]
fn dispatch_skips_handler_without_payload() {
    let mut calls: Vec<Vec<u8>> = Vec::new();
    let invoked = dispatch_payload(None, |b| calls.push(b));
    assert!(!invoked);
    assert!(calls.is_empty());
}

#[test]
fn handler_entry_delivers_event_body() {
    let mut calls: Vec<Vec<u8>> = Vec::new();
    let r = schedule_handler(11, b"hello-world".to_vec(), 11, |b| calls.push(b));
    assert_eq!(r, Ok(()));
    assert_eq!(calls, vec![b"hello-world".to_vec()]);
}

#[test]
fn handler_entry_faults_without_invoking_handler() {
    let mut calls: Vec<Vec<u8>> = Vec::new();
    let r = schedule_handler(5, b"hell".to_vec(), 4, |b| calls.push(b));
    assert_eq!(r, Err(HostFault::BufferIntegrity));
    assert!(calls.is_empty());
}

#[test]
fn scenario_registration_success() {
    // Deploy-time activation: the mode flag is nonzero.
    let mut calls: Vec<Vec<u8>> = Vec::new();
    let step = schedule_cron_job(
        1,
        BASE,
        b"acme".to_vec(),
        b"t1".to_vec(),
        "50 8 * * *",
        b"daily-ping".to_vec(),
        0,
        Vec::new(),
        0,
        |b| calls.push(b),
    );
    let req = match step {
        Ok(InvocationStep::SendRegistration(req)) => req,
        _ => panic!("a registering activation must produce exactly one request"),
    };
    assert!(calls.is_empty());
    assert_eq!(
        req.url,
        format!("{}/acme/t1/listen?cron=50%208%20%2A%20%2A%20%2A", BASE)
    );
    assert_eq!(req.body, b"daily-ping".to_vec());
    // The scheduler accepts: the confirmation goes to the success sink alone.
    match classify_response("my_flow", "50 8 * * *", 200, Vec::new()) {
        RegistrationOutcome::Success(m) => assert!(m.contains("50 8 * * *")),
        RegistrationOutcome::Failure(_) => panic!("success must not reach the error sink"),
    }
}

#[test]
fn scenario_registration_refused() {
    let step = schedule_cron_job(
        1,
        BASE,
        b"acme".to_vec(),
        b"t1".to_vec(),
        "50 8 * * *",
        b"daily-ping".to_vec(),
        0,
        Vec::new(),
        0,
        |_b| {},
    );
    assert!(matches!(step, Ok(InvocationStep::SendRegistration(_))));
    // The scheduler answers 500 `rate limited`: the raw body goes to the
    // error sink alone.
    match classify_response("my_flow", "50 8 * * *", 500, b"rate limited".to_vec()) {
        RegistrationOutcome::Success(_) => panic!("failure must not reach the success sink"),
        RegistrationOutcome::Failure(b) => assert_eq!(b, b"rate limited".to_vec()),
    }
}

#[test]
fn scenario_trigger_dispatches_payload() {
    let mut calls: Vec<Vec<u8>> = Vec::new();
    let step = schedule_cron_job(
        0,
        BASE,
        Vec::new(),
        Vec::new(),
        "",
        Vec::new(),
        11,
        b"hello-world".to_vec(),
        11,
        |b| calls.push(b),
    );
    assert!(matches!(step, Ok(InvocationStep::Dispatched)));
    assert_eq!(calls, vec![b"hello-world".to_vec()]);
}

#[test]
fn scenario_trigger_integrity_fault() {
    let mut calls: Vec<Vec<u8>> = Vec::new();
    let step = schedule_cron_job(
        0,
        BASE,
        Vec::new(),
        Vec::new(),
        "",
        Vec::new(),
        5,
        b"hell".to_vec(),
        4,
        |b| calls.push(b),
    );
    assert!(matches!(step, Err(HostFault::BufferIntegrity)));
    assert!(calls.is_empty());
}

#[test]
fn event_lookup_extracts_key_and_builds_get_target() {
    let query = b"{\"l_key\":\"evt42\"}".to_vec();
    let len = query.len();
    let r = request(BASE, len, query, len);
    assert_eq!(r, Ok(Some(format!("{}/event/evt42", BASE))));
}

#[test]
fn event_lookup_ignores_query_without_key() {
    let query = b"{\"other\":\"x\"}".to_vec();
    let len = query.len();
    assert_eq!(request(BASE, len, query, len), Ok(None));
}

#[test]
fn event_lookup_ignores_non_string_key_and_bad_json() {
    let query = b"{\"l_key\":7}".to_vec();
    let len = query.len();
    assert_eq!(request(BASE, len, query, len), Ok(None));
    let garbage = b"not json".to_vec();
    let len = garbage.len();
    assert_eq!(request(BASE, len, garbage, len), Ok(None));
}

#[test]
fn event_lookup_faults_on_count_mismatch() {
    let query = b"{\"l_key\":\"evt42\"}".to_vec();
    let len = query.len();
    assert_eq!(request(BASE, len + 1, query, len), Err(HostFault::BufferIntegrity));
}

#[test]
fn event_url_joins_segments() {
    assert_eq!(build_event_url(BASE, "k1"), format!("{}/event/k1", BASE));
}

#[test]
fn fetched_event_forwarded_only_on_success_status() {
    assert_eq!(forward_event(200, b"hello".to_vec()), Some(String::from("hello")));
    assert_eq!(forward_event(299, Vec::new()), Some(String::new()));
    assert_eq!(forward_event(300, b"hello".to_vec()), None);
    assert_eq!(forward_event(404, b"hello".to_vec()), None);
}

#[test]
fn fetched_event_dropped_when_not_utf8() {
    assert_eq!(forward_event(200, vec![0xff, 0xfe]), None);
}
