use pg_bridge::bridge::{
    BridgeError, BridgeState, ErrorBridge, SignalPayload, ERRCODE_OUT_OF_MEMORY,
    ERRCODE_PROGRAM_LIMIT_EXCEEDED,
};

fn sample_payload() -> SignalPayload {
    SignalPayload {
        code: 23505,
        message: "duplicate key value violates unique constraint".to_owned(),
        detail: Some("Key (id)=(7) already exists.".to_owned()),
        hint: Some("try another id".to_owned()),
        location: "nbtinsert.c:570".to_owned(),
    }
}

#[test]
fn payload_survives_full_round_trip() {
    let r = pg_bridge::bridge::signal_round_trip(sample_payload());
    assert_eq!(r, sample_payload());
}

#[test]
fn intercept_passes_a_normal_outcome_through() {
    let mut boundary = ErrorBridge::new();
    let r = boundary.intercept_abrupt_signal(Ok::<i32, SignalPayload>(42));
    assert_eq!(r, Ok(42));
    assert_eq!(boundary.state, BridgeState::Normal);
}

#[test]
fn fired_signal_reaches_the_caller_as_a_structured_error() {
    let mut boundary = ErrorBridge::new();
    let r = boundary.intercept_abrupt_signal(Err::<i32, SignalPayload>(sample_payload()));
    assert_eq!(r, Err(BridgeError::HostSignaled(sample_payload())));
    assert_eq!(boundary.state, BridgeState::Raised);
}

#[test]
fn intercept_captures_before_raise() {
    let mut boundary = ErrorBridge::new();
    let passed = boundary.intercept(Err::<(), SignalPayload>(sample_payload()));
    assert!(passed.is_none());
    assert_eq!(boundary.state, BridgeState::HostPending);
    let e = boundary.raise();
    assert_eq!(e, BridgeError::HostSignaled(sample_payload()));
    assert_eq!(boundary.state, BridgeState::Raised);
}

#[test]
fn catch_consumes_the_error_into_a_result() {
    let mut boundary = ErrorBridge::new();
    let _ = boundary.intercept(Err::<(), SignalPayload>(sample_payload()));
    let e = boundary.raise();
    let caught = boundary.catch(e);
    assert_eq!(caught, BridgeError::HostSignaled(sample_payload()));
    assert_eq!(boundary.state, BridgeState::Normal);
}

#[test]
fn reenter_replays_the_captured_payload() {
    let mut boundary = ErrorBridge::new();
    let _ = boundary.intercept(Err::<(), SignalPayload>(sample_payload()));
    let e = boundary.raise();
    let replayed = boundary.reenter(e);
    assert_eq!(replayed, sample_payload());
    assert_eq!(boundary.state, BridgeState::ReEntering);
}

#[test]
fn reenter_gives_an_overflow_its_own_code() {
    let mut boundary = ErrorBridge::new();
    let _ = boundary.intercept(Err::<(), SignalPayload>(sample_payload()));
    let _ = boundary.raise();
    let replayed = boundary.reenter(BridgeError::EncodingOverflow);
    assert_eq!(replayed.code, ERRCODE_PROGRAM_LIMIT_EXCEEDED);
    assert_eq!(replayed.message, "encoded value exceeds the host's representable length");
    assert_eq!(replayed.detail, None);
    assert_eq!(replayed.hint, None);
    assert_eq!(replayed.location, "bridge");
}

#[test]
fn an_uncaught_error_reaches_the_host_as_its_own_signal() {
    let mut boundary = ErrorBridge::new();
    let _ = boundary.intercept(Err::<(), SignalPayload>(sample_payload()));
    let e = boundary.raise();
    let replayed = boundary.reenter(e);
    let back_in_host = pg_bridge::bridge::raise_abrupt_signal::<()>(replayed);
    assert_eq!(back_in_host, Err(sample_payload()));
}

#[test]
fn oom_payload_carries_the_oom_code() {
    let mut host = pg_bridge::host::HostState::boot(3);
    let r = host.request_allocation(0, 10);
    match r {
        Err(p) => assert_eq!(p.code, ERRCODE_OUT_OF_MEMORY),
        Ok(_) => panic!("the host should have declined"),
    }
}
