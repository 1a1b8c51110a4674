use error_dashboard::fetch::{
    build_headers, AttemptResult, Delivery, DeliveryOutcome, ErrorResponseType, NextStep,
};

/// Drives a delivery against a scripted transport; returns the outcome, the
/// number of sends and the number of waits.
fn drive(attempts: usize, script: &[AttemptResult]) -> (DeliveryOutcome, usize, usize) {
    let mut d = Delivery::new(attempts);
    let mut sends = 0;
    let mut waits = 0;
    loop {
        assert!(d.is_open());
        let r = script[sends].clone();
        sends += 1;
        match d.record_attempt(r) {
            NextStep::Retry => waits += 1,
            NextStep::Finish(o) => return (o, sends, waits),
        }
    }
}

#[test]
fn success_on_last_attempt() {
    for n in 1..6 {
        let mut script = vec![AttemptResult::Rejected; n - 1];
        script.push(AttemptResult::Accepted);
        let (o, sends, waits) = drive(n, &script);
        assert_eq!(o, DeliveryOutcome::Success);
        assert_eq!(sends, n);
        assert_eq!(waits, n - 1);
    }
}

#[test]
fn success_stops_early() {
    let script = vec![AttemptResult::Unreachable("reset".to_string()), AttemptResult::Accepted];
    let (o, sends, waits) = drive(5, &script);
    assert_eq!(o, DeliveryOutcome::Success);
    assert_eq!(sends, 2);
    assert_eq!(waits, 1);
}

#[test]
fn all_rejected_gives_remote_rejected() {
    let script = vec![AttemptResult::Rejected; 3];
    let (o, sends, waits) = drive(3, &script);
    assert_eq!(o, DeliveryOutcome::RemoteRejected);
    assert_eq!(sends, 3);
    assert_eq!(waits, 2);
}

#[test]
fn last_failure_decides_outcome() {
    let script = vec![
        AttemptResult::Rejected,
        AttemptResult::Rejected,
        AttemptResult::Unreachable("timed out".to_string()),
    ];
    let (o, sends, waits) = drive(3, &script);
    assert_eq!(o, DeliveryOutcome::TransportFailure("timed out".to_string()));
    assert_eq!(sends, 3);
    assert_eq!(waits, 2);

    let script = vec![AttemptResult::Unreachable("refused".to_string()), AttemptResult::Rejected];
    let (o, _, _) = drive(2, &script);
    assert_eq!(o, DeliveryOutcome::RemoteRejected);
}

#[test]
fn single_attempt_never_waits() {
    let (o, sends, waits) = drive(1, &[AttemptResult::Rejected]);
    assert_eq!(o, DeliveryOutcome::RemoteRejected);
    assert_eq!((sends, waits), (1, 0));
}

#[test]
fn delivery_closes_after_finish() {
    let mut d = Delivery::new(3);
    assert_eq!(d.attempts_made(), 0);
    assert_eq!(d.record_attempt(AttemptResult::Accepted), NextStep::Finish(DeliveryOutcome::Success));
    assert_eq!(d.attempts_made(), 1);
    assert!(!d.is_open());
}

#[test]
fn outcome_flags() {
    assert_eq!(
        DeliveryOutcome::Success.to_response(),
        ErrorResponseType { is_success: true, is_error: false }
    );
    assert_eq!(
        DeliveryOutcome::RemoteRejected.to_response(),
        ErrorResponseType { is_success: false, is_error: true }
    );
    assert_eq!(
        DeliveryOutcome::TransportFailure("x".to_string()).to_response(),
        ErrorResponseType { is_success: false, is_error: true }
    );
}

fn pairs(v: &[(&str, &str)]) -> Vec<(String, String)> {
    v.iter().map(|(k, x)| (k.to_string(), x.to_string())).collect()
}

#[test]
fn standard_headers_without_custom() {
    let h = build_headers("id1", "s3", &None);
    assert_eq!(
        h,
        pairs(&[("client_id", "id1"), ("client_secret", "s3"), ("Content-Type", "application/json")])
    );
}

#[test]
fn custom_headers_override_and_extend() {
    let custom = pairs(&[("X-Trace", "1"), ("client_id", "other"), ("X-Trace", "2")]);
    let h = build_headers("id1", "s3", &Some(custom));
    assert_eq!(
        h,
        pairs(&[
            ("client_id", "other"),
            ("client_secret", "s3"),
            ("Content-Type", "application/json"),
            ("X-Trace", "2"),
        ])
    );
}
