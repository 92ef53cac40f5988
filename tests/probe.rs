use zoe::probe::{
    classify, compose_report, probe_url, DaemonDef, ProbeOutcome, ProbeStatus, PROBE_DEADLINE_MS,
};

fn def(name: &str, port: u16) -> DaemonDef {
    DaemonDef { name: name.to_string(), port }
}

fn fleet() -> Vec<DaemonDef> {
    vec![
        def("cipher", 9500),
        def("leonardo", 9600),
        def("zoe", 9601),
        def("euterpe", 9602),
        def("ear", 9700),
        def("nyx", 9999),
    ]
}

#[test]
fn daemon_answering_in_time_is_up_with_payload() {
    let body = br#"{"status":"alive","port":9500}"#.to_vec();
    let r = classify(&def("cipher", 9500), &ProbeOutcome::Answered(Some(body)));
    assert_eq!(r.name, "cipher");
    assert_eq!(r.port, 9500);
    assert_eq!(r.status, ProbeStatus::Up);
    let expected: serde_json::Value =
        serde_json::from_str(r#"{"status":"alive","port":9500}"#).unwrap();
    assert_eq!(r.data, Some(expected));
}

#[test]
fn unparseable_body_is_still_up_without_payload() {
    let r = classify(&def("ear", 9700), &ProbeOutcome::Answered(Some(b"ok, thanks".to_vec())));
    assert_eq!(r.status, ProbeStatus::Up);
    assert!(r.data.is_none());
}

#[test]
fn unreadable_body_is_still_up_without_payload() {
    let r = classify(&def("ear", 9700), &ProbeOutcome::Answered(None));
    assert_eq!(r.status, ProbeStatus::Up);
    assert!(r.data.is_none());
}

#[test]
fn refused_daemon_is_down() {
    let r = classify(&def("nyx", 9999), &ProbeOutcome::Failed);
    assert_eq!(r.name, "nyx");
    assert_eq!(r.port, 9999);
    assert_eq!(r.status, ProbeStatus::Down);
    assert!(r.data.is_none());
}

#[test]
fn silent_daemon_times_out() {
    let r = classify(&def("zoe", 9601), &ProbeOutcome::Expired);
    assert_eq!(r.status, ProbeStatus::Timeout);
    assert!(r.data.is_none());
}

#[test]
fn status_labels() {
    assert_eq!(ProbeStatus::Up.as_str(), "up");
    assert_eq!(ProbeStatus::Down.as_str(), "down");
    assert_eq!(ProbeStatus::Timeout.as_str(), "timeout");
}

#[test]
fn report_covers_every_daemon_in_order() {
    let defs = fleet();
    let outcomes = vec![
        ProbeOutcome::Answered(Some(b"{}".to_vec())),
        ProbeOutcome::Failed,
        ProbeOutcome::Answered(None),
        ProbeOutcome::Expired,
        ProbeOutcome::Failed,
        ProbeOutcome::Answered(Some(b"[1,2]".to_vec())),
    ];
    let r = compose_report(&defs, &outcomes, 1_700_000_000_123);
    assert_eq!(r.pantheon.len(), 6);
    for (d, s) in defs.iter().zip(r.pantheon.iter()) {
        assert_eq!(d.name, s.name);
        assert_eq!(d.port, s.port);
    }
    let statuses: Vec<ProbeStatus> = r.pantheon.iter().map(|s| s.status).collect();
    assert_eq!(
        statuses,
        vec![
            ProbeStatus::Up,
            ProbeStatus::Down,
            ProbeStatus::Up,
            ProbeStatus::Timeout,
            ProbeStatus::Down,
            ProbeStatus::Up,
        ]
    );
    assert_eq!(r.summary.total, 6);
    assert_eq!(r.summary.alive, 3);
    assert_eq!(r.summary.down, 3);
    assert_eq!(r.timestamp, 1_700_000_000_123);
}

#[test]
fn report_with_every_daemon_down() {
    let defs = fleet();
    let outcomes: Vec<ProbeOutcome> = defs.iter().map(|_| ProbeOutcome::Failed).collect();
    let r = compose_report(&defs, &outcomes, 0);
    assert_eq!(r.summary.total, 6);
    assert_eq!(r.summary.alive, 0);
    assert_eq!(r.summary.down, 6);
}

#[test]
fn report_of_empty_fleet() {
    let r = compose_report(&Vec::new(), &Vec::new(), 42);
    assert!(r.pantheon.is_empty());
    assert_eq!(r.summary.total, 0);
    assert_eq!(r.summary.alive, 0);
    assert_eq!(r.summary.down, 0);
}

#[test]
fn probe_url_is_health_endpoint() {
    assert_eq!(probe_url("localhost", 9500), "http://localhost:9500/health");
    assert_eq!(probe_url("10.0.0.7", 7), "http://10.0.0.7:7/health");
    assert_eq!(PROBE_DEADLINE_MS, 2000);
}
