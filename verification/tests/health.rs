use antihook::errors::ConfigError;
use antihook::health::{evaluate_probe, should_try_next, HealthProbe, ProbeOutcome};

#[test]
fn success_on_first_candidate_stops() {
    let mut p = HealthProbe::start("https://good.example").unwrap();
    assert_eq!(p.idx, 0);
    let url = p.next_request();
    assert_eq!(url, "https://good.example/api/health");
    let res = p
        .feed(ProbeOutcome::Response(200, "{\"status\":\"ok\"}".to_string()), 12)
        .expect("success must be terminal");
    assert!(res.ok);
    assert_eq!(res.status_code, Some(200));
    assert_eq!(res.request_url, "https://good.example/api/health");
    assert_eq!(res.elapsed_ms, 12);
    assert!(res.error.is_none());
    let expected: serde_json::Value = serde_json::from_str("{\"status\":\"ok\"}").unwrap();
    assert_eq!(res.payload, Some(expected));
    assert_eq!(p.idx, 0, "second candidate must never be requested");
}

#[test]
fn falls_back_to_backend_prefix_on_404() {
    let mut p = HealthProbe::start("https://good.example").unwrap();
    assert!(p.feed(ProbeOutcome::Response(404, "".to_string()), 3).is_none());
    assert_eq!(p.idx, 1);
    let url = p.next_request();
    assert_eq!(url, "https://good.example/backend/api/health");
    let res = p
        .feed(ProbeOutcome::Response(200, "{}".to_string()), 4)
        .expect("success must be terminal");
    assert!(res.ok);
    assert_eq!(res.status_code, Some(200));
    assert_eq!(res.request_url, "https://good.example/backend/api/health");
}

#[test]
fn non_404_failure_is_terminal() {
    let mut p = HealthProbe::start("https://good.example").unwrap();
    let res = p
        .feed(ProbeOutcome::Response(500, "oops".to_string()), 9)
        .expect("a 500 must be terminal");
    assert!(!res.ok);
    assert_eq!(res.status_code, Some(500));
    assert_eq!(res.request_url, "https://good.example/api/health");
    assert!(res.payload.is_none());
    assert_eq!(p.idx, 0, "second candidate must never be requested");
}

#[test]
fn transport_failure_tries_both_candidates() {
    let mut p = HealthProbe::start("https://unreachable.example").unwrap();
    assert!(p.feed(ProbeOutcome::Transport("connection refused".to_string()), 8000).is_none());
    assert_eq!(p.idx, 1);
    let res = p
        .feed(ProbeOutcome::Transport("connection refused".to_string()), 8000)
        .expect("last candidate's failure must be terminal");
    assert!(!res.ok);
    assert_eq!(res.status_code, None);
    assert_eq!(res.error.as_deref(), Some("connection refused"));
    assert_eq!(res.request_url, "https://unreachable.example/backend/api/health");
}

#[test]
fn non_json_success_still_ok_without_payload() {
    let mut p = HealthProbe::start("http://a.example").unwrap();
    let res = p
        .feed(ProbeOutcome::Response(204, "no content".to_string()), 1)
        .expect("success must be terminal");
    assert!(res.ok);
    assert_eq!(res.status_code, Some(204));
    assert!(res.payload.is_none());
    assert!(res.error.is_none());
}

#[test]
fn invalid_base_url_aborts_before_any_probe() {
    match HealthProbe::start("ftp://x") {
        Err(ConfigError::InvalidUrl(d)) => assert_eq!(d, "unsupported scheme: ftp"),
        _ => panic!("expected InvalidUrl"),
    }
}

#[test]
fn evaluate_probe_records_transport_failures() {
    let res = evaluate_probe(
        "http://h/api/health".to_string(),
        ProbeOutcome::Transport("boom".to_string()),
        7,
    );
    assert!(!res.ok);
    assert_eq!(res.status_code, None);
    assert_eq!(res.elapsed_ms, 7);
    assert_eq!(res.error.as_deref(), Some("boom"));
    assert!(res.payload.is_none());
    assert_eq!(res.request_url, "http://h/api/health");
}

#[test]
fn fallback_policy_table() {
    assert!(should_try_next(Some(404), true));
    assert!(should_try_next(None, true));
    assert!(!should_try_next(Some(500), true));
    assert!(!should_try_next(Some(401), true));
    assert!(!should_try_next(Some(200), true));
    assert!(!should_try_next(Some(404), false));
    assert!(!should_try_next(None, false));
}
