use latency_probe::elapsed::Elapsed;
use latency_probe::ingest::{conclude, Collector};
use latency_probe::report::Report;

fn sample(total_ms: u64) -> Report {
    let ms = |n: u64| Elapsed::from_parts(n / 1000, ((n % 1000) * 1_000_000) as u32);
    Report {
        client_region: "ams".to_string(),
        response_region: "unknown".to_string(),
        ip_address: "unknown".to_string(),
        dns_duration: ms(4),
        dns_duration2: ms(1),
        tcp_duration: ms(2),
        tls_duration: ms(3),
        get_duration: ms(4),
        total_duration: ms(total_ms),
    }
}

#[test]
fn wrong_token_is_unauthorized() {
    let c = Collector::new("s3cret".to_string());
    let reply = c.authorize("guess", &sample(10)).unwrap_err();
    assert_eq!(reply.status, 401);
    assert_eq!(reply.id, None);
    assert_eq!(reply.message, "Bad token\n");
    assert!(c.authorize("s3cret ", &sample(10)).is_err());
    assert!(c.authorize("", &sample(10)).is_err());
}

#[test]
fn matching_token_goes_on_to_storage() {
    let c = Collector::new("s3cret".to_string());
    assert!(c.authorize("s3cret", &sample(10)).is_ok());
}

#[test]
fn identical_reports_are_both_stored() {
    let c = Collector::new("t".to_string());
    let a = sample(10);
    let b = sample(10);
    assert!(c.authorize("t", &a).is_ok());
    assert!(c.authorize("t", &b).is_ok());
    let first = conclude(Ok(1));
    let second = conclude(Ok(2));
    assert_eq!((first.status, first.id), (200, Some(1)));
    assert_eq!((second.status, second.id), (200, Some(2)));
    assert!(first.id < second.id);
}

#[test]
fn inconsistent_report_is_accepted_as_is() {
    let c = Collector::new("t".to_string());
    assert!(c.authorize("t", &sample(999)).is_ok());
}

#[test]
fn stored_report_reply() {
    let r = conclude(Ok(42));
    assert_eq!(r.status, 200);
    assert_eq!(r.id, Some(42));
    assert_eq!(r.message, "Report created successfully");
}

#[test]
fn storage_failure_reply() {
    let r = conclude(Err("connection reset".to_string()));
    assert_eq!(r.status, 500);
    assert_eq!(r.id, None);
    assert_eq!(r.message, "Database error: connection reset");
}
