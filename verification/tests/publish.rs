use gb2idb::error::RunError;
use gb2idb::publish::{response_outcome, write_url};
use gb2idb::run::BatchRun;
use gb2idb::sample::Sample;

#[test]
fn url_names_host_port_and_database() {
    assert_eq!(
        write_url("localhost", 8086, "health"),
        "http://localhost:8086/write?db=health"
    );
    assert_eq!(write_url("10.0.0.2", 80, "h"), "http://10.0.0.2:80/write?db=h");
}

#[test]
fn success_statuses_are_accepted() {
    assert!(response_outcome(200, None).is_ok());
    assert!(response_outcome(204, None).is_ok());
    assert!(response_outcome(299, None).is_ok());
}

#[test]
fn non_success_statuses_carry_the_body() {
    let e = response_outcome(500, Some("disk full".to_string())).unwrap_err();
    assert!(matches!(e, RunError::PublishHttp(_)));
    assert_eq!(e.message(), "disk full");

    let e = response_outcome(199, Some("early".to_string())).unwrap_err();
    assert_eq!(e.message(), "early");

    let e = response_outcome(300, Some("redirected".to_string())).unwrap_err();
    assert_eq!(e.message(), "redirected");
}

#[test]
fn missing_body_gets_a_placeholder() {
    let e = response_outcome(404, None).unwrap_err();
    assert!(matches!(e, RunError::PublishHttp(_)));
    assert_eq!(e.message(), "Server did not return error");
}

fn rows(n: u32) -> Vec<Sample> {
    (0..n)
        .map(|i| Sample { timestamp: i, raw_intensity: i, steps: i, heart_rate: i })
        .collect()
}

#[test]
fn failed_publish_aborts_remaining_batches() {
    let samples = rows(150);
    let mut run = BatchRun::start(&samples, "alice");

    let first = run.next_body();
    assert!(first.is_some());
    let e = run.record_response(500, Some("disk full".to_string())).unwrap_err();
    assert!(matches!(e, RunError::PublishHttp(_)));
    assert_eq!(e.message(), "disk full");

    assert!(run.next_body().is_none());
}

#[test]
fn accepted_batches_run_to_completion() {
    let samples = rows(150);
    let mut run = BatchRun::start(&samples, "alice");

    let first = run.next_body().unwrap();
    assert_eq!(first.lines().count(), 300);
    assert!(run.record_response(204, None).is_ok());

    let second = run.next_body().unwrap();
    assert_eq!(second.lines().count(), 150);
    assert!(run.record_response(204, None).is_ok());

    assert!(run.next_body().is_none());
}

#[test]
fn no_rows_means_no_request() {
    let samples = rows(0);
    let run = BatchRun::start(&samples, "alice");
    assert!(run.next_body().is_none());
}
