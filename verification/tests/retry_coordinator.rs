use crately::actors::retry_coordinator::{RetryCoordinator, RetryDecision};
use crately::crate_specifier::CrateSpecifier;

fn spec(s: &str) -> CrateSpecifier {
    CrateSpecifier::parse(s).unwrap()
}

#[test]
fn test_retry_coordinator_is_send_sync() {
    fn assert_send<T: Send>() {}
    fn assert_sync<T: Sync>() {}
    assert_send::<RetryCoordinator>();
    assert_sync::<RetryCoordinator>();
}

#[test]
fn test_schedule_retry_non_retryable_error() {
    let mut c = RetryCoordinator::new(3);
    let (decision, request) = c.schedule(spec("tokio@1.0.0"), vec![], false);
    assert_eq!(decision, RetryDecision::NotRetryable);
    assert!(request.is_none());
    assert_eq!(c.attempts(&spec("tokio@1.0.0")), 0);
}

#[test]
fn test_schedule_retry_retryable_error() {
    let mut c = RetryCoordinator::new(2);
    let (decision, request) = c.schedule(spec("axum@0.7.0"), vec!["macros".to_string()], true);
    assert_eq!(decision, RetryDecision::Retry { attempt: 1 });
    let request = request.unwrap();
    assert_eq!(request.retry_attempt, 1);
    assert_eq!(request.features, vec!["macros".to_string()]);
    assert_eq!(request.specifier.to_text(), "axum@0.7.0");
}

#[test]
fn test_max_retries_reached() {
    let mut c = RetryCoordinator::new(1);
    let (first, _) = c.schedule(spec("hyper@1.0.0"), vec![], true);
    assert_eq!(first, RetryDecision::Retry { attempt: 1 });
    let (second, request) = c.schedule(spec("hyper@1.0.0"), vec![], true);
    assert_eq!(second, RetryDecision::GaveUp);
    assert!(request.is_none());
    assert_eq!(c.attempts(&spec("hyper@1.0.0")), 0);
}

#[test]
fn crates_are_counted_separately() {
    let mut c = RetryCoordinator::new(2);
    c.schedule(spec("a@1.0.0"), vec![], true);
    c.schedule(spec("a@1.0.0"), vec![], true);
    c.schedule(spec("b@1.0.0"), vec![], true);
    assert_eq!(c.attempts(&spec("a@1.0.0")), 2);
    assert_eq!(c.attempts(&spec("b@1.0.0")), 1);
    assert_eq!(c.max_attempts(), 2);
}
