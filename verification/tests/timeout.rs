use miniproxee::error::ErrorType;
use miniproxee::middleware::timeout::{settle_inner_ready, settle_timed_call, Timeout};

#[test]
fn first_check_fixes_the_deadline() {
    let mut t = Timeout::new(10, ());
    assert!(t.poll_deadline(100).is_ok());
    assert_eq!(t.call_deadline(), Some(110));
    // Later checks do not move it.
    assert!(t.poll_deadline(105).is_ok());
    assert_eq!(t.call_deadline(), Some(110));
}

#[test]
fn no_deadline_before_the_first_check() {
    let t = Timeout::new(10, ());
    assert_eq!(t.call_deadline(), None);
    assert!(t.can_poll_at(u128::MAX - 10));
    assert!(!t.can_poll_at(u128::MAX - 9));
}

#[test]
fn a_fixed_deadline_never_overflows_again() {
    let mut t = Timeout::new(10, ());
    assert!(t.poll_deadline(0).is_ok());
    assert!(t.can_poll_at(u128::MAX));
    assert!(t.poll_deadline(u128::MAX).is_err());
}

#[test]
fn the_deadline_itself_is_still_in_time() {
    let mut t = Timeout::new(10, ());
    assert!(t.poll_deadline(0).is_ok());
    assert!(t.poll_deadline(10).is_ok());
}

#[test]
fn past_the_deadline_checks_time_out_for_good() {
    let mut t = Timeout::new(10, ());
    assert!(t.poll_deadline(0).is_ok());
    let e = t.poll_deadline(11).unwrap_err();
    assert_eq!(e.etype(), &ErrorType::Timeout);
    let e = t.poll_deadline(1_000).unwrap_err();
    assert_eq!(e.etype(), &ErrorType::Timeout);
    assert_eq!(t.call_deadline(), Some(10));
}

#[test]
fn a_zero_budget_allows_only_the_instant_of_the_first_check() {
    let mut t = Timeout::new(0, ());
    assert!(t.poll_deadline(7).is_ok());
    assert!(t.poll_deadline(8).is_err());
}

#[test]
fn the_inner_service_can_be_reached() {
    let mut t = Timeout::new(5, 41u32);
    *t.inner_mut() += 1;
    assert_eq!(*t.inner_mut(), 42);
    assert!(t.poll_deadline(1).is_ok());
    assert_eq!(t.call_deadline(), Some(6));
}

#[test]
fn settle_a_call_in_time() {
    let r = settle_timed_call(Some(Ok(3u8)));
    assert_eq!(r, Ok(3u8));
}

#[test]
fn settle_a_call_that_failed() {
    let r: Result<u8, _> = settle_timed_call(Some(Err("boom".to_string())));
    assert_eq!(r.unwrap_err().etype(), &ErrorType::Internal("boom".to_string()));
}

#[test]
fn settle_a_call_past_its_deadline() {
    let r: Result<u8, _> = settle_timed_call(None);
    assert_eq!(r.unwrap_err().etype(), &ErrorType::Timeout);
}

#[test]
fn inner_readiness_passes_through() {
    assert_eq!(settle_inner_ready::<String>(Ok(())), Ok(()));
}

#[test]
fn inner_readiness_failure_is_internal() {
    let e = settle_inner_ready(Err(42u8)).unwrap_err();
    assert_eq!(
        e.etype(),
        &ErrorType::Internal("failed to poll inner service".to_string())
    );
}

#[test]
fn budgets_as_long_as_any_duration_are_held() {
    let budget = std::time::Duration::MAX.as_nanos();
    let mut t = Timeout::new(budget, ());
    assert!(t.can_poll_at(1_000));
    assert!(t.poll_deadline(1_000).is_ok());
    assert_eq!(t.call_deadline(), Some(budget + 1_000));
}
