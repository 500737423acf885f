use gated_views::fetch::AsyncFetchCoordinator;
use gated_views::fetch::Outcome;
use gated_views::fetch::Ticket;

#[test]
fn a_new_coordinator_has_issued_nothing() {
    let c = AsyncFetchCoordinator::new();
    assert_eq!(c.latest(), 0);
    assert!(c.can_issue());
    assert!(c.is_current(0));
}

#[test]
fn fetch_counts_from_one_and_carries_the_token() {
    let mut c = AsyncFetchCoordinator::new();
    assert_eq!(c.fetch("tok".to_string()), Ticket { epoch: 1, token: "tok".to_string() });
    assert_eq!(c.fetch("other".to_string()), Ticket { epoch: 2, token: "other".to_string() });
    assert_eq!(c.latest(), 2);
}

#[test]
fn only_the_latest_epoch_is_current() {
    let mut c = AsyncFetchCoordinator::new();
    let a = c.fetch("tok".to_string()).epoch;
    assert!(c.is_current(a));
    let b = c.fetch("tok".to_string()).epoch;
    assert!(!c.is_current(a));
    assert!(c.is_current(b));
    assert!(!c.is_current(b + 1));
}

#[test]
fn failures_are_reported_and_skips_are_not() {
    assert!(Outcome::NetworkFailure.is_reported());
    assert!(Outcome::ValidationFailure.is_reported());
    assert!(!Outcome::GatingSkipped.is_reported());
    assert!(!Outcome::StaleResponse.is_reported());
    assert!(!Outcome::Applied.is_reported());
}
