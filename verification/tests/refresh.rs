//! Background refreshes.

use oidc_stack::refresh::RefreshTask;

#[test]
fn an_interval_of_zero_disables_refreshing() {
    assert_eq!(RefreshTask::spawn(0), None);
}

#[test]
fn every_tick_but_the_first_refreshes() {
    let mut task = RefreshTask::spawn(60).unwrap();
    assert_eq!(task.period_seconds, 60);
    assert!(!task.tick());
    for _ in 0..5 {
        assert!(task.tick());
    }
    assert_eq!(task.period_seconds, 60);
}
