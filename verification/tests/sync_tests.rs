use subspace_cli::sync::{SyncAction, SyncCoordinator, SyncEvent, SyncMode, SyncStatus};

#[test]
fn startup_decision_per_chain_and_verbosity() {
    assert_eq!(subspace_cli::sync::sync_mode(true, false), SyncMode::Skip);
    assert_eq!(subspace_cli::sync::sync_mode(true, true), SyncMode::Skip);
    assert_eq!(subspace_cli::sync::sync_mode(false, true), SyncMode::BlockingVerbose);
    assert_eq!(subspace_cli::sync::sync_mode(false, false), SyncMode::WithProgressBar);
}

#[test]
fn first_item_starts_the_bar_and_later_items_advance_it() {
    let mut c = SyncCoordinator::new();
    assert_eq!(c.status, SyncStatus::AwaitingFirst);

    let a = c.step(SyncEvent::Progress { current: 10, target: 100 });
    assert_eq!(a, SyncAction::StartBar { current: 10, target: 100 });
    assert_eq!(c.status, SyncStatus::Tracking);
    let cursor = c.cursor.expect("tracking implies a live cursor");
    assert_eq!(cursor.position, 10);
    assert_eq!(cursor.target, 100);

    let a = c.step(SyncEvent::Progress { current: 60, target: 120 });
    assert_eq!(a, SyncAction::AdvanceBar { current: 60, target: 120 });
    let cursor = c.cursor.expect("tracking implies a live cursor");
    assert_eq!(cursor.position, 60);
    assert_eq!(cursor.target, 120);

    // A stale item neither moves the bar backwards nor shrinks its target.
    c.step(SyncEvent::Progress { current: 40, target: 80 });
    let cursor = c.cursor.expect("tracking implies a live cursor");
    assert_eq!(cursor.position, 60);
    assert_eq!(cursor.target, 120);

    let a = c.step(SyncEvent::Ended);
    assert_eq!(a, SyncAction::FinishBar);
    assert_eq!(c.status, SyncStatus::Completed);
    assert!(c.is_done());
}

#[test]
fn stream_ending_before_any_item_leaves_no_bar() {
    let mut c = SyncCoordinator::new();
    let a = c.step(SyncEvent::Ended);
    assert_eq!(a, SyncAction::NothingToFinish);
    assert_eq!(c.status, SyncStatus::Completed);
}

#[test]
fn stream_error_is_fatal() {
    let mut c = SyncCoordinator::new();
    c.step(SyncEvent::Progress { current: 5, target: 50 });
    let a = c.step(SyncEvent::Failed);
    assert_eq!(a, SyncAction::ReportFatal);
    assert_eq!(c.status, SyncStatus::Failed);
}
