use subspace_cli::progress::ProgressCursor;

#[test]
fn new_cursor_keeps_the_raw_position() {
    let c = ProgressCursor::new(50, 100);
    assert_eq!(c.position, 50);
    assert_eq!(c.target, 100);
    assert!(!c.finished);

    // The position may overshoot the target; only the displayed
    // percentage is capped.
    let over = ProgressCursor::new(500, 100);
    assert_eq!(over.position, 500);
    assert_eq!(over.target, 100);
    assert_eq!(over.percent(), 100);
    assert!(over.is_complete());
}

#[test]
fn advance_never_moves_backwards() {
    let mut c = ProgressCursor::new(40, 100);
    c.advance(10, None);
    assert_eq!(c.position, 40);
    c.advance(70, None);
    assert_eq!(c.position, 70);
}

#[test]
fn target_grows_but_never_shrinks() {
    let mut c = ProgressCursor::new(40, 100);
    c.advance(40, Some(200));
    assert_eq!(c.target, 200);
    c.advance(40, Some(50));
    assert_eq!(c.target, 200);
}

#[test]
fn percent_and_completion() {
    let c = ProgressCursor::new(250, 1000);
    assert_eq!(c.percent(), 25);
    assert!(!c.is_complete());

    let done = ProgressCursor::new(1000, 1000);
    assert_eq!(done.percent(), 100);
    assert!(done.is_complete());

    let empty = ProgressCursor::new(0, 0);
    assert_eq!(empty.percent(), 100);
    assert!(empty.is_complete());
}

#[test]
fn finish_jumps_to_the_end() {
    let mut c = ProgressCursor::new(10, 1000);
    c.finish();
    assert_eq!(c.position, 1000);
    assert!(c.finished);
    assert_eq!(c.percent(), 100);
}

#[test]
fn finish_never_moves_an_overshot_position_backwards() {
    let mut c = ProgressCursor::new(1500, 1000);
    c.finish();
    assert_eq!(c.position, 1500);
    assert!(c.finished);
    assert_eq!(c.percent(), 100);
}
