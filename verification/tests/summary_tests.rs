use subspace_cli::summary::{SummaryState, SummaryUpdate};

fn delta(reward: u64, vote: bool, farmed: bool, finished: bool) -> SummaryUpdate {
    SummaryUpdate {
        new_reward: reward,
        is_new_vote: vote,
        is_new_block_farmed: farmed,
        is_plotting_finished: finished,
    }
}

#[test]
fn fresh_summary_is_zeroed() {
    let s = SummaryState::new(Some(1000));
    assert_eq!(s.farmed_block_count, 0);
    assert_eq!(s.vote_count, 0);
    assert_eq!(s.total_rewards, 0);
    assert!(!s.is_plotting_finished);
    assert_eq!(s.plot_size_hint, Some(1000));
}

#[test]
fn update_applies_each_field() {
    let mut s = SummaryState::new(None);
    s.update(&delta(40, true, true, false));
    assert_eq!(s.farmed_block_count, 1);
    assert_eq!(s.vote_count, 1);
    assert_eq!(s.total_rewards, 40);
    assert!(!s.is_plotting_finished);
}

#[test]
fn empty_update_changes_nothing() {
    let mut s = SummaryState::new(Some(7));
    s.update(&delta(25, false, true, false));
    let before = s.snapshot();
    s.update(&SummaryUpdate::none());
    assert_eq!(s.farmed_block_count, before.farmed_block_count);
    assert_eq!(s.vote_count, before.vote_count);
    assert_eq!(s.total_rewards, before.total_rewards);
    assert_eq!(s.is_plotting_finished, before.is_plotting_finished);
    assert_eq!(s.plot_size_hint, before.plot_size_hint);
}

#[test]
fn rewards_saturate_instead_of_wrapping() {
    let mut s = SummaryState::new(None);
    s.update(&delta(u64::MAX - 5, false, false, false));
    s.update(&delta(100, false, false, false));
    assert_eq!(s.total_rewards, u64::MAX);
}

#[test]
fn plotting_flag_latches_and_never_reverts() {
    let mut s = SummaryState::new(None);
    assert!(!s.is_plotting_finished);
    s.update(&delta(0, false, false, true));
    assert!(s.is_plotting_finished);
    s.update(&delta(10, true, true, false));
    assert!(s.is_plotting_finished);
}

#[test]
fn final_counters_equal_sum_of_deltas_in_any_order() {
    let deltas = [
        delta(50, false, true, false),
        delta(7, true, false, false),
        delta(0, true, false, true),
        delta(13, false, true, false),
    ];

    let mut forward = SummaryState::new(None);
    for d in deltas.iter() {
        forward.update(d);
    }
    let mut backward = SummaryState::new(None);
    for d in deltas.iter().rev() {
        backward.update(d);
    }

    assert_eq!(forward.total_rewards, 70);
    assert_eq!(forward.farmed_block_count, 2);
    assert_eq!(forward.vote_count, 2);
    assert!(forward.is_plotting_finished);

    assert_eq!(backward.total_rewards, forward.total_rewards);
    assert_eq!(backward.farmed_block_count, forward.farmed_block_count);
    assert_eq!(backward.vote_count, forward.vote_count);
    assert_eq!(backward.is_plotting_finished, forward.is_plotting_finished);
}

#[test]
fn plot_size_hint_is_immutable() {
    let mut s = SummaryState::new(Some(4096));
    s.update(&delta(1, true, true, true));
    assert_eq!(s.plot_size_hint, Some(4096));
}
