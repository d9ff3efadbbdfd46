use subspace_cli::events::{
    block_console_lines, block_delta, feed_failure_policy, solution_batch_action, BlockRecord,
    ChainEvent, FeedInterruption, FeedPolicy, RewardIdentity, SolutionAction,
};
use subspace_cli::summary::SummaryState;

const ME: RewardIdentity = RewardIdentity { id: 7 };
const OTHER: RewardIdentity = RewardIdentity { id: 9 };

#[test]
fn qualifying_rewards_accumulate() {
    let block = BlockRecord {
        events: vec![
            ChainEvent::BlockReward { beneficiary: ME, amount: 50 },
            ChainEvent::VoteReward { beneficiary: ME, amount: 20 },
            ChainEvent::BlockReward { beneficiary: OTHER, amount: 1000 },
            ChainEvent::Other,
        ],
        solution_author: None,
    };
    let d = block_delta(&block, ME);
    assert_eq!(d.new_reward, 70);
    assert!(!d.is_new_vote);
    assert!(!d.is_new_block_farmed);
    assert!(!d.is_plotting_finished);
}

#[test]
fn vote_cast_by_identity_is_detected() {
    let block = BlockRecord {
        events: vec![
            ChainEvent::VoteCast { beneficiary: OTHER },
            ChainEvent::VoteCast { beneficiary: ME },
        ],
        solution_author: None,
    };
    let d = block_delta(&block, ME);
    assert!(d.is_new_vote);
    assert_eq!(d.new_reward, 0);
}

#[test]
fn own_solution_marks_block_as_farmed() {
    let mine = BlockRecord { events: vec![], solution_author: Some(ME) };
    assert!(block_delta(&mine, ME).is_new_block_farmed);

    let theirs = BlockRecord { events: vec![], solution_author: Some(OTHER) };
    assert!(!block_delta(&theirs, ME).is_new_block_farmed);

    let nobody = BlockRecord { events: vec![], solution_author: None };
    assert!(!block_delta(&nobody, ME).is_new_block_farmed);
}

#[test]
fn counters_update_while_console_stays_silent() {
    // A block reward of 50 for the configured identity arrives while the
    // initial-progress flag is still unset: the summary gains the reward,
    // and not one console line is printed for the block.
    let block = BlockRecord {
        events: vec![ChainEvent::BlockReward { beneficiary: ME, amount: 50 }],
        solution_author: None,
    };
    let d = block_delta(&block, ME);

    let mut summary = SummaryState::new(None);
    let before = summary.total_rewards;
    summary.update(&d);
    assert_eq!(summary.total_rewards, before + 50);
    assert_eq!(block_console_lines(false, &d), 0);

    // Once the flag is set, the same qualifying delta yields a notification.
    assert_eq!(block_console_lines(true, &d), 1);
}

#[test]
fn solution_feed_prints_one_line_per_qualifying_batch() {
    assert_eq!(
        solution_batch_action(false, true, 3),
        SolutionAction::OverwriteStatusLine { farmed_block_count: 3 }
    );
    assert_eq!(solution_batch_action(false, false, 3), SolutionAction::Silent);
    assert_eq!(solution_batch_action(true, true, 3), SolutionAction::Silent);
    assert_eq!(solution_batch_action(true, false, 3), SolutionAction::Silent);
}

#[test]
fn transient_errors_retry_and_stream_closure_ends_quietly() {
    assert_eq!(feed_failure_policy(FeedInterruption::ItemError), FeedPolicy::LogAndRetry);
    assert_eq!(feed_failure_policy(FeedInterruption::StreamClosed), FeedPolicy::EndQuietly);
}

#[test]
fn reward_accumulation_saturates() {
    let block = BlockRecord {
        events: vec![
            ChainEvent::BlockReward { beneficiary: ME, amount: u64::MAX },
            ChainEvent::VoteReward { beneficiary: ME, amount: 5 },
        ],
        solution_author: None,
    };
    assert_eq!(block_delta(&block, ME).new_reward, u64::MAX);
}
