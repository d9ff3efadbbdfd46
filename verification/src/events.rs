use vstd::prelude::*;

use crate::sat_cap;
use crate::summary::SummaryUpdate;

verus! {

/// The reward identity a chain event is attributed to.
#[derive(Clone, Copy, Debug, PartialEq, Eq, Structural)]
pub struct RewardIdentity {
    pub id: u64,
}

/// One event out of a block's event list, already classified by kind.
#[derive(Clone, Copy, Debug, PartialEq, Eq, Structural)]
pub enum ChainEvent {
    /// A block reward paid to `beneficiary`.
    BlockReward { beneficiary: RewardIdentity, amount: u64 },
    /// A vote reward paid to `beneficiary`.
    VoteReward { beneficiary: RewardIdentity, amount: u64 },
    /// A vote cast by `beneficiary`.
    VoteCast { beneficiary: RewardIdentity },
    /// Anything the coordinator does not care about.
    Other,
}

/// One block of the engine's new-block stream: its event list and, from the
/// production metadata, the reward identity of the solution that produced
/// it, when there is one.
#[derive(Debug)]
pub struct BlockRecord {
    pub events: Vec<ChainEvent>,
    pub solution_author: Option<RewardIdentity>,
}

/// The reward one event contributes to `who`: the amount of a block or vote
/// reward whose beneficiary is `who`, and nothing otherwise.
pub open spec fn event_reward_for(e: ChainEvent, who: RewardIdentity) -> int {
    match e {
        ChainEvent::BlockReward { beneficiary, amount } => if beneficiary == who {
            amount as int
        } else {
            0
        },
        ChainEvent::VoteReward { beneficiary, amount } => if beneficiary == who {
            amount as int
        } else {
            0
        },
        _ => 0,
    }
}

/// The summed reward a whole event list contributes to `who`.
pub open spec fn rewards_for(events: Seq<ChainEvent>, who: RewardIdentity) -> int
    decreases events.len(),
{
    if events.len() == 0 {
        0
    } else {
        event_reward_for(events[0], who) + rewards_for(events.drop_first(), who)
    }
}

/// Whether one event is a vote cast by `who`.
pub open spec fn is_vote_by(e: ChainEvent, who: RewardIdentity) -> bool {
    e matches ChainEvent::VoteCast { beneficiary } && beneficiary == who
}

/// Whether the first `n` events hold a vote cast by `who`.
pub open spec fn has_vote_in_prefix(events: Seq<ChainEvent>, who: RewardIdentity, n: int) -> bool {
    exists|j: int| 0 <= j < n && is_vote_by(#[trigger] events[j], who)
}

/// Whether the event list holds a vote cast by `who`.
pub open spec fn has_vote_by(events: Seq<ChainEvent>, who: RewardIdentity) -> bool {
    has_vote_in_prefix(events, who, events.len() as int)
}

proof fn lemma_rewards_for_nonneg(events: Seq<ChainEvent>, who: RewardIdentity)
    ensures
        rewards_for(events, who) >= 0,
    decreases events.len(),
{
    if events.len() > 0 {
        lemma_rewards_for_nonneg(events.drop_first(), who);
    }
}

proof fn lemma_rewards_for_take(events: Seq<ChainEvent>, who: RewardIdentity, n: int)
    requires
        0 <= n < events.len(),
    ensures
        rewards_for(events.take(n + 1), who) == rewards_for(events.take(n), who)
            + event_reward_for(events[n], who),
    decreases n,
{
    if n == 0 {
        assert(events.take(1).drop_first() =~= events.take(0));
    } else {
        assert(events.take(n + 1).drop_first() =~= events.drop_first().take(n));
        assert(events.take(n).drop_first() =~= events.drop_first().take(n - 1));
        lemma_rewards_for_take(events.drop_first(), who, n - 1);
    }
}

/// The delta one block contributes to the summary for the configured reward
/// identity: every qualifying reward amount accumulated (saturating), a new
/// vote exactly when the block holds a vote cast by the identity, and a
/// newly farmed block exactly when the block's own solution was produced
/// under the identity. Whether the operator sees console output has no
/// bearing on this delta: the counters stay accurate from block one.
pub fn block_delta(block: &BlockRecord, reward_identity: RewardIdentity) -> (d: SummaryUpdate)
    ensures
        d.new_reward == sat_cap(rewards_for(block.events@, reward_identity)),
        d.is_new_vote == has_vote_by(block.events@, reward_identity),
        d.is_new_block_farmed == (block.solution_author == Some(reward_identity)),
        !d.is_plotting_finished,
{
    let ghost all = block.events@;
    let mut reward: u64 = 0;
    let mut new_vote = false;
    let n = block.events.len();
    let mut i: usize = 0;
    while i < n
        invariant
            n == all.len(),
            all == block.events@,
            0 <= i <= n,
            reward == sat_cap(rewards_for(all.take(i as int), reward_identity)),
            new_vote == has_vote_in_prefix(all, reward_identity, i as int),
        decreases n - i,
    {
        let e = block.events[i];
        proof {
            lemma_rewards_for_take(all, reward_identity, i as int);
            lemma_rewards_for_nonneg(all.take(i as int), reward_identity);
            crate::lemma_sat_cap_chain(
                rewards_for(all.take(i as int), reward_identity),
                event_reward_for(all[i as int], reward_identity),
            );
        }
        match e {
            ChainEvent::BlockReward { beneficiary, amount } => {
                if beneficiary.id == reward_identity.id {
                    reward = crate::saturating_add(reward, amount);
                }
            },
            ChainEvent::VoteReward { beneficiary, amount } => {
                if beneficiary.id == reward_identity.id {
                    reward = crate::saturating_add(reward, amount);
                }
            },
            ChainEvent::VoteCast { beneficiary } => {
                if beneficiary.id == reward_identity.id {
                    new_vote = true;
                    proof {
                        assert(is_vote_by(all[i as int], reward_identity));
                    }
                }
            },
            ChainEvent::Other => {},
        }
        i = i + 1;
    }
    proof {
        assert(all.take(n as int) =~= all);
    }
    let farmed = match &block.solution_author {
        Some(a) => a.id == reward_identity.id,
        None => false,
    };
    SummaryUpdate {
        new_reward: reward,
        is_new_vote: new_vote,
        is_new_block_farmed: farmed,
        is_plotting_finished: false,
    }
}

/// How many console lines the block feed prints for one block's delta: one
/// notification when the initial-progress flag is set and the block brought
/// the identity a reward, a vote or a farmed block; none otherwise.
pub open spec fn spec_block_console_lines(initial_progress_finished: bool, d: SummaryUpdate) -> int {
    if initial_progress_finished && (d.new_reward > 0 || d.is_new_vote || d.is_new_block_farmed) {
        1
    } else {
        0
    }
}

/// Console output the block feed owes the operator for one block: nothing at
/// all while the initial-progress flag is unset — the persisted counters are
/// updated silently so active progress bars stay intact — and one
/// notification once the flag is set and the block brought the identity a
/// reward, a vote or a farmed block.
pub fn block_console_lines(initial_progress_finished: bool, d: &SummaryUpdate) -> (lines: u64)
    ensures
        lines == spec_block_console_lines(initial_progress_finished, *d),
        !initial_progress_finished ==> lines == 0,
{
    if initial_progress_finished && (d.new_reward > 0 || d.is_new_vote || d.is_new_block_farmed) {
        1
    } else {
        0
    }
}

/// Console lines a whole run of block deltas produces under one flag value.
pub open spec fn total_console_lines(initial_progress_finished: bool, ds: Seq<SummaryUpdate>) -> int
    decreases ds.len(),
{
    if ds.len() == 0 {
        0
    } else {
        spec_block_console_lines(initial_progress_finished, ds[0]) + total_console_lines(
            initial_progress_finished,
            ds.drop_first(),
        )
    }
}

/// Console suppression: while the initial-progress flag is unset, any number
/// of qualifying block deltas prints nothing at all, yet the summary still
/// takes every contribution — the counters after the run are exactly what
/// `lemma_updates_sum` gives, with no dependence on the flag.
pub proof fn lemma_suppressed_blocks_still_count(
    s: crate::summary::SummaryState,
    ds: Seq<SummaryUpdate>,
)
    ensures
        total_console_lines(false, ds) == 0,
        crate::summary::apply_all(s, ds).total_rewards == crate::sat_cap(
            s.total_rewards + crate::summary::rewards_contribution(ds),
        ),
        crate::summary::apply_all(s, ds).farmed_block_count == crate::sat_cap(
            s.farmed_block_count + crate::summary::blocks_contribution(ds),
        ),
        crate::summary::apply_all(s, ds).vote_count == crate::sat_cap(
            s.vote_count + crate::summary::votes_contribution(ds),
        ),
    decreases ds.len(),
{
    crate::summary::lemma_updates_sum(s, ds);
    if ds.len() > 0 {
        lemma_suppressed_blocks_still_count(s, ds.drop_first());
    }
}

/// How one of the two infinite feeds was interrupted.
#[derive(Clone, Copy, Debug, PartialEq, Eq, Structural)]
pub enum FeedInterruption {
    /// One item failed (fetching a block's events, reading a batch): a
    /// transient condition.
    ItemError,
    /// The engine closed the stream, as it does during shutdown.
    StreamClosed,
}

/// What the feed's loop does about an interruption.
#[derive(Clone, Copy, Debug, PartialEq, Eq, Structural)]
pub enum FeedPolicy {
    /// Log the condition and keep the feed alive by re-subscribing (or
    /// skipping the failed item); never propagate it as a crash.
    LogAndRetry,
    /// Expected termination: stop without reporting an error.
    EndQuietly,
}

/// The background feeds' failure policy: a transient item error is logged
/// and retried, the engine closing its stream is the expected cancellation
/// signal and no error at all.
pub fn feed_failure_policy(interruption: FeedInterruption) -> (p: FeedPolicy)
    ensures
        p == (match interruption {
            FeedInterruption::ItemError => FeedPolicy::LogAndRetry,
            FeedInterruption::StreamClosed => FeedPolicy::EndQuietly,
        }),
{
    match interruption {
        FeedInterruption::ItemError => FeedPolicy::LogAndRetry,
        FeedInterruption::StreamClosed => FeedPolicy::EndQuietly,
    }
}

/// What the solution feed does with one batch of solutions.
#[derive(Clone, Copy, Debug, PartialEq, Eq, Structural)]
pub enum SolutionAction {
    /// Print nothing.
    Silent,
    /// Overwrite the single status line (carriage return, no newline) with
    /// the cumulative farmed-block count.
    OverwriteStatusLine { farmed_block_count: u64 },
}

/// The solution feed's display decision: a non-empty batch produces exactly
/// one overwritten status line once the initial-progress flag is set, and
/// nothing before that or for an empty batch. This feed is display-only: it
/// never touches the summary.
pub fn solution_batch_action(
    batch_is_empty: bool,
    initial_progress_finished: bool,
    farmed_block_count: u64,
) -> (a: SolutionAction)
    ensures
        a == (if !batch_is_empty && initial_progress_finished {
            SolutionAction::OverwriteStatusLine { farmed_block_count }
        } else {
            SolutionAction::Silent
        }),
{
    if !batch_is_empty && initial_progress_finished {
        SolutionAction::OverwriteStatusLine { farmed_block_count }
    } else {
        SolutionAction::Silent
    }
}

} // verus!
