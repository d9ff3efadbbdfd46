use vstd::prelude::*;

use crate::lemma_sat_cap_chain;
use crate::sat_add;
use crate::sat_cap;

verus! {

/// The persisted counter aggregate of the farming supervisor: how many blocks
/// the operator's reward identity farmed, how many votes it cast, the total
/// rewards it earned, and whether the initial plotting of every storage unit
/// has completed.
///
/// All counters are monotone; `is_plotting_finished` goes from `false` to
/// `true` at most once and never reverts; `plot_size_hint` is fixed at
/// creation and used only for display.
#[derive(Clone, Copy, Debug)]
pub struct SummaryState {
    pub farmed_block_count: u64,
    pub vote_count: u64,
    pub total_rewards: u64,
    pub is_plotting_finished: bool,
    pub plot_size_hint: Option<u64>,
}

/// A partial-update record: the delta that one block (or the plotting
/// coordinator) contributes to the summary.
#[derive(Clone, Copy, Debug)]
pub struct SummaryUpdate {
    /// Reward amount earned in this delta; zero when none.
    pub new_reward: u64,
    pub is_new_vote: bool,
    pub is_new_block_farmed: bool,
    pub is_plotting_finished: bool,
}

impl SummaryUpdate {
    /// A delta that changes nothing.
    pub fn none() -> (r: SummaryUpdate)
        ensures
            r.new_reward == 0,
            !r.is_new_vote,
            !r.is_new_block_farmed,
            !r.is_plotting_finished,
    {
        SummaryUpdate {
            new_reward: 0,
            is_new_vote: false,
            is_new_block_farmed: false,
            is_plotting_finished: false,
        }
    }
}

/// What one delta does to the summary: counters go up by the delta's
/// contribution, saturating at `u64::MAX`; the plotting flag latches;
/// the plot size hint never changes.
pub open spec fn applied(s: SummaryState, d: SummaryUpdate) -> SummaryState {
    SummaryState {
        farmed_block_count: sat_add(
            s.farmed_block_count,
            if d.is_new_block_farmed {
                1
            } else {
                0
            },
        ),
        vote_count: sat_add(
            s.vote_count,
            if d.is_new_vote {
                1
            } else {
                0
            },
        ),
        total_rewards: sat_add(s.total_rewards, d.new_reward),
        is_plotting_finished: s.is_plotting_finished || d.is_plotting_finished,
        plot_size_hint: s.plot_size_hint,
    }
}

/// Applying a whole sequence of deltas, first element first.
pub open spec fn apply_all(s: SummaryState, ds: Seq<SummaryUpdate>) -> SummaryState
    decreases ds.len(),
{
    if ds.len() == 0 {
        s
    } else {
        apply_all(applied(s, ds[0]), ds.drop_first())
    }
}

/// Total reward contribution of a sequence of deltas, as an unbounded integer.
pub open spec fn rewards_contribution(ds: Seq<SummaryUpdate>) -> int
    decreases ds.len(),
{
    if ds.len() == 0 {
        0
    } else {
        ds[0].new_reward + rewards_contribution(ds.drop_first())
    }
}

/// How many deltas mark a newly farmed block.
pub open spec fn blocks_contribution(ds: Seq<SummaryUpdate>) -> int
    decreases ds.len(),
{
    if ds.len() == 0 {
        0
    } else {
        (if ds[0].is_new_block_farmed {
            1int
        } else {
            0int
        }) + blocks_contribution(ds.drop_first())
    }
}

/// How many deltas mark a new vote.
pub open spec fn votes_contribution(ds: Seq<SummaryUpdate>) -> int
    decreases ds.len(),
{
    if ds.len() == 0 {
        0
    } else {
        (if ds[0].is_new_vote {
            1int
        } else {
            0int
        }) + votes_contribution(ds.drop_first())
    }
}

/// Whether any delta in the sequence sets the plotting-finished flag.
pub open spec fn any_finishes_plotting(ds: Seq<SummaryUpdate>) -> bool
    decreases ds.len(),
{
    if ds.len() == 0 {
        false
    } else {
        ds[0].is_plotting_finished || any_finishes_plotting(ds.drop_first())
    }
}

proof fn lemma_contributions_nonneg(ds: Seq<SummaryUpdate>)
    ensures
        rewards_contribution(ds) >= 0,
        blocks_contribution(ds) >= 0,
        votes_contribution(ds) >= 0,
    decreases ds.len(),
{
    if ds.len() > 0 {
        lemma_contributions_nonneg(ds.drop_first());
    }
}

impl SummaryState {
    /// A fresh summary: every counter at zero, plotting not yet finished.
    pub fn new(plot_size_hint: Option<u64>) -> (r: SummaryState)
        ensures
            r.farmed_block_count == 0,
            r.vote_count == 0,
            r.total_rewards == 0,
            !r.is_plotting_finished,
            r.plot_size_hint == plot_size_hint,
    {
        SummaryState {
            farmed_block_count: 0,
            vote_count: 0,
            total_rewards: 0,
            is_plotting_finished: false,
            plot_size_hint,
        }
    }

    /// The single serialized update entry point: applies one delta atomically.
    /// Counters never decrease and the plotting flag never reverts; callers
    /// that need the exact result have it as `applied(*old(self), *d)`.
    pub fn update(&mut self, d: &SummaryUpdate)
        ensures
            *final(self) == applied(*old(self), *d),
            final(self).farmed_block_count >= old(self).farmed_block_count,
            final(self).vote_count >= old(self).vote_count,
            final(self).total_rewards >= old(self).total_rewards,
            final(self).is_plotting_finished == (old(self).is_plotting_finished
                || d.is_plotting_finished),
            final(self).plot_size_hint == old(self).plot_size_hint,
    {
        let block_inc: u64 = if d.is_new_block_farmed {
            1
        } else {
            0
        };
        let vote_inc: u64 = if d.is_new_vote {
            1
        } else {
            0
        };
        self.farmed_block_count = crate::saturating_add(self.farmed_block_count, block_inc);
        self.vote_count = crate::saturating_add(self.vote_count, vote_inc);
        self.total_rewards = crate::saturating_add(self.total_rewards, d.new_reward);
        self.is_plotting_finished = self.is_plotting_finished || d.is_plotting_finished;
    }

    /// A point-in-time snapshot of the latest committed state.
    pub fn snapshot(&self) -> (r: SummaryState)
        ensures
            r == *self,
    {
        *self
    }
}

/// Serialization invariant: however a batch of deltas is interleaved, the
/// serialized update entry point applies them one at a time, so the final
/// counters depend only on the deltas' summed contributions — each counter is
/// the initial value plus the total contribution, saturating at `u64::MAX`,
/// and the plotting flag is set exactly when it was set before or some delta
/// sets it.
pub proof fn lemma_updates_sum(s: SummaryState, ds: Seq<SummaryUpdate>)
    ensures
        apply_all(s, ds).farmed_block_count == sat_cap(
            s.farmed_block_count + blocks_contribution(ds),
        ),
        apply_all(s, ds).vote_count == sat_cap(s.vote_count + votes_contribution(ds)),
        apply_all(s, ds).total_rewards == sat_cap(s.total_rewards + rewards_contribution(ds)),
        apply_all(s, ds).is_plotting_finished == (s.is_plotting_finished || any_finishes_plotting(
            ds,
        )),
        apply_all(s, ds).plot_size_hint == s.plot_size_hint,
    decreases ds.len(),
{
    if ds.len() == 0 {
    } else {
        let s1 = applied(s, ds[0]);
        lemma_updates_sum(s1, ds.drop_first());
        lemma_contributions_nonneg(ds.drop_first());
        lemma_sat_cap_chain(
            s.farmed_block_count + (if ds[0].is_new_block_farmed {
                1int
            } else {
                0int
            }),
            blocks_contribution(ds.drop_first()),
        );
        lemma_sat_cap_chain(
            s.vote_count + (if ds[0].is_new_vote {
                1int
            } else {
                0int
            }),
            votes_contribution(ds.drop_first()),
        );
        lemma_sat_cap_chain(
            s.total_rewards + ds[0].new_reward,
            rewards_contribution(ds.drop_first()),
        );
    }
}

/// The serialization invariant with plain sums: block and vote counts are
/// not expected to saturate in practice, and wherever their unbounded sums
/// fit in `u64` the final counters equal the initial value plus exactly the
/// count of deltas contributing; `total_rewards` saturates by design and is
/// always the capped sum.
pub proof fn lemma_updates_sum_exact(s: SummaryState, ds: Seq<SummaryUpdate>)
    requires
        s.farmed_block_count + blocks_contribution(ds) <= u64::MAX,
        s.vote_count + votes_contribution(ds) <= u64::MAX,
    ensures
        apply_all(s, ds).farmed_block_count == s.farmed_block_count + blocks_contribution(ds),
        apply_all(s, ds).vote_count == s.vote_count + votes_contribution(ds),
        apply_all(s, ds).total_rewards == sat_cap(s.total_rewards + rewards_contribution(ds)),
{
    lemma_updates_sum(s, ds);
    lemma_contributions_nonneg(ds);
}

/// Two deltas commute: the summary after `a` then `b` equals the summary
/// after `b` then `a`, so the order in which serialized updates land does not
/// change the final counters.
pub proof fn lemma_update_commutes(s: SummaryState, a: SummaryUpdate, b: SummaryUpdate)
    ensures
        applied(applied(s, a), b) == applied(applied(s, b), a),
{
}

} // verus!
