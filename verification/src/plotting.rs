use vstd::prelude::*;

use crate::progress::ProgressCursor;
use crate::sat_mul;

verus! {

/// One item of a storage unit's initial-plotting-progress subscription, or
/// the end of that finite stream.
#[derive(Clone, Copy, Debug, PartialEq, Eq, Structural)]
pub enum PlotEvent {
    /// The stream yielded a sector index; cumulative plotted bytes are the
    /// index times the sector size.
    Sector { current_sector: u64 },
    /// The unit's stream ended: its initial plotting is done.
    StreamEnded,
}

/// What the caller must do to the terminal (and, at the very end, to the
/// summary) after one plotting step.
#[derive(Clone, Copy, Debug, PartialEq, Eq, Structural)]
pub enum PlotAction {
    /// First item of a unit: put up this unit's bar.
    StartBar { bar: ProgressCursor },
    /// Later item: move the unit's bar.
    AdvanceBar { bar: ProgressCursor },
    /// The unit's stream ended; `bar` is the finished bar to draw. A stream
    /// that yielded no items was already plotted before subscription, so
    /// `bar` shows 100% immediately. When `all_done` holds, the caller must
    /// set the process-wide initial-progress flag and issue a best-effort
    /// summary update marking plotting finished.
    FinishUnit { was_empty: bool, bar: ProgressCursor, all_done: bool },
    /// Every unit is already drained; the event has no effect.
    NoEffect,
}

/// Drives the initial plot-building of every storage unit, strictly one unit
/// at a time in the engine's enumeration order: one visible bar per unit.
/// When the last unit's stream ends the coordinator flips `all_finished`,
/// the process-wide "initial progress finished" flag.
#[derive(Debug)]
pub struct PlottingCoordinator {
    /// Total allocated bytes of each storage unit, in enumeration order.
    pub unit_sizes: Vec<u64>,
    /// Bytes one plotted sector stands for.
    pub sector_size: u64,
    /// How many units have been fully drained so far.
    pub units_done: usize,
    /// Whether the current unit's stream has yielded at least one item.
    pub unit_started: bool,
    /// The live bar of the current unit, if one is up.
    pub cursor: Option<ProgressCursor>,
    /// True exactly when every unit has been drained.
    pub all_finished: bool,
}

impl PlottingCoordinator {
    pub open spec fn wf(self) -> bool {
        &&& self.unit_sizes@.len() <= usize::MAX
        &&& self.units_done <= self.unit_sizes@.len()
        &&& (self.all_finished <==> self.units_done == self.unit_sizes@.len())
        &&& (self.cursor is Some <==> (self.unit_started && !self.all_finished))
        &&& (self.cursor matches Some(c) ==> !c.finished && c.target
            == self.unit_sizes@[self.units_done as int])
    }

    /// A coordinator over the given units. A farm with no storage units has
    /// nothing to plot: the flag starts true.
    pub fn new(unit_sizes: Vec<u64>, sector_size: u64) -> (r: PlottingCoordinator)
        ensures
            r.wf(),
            r.unit_sizes@ == unit_sizes@,
            r.sector_size == sector_size,
            r.units_done == 0,
            !r.unit_started,
            r.all_finished <==> unit_sizes@.len() == 0,
    {
        let all_finished = unit_sizes.len() == 0;
        PlottingCoordinator {
            unit_sizes,
            sector_size,
            units_done: 0,
            unit_started: false,
            cursor: None,
            all_finished,
        }
    }

    /// The pure transition the executable step is proved against.
    pub open spec fn step_spec(self, event: PlotEvent) -> PlottingCoordinator {
        if self.all_finished {
            self
        } else {
            match event {
                PlotEvent::Sector { current_sector } => {
                    let total = self.unit_sizes@[self.units_done as int];
                    let pos = sat_mul(current_sector, self.sector_size);
                    let bar = if !self.unit_started {
                        ProgressCursor { position: pos, target: total, finished: false }
                    } else {
                        let c = self.cursor->Some_0;
                        ProgressCursor {
                            position: if pos >= c.position {
                                pos
                            } else {
                                c.position
                            },
                            ..c
                        }
                    };
                    PlottingCoordinator { unit_started: true, cursor: Some(bar), ..self }
                },
                PlotEvent::StreamEnded => {
                    PlottingCoordinator {
                        units_done: (self.units_done + 1) as usize,
                        unit_started: false,
                        cursor: None,
                        all_finished: self.units_done + 1 == self.unit_sizes@.len(),
                        ..self
                    }
                },
            }
        }
    }

    /// One step of the plotting subscription loop for the current unit. The
    /// state moves exactly as `step_spec` says; the action tells the caller
    /// which bar to draw, and a unit whose stream ended without a single
    /// item gets a bar that is already 100% complete.
    pub fn step(&mut self, event: PlotEvent) -> (action: PlotAction)
        requires
            old(self).wf(),
        ensures
            final(self).wf(),
            *final(self) == old(self).step_spec(event),
            action == (if old(self).all_finished {
                PlotAction::NoEffect
            } else {
                match event {
                    PlotEvent::Sector { .. } => if !old(self).unit_started {
                        PlotAction::StartBar { bar: final(self).cursor->Some_0 }
                    } else {
                        PlotAction::AdvanceBar { bar: final(self).cursor->Some_0 }
                    },
                    PlotEvent::StreamEnded => (PlotAction::FinishUnit {
                        was_empty: !old(self).unit_started,
                        bar: ({
                            let total = old(self).unit_sizes@[old(self).units_done as int];
                            let live = if old(self).unit_started {
                                old(self).cursor->Some_0
                            } else {
                                ProgressCursor { position: total, target: total, finished: false }
                            };
                            ProgressCursor {
                                position: if live.position >= live.target {
                                    live.position
                                } else {
                                    live.target
                                },
                                target: live.target,
                                finished: true,
                            }
                        }),
                        all_done: final(self).all_finished,
                    }),
                }
            }),
            (action matches PlotAction::FinishUnit { bar, .. } ==> bar.finished
                && bar.spec_is_complete() && bar.spec_percent() == 100),
    {
        if self.all_finished {
            return PlotAction::NoEffect;
        }
        let total = self.unit_sizes[self.units_done];
        match event {
            PlotEvent::Sector { current_sector } => {
                let pos = crate::saturating_mul(current_sector, self.sector_size);
                if !self.unit_started {
                    let bar = ProgressCursor::new(pos, total);
                    self.unit_started = true;
                    self.cursor = Some(bar);
                    PlotAction::StartBar { bar }
                } else {
                    let mut bar = match self.cursor {
                        Some(c) => c,
                        None => ProgressCursor::new(0, total),
                    };
                    bar.advance(pos, None);
                    self.cursor = Some(bar);
                    PlotAction::AdvanceBar { bar }
                }
            },
            PlotEvent::StreamEnded => {
                let was_empty = !self.unit_started;
                let mut bar = match self.cursor {
                    Some(c) => c,
                    None => ProgressCursor::new(total, total),
                };
                bar.finish();
                self.units_done = self.units_done + 1;
                self.unit_started = false;
                self.cursor = None;
                self.all_finished = self.units_done == self.unit_sizes.len();
                PlotAction::FinishUnit { was_empty, bar, all_done: self.all_finished }
            },
        }
    }
}

/// How many events of a sequence end a unit's stream.
pub open spec fn ended_count(evs: Seq<PlotEvent>) -> int
    decreases evs.len(),
{
    if evs.len() == 0 {
        0
    } else {
        (if evs[0] is StreamEnded {
            1int
        } else {
            0int
        }) + ended_count(evs.drop_first())
    }
}

/// The coordinator after a whole sequence of events.
pub open spec fn plot_run(c: PlottingCoordinator, evs: Seq<PlotEvent>) -> PlottingCoordinator
    decreases evs.len(),
{
    if evs.len() == 0 {
        c
    } else {
        plot_run(c.step_spec(evs[0]), evs.drop_first())
    }
}

proof fn lemma_ended_count_nonneg(evs: Seq<PlotEvent>)
    ensures
        ended_count(evs) >= 0,
    decreases evs.len(),
{
    if evs.len() > 0 {
        lemma_ended_count_nonneg(evs.drop_first());
    }
}

proof fn lemma_step_spec_wf(c: PlottingCoordinator, e: PlotEvent)
    requires
        c.wf(),
    ensures
        c.step_spec(e).wf(),
{
}

/// The initial-progress flag is driven by drained units alone: after any
/// sequence of events, the flag is set exactly when the streams already
/// drained plus the stream ends in the sequence cover every storage unit.
/// In particular it is false until the last unit's stream has ended, becomes
/// true at that point, and — since the count of ends never decreases — stays
/// true from then on.
pub proof fn lemma_flag_counts_drained_units(c: PlottingCoordinator, evs: Seq<PlotEvent>)
    requires
        c.wf(),
    ensures
        plot_run(c, evs).wf(),
        plot_run(c, evs).all_finished <==> c.units_done + ended_count(evs)
            >= c.unit_sizes@.len(),
        plot_run(c, evs).unit_sizes@ == c.unit_sizes@,
    decreases evs.len(),
{
    lemma_ended_count_nonneg(evs);
    if evs.len() > 0 {
        lemma_step_spec_wf(c, evs[0]);
        lemma_flag_counts_drained_units(c.step_spec(evs[0]), evs.drop_first());
        lemma_ended_count_nonneg(evs.drop_first());
    }
}

/// The flag never reverts: once a run sets it, any further events leave it
/// set.
pub proof fn lemma_flag_latches(c: PlottingCoordinator, evs: Seq<PlotEvent>, more: Seq<PlotEvent>)
    requires
        c.wf(),
        plot_run(c, evs).all_finished,
    ensures
        plot_run(c, evs + more).all_finished,
{
    lemma_flag_counts_drained_units(c, evs);
    lemma_flag_counts_drained_units(c, evs + more);
    lemma_ended_count_append(evs, more);
    lemma_ended_count_nonneg(more);
}

proof fn lemma_ended_count_append(a: Seq<PlotEvent>, b: Seq<PlotEvent>)
    ensures
        ended_count(a + b) == ended_count(a) + ended_count(b),
    decreases a.len(),
{
    if a.len() == 0 {
        assert(a + b =~= b);
    } else {
        assert((a + b).drop_first() =~= a.drop_first() + b);
        lemma_ended_count_append(a.drop_first(), b);
    }
}

} // verus!
