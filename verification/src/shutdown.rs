use vstd::prelude::*;

verus! {

/// Where the supervisor stands in its two-phase shutdown.
#[derive(Clone, Copy, Debug, PartialEq, Eq, Structural)]
pub enum ShutdownState {
    /// All coordinators active.
    Running,
    /// A first interrupt arrived: subscriptions are being cancelled and the
    /// engine handles closed in the background.
    GracefulShutdownRequested,
    /// A second interrupt arrived before the close finished: exit at once.
    ForcedShutdownRequested,
    /// The orderly close finished: both handles reported closed.
    Closed,
}

/// What the shutdown coordinator reacts to: an operating-system interrupt,
/// or the background close routine reporting that the farmer handle and then
/// the node handle have both been closed.
#[derive(Clone, Copy, Debug, PartialEq, Eq, Structural)]
pub enum ShutdownEvent {
    Interrupt,
    CloseFinished,
}

/// What the supervisor must do after one shutdown step.
#[derive(Clone, Copy, Debug, PartialEq, Eq, Structural)]
pub enum ShutdownAction {
    /// Cancel the plotting and solution subscriptions (letting in-flight
    /// summary updates complete) and start the orderly close of the farmer
    /// and node handles in the background.
    BeginGracefulClose,
    /// The close finished before a second interrupt: report graceful
    /// completion and exit.
    ExitGracefully,
    /// A second interrupt won the race: report forced exit and terminate
    /// immediately, without waiting for the close.
    ExitForced,
    /// Nothing to do.
    NoEffect,
}

/// The pure transition of the shutdown state machine. A close can only
/// finish after it was started by a first interrupt, so `CloseFinished`
/// while still `Running` changes nothing; the two exit states absorb every
/// further event.
pub open spec fn shutdown_step(s: ShutdownState, e: ShutdownEvent) -> ShutdownState {
    match (s, e) {
        (ShutdownState::Running, ShutdownEvent::Interrupt) => {
            ShutdownState::GracefulShutdownRequested
        },
        (ShutdownState::Running, ShutdownEvent::CloseFinished) => ShutdownState::Running,
        (ShutdownState::GracefulShutdownRequested, ShutdownEvent::Interrupt) => {
            ShutdownState::ForcedShutdownRequested
        },
        (ShutdownState::GracefulShutdownRequested, ShutdownEvent::CloseFinished) => {
            ShutdownState::Closed
        },
        (done, _) => done,
    }
}

/// The state after a whole sequence of events.
pub open spec fn shutdown_run(s: ShutdownState, evs: Seq<ShutdownEvent>) -> ShutdownState
    decreases evs.len(),
{
    if evs.len() == 0 {
        s
    } else {
        shutdown_run(shutdown_step(s, evs[0]), evs.drop_first())
    }
}

/// Reacts to interrupt signals and to the completion of the background
/// close, sequencing the graceful-then-forced shutdown of the engine.
#[derive(Clone, Copy, Debug)]
pub struct ShutdownCoordinator {
    pub state: ShutdownState,
}

impl ShutdownCoordinator {
    pub fn new() -> (r: ShutdownCoordinator)
        ensures
            r.state == ShutdownState::Running,
    {
        ShutdownCoordinator { state: ShutdownState::Running }
    }

    /// One step of the shutdown race. The first interrupt begins the
    /// graceful close; while it runs, a second interrupt forces an immediate
    /// exit and the close finishing first exits gracefully.
    pub fn step(&mut self, event: ShutdownEvent) -> (action: ShutdownAction)
        ensures
            final(self).state == shutdown_step(old(self).state, event),
            action == (match (old(self).state, event) {
                (ShutdownState::Running, ShutdownEvent::Interrupt) => {
                    ShutdownAction::BeginGracefulClose
                },
                (ShutdownState::GracefulShutdownRequested, ShutdownEvent::Interrupt) => {
                    ShutdownAction::ExitForced
                },
                (ShutdownState::GracefulShutdownRequested, ShutdownEvent::CloseFinished) => {
                    ShutdownAction::ExitGracefully
                },
                _ => ShutdownAction::NoEffect,
            }),
    {
        match (self.state, event) {
            (ShutdownState::Running, ShutdownEvent::Interrupt) => {
                self.state = ShutdownState::GracefulShutdownRequested;
                ShutdownAction::BeginGracefulClose
            },
            (ShutdownState::Running, ShutdownEvent::CloseFinished) => ShutdownAction::NoEffect,
            (ShutdownState::GracefulShutdownRequested, ShutdownEvent::Interrupt) => {
                self.state = ShutdownState::ForcedShutdownRequested;
                ShutdownAction::ExitForced
            },
            (ShutdownState::GracefulShutdownRequested, ShutdownEvent::CloseFinished) => {
                self.state = ShutdownState::Closed;
                ShutdownAction::ExitGracefully
            },
            _ => ShutdownAction::NoEffect,
        }
    }
}

/// The position of the first interrupt in a run, or the run's length when
/// no interrupt ever arrives.
pub open spec fn first_interrupt(evs: Seq<ShutdownEvent>) -> int
    decreases evs.len(),
{
    if evs.len() == 0 {
        0
    } else if evs[0] == ShutdownEvent::Interrupt {
        0
    } else {
        1 + first_interrupt(evs.drop_first())
    }
}

proof fn lemma_first_interrupt_bounds(evs: Seq<ShutdownEvent>)
    ensures
        0 <= first_interrupt(evs) <= evs.len(),
        first_interrupt(evs) < evs.len() ==> evs[first_interrupt(evs)] == ShutdownEvent::Interrupt,
    decreases evs.len(),
{
    if evs.len() > 0 && evs[0] != ShutdownEvent::Interrupt {
        lemma_first_interrupt_bounds(evs.drop_first());
    }
}

/// A forced shutdown is terminal: no later event leaves it.
proof fn lemma_forced_stays_forced(evs: Seq<ShutdownEvent>)
    ensures
        shutdown_run(ShutdownState::ForcedShutdownRequested, evs)
            == ShutdownState::ForcedShutdownRequested,
    decreases evs.len(),
{
    if evs.len() > 0 {
        lemma_forced_stays_forced(evs.drop_first());
    }
}

/// A closed shutdown is terminal: no later event leaves it.
proof fn lemma_closed_stays_closed(evs: Seq<ShutdownEvent>)
    ensures
        shutdown_run(ShutdownState::Closed, evs) == ShutdownState::Closed,
    decreases evs.len(),
{
    if evs.len() > 0 {
        lemma_closed_stays_closed(evs.drop_first());
    }
}

/// Two-phase shutdown, end to end. Starting from `Running`, the outcome of
/// any run is decided by the first interrupt and the one event after it:
/// with no interrupt at all the supervisor keeps running, a first interrupt
/// with nothing after it leaves the graceful close in flight, a second
/// interrupt right after the first forces an immediate exit regardless of
/// the close's progress, and the process reaches `Closed` — the graceful
/// exit — only when the event that follows the first interrupt is the close
/// reporting both handles closed.
pub proof fn lemma_two_phase_shutdown(evs: Seq<ShutdownEvent>)
    ensures
        shutdown_run(ShutdownState::Running, evs) == ({
            let fi = first_interrupt(evs);
            if fi == evs.len() {
                ShutdownState::Running
            } else if fi + 1 == evs.len() {
                ShutdownState::GracefulShutdownRequested
            } else if evs[fi + 1] == ShutdownEvent::Interrupt {
                ShutdownState::ForcedShutdownRequested
            } else {
                ShutdownState::Closed
            }
        }),
    decreases evs.len(),
{
    lemma_first_interrupt_bounds(evs);
    if evs.len() == 0 {
    } else if evs[0] == ShutdownEvent::Interrupt {
        let rest = evs.drop_first();
        assert(shutdown_run(ShutdownState::Running, evs) == shutdown_run(
            ShutdownState::GracefulShutdownRequested,
            rest,
        ));
        if rest.len() > 0 {
            assert(rest[0] == evs[1]);
            let rest2 = rest.drop_first();
            if rest[0] == ShutdownEvent::Interrupt {
                assert(shutdown_run(ShutdownState::GracefulShutdownRequested, rest)
                    == shutdown_run(ShutdownState::ForcedShutdownRequested, rest2));
                lemma_forced_stays_forced(rest2);
            } else {
                assert(shutdown_run(ShutdownState::GracefulShutdownRequested, rest)
                    == shutdown_run(ShutdownState::Closed, rest2));
                lemma_closed_stays_closed(rest2);
            }
        }
    } else {
        let rest = evs.drop_first();
        assert(shutdown_run(ShutdownState::Running, evs) == shutdown_run(
            ShutdownState::Running,
            rest,
        ));
        lemma_two_phase_shutdown(rest);
        lemma_first_interrupt_bounds(rest);
        let fi2 = first_interrupt(rest);
        assert(first_interrupt(evs) == 1 + fi2);
        if fi2 + 1 < rest.len() {
            assert(rest[fi2 + 1] == evs[fi2 + 2]);
        }
    }
}

} // verus!
