use vstd::prelude::*;

use crate::progress::ProgressCursor;

verus! {

/// How the supervisor waits for the initial chain sync, decided once at
/// startup from the chain kind and the requested display mode.
#[derive(Clone, Copy, Debug, PartialEq, Eq, Structural)]
pub enum SyncMode {
    /// Development chain: no initial sync at all.
    Skip,
    /// Verbose display: block on the engine's own sync-to-completion call,
    /// no progress bar.
    BlockingVerbose,
    /// Normal display: drive the sync-progress stream with a progress bar.
    WithProgressBar,
}

/// The startup decision of the supervisor: a development chain skips the
/// initial sync; otherwise verbose mode blocks on the engine and anything
/// else gets the progress bar.
pub fn sync_mode(chain_is_dev: bool, is_verbose: bool) -> (r: SyncMode)
    ensures
        r == (if chain_is_dev {
            SyncMode::Skip
        } else if is_verbose {
            SyncMode::BlockingVerbose
        } else {
            SyncMode::WithProgressBar
        }),
{
    if chain_is_dev {
        SyncMode::Skip
    } else if is_verbose {
        SyncMode::BlockingVerbose
    } else {
        SyncMode::WithProgressBar
    }
}

/// One item of the engine's sync-progress subscription, or its end.
#[derive(Clone, Copy, Debug)]
pub enum SyncEvent {
    /// The stream yielded a `(current, target)` pair.
    Progress { current: u64, target: u64 },
    /// The finite stream ended: initial sync is complete.
    Ended,
    /// The stream failed; fatal outside development mode.
    Failed,
}

/// What the caller must do to the terminal after one step.
#[derive(Clone, Copy, Debug, PartialEq, Eq, Structural)]
pub enum SyncAction {
    /// First item: put up a bar at this position and length.
    StartBar { current: u64, target: u64 },
    /// Later item: move the existing bar.
    AdvanceBar { current: u64, target: u64 },
    /// Stream ended after at least one item: finish the bar with the
    /// syncing-continues-in-background message.
    FinishBar,
    /// Stream ended before any item: nothing was drawn, nothing to finish.
    NothingToFinish,
    /// Propagate a fatal sync error to the supervisor.
    ReportFatal,
    /// The coordinator is already done; the event has no effect.
    NoEffect,
}

#[derive(Clone, Copy, Debug, PartialEq, Eq, Structural)]
pub enum SyncStatus {
    /// Subscribed, no item seen yet.
    AwaitingFirst,
    /// At least one item seen; a bar is live.
    Tracking,
    /// The stream ended; sync continues in the background.
    Completed,
    /// The stream failed.
    Failed,
}

/// Drives the engine's finite sync-progress stream: the first item starts a
/// progress bar, later items advance it, the end of the stream finishes it,
/// and a stream error is fatal.
#[derive(Clone, Copy, Debug)]
pub struct SyncCoordinator {
    pub status: SyncStatus,
    pub cursor: Option<ProgressCursor>,
}

impl SyncCoordinator {
    /// A bar is live exactly while tracking.
    pub open spec fn wf(self) -> bool {
        self.cursor is Some <==> self.status == SyncStatus::Tracking
    }

    pub fn new() -> (r: SyncCoordinator)
        ensures
            r.wf(),
            r.status == SyncStatus::AwaitingFirst,
    {
        SyncCoordinator { status: SyncStatus::AwaitingFirst, cursor: None }
    }

    /// The coordinator has no more work: its caller returns.
    pub open spec fn spec_is_done(self) -> bool {
        self.status == SyncStatus::Completed || self.status == SyncStatus::Failed
    }

    pub fn is_done(&self) -> (r: bool)
        ensures
            r == self.spec_is_done(),
    {
        match self.status {
            SyncStatus::Completed | SyncStatus::Failed => true,
            _ => false,
        }
    }

    /// The pure transition the executable step is proved against: the first
    /// item puts up a bar at exactly the stream's position and target, each
    /// later item advances that bar monotonically, and the stream's end or
    /// failure drops it.
    pub open spec fn step_spec(self, event: SyncEvent) -> SyncCoordinator {
        match self.status {
            SyncStatus::AwaitingFirst => match event {
                SyncEvent::Progress { current, target } => SyncCoordinator {
                    status: SyncStatus::Tracking,
                    cursor: Some(ProgressCursor { position: current, target, finished: false }),
                },
                SyncEvent::Ended => SyncCoordinator { status: SyncStatus::Completed, cursor: None },
                SyncEvent::Failed => SyncCoordinator { status: SyncStatus::Failed, cursor: None },
            },
            SyncStatus::Tracking => match event {
                SyncEvent::Progress { current, target } => SyncCoordinator {
                    status: SyncStatus::Tracking,
                    cursor: Some(self.cursor->Some_0.spec_advance(current, Some(target))),
                },
                SyncEvent::Ended => SyncCoordinator { status: SyncStatus::Completed, cursor: None },
                SyncEvent::Failed => SyncCoordinator { status: SyncStatus::Failed, cursor: None },
            },
            _ => self,
        }
    }

    /// One step of the sync subscription loop. The new state is exactly
    /// `step_spec`, so the cursor the renderer reads is pinned: before the
    /// first item an item starts the bar at the stream's own numbers; while
    /// tracking an item advances the bar; the end of the stream completes
    /// the coordinator, finishing the bar only if one was started; an error
    /// fails it; once done, further events change nothing.
    pub fn step(&mut self, event: SyncEvent) -> (action: SyncAction)
        requires
            old(self).wf(),
        ensures
            final(self).wf(),
            *final(self) == old(self).step_spec(event),
            action == (match old(self).status {
                SyncStatus::AwaitingFirst => match event {
                    SyncEvent::Progress { current, target } => SyncAction::StartBar {
                        current,
                        target,
                    },
                    SyncEvent::Ended => SyncAction::NothingToFinish,
                    SyncEvent::Failed => SyncAction::ReportFatal,
                },
                SyncStatus::Tracking => match event {
                    SyncEvent::Progress { current, target } => SyncAction::AdvanceBar {
                        current,
                        target,
                    },
                    SyncEvent::Ended => SyncAction::FinishBar,
                    SyncEvent::Failed => SyncAction::ReportFatal,
                },
                _ => SyncAction::NoEffect,
            }),
            old(self).spec_is_done() ==> *final(self) == *old(self),
    {
        match self.status {
            SyncStatus::AwaitingFirst => match event {
                SyncEvent::Progress { current, target } => {
                    let cursor = ProgressCursor::new(current, target);
                    self.cursor = Some(cursor);
                    self.status = SyncStatus::Tracking;
                    SyncAction::StartBar { current, target }
                },
                SyncEvent::Ended => {
                    self.status = SyncStatus::Completed;
                    SyncAction::NothingToFinish
                },
                SyncEvent::Failed => {
                    self.status = SyncStatus::Failed;
                    SyncAction::ReportFatal
                },
            },
            SyncStatus::Tracking => match event {
                SyncEvent::Progress { current, target } => {
                    let mut cursor = match self.cursor {
                        Some(c) => c,
                        None => ProgressCursor::new(current, target),
                    };
                    cursor.advance(current, Some(target));
                    self.cursor = Some(cursor);
                    SyncAction::AdvanceBar { current, target }
                },
                SyncEvent::Ended => {
                    self.cursor = None;
                    self.status = SyncStatus::Completed;
                    SyncAction::FinishBar
                },
                SyncEvent::Failed => {
                    self.cursor = None;
                    self.status = SyncStatus::Failed;
                    SyncAction::ReportFatal
                },
            },
            _ => SyncAction::NoEffect,
        }
    }
}

} // verus!
