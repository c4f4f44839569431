//! The sync scheduler: two periodic triggers and a cancellation, at most one
//! sync running at a time, ticks that arrive meanwhile coalesced.

use vstd::prelude::*;

verus! {

/// Where the scheduler stands.
#[derive(Clone, Copy, Debug, PartialEq, Eq, Structural)]
pub enum SchedulerPhase {
    Idle,
    RunningProductSync,
    RunningTransactionSync,
    ShuttingDown,
}

/// What the scheduler is told.
#[derive(Clone, Copy, Debug, PartialEq, Eq, Structural)]
pub enum SchedulerEvent {
    /// The product-sync timer fired.
    ProductTick,
    /// The transaction-sync timer fired.
    TransactionTick,
    /// Shutdown was requested.
    Cancel,
    /// The running sync finished, whether it succeeded or reported a failure.
    SyncFinished,
}

/// What the scheduler asks its driver to do.
#[derive(Clone, Copy, Debug, PartialEq, Eq, Structural)]
pub enum SchedulerAction {
    StartProductSync,
    StartTransactionSync,
    Exit,
    Nothing,
}

/// The scheduler's state: its phase, and whether a shutdown waits for the
/// running sync to finish.
#[derive(Clone, Copy, Debug, PartialEq, Eq, Structural)]
pub struct Scheduler {
    pub phase: SchedulerPhase,
    pub cancel_requested: bool,
}

/// Whether a sync is running.
pub open spec fn is_running(p: SchedulerPhase) -> bool {
    p == SchedulerPhase::RunningProductSync || p == SchedulerPhase::RunningTransactionSync
}

/// The scheduler's transition on one event.
pub open spec fn scheduler_step(s: Scheduler, e: SchedulerEvent) -> (Scheduler, SchedulerAction) {
    match s.phase {
        SchedulerPhase::Idle => match e {
            SchedulerEvent::ProductTick => (
                Scheduler { phase: SchedulerPhase::RunningProductSync, cancel_requested: false },
                SchedulerAction::StartProductSync,
            ),
            SchedulerEvent::TransactionTick => (
                Scheduler { phase: SchedulerPhase::RunningTransactionSync, cancel_requested: false },
                SchedulerAction::StartTransactionSync,
            ),
            SchedulerEvent::Cancel => (
                Scheduler { phase: SchedulerPhase::ShuttingDown, cancel_requested: true },
                SchedulerAction::Exit,
            ),
            SchedulerEvent::SyncFinished => (s, SchedulerAction::Nothing),
        },
        SchedulerPhase::RunningProductSync | SchedulerPhase::RunningTransactionSync => match e {
            SchedulerEvent::Cancel => (
                Scheduler { phase: s.phase, cancel_requested: true },
                SchedulerAction::Nothing,
            ),
            SchedulerEvent::SyncFinished => if s.cancel_requested {
                (Scheduler { phase: SchedulerPhase::ShuttingDown, cancel_requested: true }, SchedulerAction::Exit)
            } else {
                (Scheduler { phase: SchedulerPhase::Idle, cancel_requested: false }, SchedulerAction::Nothing)
            },
            _ => (s, SchedulerAction::Nothing),
        },
        SchedulerPhase::ShuttingDown => (s, SchedulerAction::Nothing),
    }
}

impl Scheduler {
    /// An idle scheduler with no shutdown pending.
    pub fn new() -> (r: Scheduler)
        ensures
            r.phase == SchedulerPhase::Idle,
            !r.cancel_requested,
    {
        Scheduler { phase: SchedulerPhase::Idle, cancel_requested: false }
    }

    /// Takes one event and says what to do. A sync starts only from idle, so
    /// no two run at once; a tick during a sync is dropped; a cancellation
    /// during a sync takes effect when it finishes.
    pub fn handle(&mut self, event: SchedulerEvent) -> (r: SchedulerAction)
        ensures
            (*final(self), r) == scheduler_step(*old(self), event),
            (r == SchedulerAction::StartProductSync || r == SchedulerAction::StartTransactionSync)
                ==> old(self).phase == SchedulerPhase::Idle,
            is_running(old(self).phase) && event != SchedulerEvent::SyncFinished
                ==> r == SchedulerAction::Nothing && final(self).phase == old(self).phase,
            is_running(old(self).phase) && event == SchedulerEvent::SyncFinished
                ==> (r == SchedulerAction::Exit <==> old(self).cancel_requested),
            r == SchedulerAction::Exit ==> final(self).phase == SchedulerPhase::ShuttingDown,
    {
        match self.phase {
            SchedulerPhase::Idle => match event {
                SchedulerEvent::ProductTick => {
                    self.phase = SchedulerPhase::RunningProductSync;
                    self.cancel_requested = false;
                    SchedulerAction::StartProductSync
                },
                SchedulerEvent::TransactionTick => {
                    self.phase = SchedulerPhase::RunningTransactionSync;
                    self.cancel_requested = false;
                    SchedulerAction::StartTransactionSync
                },
                SchedulerEvent::Cancel => {
                    self.phase = SchedulerPhase::ShuttingDown;
                    self.cancel_requested = true;
                    SchedulerAction::Exit
                },
                SchedulerEvent::SyncFinished => SchedulerAction::Nothing,
            },
            SchedulerPhase::RunningProductSync | SchedulerPhase::RunningTransactionSync => match event {
                SchedulerEvent::Cancel => {
                    self.cancel_requested = true;
                    SchedulerAction::Nothing
                },
                SchedulerEvent::SyncFinished => {
                    if self.cancel_requested {
                        self.phase = SchedulerPhase::ShuttingDown;
                        SchedulerAction::Exit
                    } else {
                        self.phase = SchedulerPhase::Idle;
                        SchedulerAction::Nothing
                    }
                },
                _ => SchedulerAction::Nothing,
            },
            SchedulerPhase::ShuttingDown => SchedulerAction::Nothing,
        }
    }
}

} // verus!
