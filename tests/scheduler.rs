use ingestion::scheduler::{Scheduler, SchedulerAction, SchedulerEvent, SchedulerPhase};

#[test]
fn ticks_start_syncs_from_idle() {
    let mut s = Scheduler::new();
    assert_eq!(s.handle(SchedulerEvent::ProductTick), SchedulerAction::StartProductSync);
    assert_eq!(s.phase, SchedulerPhase::RunningProductSync);
    assert_eq!(s.handle(SchedulerEvent::SyncFinished), SchedulerAction::Nothing);
    assert_eq!(s.phase, SchedulerPhase::Idle);
    assert_eq!(s.handle(SchedulerEvent::TransactionTick), SchedulerAction::StartTransactionSync);
    assert_eq!(s.phase, SchedulerPhase::RunningTransactionSync);
}

#[test]
fn ticks_during_a_sync_are_coalesced() {
    let mut s = Scheduler::new();
    s.handle(SchedulerEvent::TransactionTick);
    assert_eq!(s.handle(SchedulerEvent::ProductTick), SchedulerAction::Nothing);
    assert_eq!(s.handle(SchedulerEvent::TransactionTick), SchedulerAction::Nothing);
    assert_eq!(s.phase, SchedulerPhase::RunningTransactionSync);
    assert_eq!(s.handle(SchedulerEvent::SyncFinished), SchedulerAction::Nothing);
    assert_eq!(s.phase, SchedulerPhase::Idle);
}

#[test]
fn cancel_waits_for_the_running_sync() {
    let mut s = Scheduler::new();
    s.handle(SchedulerEvent::ProductTick);
    assert_eq!(s.handle(SchedulerEvent::Cancel), SchedulerAction::Nothing);
    assert_eq!(s.phase, SchedulerPhase::RunningProductSync);
    assert_eq!(s.handle(SchedulerEvent::SyncFinished), SchedulerAction::Exit);
    assert_eq!(s.phase, SchedulerPhase::ShuttingDown);
    assert_eq!(s.handle(SchedulerEvent::ProductTick), SchedulerAction::Nothing);
}

#[test]
fn cancel_when_idle_exits_at_once() {
    let mut s = Scheduler::new();
    assert_eq!(s.handle(SchedulerEvent::Cancel), SchedulerAction::Exit);
    assert_eq!(s.phase, SchedulerPhase::ShuttingDown);
}
