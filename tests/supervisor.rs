use bank_statements::shutdown::{ShutdownCause, ShutdownCoordinator};
use bank_statements::supervisor::{ChildStatus, Supervisor, SupervisorAction, SupervisorPhase};

#[test]
fn port_zero_is_refused() {
    assert!(Supervisor::new(0).is_none());
    assert_eq!(Supervisor::new(4444).unwrap().port(), 4444);
}

#[test]
fn failed_spawn_aborts_the_run() {
    let mut s = Supervisor::new(4444).unwrap();
    assert!(!s.accepts_sessions());
    assert_eq!(s.spawned(false), SupervisorAction::AbortRun);
    assert_eq!(s.phase(), SupervisorPhase::SpawnFailed);
    assert!(!s.accepts_sessions());
}

#[test]
fn running_driver_is_terminated_on_shutdown() {
    let mut bus = ShutdownCoordinator::new();
    let mut s = Supervisor::new(4444).unwrap();
    assert_eq!(s.spawned(true), SupervisorAction::Idle);
    assert!(s.accepts_sessions());
    assert_eq!(s.on_signal(&bus, ChildStatus::Running), SupervisorAction::Idle);
    assert_eq!(s.phase(), SupervisorPhase::Listening);
    bus.publish(ShutdownCause::Interrupt);
    assert_eq!(s.on_signal(&bus, ChildStatus::Running), SupervisorAction::Terminate);
    assert_eq!(s.phase(), SupervisorPhase::Stopped);
    assert_eq!(s.on_signal(&bus, ChildStatus::Running), SupervisorAction::Idle);
}

#[test]
fn every_cause_stops_the_driver() {
    for cause in [ShutdownCause::Interrupt, ShutdownCause::Completed, ShutdownCause::Failed] {
        let mut bus = ShutdownCoordinator::new();
        let mut s = Supervisor::new(1).unwrap();
        s.spawned(true);
        bus.publish(cause);
        assert_eq!(s.on_signal(&bus, ChildStatus::Running), SupervisorAction::Terminate);
    }
}

#[test]
fn exited_or_unknown_driver() {
    let mut bus = ShutdownCoordinator::new();
    bus.publish(ShutdownCause::Completed);
    let mut s = Supervisor::new(4444).unwrap();
    s.spawned(true);
    assert_eq!(s.on_signal(&bus, ChildStatus::Exited), SupervisorAction::Idle);
    assert_eq!(s.phase(), SupervisorPhase::Stopped);
    let mut t = Supervisor::new(4444).unwrap();
    t.spawned(true);
    assert_eq!(t.on_signal(&bus, ChildStatus::Unknown), SupervisorAction::ReportReapFailure);
}
