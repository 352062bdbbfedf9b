use vstd::prelude::*;
use crate::shutdown::ShutdownCoordinator;

verus! {

/// What a non-blocking check of the driver subprocess reported.
#[derive(Clone, Copy, Debug, PartialEq, Eq, Structural)]
pub enum ChildStatus {
    /// The subprocess is still running.
    Running,
    /// The subprocess has already exited.
    Exited,
    /// The check itself failed.
    Unknown,
}

/// What the supervisor asks its runner to do.
#[derive(Clone, Copy, Debug, PartialEq, Eq, Structural)]
pub enum SupervisorAction {
    /// Nothing to do for now.
    Idle,
    /// Send the subprocess a termination request and await its exit.
    Terminate,
    /// The subprocess could not be checked: report it and finish anyway.
    ReportReapFailure,
    /// The subprocess could not be started: the run is over.
    AbortRun,
}

/// Where the supervisor stands.
#[derive(Clone, Copy, Debug, PartialEq, Eq, Structural)]
pub enum SupervisorPhase {
    /// The subprocess has not been started.
    Starting,
    /// The subprocess runs and listens on its port.
    Listening,
    /// The subprocess could not be started.
    SpawnFailed,
    /// The shutdown signal has been handled.
    Stopped,
}

/// Owner of the automation-driver subprocess, bound to a local port.
#[derive(Clone, Copy, Debug)]
pub struct Supervisor {
    port: u16,
    phase: SupervisorPhase,
}

/// The reaction to the shutdown signal, given what the check of the
/// subprocess reported.
pub open spec fn reap_spec(status: ChildStatus) -> SupervisorAction {
    match status {
        ChildStatus::Running => SupervisorAction::Terminate,
        ChildStatus::Exited => SupervisorAction::Idle,
        ChildStatus::Unknown => SupervisorAction::ReportReapFailure,
    }
}

impl Supervisor {
    pub closed spec fn port_spec(&self) -> u16 {
        self.port
    }

    pub closed spec fn phase_spec(&self) -> SupervisorPhase {
        self.phase
    }

    /// A supervisor for a driver bound to `port`; `None` for port zero.
    pub fn new(port: u16) -> (r: Option<Supervisor>)
        ensures
            port == 0 <==> r is None,
            r matches Some(s) ==> s.port_spec() == port && s.phase_spec() == SupervisorPhase::Starting,
    {
        if port == 0 {
            None
        } else {
            Some(Supervisor { port, phase: SupervisorPhase::Starting })
        }
    }

    /// The port the driver listens on.
    pub fn port(&self) -> (r: u16)
        ensures
            r == self.port_spec(),
    {
        self.port
    }

    pub fn phase(&self) -> (r: SupervisorPhase)
        ensures
            r == self.phase_spec(),
    {
        self.phase
    }

    /// Records the result of the attempt to start the subprocess. A failed
    /// start is fatal to the whole run.
    pub fn spawned(&mut self, ok: bool) -> (r: SupervisorAction)
        ensures
            final(self).port_spec() == old(self).port_spec(),
            old(self).phase_spec() == SupervisorPhase::Starting ==> {
                &&& final(self).phase_spec() == (if ok {
                    SupervisorPhase::Listening
                } else {
                    SupervisorPhase::SpawnFailed
                })
                &&& r == (if ok {
                    SupervisorAction::Idle
                } else {
                    SupervisorAction::AbortRun
                })
            },
            old(self).phase_spec() != SupervisorPhase::Starting ==> final(self).phase_spec()
                == old(self).phase_spec() && r == SupervisorAction::Idle,
    {
        match self.phase {
            SupervisorPhase::Starting => {
                if ok {
                    self.phase = SupervisorPhase::Listening;
                    SupervisorAction::Idle
                } else {
                    self.phase = SupervisorPhase::SpawnFailed;
                    SupervisorAction::AbortRun
                }
            },
            _ => SupervisorAction::Idle,
        }
    }

    /// Whether a browser session may be opened against the driver's port:
    /// only while the subprocess listens.
    pub fn accepts_sessions(&self) -> (r: bool)
        ensures
            r == (self.phase_spec() == SupervisorPhase::Listening),
    {
        match self.phase {
            SupervisorPhase::Listening => true,
            _ => false,
        }
    }

    /// Reacts to the shutdown signal. While the signal is unpublished, or once
    /// the subprocess is no longer supervised, nothing happens; otherwise the
    /// subprocess is terminated unless it has already exited.
    pub fn on_signal(&mut self, bus: &ShutdownCoordinator, status: ChildStatus) -> (r: SupervisorAction)
        ensures
            final(self).port_spec() == old(self).port_spec(),
            (bus@ is Some && old(self).phase_spec() == SupervisorPhase::Listening) ==> {
                &&& final(self).phase_spec() == SupervisorPhase::Stopped
                &&& r == reap_spec(status)
            },
            !(bus@ is Some && old(self).phase_spec() == SupervisorPhase::Listening) ==> {
                &&& final(self).phase_spec() == old(self).phase_spec()
                &&& r == SupervisorAction::Idle
            },
    {
        if bus.is_published() {
            match self.phase {
                SupervisorPhase::Listening => {
                    self.phase = SupervisorPhase::Stopped;
                    match status {
                        ChildStatus::Running => SupervisorAction::Terminate,
                        ChildStatus::Exited => SupervisorAction::Idle,
                        ChildStatus::Unknown => SupervisorAction::ReportReapFailure,
                    }
                },
                _ => SupervisorAction::Idle,
            }
        } else {
            SupervisorAction::Idle
        }
    }
}

} // verus!
