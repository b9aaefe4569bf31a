//! The lifecycle orchestrator of one virtual machine.
//!
//! The orchestrator decides; it runs nothing itself. Its caller performs each
//! [`Action`] and hands back what happened as an [`Event`]. Starting a machine
//! spawns the socket forwarder, then the network backend, polls until the
//! backend's socket exists, spawns the hypervisor and polls until the guest
//! reports ready. Once the hypervisor has exited, both sidecars are signalled and
//! then awaited, in that order.
//!
//! A failure of a spawn or of a wait is fatal to the operation: the machine is
//! shown as not running again, and nothing that was started is cleaned up.
//!
//! A machine that was found running when the registry was scanned is adopted:
//! its processes are not this orchestrator's, so all it can do to stop it is to
//! ask the hypervisor, over its management socket.

use crate::poller::{judge, Verdict};
use crate::protocol::Operation;
use crate::vms::{power_toggle, spec_power_toggle, PowerRequest, VMStatus};
use vstd::prelude::*;

verus! {

/// The role of one of the three processes behind a running machine.
#[derive(Clone, Copy, Debug, PartialEq, Eq, Structural)]
pub enum Role {
    /// The socket forwarder between the host's socket and the guest's virtual socket.
    Bridge,
    /// The user-mode network backend.
    Backend,
    /// The process that runs the guest.
    Hypervisor,
}

/// A readiness condition that is polled for.
#[derive(Clone, Copy, Debug, PartialEq, Eq, Structural)]
pub enum Probe {
    /// The network backend's socket file exists.
    BackendSocket,
    /// The guest agent answers the readiness request.
    GuestReady,
}

/// How far the orchestration of a machine has come.
#[derive(Clone, Copy, Debug, PartialEq, Eq, Structural)]
pub enum Phase {
    /// Nothing is in flight.
    Idle,
    /// The socket forwarder is being spawned.
    SpawningBridge,
    /// The network backend is being spawned.
    SpawningBackend,
    /// The backend's socket is polled for.
    AwaitingBackendSocket,
    /// The hypervisor is being spawned.
    SpawningHypervisor,
    /// The guest's readiness is polled for.
    AwaitingGuest,
    /// The guest was ready; the hypervisor's exit is awaited.
    AwaitingHypervisorExit,
    /// The hypervisor has exited; the socket forwarder is being signalled.
    SignallingBridge,
    /// The network backend is being signalled.
    SignallingBackend,
    /// The socket forwarder's exit is awaited.
    AwaitingBridgeExit,
    /// The network backend's exit is awaited.
    AwaitingBackendExit,
    /// The machine was found running; its processes are not this orchestrator's.
    Adopted,
    /// The hypervisor of an adopted machine was asked to stop.
    StoppingAdopted,
}

/// What the caller reports to the orchestrator.
#[derive(Clone, Copy, Debug, PartialEq, Eq, Structural)]
pub enum Event {
    /// The user asked to start the machine.
    StartRequested,
    /// The user asked to stop the machine.
    StopRequested,
    /// The user asked for a terminal in the guest.
    TerminalRequested,
    /// The process of this role was spawned.
    Spawned(Role),
    /// One attempt of this probe ended, successfully or not.
    Probed(Probe, bool),
    /// The signal was sent to the process of this role.
    Signalled(Role),
    /// The process of this role has exited.
    Exited(Role),
    /// The hypervisor of an adopted machine was asked to stop, and the request
    /// has ended.
    Stopped,
    /// A spawn or a wait failed.
    Failed,
}

/// What the caller is to do next.
#[derive(Clone, Copy, Debug, PartialEq, Eq, Structural)]
pub enum Action {
    /// Nothing.
    Nothing,
    /// Spawn the process of this role, then report `Spawned`.
    Spawn(Role),
    /// Run one attempt of this probe, then report `Probed`.
    Run(Probe),
    /// Wait for the process of this role to exit, then report `Exited`.
    AwaitExit(Role),
    /// Send this signal to the process of this role, then report `Signalled`.
    Signal(Role, i32),
    /// Send this request to the guest, without waiting for what it leads to.
    Request(Operation),
    /// Ask the hypervisor to stop, over its management socket, wait for the
    /// request to end, then report `Stopped`.
    StopHypervisor,
}

/// What reaches the orchestrator of a machine: a press of one of the machine's
/// two buttons, or a report.
#[derive(Clone, Copy, Debug, PartialEq, Eq, Structural)]
pub enum Input {
    /// The power button was pressed.
    Power,
    /// The terminal button was pressed.
    Terminal,
    /// The caller reports on an action.
    Report(Event),
}

/// What the caller is to do after an input, and what to show.
#[derive(Clone, Copy, Debug, PartialEq, Eq, Structural)]
pub struct Outcome {
    /// The action to perform.
    pub action: Action,
    /// The status that the machine shows now.
    pub status: VMStatus,
    /// Whether that status differs from the one with which the machine was
    /// listed, so that the list is to be told.
    pub changed: bool,
}

/// The state of one machine's orchestration.
#[derive(Clone, Copy, Debug, PartialEq, Eq, Structural)]
pub struct Orchestrator {
    /// How far the start or the teardown has come.
    pub phase: Phase,
    /// Whether the user asked to stop the machine since the guest was ready.
    pub stop_requested: bool,
}

/// The number of the termination signal.
pub open spec fn termination_signal_number() -> i32 {
    15
}

/// Reads `libc::SIGTERM`. The contract claims that it is 15, which libc defines
/// for every target it supports. Nothing here proves it.
#[verifier::external_body]
fn termination_signal() -> (signal: i32)
    ensures
        signal == termination_signal_number(),
{
    libc::SIGTERM
}

impl Orchestrator {
    /// The state of a machine for which nothing has been requested yet.
    pub open spec fn idle() -> Orchestrator {
        Orchestrator { phase: Phase::Idle, stop_requested: false }
    }

    /// The state of a machine that the registry lists with this status: adopted
    /// where it was found running, idle otherwise.
    pub open spec fn adopted(listed: VMStatus) -> Orchestrator {
        Orchestrator {
            phase: if listed == VMStatus::Running {
                Phase::Adopted
            } else {
                Phase::Idle
            },
            stop_requested: false,
        }
    }

    /// The status that the machine shows in this state.
    pub open spec fn status(self) -> VMStatus {
        match self.phase {
            Phase::Idle => VMStatus::NotRunning,
            Phase::SpawningBridge
            | Phase::SpawningBackend
            | Phase::AwaitingBackendSocket
            | Phase::SpawningHypervisor
            | Phase::AwaitingGuest
            | Phase::StoppingAdopted => VMStatus::InFlux,
            Phase::Adopted => VMStatus::Running,
            Phase::AwaitingHypervisorExit
            | Phase::SignallingBridge
            | Phase::SignallingBackend
            | Phase::AwaitingBridgeExit
            | Phase::AwaitingBackendExit => if self.stop_requested {
                VMStatus::InFlux
            } else {
                VMStatus::Running
            },
        }
    }

    /// The state in the given phase, with the rest unchanged.
    pub open spec fn at(self, phase: Phase) -> Orchestrator {
        Orchestrator { phase, stop_requested: self.stop_requested }
    }

    /// What a request of the user leads to.
    pub open spec fn on_request(self, event: Event) -> (Orchestrator, Action) {
        match event {
            Event::StartRequested => if self.phase == Phase::Idle {
                (
                    Orchestrator { phase: Phase::SpawningBridge, stop_requested: false },
                    Action::Spawn(Role::Bridge),
                )
            } else {
                (self, Action::Nothing)
            },
            Event::StopRequested => if self.phase == Phase::Adopted {
                (self.at(Phase::StoppingAdopted), Action::StopHypervisor)
            } else {
                match self.status() {
                    VMStatus::NotRunning => (self, Action::Nothing),
                    VMStatus::InFlux => (self, Action::Request(Operation::Shutdown)),
                    VMStatus::Running => (
                        Orchestrator { phase: self.phase, stop_requested: true },
                        Action::Request(Operation::Shutdown),
                    ),
                }
            },
            Event::TerminalRequested => if self.status() == VMStatus::Running {
                (self, Action::Request(Operation::SpawnTerminal))
            } else {
                (self, Action::Nothing)
            },
            _ => (self, Action::Nothing),
        }
    }

    /// What a report on the processes leads to.
    pub open spec fn on_report(self, event: Event) -> (Orchestrator, Action) {
        match (self.phase, event) {
            (Phase::SpawningBridge, Event::Spawned(Role::Bridge)) => (
                self.at(Phase::SpawningBackend),
                Action::Spawn(Role::Backend),
            ),
            (Phase::SpawningBackend, Event::Spawned(Role::Backend)) => (
                self.at(Phase::AwaitingBackendSocket),
                Action::Run(Probe::BackendSocket),
            ),
            (Phase::AwaitingBackendSocket, Event::Probed(Probe::BackendSocket, succeeded)) => {
                if succeeded {
                    (self.at(Phase::SpawningHypervisor), Action::Spawn(Role::Hypervisor))
                } else {
                    (self, Action::Run(Probe::BackendSocket))
                }
            },
            (Phase::SpawningHypervisor, Event::Spawned(Role::Hypervisor)) => (
                self.at(Phase::AwaitingGuest),
                Action::Run(Probe::GuestReady),
            ),
            (Phase::AwaitingGuest, Event::Probed(Probe::GuestReady, succeeded)) => {
                if succeeded {
                    (
                        Orchestrator {
                            phase: Phase::AwaitingHypervisorExit,
                            stop_requested: false,
                        },
                        Action::AwaitExit(Role::Hypervisor),
                    )
                } else {
                    (self, Action::Run(Probe::GuestReady))
                }
            },
            (Phase::AwaitingHypervisorExit, Event::Exited(Role::Hypervisor)) => (
                self.at(Phase::SignallingBridge),
                Action::Signal(Role::Bridge, termination_signal_number()),
            ),
            (Phase::SignallingBridge, Event::Signalled(Role::Bridge)) => (
                self.at(Phase::SignallingBackend),
                Action::Signal(Role::Backend, termination_signal_number()),
            ),
            (Phase::SignallingBackend, Event::Signalled(Role::Backend)) => (
                self.at(Phase::AwaitingBridgeExit),
                Action::AwaitExit(Role::Bridge),
            ),
            (Phase::AwaitingBridgeExit, Event::Exited(Role::Bridge)) => (
                self.at(Phase::AwaitingBackendExit),
                Action::AwaitExit(Role::Backend),
            ),
            (Phase::AwaitingBackendExit, Event::Exited(Role::Backend)) => (
                Orchestrator::idle(),
                Action::Nothing,
            ),
            (Phase::StoppingAdopted, Event::Stopped) => (Orchestrator::idle(), Action::Nothing),
            _ => (self, Action::Nothing),
        }
    }

    /// The state after an event, and the action that answers it.
    ///
    /// A start is accepted only while nothing is in flight. A stop does nothing
    /// on a machine that is not running, and otherwise asks the guest to shut
    /// down, or, of an adopted machine, the hypervisor to stop; the hypervisor
    /// is never killed. A terminal is asked for only while the machine is
    /// running. A report that the current phase does not wait for changes
    /// nothing. A failure abandons whatever is in flight.
    pub open spec fn transition(self, event: Event) -> (Orchestrator, Action) {
        match event {
            Event::StartRequested | Event::StopRequested | Event::TerminalRequested => {
                self.on_request(event)
            },
            Event::Failed => (Orchestrator::idle(), Action::Nothing),
            _ => self.on_report(event),
        }
    }

    /// The state after taking note of the status with which the registry lists
    /// the machine: an orchestrator that has started nothing goes by the scan,
    /// any other stays as it is.
    pub open spec fn observed(self, listed: VMStatus) -> Orchestrator {
        if self.phase == Phase::Idle || self.phase == Phase::Adopted {
            Orchestrator::adopted(listed)
        } else {
            self
        }
    }

    /// The event that an input stands for: a press of the power button asks
    /// for a start where the machine is not running and for a stop otherwise.
    pub open spec fn event_of(self, input: Input) -> Event {
        match input {
            Input::Power => match spec_power_toggle(self.status()) {
                PowerRequest::Start => Event::StartRequested,
                PowerRequest::Stop => Event::StopRequested,
            },
            Input::Terminal => Event::TerminalRequested,
            Input::Report(event) => event,
        }
    }

    /// The state after an input to a machine that is listed with the given
    /// status, and what follows from it.
    pub open spec fn handled(self, listed: VMStatus, input: Input) -> (Orchestrator, Outcome) {
        let noted = self.observed(listed);
        let next = noted.transition(noted.event_of(input));
        (
            next.0,
            Outcome { action: next.1, status: next.0.status(), changed: next.0.status() != listed },
        )
    }

    /// An orchestrator for a machine for which nothing has been requested yet.
    pub fn new() -> (fresh: Orchestrator)
        ensures
            fresh == Orchestrator::idle(),
    {
        Orchestrator { phase: Phase::Idle, stop_requested: false }
    }

    /// An orchestrator for a machine that the registry lists with this status.
    pub fn adopt(listed: VMStatus) -> (orchestrator: Orchestrator)
        ensures
            orchestrator == Orchestrator::adopted(listed),
    {
        match listed {
            VMStatus::Running => Orchestrator { phase: Phase::Adopted, stop_requested: false },
            VMStatus::NotRunning | VMStatus::InFlux => Orchestrator::new(),
        }
    }

    /// Takes note of the status with which the registry lists the machine. An
    /// orchestrator that has started nothing goes by the scan: it adopts a
    /// machine that was found running, and is idle otherwise. One with a start,
    /// a teardown or a stop in flight knows better than a scan and stays as it
    /// is.
    pub fn observe(&mut self, listed: VMStatus)
        ensures
            *final(self) == old(self).observed(listed),
    {
        if self.phase == Phase::Idle || self.phase == Phase::Adopted {
            *self = Orchestrator::adopt(listed);
        }
    }

    /// The status that the machine shows now.
    pub fn current_status(&self) -> (status: VMStatus)
        ensures
            status == self.status(),
    {
        match self.phase {
            Phase::Idle => VMStatus::NotRunning,
            Phase::SpawningBridge
            | Phase::SpawningBackend
            | Phase::AwaitingBackendSocket
            | Phase::SpawningHypervisor
            | Phase::AwaitingGuest
            | Phase::StoppingAdopted => VMStatus::InFlux,
            Phase::Adopted => VMStatus::Running,
            _ => if self.stop_requested {
                VMStatus::InFlux
            } else {
                VMStatus::Running
            },
        }
    }

    /// Takes an event, moves to the next state and returns the action that the
    /// caller is to perform.
    pub fn step(&mut self, event: Event) -> (action: Action)
        ensures
            (*final(self), action) == old(self).transition(event),
    {
        match event {
            Event::StartRequested => {
                if self.phase == Phase::Idle {
                    self.phase = Phase::SpawningBridge;
                    self.stop_requested = false;
                    Action::Spawn(Role::Bridge)
                } else {
                    Action::Nothing
                }
            },
            Event::StopRequested => {
                if self.phase == Phase::Adopted {
                    self.phase = Phase::StoppingAdopted;
                    Action::StopHypervisor
                } else {
                    match self.current_status() {
                        VMStatus::NotRunning => Action::Nothing,
                        VMStatus::InFlux => Action::Request(Operation::Shutdown),
                        VMStatus::Running => {
                            self.stop_requested = true;
                            Action::Request(Operation::Shutdown)
                        },
                    }
                }
            },
            Event::TerminalRequested => {
                if self.current_status() == VMStatus::Running {
                    Action::Request(Operation::SpawnTerminal)
                } else {
                    Action::Nothing
                }
            },
            Event::Failed => {
                self.phase = Phase::Idle;
                self.stop_requested = false;
                Action::Nothing
            },
            Event::Spawned(role) => {
                match (self.phase, role) {
                    (Phase::SpawningBridge, Role::Bridge) => {
                        self.phase = Phase::SpawningBackend;
                        Action::Spawn(Role::Backend)
                    },
                    (Phase::SpawningBackend, Role::Backend) => {
                        self.phase = Phase::AwaitingBackendSocket;
                        Action::Run(Probe::BackendSocket)
                    },
                    (Phase::SpawningHypervisor, Role::Hypervisor) => {
                        self.phase = Phase::AwaitingGuest;
                        Action::Run(Probe::GuestReady)
                    },
                    _ => Action::Nothing,
                }
            },
            Event::Probed(probe, succeeded) => {
                match (self.phase, probe) {
                    (Phase::AwaitingBackendSocket, Probe::BackendSocket) => {
                        match judge(succeeded) {
                            Verdict::Resolved => {
                                self.phase = Phase::SpawningHypervisor;
                                Action::Spawn(Role::Hypervisor)
                            },
                            Verdict::Retry => Action::Run(Probe::BackendSocket),
                        }
                    },
                    (Phase::AwaitingGuest, Probe::GuestReady) => {
                        match judge(succeeded) {
                            Verdict::Resolved => {
                                self.phase = Phase::AwaitingHypervisorExit;
                                self.stop_requested = false;
                                Action::AwaitExit(Role::Hypervisor)
                            },
                            Verdict::Retry => Action::Run(Probe::GuestReady),
                        }
                    },
                    _ => Action::Nothing,
                }
            },
            Event::Signalled(role) => {
                match (self.phase, role) {
                    (Phase::SignallingBridge, Role::Bridge) => {
                        self.phase = Phase::SignallingBackend;
                        Action::Signal(Role::Backend, termination_signal())
                    },
                    (Phase::SignallingBackend, Role::Backend) => {
                        self.phase = Phase::AwaitingBridgeExit;
                        Action::AwaitExit(Role::Bridge)
                    },
                    _ => Action::Nothing,
                }
            },
            Event::Stopped => {
                if self.phase == Phase::StoppingAdopted {
                    self.phase = Phase::Idle;
                    self.stop_requested = false;
                }
                Action::Nothing
            },
            Event::Exited(role) => {
                match (self.phase, role) {
                    (Phase::AwaitingHypervisorExit, Role::Hypervisor) => {
                        self.phase = Phase::SignallingBridge;
                        Action::Signal(Role::Bridge, termination_signal())
                    },
                    (Phase::AwaitingBridgeExit, Role::Bridge) => {
                        self.phase = Phase::AwaitingBackendExit;
                        Action::AwaitExit(Role::Backend)
                    },
                    (Phase::AwaitingBackendExit, Role::Backend) => {
                        self.phase = Phase::Idle;
                        self.stop_requested = false;
                        Action::Nothing
                    },
                    _ => Action::Nothing,
                }
            },
        }
    }

    /// Takes an input to a machine that is listed with the given status: takes
    /// note of that status, turns the input into an event, moves to the next
    /// state, and says what to do and what to show.
    pub fn handle(&mut self, listed: VMStatus, input: Input) -> (outcome: Outcome)
        ensures
            (*final(self), outcome) == old(self).handled(listed, input),
    {
        self.observe(listed);
        let event = match input {
            Input::Power => match power_toggle(self.current_status()) {
                PowerRequest::Start => Event::StartRequested,
                PowerRequest::Stop => Event::StopRequested,
            },
            Input::Terminal => Event::TerminalRequested,
            Input::Report(event) => event,
        };
        let action = self.step(event);
        let status = self.current_status();
        Outcome { action, status, changed: status != listed }
    }
}

} // verus!
