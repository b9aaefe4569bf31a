//! Runs of the orchestrator, and what holds of every run.
//!
//! A run is the sequence of events that a fresh orchestrator was given. The laws
//! below speak of the state after a run and of the action that answered each of
//! its events.

use crate::orchestrator::{Action, Event, Orchestrator, Phase, Probe, Role};
use crate::orchestrator::termination_signal_number;
use crate::protocol::Operation;
use crate::vms::VMStatus;
use vstd::prelude::*;

verus! {

/// The state of a fresh orchestrator after the given events.
pub open spec fn replay(events: Seq<Event>) -> Orchestrator
    decreases events.len(),
{
    if events.len() == 0 {
        Orchestrator::idle()
    } else {
        replay(events.drop_last()).transition(events.last()).0
    }
}

/// The state in which the event at `index` arrived.
pub open spec fn before(events: Seq<Event>, index: int) -> Orchestrator {
    replay(events.take(index))
}

/// The action that answered the event at `index`.
pub open spec fn answer(events: Seq<Event>, index: int) -> Action {
    before(events, index).transition(events[index]).1
}

/// Whether an action leaves the three processes alone.
pub open spec fn touches_no_process(action: Action) -> bool {
    action is Nothing || action is Request
}

/// Whether a phase lies after the guest's readiness: the hypervisor's exit is
/// awaited, or the sidecars are being torn down.
pub open spec fn past_readiness(phase: Phase) -> bool {
    phase == Phase::AwaitingHypervisorExit || phase == Phase::SignallingBridge || phase
        == Phase::SignallingBackend || phase == Phase::AwaitingBridgeExit || phase
        == Phase::AwaitingBackendExit
}

/// The steps of one teardown, at their places in a run: the guest was found
/// ready at `ready` and the hypervisor's exit was awaited; it exited at
/// `exited`, and the socket forwarder was signalled; then the network backend
/// was signalled, at `bridge_signalled`; then the forwarder's exit was awaited,
/// at `backend_signalled`; when it had exited, at `bridge_exited`, the backend's
/// exit was awaited. Nothing else touched a process in between.
pub open spec fn teardown_in_order(
    events: Seq<Event>,
    ready: int,
    exited: int,
    bridge_signalled: int,
    backend_signalled: int,
    bridge_exited: int,
) -> bool {
    &&& 0 <= ready < exited < bridge_signalled < backend_signalled < bridge_exited < events.len()
    &&& events[ready] == Event::Probed(Probe::GuestReady, true)
    &&& answer(events, ready) == Action::AwaitExit(Role::Hypervisor)
    &&& events[exited] == Event::Exited(Role::Hypervisor)
    &&& answer(events, exited) == Action::Signal(Role::Bridge, termination_signal_number())
    &&& events[bridge_signalled] == Event::Signalled(Role::Bridge)
    &&& answer(events, bridge_signalled) == Action::Signal(
        Role::Backend,
        termination_signal_number(),
    )
    &&& events[backend_signalled] == Event::Signalled(Role::Backend)
    &&& answer(events, backend_signalled) == Action::AwaitExit(Role::Bridge)
    &&& events[bridge_exited] == Event::Exited(Role::Bridge)
    &&& answer(events, bridge_exited) == Action::AwaitExit(Role::Backend)
    &&& forall|other: int|
        ready < other < bridge_exited && other != exited && other != bridge_signalled && other
            != backend_signalled ==> touches_no_process(#[trigger] answer(events, other))
}

/// Starting a machine that is not running puts it in flux at once, and the
/// first thing asked for is the socket forwarder.
pub proof fn lemma_start_enters_flux(state: Orchestrator)
    requires
        state.status() == VMStatus::NotRunning,
    ensures
        state.transition(Event::StartRequested).0.status() == VMStatus::InFlux,
        state.transition(Event::StartRequested).1 == Action::Spawn(Role::Bridge),
{
}

/// A start is ignored while the machine is in flux or running: the state stays
/// as it is and nothing is spawned.
pub proof fn lemma_start_ignored_unless_not_running(state: Orchestrator)
    requires
        state.status() != VMStatus::NotRunning,
    ensures
        state.transition(Event::StartRequested) == (state, Action::Nothing),
{
}

/// A machine becomes running by one step only: a successful readiness probe
/// that arrives while the guest is awaited. It is in flux just before, so it
/// never goes from not running to running directly.
pub proof fn lemma_running_entered_by_ready_probe(state: Orchestrator, event: Event)
    requires
        state.status() != VMStatus::Running,
        state.transition(event).0.status() == VMStatus::Running,
    ensures
        event == Event::Probed(Probe::GuestReady, true),
        state.phase == Phase::AwaitingGuest,
        state.status() == VMStatus::InFlux,
{
}

/// Stopping a running machine puts it in flux at once. Where the orchestrator
/// started the machine, the guest is asked to shut down and the phase stays as
/// it is; where the machine was adopted, the hypervisor is asked to stop.
pub proof fn lemma_stop_enters_flux(state: Orchestrator)
    requires
        state.status() == VMStatus::Running,
    ensures
        state.transition(Event::StopRequested).0.status() == VMStatus::InFlux,
        state.phase != Phase::Adopted ==> state.transition(Event::StopRequested).0.phase
            == state.phase && state.transition(Event::StopRequested).1 == Action::Request(
            Operation::Shutdown,
        ),
        state.phase == Phase::Adopted ==> state.transition(Event::StopRequested)
            == (state.at(Phase::StoppingAdopted), Action::StopHypervisor),
{
}

/// Stopping a machine that is not running changes nothing and asks for nothing.
pub proof fn lemma_stop_of_stopped_is_noop(state: Orchestrator)
    requires
        state.status() == VMStatus::NotRunning,
    ensures
        state.transition(Event::StopRequested) == (state, Action::Nothing),
{
}

/// Whether the machine's processes, if there are any, were started by this
/// orchestrator: the machine was not adopted.
pub open spec fn own(phase: Phase) -> bool {
    phase != Phase::Adopted && phase != Phase::StoppingAdopted
}

/// A machine that was not adopted never becomes an adopted one.
pub proof fn lemma_own_stays_own(state: Orchestrator, event: Event)
    requires
        own(state.phase),
    ensures
        own(state.transition(event).0.phase),
{
}

/// A machine that the orchestrator started ceases to be shown as in flux or
/// running by one of two steps only: the network backend's exit, arriving
/// while it is awaited, or a failure.
pub proof fn lemma_not_running_entered_by_last_exit(state: Orchestrator, event: Event)
    requires
        own(state.phase),
        state.status() != VMStatus::NotRunning,
        state.transition(event).0.status() == VMStatus::NotRunning,
    ensures
        event == Event::Failed || (event == Event::Exited(Role::Backend) && state.phase
            == Phase::AwaitingBackendExit),
{
}

/// An adopted machine ceases to be shown as in flux or running by one of two
/// steps only: the end of the request to its hypervisor to stop, or a failure.
pub proof fn lemma_adopted_stopped_by_request(state: Orchestrator, event: Event)
    requires
        !own(state.phase),
        state.transition(event).0.status() == VMStatus::NotRunning,
    ensures
        event == Event::Failed || (event == Event::Stopped && state.phase
            == Phase::StoppingAdopted),
{
}

/// While a probe is awaited, each failed attempt is answered by another attempt
/// and changes nothing: the orchestrator never gives up.
pub proof fn lemma_failed_probe_is_repeated(state: Orchestrator, probe: Probe)
    requires
        (state.phase == Phase::AwaitingBackendSocket && probe == Probe::BackendSocket) || (
        state.phase == Phase::AwaitingGuest && probe == Probe::GuestReady),
    ensures
        state.transition(Event::Probed(probe, false)) == (state, Action::Run(probe)),
{
}

/// Whether the guest was found ready at `ready` and the machine has been past
/// readiness ever since: no other hypervisor was started after that probe.
pub open spec fn ready_confirmed_at(events: Seq<Event>, ready: int) -> bool {
    &&& 0 <= ready < events.len()
    &&& events[ready] == Event::Probed(Probe::GuestReady, true)
    &&& before(events, ready).phase == Phase::AwaitingGuest
    &&& answer(events, ready) == Action::AwaitExit(Role::Hypervisor)
    &&& forall|later: int|
        ready < later <= events.len() ==> past_readiness(#[trigger] before(events, later).phase)
}

/// In a run of a fresh orchestrator no machine is adopted.
pub proof fn lemma_runs_are_own(events: Seq<Event>)
    ensures
        own(replay(events).phase),
    decreases events.len(),
{
    if events.len() > 0 {
        lemma_runs_are_own(events.drop_last());
        lemma_own_stays_own(replay(events.drop_last()), events.last());
    }
}

proof fn lemma_step(events: Seq<Event>, index: int)
    requires
        0 <= index < events.len(),
    ensures
        before(events, index + 1) == before(events, index).transition(events[index]).0,
{
    let taken = events.take(index + 1);
    assert(taken.drop_last() =~= events.take(index));
    assert(taken.last() == events[index]);
}

proof fn lemma_prefix(events: Seq<Event>, length: int, index: int)
    requires
        0 <= index <= length <= events.len(),
    ensures
        before(events.take(length), index) == before(events, index),
        index < length ==> answer(events.take(length), index) == answer(events, index),
{
    assert(events.take(length).take(index) =~= events.take(index));
}

/// The number of events up to the one that led into the current phase, or 0
/// where the phase never changed.
spec fn entered(events: Seq<Event>) -> int
    decreases events.len(),
{
    if events.len() == 0 {
        0
    } else if replay(events).phase != replay(events.drop_last()).phase {
        events.len() as int
    } else {
        entered(events.drop_last())
    }
}

proof fn lemma_entered(events: Seq<Event>)
    ensures
        0 <= entered(events) <= events.len(),
        entered(events) == 0 ==> replay(events).phase == Phase::Idle,
        entered(events) > 0 ==> before(events, entered(events) - 1).phase != replay(events).phase,
        forall|index: int|
            entered(events) <= index <= events.len() ==> (#[trigger] before(events, index)).phase
                == replay(events).phase,
    decreases events.len(),
{
    assert(events.take(events.len() as int) =~= events);
    if events.len() > 0 {
        let shorter = events.drop_last();
        lemma_entered(shorter);
        assert(events.take(events.len() - 1) =~= shorter);
        assert forall|index: int| 0 <= index < events.len() implies before(events, index)
            == before(shorter, index) by {
            assert(events.take(index) =~= shorter.take(index));
        }
    }
}

/// Finds the event that led into the phase in which the event at `index`
/// arrived. The phase did not change between the two.
proof fn lemma_descend(events: Seq<Event>, index: int) -> (entry: int)
    requires
        0 <= index <= events.len(),
        before(events, index).phase != Phase::Idle,
    ensures
        0 <= entry < index,
        before(events, entry).phase != before(events, index).phase,
        before(events, entry + 1).phase == before(events, index).phase,
        forall|between: int|
            entry < between <= index ==> (#[trigger] before(events, between)).phase == before(
                events,
                index,
            ).phase,
{
    let prefix = events.take(index);
    lemma_entered(prefix);
    let entry = entered(prefix) - 1;
    lemma_prefix(events, index, entry);
    lemma_prefix(events, index, entry + 1);
    assert(prefix.take(index) =~= prefix);
    assert forall|between: int| entry < between <= index implies (#[trigger] before(
        events,
        between,
    )).phase == before(events, index).phase by {
        lemma_prefix(events, index, between);
        assert(before(prefix, between).phase == replay(prefix).phase);
    }
    entry
}

proof fn lemma_past_readiness_was_confirmed(events: Seq<Event>)
    requires
        past_readiness(replay(events).phase),
    ensures
        exists|ready: int| ready_confirmed_at(events, ready),
    decreases events.len(),
{
    let length = events.len() as int;
    assert(events.take(length) =~= events);
    let entry = lemma_descend(events, length);
    lemma_step(events, entry);
    if replay(events).phase == Phase::AwaitingHypervisorExit {
        assert(ready_confirmed_at(events, entry));
    } else {
        let prefix = events.take(entry);
        lemma_past_readiness_was_confirmed(prefix);
        let ready = choose|ready: int| ready_confirmed_at(prefix, ready);
        lemma_prefix(events, entry, ready);
        assert forall|later: int| ready < later <= events.len() implies past_readiness(
            #[trigger] before(events, later).phase,
        ) by {
            if later <= entry {
                lemma_prefix(events, entry, later);
                assert(past_readiness(before(prefix, later).phase));
            }
        }
        assert(ready_confirmed_at(events, ready));
    }
}

/// A machine is shown as running only after a successful readiness probe: in
/// every run that ends with the machine running, the guest was found ready at
/// some point while it was awaited, and no other hypervisor was started since.
pub proof fn lemma_running_only_after_ready(events: Seq<Event>)
    requires
        replay(events).status() == VMStatus::Running,
    ensures
        exists|ready: int| ready_confirmed_at(events, ready),
{
    lemma_runs_are_own(events);
    lemma_past_readiness_was_confirmed(events);
}

/// How each phase past readiness is entered: the phase before it, the event
/// that leads into it, and the action that answers that event.
pub open spec fn entry_of(phase: Phase) -> (Phase, Event, Action) {
    match phase {
        Phase::AwaitingHypervisorExit => (
            Phase::AwaitingGuest,
            Event::Probed(Probe::GuestReady, true),
            Action::AwaitExit(Role::Hypervisor),
        ),
        Phase::SignallingBridge => (
            Phase::AwaitingHypervisorExit,
            Event::Exited(Role::Hypervisor),
            Action::Signal(Role::Bridge, termination_signal_number()),
        ),
        Phase::SignallingBackend => (
            Phase::SignallingBridge,
            Event::Signalled(Role::Bridge),
            Action::Signal(Role::Backend, termination_signal_number()),
        ),
        Phase::AwaitingBridgeExit => (
            Phase::SignallingBackend,
            Event::Signalled(Role::Backend),
            Action::AwaitExit(Role::Bridge),
        ),
        Phase::AwaitingBackendExit => (
            Phase::AwaitingBridgeExit,
            Event::Exited(Role::Bridge),
            Action::AwaitExit(Role::Backend),
        ),
        _ => (phase, Event::Failed, Action::Nothing),
    }
}

/// Each phase past readiness is entered in one way only.
pub proof fn lemma_entry_is_unique(state: Orchestrator, event: Event)
    requires
        state.transition(event).0.phase != state.phase,
        past_readiness(state.transition(event).0.phase),
    ensures
        (state.phase, event, state.transition(event).1) == entry_of(
            state.transition(event).0.phase,
        ),
{
}

/// A step past readiness that leaves the phase as it is touches no process.
pub proof fn lemma_waiting_is_quiet(state: Orchestrator, event: Event)
    requires
        state.transition(event).0.phase == state.phase,
        past_readiness(state.phase),
    ensures
        touches_no_process(state.transition(event).1),
{
}

/// Finds the event that led into the phase past readiness in which the event at
/// `index` arrived: it is the one way into that phase, and nothing touched a
/// process since.
proof fn lemma_descend_past_readiness(events: Seq<Event>, index: int) -> (entry: int)
    requires
        0 <= index <= events.len(),
        past_readiness(before(events, index).phase),
    ensures
        0 <= entry < index,
        (before(events, entry).phase, events[entry], answer(events, entry)) == entry_of(
            before(events, index).phase,
        ),
        forall|between: int|
            entry < between < index ==> touches_no_process(#[trigger] answer(events, between)),
{
    let entry = lemma_descend(events, index);
    lemma_step(events, entry);
    lemma_entry_is_unique(before(events, entry), events[entry]);
    assert forall|between: int| entry < between < index implies touches_no_process(
        #[trigger] answer(events, between),
    ) by {
        lemma_step(events, between);
        assert(before(events, between + 1).phase == before(events, index).phase);
        assert(before(events, between).phase == before(events, index).phase);
        lemma_waiting_is_quiet(before(events, between), events[between]);
    }
    entry
}

/// The order of a teardown. Whenever the network backend's exit is awaited, the
/// guest had been found ready and the hypervisor's exit awaited; the hypervisor
/// had exited before the socket forwarder was signalled, then the network
/// backend; both were signalled before the forwarder's exit was awaited; and it
/// had exited before the backend's exit was awaited. In between, nothing else
/// touched a process.
pub proof fn lemma_teardown_order(events: Seq<Event>, bridge_exited: int)
    requires
        0 <= bridge_exited < events.len(),
        answer(events, bridge_exited) == Action::AwaitExit(Role::Backend),
    ensures
        exists|ready: int, exited: int, bridge_signalled: int, backend_signalled: int|
            teardown_in_order(
                events,
                ready,
                exited,
                bridge_signalled,
                backend_signalled,
                bridge_exited,
            ),
{
    assert(before(events, bridge_exited).phase == Phase::AwaitingBridgeExit && events[bridge_exited]
        == Event::Exited(Role::Bridge)) by {
        lemma_await_backend_exit(before(events, bridge_exited), events[bridge_exited]);
    }
    let backend_signalled = lemma_descend_past_readiness(events, bridge_exited);
    let bridge_signalled = lemma_descend_past_readiness(events, backend_signalled);
    let exited = lemma_descend_past_readiness(events, bridge_signalled);
    let ready = lemma_descend_past_readiness(events, exited);
    assert(teardown_in_order(
        events,
        ready,
        exited,
        bridge_signalled,
        backend_signalled,
        bridge_exited,
    ));
}

/// The network backend's exit is awaited in answer to one event only: the
/// socket forwarder's exit, arriving while it is awaited.
pub proof fn lemma_await_backend_exit(state: Orchestrator, event: Event)
    requires
        state.transition(event).1 == Action::AwaitExit(Role::Backend),
    ensures
        state.phase == Phase::AwaitingBridgeExit,
        event == Event::Exited(Role::Bridge),
{
}

/// A machine that was in flux or running is shown as not running again only
/// after both sidecars have exited, unless a failure was reported: the step
/// that ends it is the network backend's exit, which was awaited since the
/// socket forwarder had exited, and nothing touched a process in between.
pub proof fn lemma_stopped_only_after_sidecars_exited(events: Seq<Event>, last: int)
    requires
        0 <= last < events.len(),
        before(events, last).status() != VMStatus::NotRunning,
        before(events, last + 1).status() == VMStatus::NotRunning,
        events[last] != Event::Failed,
    ensures
        events[last] == Event::Exited(Role::Backend),
        exists|bridge_exited: int|
            0 <= bridge_exited < last && events[bridge_exited] == Event::Exited(Role::Bridge)
                && #[trigger] answer(events, bridge_exited) == Action::AwaitExit(Role::Backend)
                && forall|between: int|
                bridge_exited < between < last ==> touches_no_process(
                    #[trigger] answer(events, between),
                ),
{
    lemma_step(events, last);
    lemma_runs_are_own(events.take(last));
    lemma_not_running_entered_by_last_exit(before(events, last), events[last]);
    let bridge_exited = lemma_descend_past_readiness(events, last);
}

/// Whether a hypervisor that this orchestrator spawned may be alive in this
/// phase.
pub open spec fn holds_hypervisor(phase: Phase) -> bool {
    phase == Phase::SpawningHypervisor || phase == Phase::AwaitingGuest || phase
        == Phase::AwaitingHypervisorExit
}

/// Whether the event at `index` ends the hypervisor's time: its exit was
/// reported while it was awaited, or a failure was reported.
pub open spec fn ends_hypervisor(events: Seq<Event>, index: int) -> bool {
    events[index] == Event::Failed || (events[index] == Event::Exited(Role::Hypervisor)
        && before(events, index).phase == Phase::AwaitingHypervisorExit)
}

proof fn lemma_hypervisor_held(events: Seq<Event>, spawned: int, index: int)
    requires
        0 <= spawned < index <= events.len(),
        answer(events, spawned) == Action::Spawn(Role::Hypervisor),
    ensures
        holds_hypervisor(before(events, index).phase) || exists|between: int|
            spawned < between < index && #[trigger] ends_hypervisor(events, between),
    decreases index - spawned,
{
    lemma_step(events, index - 1);
    if index - 1 > spawned {
        lemma_hypervisor_held(events, spawned, index - 1);
        if holds_hypervisor(before(events, index - 1).phase) {
            if !holds_hypervisor(before(events, index).phase) {
                assert(ends_hypervisor(events, index - 1));
            }
        } else {
            let between = choose|between: int|
                spawned < between < index - 1 && #[trigger] ends_hypervisor(events, between);
            assert(spawned < between < index && ends_hypervisor(events, between));
        }
    }
}

/// At most one hypervisor at a time: between two spawns of the hypervisor in a
/// run, the first one's exit was reported while it was awaited, or a failure
/// was reported.
pub proof fn lemma_one_hypervisor_at_a_time(events: Seq<Event>, first: int, second: int)
    requires
        0 <= first < second < events.len(),
        answer(events, first) == Action::Spawn(Role::Hypervisor),
        answer(events, second) == Action::Spawn(Role::Hypervisor),
    ensures
        exists|between: int|
            first < between < second && #[trigger] ends_hypervisor(events, between),
{
    lemma_hypervisor_held(events, first, second);
}

} // verus!
