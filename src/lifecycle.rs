use vstd::prelude::*;

verus! {

/// Where one run is in its life.
#[derive(Debug, Clone, Copy, PartialEq, Eq, Structural)]
pub enum RunState {
    Idle,
    Running,
    StopRequested,
    Terminated,
}

/// What can happen to a run.
#[derive(Debug, Clone, Copy, PartialEq, Eq, Structural)]
pub enum RunEvent {
    /// The run was started.
    Started,
    /// A stop request was queued for the engine.
    StopSent,
    /// The run's exit signal arrived: a status, or the sender dropped unsent.
    ExitSignalled,
}

/// The state of a run after `event`.
pub open spec fn run_transition(state: RunState, event: RunEvent) -> RunState {
    match (state, event) {
        (RunState::Idle, RunEvent::Started) => RunState::Running,
        (RunState::Running, RunEvent::StopSent) => RunState::StopRequested,
        (RunState::Running, RunEvent::ExitSignalled) => RunState::Terminated,
        (RunState::StopRequested, RunEvent::ExitSignalled) => RunState::Terminated,
        _ => state,
    }
}

impl RunState {
    /// The state after `event`; an event that does not apply leaves the state as it is.
    pub fn next(self, event: RunEvent) -> (r: RunState)
        ensures
            r == run_transition(self, event),
            self is Terminated ==> r is Terminated,
    {
        match (self, event) {
            (RunState::Idle, RunEvent::Started) => RunState::Running,
            (RunState::Running, RunEvent::StopSent) => RunState::StopRequested,
            (RunState::Running, RunEvent::ExitSignalled) => RunState::Terminated,
            (RunState::StopRequested, RunEvent::ExitSignalled) => RunState::Terminated,
            _ => self,
        }
    }
}

/// Where a shutdown of a run stands.
#[derive(Debug, Clone, Copy, PartialEq, Eq, Structural)]
pub enum TerminatePhase {
    /// The stop request has not been sent yet.
    StopPending,
    /// Waiting for the run's execution context to finish.
    Joining,
    /// The execution context has finished; the shutdown is over.
    Done,
}

/// What the shutdown observed.
#[derive(Debug, Clone, Copy, PartialEq, Eq, Structural)]
pub enum TerminateEvent {
    /// The stop request was queued.
    StopQueued,
    /// The stop request could not be queued: the engine is already gone.
    StopRejected,
    /// The execution context finished.
    JoinCompleted,
    /// The execution context finished by aborting.
    JoinFailed,
}

/// What the shutdown does next.
#[derive(Debug, Clone, Copy, PartialEq, Eq, Structural)]
pub enum TerminateAction {
    /// Send the stop request.
    SendStop,
    /// Wait for the execution context; `stop_queued` tells whether the engine was asked to stop.
    AwaitJoin { stop_queued: bool },
    /// Return; `join_failed` tells whether the execution context aborted.
    Finish { join_failed: bool },
    /// Nothing: the event does not apply in this phase.
    Ignore,
}

/// One step of the shutdown.
pub open spec fn terminate_transition(
    phase: TerminatePhase,
    event: TerminateEvent,
) -> (TerminatePhase, TerminateAction) {
    match (phase, event) {
        (TerminatePhase::StopPending, TerminateEvent::StopQueued) => (
            TerminatePhase::Joining,
            TerminateAction::AwaitJoin { stop_queued: true },
        ),
        (TerminatePhase::StopPending, TerminateEvent::StopRejected) => (
            TerminatePhase::Joining,
            TerminateAction::AwaitJoin { stop_queued: false },
        ),
        (TerminatePhase::Joining, TerminateEvent::JoinCompleted) => (
            TerminatePhase::Done,
            TerminateAction::Finish { join_failed: false },
        ),
        (TerminatePhase::Joining, TerminateEvent::JoinFailed) => (
            TerminatePhase::Done,
            TerminateAction::Finish { join_failed: true },
        ),
        _ => (phase, TerminateAction::Ignore),
    }
}

/// The phase reached from `phase` after `events`, in order.
pub open spec fn terminate_run(phase: TerminatePhase, events: Seq<TerminateEvent>) -> TerminatePhase
    decreases events.len(),
{
    if events.len() == 0 {
        phase
    } else {
        terminate_run(terminate_transition(phase, events[0]).0, events.drop_first())
    }
}

/// Whether an event reports that the execution context finished.
pub open spec fn is_join_event(event: TerminateEvent) -> bool {
    event is JoinCompleted || event is JoinFailed
}

/// How a shutdown begins: nothing sent yet, and the stop request to send.
pub fn terminate_start() -> (r: (TerminatePhase, TerminateAction))
    ensures
        r == (TerminatePhase::StopPending, TerminateAction::SendStop),
{
    (TerminatePhase::StopPending, TerminateAction::SendStop)
}

/// One step of the shutdown: the next phase and what to do.
pub fn terminate_step(phase: TerminatePhase, event: TerminateEvent) -> (r: (TerminatePhase, TerminateAction))
    ensures
        r == terminate_transition(phase, event),
{
    match (phase, event) {
        (TerminatePhase::StopPending, TerminateEvent::StopQueued) => (
            TerminatePhase::Joining,
            TerminateAction::AwaitJoin { stop_queued: true },
        ),
        (TerminatePhase::StopPending, TerminateEvent::StopRejected) => (
            TerminatePhase::Joining,
            TerminateAction::AwaitJoin { stop_queued: false },
        ),
        (TerminatePhase::Joining, TerminateEvent::JoinCompleted) => (
            TerminatePhase::Done,
            TerminateAction::Finish { join_failed: false },
        ),
        (TerminatePhase::Joining, TerminateEvent::JoinFailed) => (
            TerminatePhase::Done,
            TerminateAction::Finish { join_failed: true },
        ),
        _ => (phase, TerminateAction::Ignore),
    }
}

/// Whether or not the stop request could be queued, the shutdown goes on to wait
/// for the execution context, and once that finishes, successfully or by
/// aborting, the shutdown is over without raising anything.
pub proof fn lemma_terminate_always_joins(sent: TerminateEvent, joined: TerminateEvent)
    requires
        sent is StopQueued || sent is StopRejected,
        is_join_event(joined),
    ensures
        terminate_transition(TerminatePhase::StopPending, sent).0 == TerminatePhase::Joining,
        terminate_transition(TerminatePhase::StopPending, sent).1 is AwaitJoin,
        terminate_run(TerminatePhase::StopPending, seq![sent, joined]) == TerminatePhase::Done,
        terminate_transition(TerminatePhase::Joining, joined).1 is Finish,
{
    let events = seq![sent, joined];
    let rest = seq![joined];
    assert(events[0] == sent);
    assert(events.drop_first() =~= rest);
    assert(rest[0] == joined);
    assert(rest.drop_first() =~= Seq::<TerminateEvent>::empty());
    assert(terminate_run(TerminatePhase::Done, Seq::<TerminateEvent>::empty()) == TerminatePhase::Done);
    assert(terminate_run(TerminatePhase::Joining, rest) == TerminatePhase::Done);
}

/// A shutdown is over only after the execution context finished: as long as no
/// join event arrives, however many other events do, the shutdown never ends.
pub proof fn lemma_no_return_without_join(phase: TerminatePhase, events: Seq<TerminateEvent>)
    requires
        phase != TerminatePhase::Done,
        forall|i: int| 0 <= i < events.len() ==> !is_join_event(#[trigger] events[i]),
    ensures
        terminate_run(phase, events) != TerminatePhase::Done,
    decreases events.len(),
{
    if events.len() > 0 {
        assert(!is_join_event(events[0]));
        let rest = events.drop_first();
        assert forall|i: int| 0 <= i < rest.len() implies !is_join_event(#[trigger] rest[i]) by {
            assert(rest[i] == events[i + 1]);
        }
        lemma_no_return_without_join(terminate_transition(phase, events[0]).0, rest);
    }
}

} // verus!
