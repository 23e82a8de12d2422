//! The supervisor: it waits for the completion signal, has the recording
//! processed once, and settles the exit status of the program.

use vstd::prelude::*;
use crate::stop::{StopCoordinator, StopEvent, StopModel};

verus! {

/// Exit status after the recording was saved and processed.
pub const EXIT_SUCCESS: i32 = 0;

/// Exit status after persistence or processing failed.
pub const EXIT_FAILURE: i32 = 1;

/// Where the supervisor stands.
#[derive(Clone, Copy, Debug, PartialEq, Eq, Structural)]
pub enum PipelineState {
    /// The recording is not yet saved.
    Waiting,
    /// Processing was started and has not reported yet.
    Processing,
    /// Processing ended well.
    Succeeded,
    /// Persistence or processing failed.
    Failed,
}

/// What the host is to do next.
#[derive(Clone, Copy, Debug, PartialEq, Eq, Structural)]
pub enum PipelineAction {
    /// Nothing yet: wait and ask again.
    Wait,
    /// Start processing the saved recording, then report with `processed`.
    Process,
    /// Leave the program with this status.
    Exit(i32),
}

/// The state after the supervisor was asked, given whether the completion
/// signal is raised.
pub open spec fn polled_state(state: PipelineState, signalled: bool) -> PipelineState {
    if state == PipelineState::Waiting && signalled {
        PipelineState::Processing
    } else {
        state
    }
}

/// The answer of the supervisor when asked, given whether the completion
/// signal is raised.
pub open spec fn polled_action(state: PipelineState, signalled: bool) -> PipelineAction {
    match state {
        PipelineState::Waiting => if signalled {
            PipelineAction::Process
        } else {
            PipelineAction::Wait
        },
        PipelineState::Processing => PipelineAction::Wait,
        PipelineState::Succeeded => PipelineAction::Exit(0),
        PipelineState::Failed => PipelineAction::Exit(1),
    }
}

/// The state after processing reported.
pub open spec fn processed_state(state: PipelineState, ok: bool) -> PipelineState {
    if state == PipelineState::Processing {
        if ok {
            PipelineState::Succeeded
        } else {
            PipelineState::Failed
        }
    } else {
        state
    }
}

/// The state after the stop sequence was reported as failed.
pub open spec fn aborted_state(state: PipelineState) -> PipelineState {
    if state == PipelineState::Waiting {
        PipelineState::Failed
    } else {
        state
    }
}

/// The exit status that a state settles, if it settles one.
pub open spec fn status_of(state: PipelineState) -> Option<i32> {
    match state {
        PipelineState::Succeeded => Some(0i32),
        PipelineState::Failed => Some(1i32),
        _ => None,
    }
}

/// Supervises what follows the recording.
pub struct PipelineSupervisor {
    state: PipelineState,
}

impl View for PipelineSupervisor {
    type V = PipelineState;

    closed spec fn view(&self) -> PipelineState {
        self.state
    }
}

impl PipelineSupervisor {
    /// A supervisor that waits.
    pub fn new() -> (s: Self)
        ensures
            s@ == PipelineState::Waiting,
    {
        PipelineSupervisor { state: PipelineState::Waiting }
    }

    /// The present state.
    pub fn state(&self) -> (s: PipelineState)
        ensures
            s == self@,
    {
        self.state
    }

    /// Asks what to do next. Processing is started at the first asking that
    /// finds the completion signal raised, and at no other.
    pub fn poll(&mut self, coordinator: &StopCoordinator) -> (action: PipelineAction)
        ensures
            action == polled_action(old(self)@, coordinator@.signalled),
            final(self)@ == polled_state(old(self)@, coordinator@.signalled),
    {
        match self.state {
            PipelineState::Waiting => {
                if coordinator.is_complete() {
                    self.state = PipelineState::Processing;
                    PipelineAction::Process
                } else {
                    PipelineAction::Wait
                }
            },
            PipelineState::Processing => PipelineAction::Wait,
            PipelineState::Succeeded => PipelineAction::Exit(EXIT_SUCCESS),
            PipelineState::Failed => PipelineAction::Exit(EXIT_FAILURE),
        }
    }

    /// Takes the report of the processing that `poll` started. At any other
    /// time the report is ignored.
    pub fn processed(&mut self, ok: bool)
        ensures
            final(self)@ == processed_state(old(self)@, ok),
    {
        match self.state {
            PipelineState::Processing => {
                self.state = if ok {
                    PipelineState::Succeeded
                } else {
                    PipelineState::Failed
                };
            },
            _ => {},
        }
    }

    /// Takes the report that the stop sequence failed: a waiting supervisor
    /// fails, and never starts processing.
    pub fn abort(&mut self)
        ensures
            final(self)@ == aborted_state(old(self)@),
    {
        match self.state {
            PipelineState::Waiting => {
                self.state = PipelineState::Failed;
            },
            _ => {},
        }
    }

    /// The exit status, once it is settled: zero after success, non-zero
    /// after a failure.
    pub fn exit_status(&self) -> (status: Option<i32>)
        ensures
            status == status_of(self@),
            status matches Some(code) ==> (code == 0 <==> self@ == PipelineState::Succeeded),
    {
        match self.state {
            PipelineState::Succeeded => Some(EXIT_SUCCESS),
            PipelineState::Failed => Some(EXIT_FAILURE),
            _ => None,
        }
    }
}

/// Coordinator and supervisor together.
pub struct SystemModel {
    pub stop: StopModel,
    pub pipeline: PipelineState,
}

/// What can happen to the two of them.
pub enum SystemEvent {
    /// An event of the stop sequence.
    Stop(StopEvent),
    /// The supervisor is asked what to do.
    Poll,
    /// Processing reports.
    Processed { ok: bool },
    /// The stop sequence is reported as failed.
    Abort,
}

impl SystemModel {
    /// An armed coordinator and a waiting supervisor.
    pub open spec fn initial() -> SystemModel {
        SystemModel { stop: StopModel::initial(), pipeline: PipelineState::Waiting }
    }

    /// Whether `e` starts processing.
    pub open spec fn invokes(self, e: SystemEvent) -> bool {
        e is Poll && self.pipeline == PipelineState::Waiting && self.stop.signalled
    }

    /// The system after `e`.
    pub open spec fn step(self, e: SystemEvent) -> SystemModel {
        match e {
            SystemEvent::Stop(s) => SystemModel { stop: self.stop.step(s), pipeline: self.pipeline },
            SystemEvent::Poll => SystemModel {
                stop: self.stop,
                pipeline: polled_state(self.pipeline, self.stop.signalled),
            },
            SystemEvent::Processed { ok } => SystemModel {
                stop: self.stop,
                pipeline: processed_state(self.pipeline, ok),
            },
            SystemEvent::Abort => SystemModel {
                stop: self.stop,
                pipeline: aborted_state(self.pipeline),
            },
        }
    }

    /// The system after `events`, in order.
    pub open spec fn run(self, events: Seq<SystemEvent>) -> SystemModel
        decreases events.len(),
    {
        if events.len() == 0 {
            self
        } else {
            self.step(events.first()).run(events.drop_first())
        }
    }

    /// How often processing is started over `events`.
    pub open spec fn invocations(self, events: Seq<SystemEvent>) -> nat
        decreases events.len(),
    {
        if events.len() == 0 {
            0
        } else {
            (if self.invokes(events.first()) { 1nat } else { 0nat })
                + self.step(events.first()).invocations(events.drop_first())
        }
    }
}

/// Whether `events` holds the report of a write that succeeded.
pub open spec fn reports_success(events: Seq<SystemEvent>) -> bool {
    exists|i: int|
        0 <= i < events.len() && #[trigger] events[i] == SystemEvent::Stop(
            StopEvent::Written { ok: true },
        )
}

/// Processing is started at most once, whatever happens, and never again
/// once the supervisor has left its waiting.
pub proof fn lemma_invoked_at_most_once(s: SystemModel, events: Seq<SystemEvent>)
    ensures
        s.invocations(events) <= 1,
        s.pipeline != PipelineState::Waiting ==> s.invocations(events) == 0,
        s.pipeline != PipelineState::Waiting ==> s.run(events).pipeline != PipelineState::Waiting,
    decreases events.len(),
{
    if events.len() > 0 {
        lemma_invoked_at_most_once(s.step(events.first()), events.drop_first());
    }
}

/// Where persistence has failed, processing is never started, whatever
/// follows: the signal stays lowered.
pub proof fn lemma_failure_never_invokes(s: SystemModel, events: Seq<SystemEvent>)
    requires
        s.stop.fired,
        !s.stop.pending,
        !s.stop.signalled,
    ensures
        s.invocations(events) == 0,
        !s.run(events).stop.signalled,
    decreases events.len(),
{
    if events.len() > 0 {
        let next = s.step(events.first());
        assert(next.stop == s.stop);
        lemma_failure_never_invokes(next, events.drop_first());
    }
}

/// Processing is started only after a write was reported as succeeded.
pub proof fn lemma_invoked_only_after_success(s: SystemModel, events: Seq<SystemEvent>)
    requires
        !s.stop.signalled,
        !reports_success(events),
    ensures
        s.invocations(events) == 0,
    decreases events.len(),
{
    if events.len() > 0 {
        let first = events.first();
        let rest = events.drop_first();
        assert(events[0] != SystemEvent::Stop(StopEvent::Written { ok: true }));
        assert(!reports_success(rest)) by {
            if reports_success(rest) {
                let i = choose|i: int|
                    0 <= i < rest.len() && #[trigger] rest[i] == SystemEvent::Stop(
                        StopEvent::Written { ok: true },
                    );
                assert(events[i + 1] == rest[i]);
            }
        }
        lemma_invoked_only_after_success(s.step(first), rest);
    }
}

/// The exit status is settled exactly in the two final states, and it is
/// zero only after success.
pub proof fn lemma_exit_status(state: PipelineState)
    ensures
        status_of(state) is Some <==> state == PipelineState::Succeeded || state
            == PipelineState::Failed,
        status_of(state) == Some(0i32) <==> state == PipelineState::Succeeded,
        polled_action(state, true) is Exit <==> status_of(state) is Some,
{
}

} // verus!
