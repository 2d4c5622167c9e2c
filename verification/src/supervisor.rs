//! The decisions of process supervision: how the child's streams are set up,
//! when the wait for it ends, and what its exit means.

use crate::error::{DispatchError, ErrorView};
use vstd::prelude::*;
use vstd::string::*;

verus! {

/// What happens to one standard stream of the child.
#[derive(Clone, Copy, Debug, PartialEq, Eq, Structural)]
pub enum StreamMode {
    /// Connected to the parent, which relays it.
    Piped,
    /// Thrown away.
    Discarded,
}

/// The set-up of the child's three standard streams.
#[derive(Clone, Copy, Debug, PartialEq, Eq, Structural)]
pub struct StreamPlan {
    pub stdin: StreamMode,
    pub stdout: StreamMode,
    pub stderr: StreamMode,
}

/// Input and errors are always relayed; output only when verbose.
pub open spec fn stream_plan_of(verbose: bool) -> StreamPlan {
    StreamPlan {
        stdin: StreamMode::Piped,
        stdout: if verbose {
            StreamMode::Piped
        } else {
            StreamMode::Discarded
        },
        stderr: StreamMode::Piped,
    }
}

/// The set-up of the child's streams.
pub fn stream_plan(verbose: bool) -> (r: StreamPlan)
    ensures
        r == stream_plan_of(verbose),
{
    StreamPlan {
        stdin: StreamMode::Piped,
        stdout: if verbose {
            StreamMode::Piped
        } else {
            StreamMode::Discarded
        },
        stderr: StreamMode::Piped,
    }
}

/// The time between two looks at the child, in milliseconds.
pub const TICK_MILLIS: u64 = 100;

/// A terminal status of the child, as the operating system reported it.
#[derive(Clone, Debug, PartialEq, Eq)]
pub struct ExitReport {
    /// Whether the status means success.
    pub success: bool,
    /// The status in words, with its code or signal.
    pub description: String,
}

/// What the supervisor can wake up to.
#[derive(Clone, Debug, PartialEq, Eq)]
pub enum SupervisorEvent {
    /// The operating system could not start the child.
    SpawnFailed { reason: String },
    /// A relayed stream of the child has closed.
    StreamClosed,
    /// The tick came and the child was looked at: `None` while it runs.
    Tick { exit: Option<ExitReport> },
    /// The tick came and the look at the child failed.
    PollFailed { reason: String },
    /// After the child's end, a tick passed in which no relay closed.
    DrainTimeout,
}

/// What the supervisor does next.
#[derive(Debug, PartialEq, Eq)]
pub enum SupervisorAction {
    /// Go on waiting for the next event.
    Wait,
    /// Stop and report the outcome.
    Finish { outcome: Result<(), DispatchError> },
}

/// The outcome that an event ends the supervision with, `None` for an event
/// after which the wait goes on. Only a look at the child that found a
/// terminal status ends a running supervision; a closed stream never does.
pub open spec fn verdict(event: SupervisorEvent) -> Option<Result<(), ErrorView>> {
    match event {
        SupervisorEvent::SpawnFailed { reason } => Some(Err(ErrorView::Spawn { reason: reason@ })),
        SupervisorEvent::StreamClosed => None,
        SupervisorEvent::Tick { exit: None } => None,
        SupervisorEvent::Tick { exit: Some(report) } => Some(exit_verdict(report)),
        SupervisorEvent::PollFailed { reason } => Some(Err(ErrorView::Io { reason: reason@ })),
        SupervisorEvent::DrainTimeout => None,
    }
}

/// Success exactly for a successful status; else the failure that carries
/// the status in words.
pub open spec fn exit_verdict(report: ExitReport) -> Result<(), ErrorView> {
    if report.success {
        Ok(())
    } else {
        Err(ErrorView::ExecutionFailure { status: report.description@ })
    }
}

/// The content of an action.
pub open spec fn action_view(action: SupervisorAction) -> Option<Result<(), ErrorView>> {
    match action {
        SupervisorAction::Wait => None,
        SupervisorAction::Finish { outcome: Ok(()) } => Some(Ok(())),
        SupervisorAction::Finish { outcome: Err(e) } => Some(Err(e@)),
    }
}

/// What a terminal status means.
pub fn outcome_of(report: ExitReport) -> (r: Result<(), DispatchError>)
    ensures
        match r {
            Ok(()) => exit_verdict(report) == Ok::<(), ErrorView>(()),
            Err(e) => exit_verdict(report) == Err::<(), ErrorView>(e@),
        },
{
    if report.success {
        Ok(())
    } else {
        Err(DispatchError::ExecutionFailure { status: report.description })
    }
}

/// The supervisor's decision on an event.
pub fn on_event(event: SupervisorEvent) -> (r: SupervisorAction)
    ensures
        action_view(r) == verdict(event),
{
    match event {
        SupervisorEvent::SpawnFailed { reason } => SupervisorAction::Finish {
            outcome: Err(DispatchError::Spawn { reason }),
        },
        SupervisorEvent::StreamClosed => SupervisorAction::Wait,
        SupervisorEvent::Tick { exit: None } => SupervisorAction::Wait,
        SupervisorEvent::Tick { exit: Some(report) } => SupervisorAction::Finish {
            outcome: outcome_of(report),
        },
        SupervisorEvent::PollFailed { reason } => SupervisorAction::Finish {
            outcome: Err(DispatchError::Io { reason }),
        },
        SupervisorEvent::DrainTimeout => SupervisorAction::Wait,
    }
}

/// The supervision ends exactly on a failed start, a failed look, or a look
/// that found the child ended; and it ends in success exactly when that
/// status is a success.
pub proof fn lemma_supervision_ends_on_exit_only(event: SupervisorEvent)
    ensures
        verdict(event) is None <==> (event is StreamClosed || event is DrainTimeout || event == (
            SupervisorEvent::Tick { exit: None }
        )),
        verdict(event) == Some(Ok::<(), ErrorView>(())) <==> (event matches SupervisorEvent::Tick {
            exit: Some(report),
        } && report.success),
{
}

/// A supervision in progress: how many relays of the child's output are
/// still open, and how the child ended, once it has.
#[derive(Debug, PartialEq, Eq)]
pub struct Supervision {
    /// The relays that have not yet reported their stream closed.
    pub open_relays: usize,
    /// The outcome, from the moment the child's end is known.
    pub ended: Option<Result<(), DispatchError>>,
}

/// The content of a `Supervision`.
pub struct SupervisionView {
    pub open_relays: int,
    pub ended: Option<Result<(), ErrorView>>,
}

impl View for Supervision {
    type V = SupervisionView;

    open spec fn view(&self) -> SupervisionView {
        SupervisionView {
            open_relays: self.open_relays as int,
            ended: match self.ended {
                None => None,
                Some(Ok(())) => Some(Ok(())),
                Some(Err(e)) => Some(Err(e@)),
            },
        }
    }
}

/// How the caller waits next.
#[derive(Clone, Copy, Debug, PartialEq, Eq, Structural)]
pub enum SupervisorStep {
    /// Wait for a closed stream or the next tick, then look at the child.
    Wait,
    /// The child has ended: wait one tick at most for a relay to close.
    Drain,
    /// Stop and report the outcome that the supervision holds.
    Finish,
}

/// The supervision after an event, and how to wait next.
///
/// While the child runs, a closed stream takes one relay off the count and
/// the wait goes on; the child's end is known only from an event with a
/// verdict. With that the outcome is fixed: the supervision finishes at once
/// where no relay is open, else it drains. While it drains, each closed
/// stream takes one relay off, and it finishes when none is left or when a
/// tick passes without one: a relay whose pipe stays open is not waited for.
pub open spec fn supervised(state: Supervision, event: SupervisorEvent) -> (
    SupervisionView,
    SupervisorStep,
) {
    let open = state.open_relays as int;
    match state@.ended {
        Some(outcome) => match event {
            SupervisorEvent::StreamClosed => if open <= 1 {
                (SupervisionView { open_relays: 0, ended: Some(outcome) }, SupervisorStep::Finish)
            } else {
                (
                    SupervisionView { open_relays: open - 1, ended: Some(outcome) },
                    SupervisorStep::Drain,
                )
            },
            SupervisorEvent::DrainTimeout => (state@, SupervisorStep::Finish),
            _ => (state@, SupervisorStep::Drain),
        },
        None => match verdict(event) {
            None => (
                SupervisionView {
                    open_relays: if event is StreamClosed && open > 0 {
                        open - 1
                    } else {
                        open
                    },
                    ended: None,
                },
                SupervisorStep::Wait,
            ),
            Some(outcome) => (
                SupervisionView { open_relays: open, ended: Some(outcome) },
                if open == 0 {
                    SupervisorStep::Finish
                } else {
                    SupervisorStep::Drain
                },
            ),
        },
    }
}

/// A supervision that starts with the child running and `open_relays`
/// relays on its output.
pub fn begin_supervision(open_relays: usize) -> (r: Supervision)
    ensures
        r@ == (SupervisionView { open_relays: open_relays as int, ended: None }),
{
    Supervision { open_relays, ended: None }
}

/// Moves a supervision on by one event.
pub fn supervise(state: Supervision, event: SupervisorEvent) -> (r: (Supervision, SupervisorStep))
    ensures
        r.0@ == supervised(state, event).0,
        r.1 == supervised(state, event).1,
{
    let open = state.open_relays;
    match state.ended {
        Some(outcome) => match event {
            SupervisorEvent::StreamClosed => if open <= 1 {
                (Supervision { open_relays: 0, ended: Some(outcome) }, SupervisorStep::Finish)
            } else {
                (Supervision { open_relays: open - 1, ended: Some(outcome) }, SupervisorStep::Drain)
            },
            SupervisorEvent::DrainTimeout => (
                Supervision { open_relays: open, ended: Some(outcome) },
                SupervisorStep::Finish,
            ),
            _ => (Supervision { open_relays: open, ended: Some(outcome) }, SupervisorStep::Drain),
        },
        None => {
            let closed = match &event {
                SupervisorEvent::StreamClosed => true,
                _ => false,
            };
            match on_event(event) {
                SupervisorAction::Wait => (
                    Supervision {
                        open_relays: if closed && open > 0 {
                            open - 1
                        } else {
                            open
                        },
                        ended: None,
                    },
                    SupervisorStep::Wait,
                ),
                SupervisorAction::Finish { outcome } => (
                    Supervision { open_relays: open, ended: Some(outcome) },
                    if open == 0 {
                        SupervisorStep::Finish
                    } else {
                        SupervisorStep::Drain
                    },
                ),
            }
        },
    }
}

/// While the child runs, a closed stream never ends the supervision; once
/// the child has ended, its outcome is kept to the finish, and a tick
/// without a closed stream finishes the supervision.
pub proof fn lemma_supervision_steps(state: Supervision, event: SupervisorEvent)
    ensures
        state.ended is None && event is StreamClosed ==> supervised(state, event).1
            == SupervisorStep::Wait && supervised(state, event).0.ended is None,
        state.ended is Some ==> supervised(state, event).0.ended == state@.ended && supervised(
            state,
            event,
        ).1 != SupervisorStep::Wait,
        state.ended is Some && event is DrainTimeout ==> supervised(state, event).1
            == SupervisorStep::Finish,
        supervised(state, event).0.open_relays <= state.open_relays,
{
}

} // verus!
