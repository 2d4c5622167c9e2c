//! The stages of one dispatch, from an unresolved file to its outcome. The
//! caller does the work of each stage and reports what came of it; the
//! transitions are decided here.

use crate::command::{AdapterError, CommandSpec, CommandView};
use crate::error::{DispatchError, ErrorView};
use vstd::prelude::*;
use vstd::string::*;

verus! {

/// Where a dispatch stands.
#[derive(Debug, PartialEq, Eq)]
pub enum DispatchState {
    /// No tool has been looked for yet.
    Unresolved,
    /// A trusted, installed tool was found.
    Located { binary: String },
    /// The command is built; the output directory is still to be prepared.
    Building { command: CommandSpec },
    /// The output directory stands and the command runs under supervision.
    Running { command: CommandSpec },
    /// The tool ended with success.
    Succeeded,
    /// The dispatch failed, at whatever stage.
    Failed { error: DispatchError },
}

/// What the caller reports after the work of a stage.
#[derive(Debug, PartialEq, Eq)]
pub enum DispatchEvent {
    /// The search for a tool ended.
    Resolved { binary: Result<String, DispatchError> },
    /// The adapter built a command or refused.
    Built { command: Result<CommandSpec, AdapterError> },
    /// The output directory was prepared, or could not be, with the reason.
    DirectoryReady { result: Result<(), String> },
    /// The supervised run ended.
    Exited { outcome: Result<(), DispatchError> },
}

/// The content of a `DispatchState`.
pub enum StateView {
    Unresolved,
    Located { binary: Seq<char> },
    Building { command: CommandView },
    Running { command: CommandView },
    Succeeded,
    Failed { error: ErrorView },
}

impl View for DispatchState {
    type V = StateView;

    open spec fn view(&self) -> StateView {
        match self {
            DispatchState::Unresolved => StateView::Unresolved,
            DispatchState::Located { binary } => StateView::Located { binary: binary@ },
            DispatchState::Building { command } => StateView::Building { command: command@ },
            DispatchState::Running { command } => StateView::Running { command: command@ },
            DispatchState::Succeeded => StateView::Succeeded,
            DispatchState::Failed { error } => StateView::Failed { error: error@ },
        }
    }
}

/// The state after an event. Each stage answers to the one event that ends
/// its work: success moves on to the next stage, failure to `Failed` with
/// the error of that stage. Any other event leaves the state as it is, so
/// the two final states are never left.
pub open spec fn next_state(state: DispatchState, event: DispatchEvent) -> StateView {
    match (state, event) {
        (DispatchState::Unresolved, DispatchEvent::Resolved { binary: Ok(binary) }) => StateView::Located {
            binary: binary@,
        },
        (DispatchState::Unresolved, DispatchEvent::Resolved { binary: Err(e) }) => StateView::Failed {
            error: e@,
        },
        (DispatchState::Located { .. }, DispatchEvent::Built { command: Ok(command) }) => StateView::Building {
            command: command@,
        },
        (DispatchState::Located { .. }, DispatchEvent::Built { command: Err(e) }) => StateView::Failed {
            error: ErrorView::AdapterBuild { reason: e@ },
        },
        (DispatchState::Building { command }, DispatchEvent::DirectoryReady { result: Ok(()) }) => StateView::Running {
            command: command@,
        },
        (
            DispatchState::Building { .. },
            DispatchEvent::DirectoryReady { result: Err(reason) },
        ) => StateView::Failed { error: ErrorView::Io { reason: reason@ } },
        (DispatchState::Running { .. }, DispatchEvent::Exited { outcome: Ok(()) }) => StateView::Succeeded,
        (DispatchState::Running { .. }, DispatchEvent::Exited { outcome: Err(e) }) => StateView::Failed {
            error: e@,
        },
        (state, _) => state@,
    }
}

/// Moves a dispatch on by one event.
pub fn advance(state: DispatchState, event: DispatchEvent) -> (r: DispatchState)
    ensures
        r@ == next_state(state, event),
{
    match (state, event) {
        (DispatchState::Unresolved, DispatchEvent::Resolved { binary: Ok(binary) }) => DispatchState::Located {
            binary,
        },
        (DispatchState::Unresolved, DispatchEvent::Resolved { binary: Err(e) }) => DispatchState::Failed {
            error: e,
        },
        (DispatchState::Located { .. }, DispatchEvent::Built { command: Ok(command) }) => DispatchState::Building {
            command,
        },
        (DispatchState::Located { .. }, DispatchEvent::Built { command: Err(e) }) => DispatchState::Failed {
            error: DispatchError::AdapterBuild { reason: e.message },
        },
        (DispatchState::Building { command }, DispatchEvent::DirectoryReady { result: Ok(()) }) => DispatchState::Running {
            command,
        },
        (
            DispatchState::Building { .. },
            DispatchEvent::DirectoryReady { result: Err(reason) },
        ) => DispatchState::Failed { error: DispatchError::Io { reason } },
        (DispatchState::Running { .. }, DispatchEvent::Exited { outcome: Ok(()) }) => DispatchState::Succeeded,
        (DispatchState::Running { .. }, DispatchEvent::Exited { outcome: Err(e) }) => DispatchState::Failed {
            error: e,
        },
        (state, _) => state,
    }
}

/// Whether a state is final.
pub open spec fn is_final(state: StateView) -> bool {
    state is Succeeded || state is Failed
}

/// Whether a dispatch has ended.
pub fn has_ended(state: &DispatchState) -> (r: bool)
    ensures
        r == is_final(state@),
{
    match state {
        DispatchState::Succeeded => true,
        DispatchState::Failed { .. } => true,
        _ => false,
    }
}

/// A final state is never left, and success is reached from the running
/// stage only, on a successful exit.
pub proof fn lemma_final_states_stay(state: DispatchState, event: DispatchEvent)
    ensures
        is_final(state@) ==> next_state(state, event) == state@,
        next_state(state, event) is Succeeded && !(state is Succeeded) ==> state is Running && (event
            matches DispatchEvent::Exited { outcome } && outcome is Ok),
{
}

/// What to do next in a batch whose files are unpacked one by one.
#[derive(Debug, PartialEq, Eq)]
pub enum BatchStep {
    /// Unpack the file at this position.
    Extract { index: usize },
    /// Give up: a file failed, and those after it are not touched.
    Stop { error: DispatchError },
    /// Every file is done.
    Done,
}

/// The content of a `BatchStep`.
pub enum BatchStepView {
    Extract { index: int },
    Stop { error: ErrorView },
    Done,
}

impl View for BatchStep {
    type V = BatchStepView;

    open spec fn view(&self) -> BatchStepView {
        match self {
            BatchStep::Extract { index } => BatchStepView::Extract { index: *index as int },
            BatchStep::Stop { error } => BatchStepView::Stop { error: error@ },
            BatchStep::Done => BatchStepView::Done,
        }
    }
}

/// The step after `finished` of `total` files are done and the last of them
/// ended in `last`: a failure stops the batch, else the files go on in
/// input order until none is left.
pub open spec fn step_after(total: int, finished: int, last: Result<(), DispatchError>) -> BatchStepView {
    match last {
        Err(e) => BatchStepView::Stop { error: e@ },
        Ok(()) => if finished < total {
            BatchStepView::Extract { index: finished }
        } else {
            BatchStepView::Done
        },
    }
}

/// A batch whose check failed stops before its first file: with the check's
/// error as what came last and nothing finished, no file is unpacked.
pub proof fn lemma_failed_check_stops_batch(total: int, error: DispatchError)
    ensures
        step_after(total, 0, Err(error)) == (BatchStepView::Stop { error: error@ }),
{
}

/// Decides how a batch goes on. The first call takes the result of the
/// batch's check as what came last, with nothing finished.
pub fn next_step(total: usize, finished: usize, last: Result<(), DispatchError>) -> (r: BatchStep)
    ensures
        r@ == step_after(total as int, finished as int, last),
{
    match last {
        Err(e) => BatchStep::Stop { error: e },
        Ok(()) => if finished < total {
            BatchStep::Extract { index: finished }
        } else {
            BatchStep::Done
        },
    }
}

} // verus!
