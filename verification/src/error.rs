//! Why a dispatch can fail.

use crate::text::{join_strings, joined, lemma_joined_contains, lemma_occurs_within, occurs_in, string_views};
use vstd::prelude::*;
use vstd::string::*;

verus! {

/// The failures that a dispatch reports to its caller.
#[derive(Clone, Debug, PartialEq, Eq)]
pub enum DispatchError {
    /// No adapter is registered for the file's extension key.
    UnsupportedFormat { file: String },
    /// An adapter exists, but none of its tools is installed in a trusted
    /// place.
    NoTrustedTool { formats: Vec<String>, candidates: Vec<String> },
    /// The adapter refused to build a command for the tool that was found.
    AdapterBuild { reason: String },
    /// The operating system could not start the tool.
    Spawn { reason: String },
    /// The tool ran and ended with a status other than success.
    ExecutionFailure { status: String },
    /// The output directory could not be prepared, or the child not polled.
    Io { reason: String },
}

/// The content of a `DispatchError`.
pub enum ErrorView {
    UnsupportedFormat { file: Seq<char> },
    NoTrustedTool { formats: Seq<Seq<char>>, candidates: Seq<Seq<char>> },
    AdapterBuild { reason: Seq<char> },
    Spawn { reason: Seq<char> },
    ExecutionFailure { status: Seq<char> },
    Io { reason: Seq<char> },
}

impl ErrorView {
    /// The text shown to the user.
    pub open spec fn message(self) -> Seq<char> {
        match self {
            ErrorView::UnsupportedFormat { file } => "💥 Whoops! Unable to find a supported extractor for "@
                + file + ", is the file an archive?"@,
            ErrorView::NoTrustedTool { formats, candidates } => "💥 Whoops! No suitable extraction tool found on your system for "@
                + joined(formats, ", "@)
                + " archives. Please use your package manager to install one of: "@ + joined(
                candidates,
                ", "@,
            ),
            ErrorView::AdapterBuild { reason } => reason,
            ErrorView::Spawn { reason } => reason,
            ErrorView::ExecutionFailure { status } => "💥 Whoops! Command failed with exit status "@
                + status,
            ErrorView::Io { reason } => reason,
        }
    }
}

impl View for DispatchError {
    type V = ErrorView;

    open spec fn view(&self) -> ErrorView {
        match self {
            DispatchError::UnsupportedFormat { file } => ErrorView::UnsupportedFormat { file: file@ },
            DispatchError::NoTrustedTool { formats, candidates } => ErrorView::NoTrustedTool {
                formats: string_views(formats@),
                candidates: string_views(candidates@),
            },
            DispatchError::AdapterBuild { reason } => ErrorView::AdapterBuild { reason: reason@ },
            DispatchError::Spawn { reason } => ErrorView::Spawn { reason: reason@ },
            DispatchError::ExecutionFailure { status } => ErrorView::ExecutionFailure {
                status: status@,
            },
            DispatchError::Io { reason } => ErrorView::Io { reason: reason@ },
        }
    }
}

impl DispatchError {
    /// The text shown to the user.
    pub fn message(&self) -> (r: String)
        ensures
            r@ == self@.message(),
    {
        match self {
            DispatchError::UnsupportedFormat { file } => {
                let mut out = String::from_str(
                    "💥 Whoops! Unable to find a supported extractor for ",
                );
                out.append(file.as_str());
                out.append(", is the file an archive?");
                out
            },
            DispatchError::NoTrustedTool { formats, candidates } => {
                let mut out = String::from_str(
                    "💥 Whoops! No suitable extraction tool found on your system for ",
                );
                let f = join_strings(formats, ", ");
                out.append(f.as_str());
                out.append(" archives. Please use your package manager to install one of: ");
                let c = join_strings(candidates, ", ");
                out.append(c.as_str());
                out
            },
            DispatchError::AdapterBuild { reason } => reason.clone(),
            DispatchError::Spawn { reason } => reason.clone(),
            DispatchError::ExecutionFailure { status } => {
                let mut out = String::from_str("💥 Whoops! Command failed with exit status ");
                out.append(status.as_str());
                out
            },
            DispatchError::Io { reason } => reason.clone(),
        }
    }
}

/// The message of a missing tool names every candidate that was tried.
pub proof fn lemma_missing_tool_message_names_candidates(
    formats: Seq<Seq<char>>,
    candidates: Seq<Seq<char>>,
    i: int,
)
    requires
        0 <= i < candidates.len(),
    ensures
        occurs_in(candidates[i], (ErrorView::NoTrustedTool { formats, candidates }).message()),
{
    let list = joined(candidates, ", "@);
    lemma_joined_contains(candidates, ", "@, i);
    let front = "💥 Whoops! No suitable extraction tool found on your system for "@ + joined(
        formats,
        ", "@,
    ) + " archives. Please use your package manager to install one of: "@;
    lemma_occurs_within(candidates[i], front, list, Seq::empty());
    assert(front + list + Seq::<char>::empty() =~= front + list);
}

} // verus!
