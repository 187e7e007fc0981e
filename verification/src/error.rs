//! The failures that the engine reports.

use vstd::prelude::*;

verus! {

/// Why an operation failed. Nothing is swallowed: every failure of the
/// executable, of its output or of the chain reaches the caller as one of
/// these.
#[derive(Debug, Clone, PartialEq, Eq)]
pub enum PipelineError {
    /// The executable could not be started; holds the system's message.
    ProcessSpawnFailure(String),
    /// The output was not UTF-8, not a JSON document, or lacked a field.
    ResponseDecodeFailure,
    /// A query wrote to standard error; holds that text.
    UnderlyingToolError(String),
    /// The chain answered with a non-zero code; holds the transaction
    /// hash and the raw log.
    TransactionFailed(String, String),
    /// A confirmed transaction has no first attribute to read.
    EventShapeMismatch,
    /// The workspace template could not be cloned.
    InitFailed,
    /// The contract template could not be cloned.
    ContractTemplateCloneFailed,
    /// A command that needs a project ran outside of one.
    ProjectFileNotFound,
}

/// The mathematical value of a failure.
pub enum PipelineErrorView {
    ProcessSpawnFailure(Seq<char>),
    ResponseDecodeFailure,
    UnderlyingToolError(Seq<char>),
    TransactionFailed(Seq<char>, Seq<char>),
    EventShapeMismatch,
    InitFailed,
    ContractTemplateCloneFailed,
    ProjectFileNotFound,
}

impl View for PipelineError {
    type V = PipelineErrorView;

    open spec fn view(&self) -> PipelineErrorView {
        match self {
            PipelineError::ProcessSpawnFailure(m) => PipelineErrorView::ProcessSpawnFailure(m@),
            PipelineError::ResponseDecodeFailure => PipelineErrorView::ResponseDecodeFailure,
            PipelineError::UnderlyingToolError(m) => PipelineErrorView::UnderlyingToolError(m@),
            PipelineError::TransactionFailed(h, l) => PipelineErrorView::TransactionFailed(h@, l@),
            PipelineError::EventShapeMismatch => PipelineErrorView::EventShapeMismatch,
            PipelineError::InitFailed => PipelineErrorView::InitFailed,
            PipelineError::ContractTemplateCloneFailed => PipelineErrorView::ContractTemplateCloneFailed,
            PipelineError::ProjectFileNotFound => PipelineErrorView::ProjectFileNotFound,
        }
    }
}

} // verus!
