//! The pipeline's error taxonomy: one kind for each way a conversion
//! attempt can fail, each carrying a human-readable message.

use vstd::prelude::*;
use vstd::string::StringExecFns;

verus! {

/// Mathematical model of a pipeline error: the kind together with the
/// text of its message.
pub enum ErrorModel {
    /// The input path fails the `.epub` extension check or has no file name.
    InvalidInput { msg: Seq<char> },
    /// The external conversion tool is missing or fails its capability check.
    DependencyUnavailable { msg: Seq<char> },
    /// The external tool could not be started for the actual conversion or
    /// exited with a failure status; the message carries its diagnostics.
    ExternalToolError { msg: Seq<char> },
    /// A file-system read, write or delete failed, or the working directory
    /// could not be resolved.
    IoError { msg: Seq<char> },
    /// The required command-line argument is missing.
    UsageError,
}

/// An error of the conversion pipeline.  Every failure of a conversion
/// attempt is fatal and is reported as exactly one of these kinds.
#[derive(Debug)]
pub enum PipelineError {
    /// The input path fails the `.epub` extension check or has no file name.
    InvalidInput { msg: String },
    /// The external conversion tool is missing or fails its capability check.
    DependencyUnavailable { msg: String },
    /// The external tool could not be started for the actual conversion or
    /// exited with a failure status; the message carries its diagnostics.
    ExternalToolError { msg: String },
    /// A file-system read, write or delete failed, or the working directory
    /// could not be resolved.
    IoError { msg: String },
    /// The required command-line argument is missing.
    UsageError,
}

impl View for PipelineError {
    type V = ErrorModel;

    open spec fn view(&self) -> ErrorModel {
        match self {
            PipelineError::InvalidInput { msg } => ErrorModel::InvalidInput { msg: msg@ },
            PipelineError::DependencyUnavailable { msg } => ErrorModel::DependencyUnavailable {
                msg: msg@,
            },
            PipelineError::ExternalToolError { msg } => ErrorModel::ExternalToolError { msg: msg@ },
            PipelineError::IoError { msg } => ErrorModel::IoError { msg: msg@ },
            PipelineError::UsageError => ErrorModel::UsageError,
        }
    }
}

/// The usage line shown when the required argument is missing.
pub open spec fn usage_msg() -> Seq<char> {
    "usage: epub2md <input epub file> [output md file]"@
}

/// The full description of an error: its kind named in front of its message.
pub open spec fn error_description(e: ErrorModel) -> Seq<char> {
    match e {
        ErrorModel::InvalidInput { msg } => "invalid input: "@ + msg,
        ErrorModel::DependencyUnavailable { msg } => "dependency unavailable: "@ + msg,
        ErrorModel::ExternalToolError { msg } => "external tool error: "@ + msg,
        ErrorModel::IoError { msg } => "i/o error: "@ + msg,
        ErrorModel::UsageError => usage_msg(),
    }
}

impl PipelineError {
    /// An equal copy of the error.
    pub fn duplicate(&self) -> (r: PipelineError)
        ensures
            r@ == self@,
    {
        match self {
            PipelineError::InvalidInput { msg } => PipelineError::InvalidInput {
                msg: msg.clone(),
            },
            PipelineError::DependencyUnavailable { msg } => PipelineError::DependencyUnavailable {
                msg: msg.clone(),
            },
            PipelineError::ExternalToolError { msg } => PipelineError::ExternalToolError {
                msg: msg.clone(),
            },
            PipelineError::IoError { msg } => PipelineError::IoError { msg: msg.clone() },
            PipelineError::UsageError => PipelineError::UsageError,
        }
    }

    /// Renders the error as one line of text: the kind, then the message.
    pub fn describe(&self) -> (r: String)
        ensures
            r@ == error_description(self@),
    {
        match self {
            PipelineError::InvalidInput { msg } => String::from_str("invalid input: ").concat(
                msg.as_str(),
            ),
            PipelineError::DependencyUnavailable { msg } => String::from_str(
                "dependency unavailable: ",
            ).concat(msg.as_str()),
            PipelineError::ExternalToolError { msg } => String::from_str(
                "external tool error: ",
            ).concat(msg.as_str()),
            PipelineError::IoError { msg } => String::from_str("i/o error: ").concat(msg.as_str()),
            PipelineError::UsageError => String::from_str(
                "usage: epub2md <input epub file> [output md file]",
            ),
        }
    }
}

} // verus!
