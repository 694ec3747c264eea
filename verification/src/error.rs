//! The closed set of failures that an operation can report.

use vstd::prelude::*;
use vstd::string::*;

verus! {

/// Why an operation failed, with the text shown to the operator.
#[derive(Debug)]
pub enum ErrorKind {
    /// A parameter failed validation before any process was started.
    InvalidArgument { detail: String },
    /// No command template exists for the operation asked for.
    UnsupportedTemplate { operation: String },
    /// The external tool could not be started.
    SpawnFailed { detail: String },
    /// The tool ran and reported failure; holds what it wrote to its
    /// error stream, unchanged.
    ExternalToolFailed { stderr: String },
    /// The tool's output is not the JSON that was expected; holds the
    /// start of the offending text.
    MalformedOutput { raw_snippet: String },
    /// A prerequisite of the operation is missing.
    Unavailable { detail: String },
}

pub enum ErrorView {
    InvalidArgument { detail: Seq<char> },
    UnsupportedTemplate { operation: Seq<char> },
    SpawnFailed { detail: Seq<char> },
    ExternalToolFailed { stderr: Seq<char> },
    MalformedOutput { raw_snippet: Seq<char> },
    Unavailable { detail: Seq<char> },
}

impl View for ErrorKind {
    type V = ErrorView;

    open spec fn view(&self) -> ErrorView {
        match self {
            ErrorKind::InvalidArgument { detail } => ErrorView::InvalidArgument { detail: detail@ },
            ErrorKind::UnsupportedTemplate { operation } => ErrorView::UnsupportedTemplate {
                operation: operation@,
            },
            ErrorKind::SpawnFailed { detail } => ErrorView::SpawnFailed { detail: detail@ },
            ErrorKind::ExternalToolFailed { stderr } => ErrorView::ExternalToolFailed {
                stderr: stderr@,
            },
            ErrorKind::MalformedOutput { raw_snippet } => ErrorView::MalformedOutput {
                raw_snippet: raw_snippet@,
            },
            ErrorKind::Unavailable { detail } => ErrorView::Unavailable { detail: detail@ },
        }
    }
}

pub const LABEL_INVALID_ARGUMENT: &'static str = "Argument invalide: ";

pub const LABEL_UNSUPPORTED_TEMPLATE: &'static str = "Opération inconnue: ";

pub const LABEL_SPAWN_FAILED: &'static str = "Impossible de lancer la commande: ";

pub const LABEL_TOOL_FAILED: &'static str = "La commande a échoué: ";

pub const LABEL_MALFORMED_OUTPUT: &'static str = "Sortie inattendue: ";

pub const LABEL_UNAVAILABLE: &'static str = "Indisponible: ";

impl ErrorView {
    /// The label that names the kind of failure.
    pub open spec fn label(self) -> Seq<char> {
        match self {
            ErrorView::InvalidArgument { .. } => LABEL_INVALID_ARGUMENT@,
            ErrorView::UnsupportedTemplate { .. } => LABEL_UNSUPPORTED_TEMPLATE@,
            ErrorView::SpawnFailed { .. } => LABEL_SPAWN_FAILED@,
            ErrorView::ExternalToolFailed { .. } => LABEL_TOOL_FAILED@,
            ErrorView::MalformedOutput { .. } => LABEL_MALFORMED_OUTPUT@,
            ErrorView::Unavailable { .. } => LABEL_UNAVAILABLE@,
        }
    }

    /// The text that the failure carries.
    pub open spec fn detail(self) -> Seq<char> {
        match self {
            ErrorView::InvalidArgument { detail } => detail,
            ErrorView::UnsupportedTemplate { operation } => operation,
            ErrorView::SpawnFailed { detail } => detail,
            ErrorView::ExternalToolFailed { stderr } => stderr,
            ErrorView::MalformedOutput { raw_snippet } => raw_snippet,
            ErrorView::Unavailable { detail } => detail,
        }
    }

    /// The line shown to the operator: the label, then the detail unchanged.
    pub open spec fn message(self) -> Seq<char> {
        self.label() + self.detail()
    }
}

impl ErrorKind {
    pub fn invalid_argument(detail: &str) -> (e: ErrorKind)
        ensures
            e@ == (ErrorView::InvalidArgument { detail: detail@ }),
    {
        ErrorKind::InvalidArgument { detail: String::from_str(detail) }
    }

    pub fn unavailable(detail: &str) -> (e: ErrorKind)
        ensures
            e@ == (ErrorView::Unavailable { detail: detail@ }),
    {
        ErrorKind::Unavailable { detail: String::from_str(detail) }
    }

    /// The line shown to the operator.
    pub fn message(&self) -> (m: String)
        ensures
            m@ == self@.message(),
    {
        match self {
            ErrorKind::InvalidArgument { detail } => String::from_str(LABEL_INVALID_ARGUMENT).concat(
                detail.as_str(),
            ),
            ErrorKind::UnsupportedTemplate { operation } => String::from_str(
                LABEL_UNSUPPORTED_TEMPLATE,
            ).concat(operation.as_str()),
            ErrorKind::SpawnFailed { detail } => String::from_str(LABEL_SPAWN_FAILED).concat(
                detail.as_str(),
            ),
            ErrorKind::ExternalToolFailed { stderr } => String::from_str(LABEL_TOOL_FAILED).concat(
                stderr.as_str(),
            ),
            ErrorKind::MalformedOutput { raw_snippet } => String::from_str(
                LABEL_MALFORMED_OUTPUT,
            ).concat(raw_snippet.as_str()),
            ErrorKind::Unavailable { detail } => String::from_str(LABEL_UNAVAILABLE).concat(
                detail.as_str(),
            ),
        }
    }
}

} // verus!
