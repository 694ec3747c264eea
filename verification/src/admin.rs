//! Asking for the rights of an administrator.

use vstd::prelude::*;
use vstd::string::*;
use crate::command::{powershell, Invocation};
use crate::error::ErrorKind;
use crate::execution::{utf8_lossy, ExecutionResult};
use crate::quoting::{double_quoted, quote_double};

verus! {

/// What a request for the rights of an administrator came to.
#[derive(Debug)]
pub enum ElevationOutcome {
    /// A new instance with the rights asked for was started; the caller
    /// may now end this one.
    ElevationGranted,
    /// The user declined, or the request could not be made; holds what the
    /// tool wrote to its error stream, or why it could not be run.
    ElevationDeclinedOrFailed { detail: String },
}

pub enum ElevationView {
    ElevationGranted,
    ElevationDeclinedOrFailed { detail: Seq<char> },
}

impl View for ElevationOutcome {
    type V = ElevationView;

    open spec fn view(&self) -> ElevationView {
        match self {
            ElevationOutcome::ElevationGranted => ElevationView::ElevationGranted,
            ElevationOutcome::ElevationDeclinedOrFailed { detail } => {
                ElevationView::ElevationDeclinedOrFailed { detail: detail@ }
            },
        }
    }
}

pub const RELAUNCH_OPEN: &'static str = "Start-Process -FilePath ";

pub const RELAUNCH_CLOSE: &'static str = " -Verb RunAs";

/// The command that starts the program at `executable` again with the
/// rights of an administrator.
pub fn require_admin_command(executable: &str) -> (r: Invocation)
    ensures
        r@ == powershell(RELAUNCH_OPEN@ + double_quoted(executable@) + RELAUNCH_CLOSE@),
{
    Invocation::powershell(
        String::from_str(RELAUNCH_OPEN).concat(quote_double(executable).as_str()).concat(
            RELAUNCH_CLOSE,
        ),
    )
}

/// What the request came to.
pub open spec fn elevation_of(outcome: Result<ExecutionResult, ErrorKind>) -> ElevationView {
    match outcome {
        Ok(raw) => if raw.exit_success {
            ElevationView::ElevationGranted
        } else {
            ElevationView::ElevationDeclinedOrFailed { detail: utf8_lossy(raw.stderr@) }
        },
        Err(e) => ElevationView::ElevationDeclinedOrFailed { detail: e@.message() },
    }
}

pub fn require_admin_response(outcome: Result<ExecutionResult, ErrorKind>) -> (r: ElevationOutcome)
    ensures
        r@ == elevation_of(outcome),
{
    match outcome {
        Ok(raw) => if raw.exit_success {
            ElevationOutcome::ElevationGranted
        } else {
            ElevationOutcome::ElevationDeclinedOrFailed { detail: raw.stderr_text() }
        },
        Err(e) => ElevationOutcome::ElevationDeclinedOrFailed { detail: e.message() },
    }
}

} // verus!
