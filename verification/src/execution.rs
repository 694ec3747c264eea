//! What running an invocation gives back.

use vstd::prelude::*;
use vstd::string::*;
use crate::error::{ErrorKind, ErrorView};

verus! {

/// What a finished process left behind.
#[derive(Debug)]
pub struct ExecutionResult {
    /// Whether the process reported success through its exit status.
    pub exit_success: bool,
    pub stdout: Vec<u8>,
    pub stderr: Vec<u8>,
}

/// The text that a run of bytes stands for, where every part that is not
/// UTF-8 is replaced by U+FFFD.
pub uninterp spec fn utf8_lossy(bytes: Seq<u8>) -> Seq<char>;

/// `String::from_utf8_lossy` of std: the text of the bytes, with U+FFFD in
/// place of what is not UTF-8; it depends on the bytes alone.
#[verifier::external_body]
pub(crate) fn lossy_text(bytes: &Vec<u8>) -> (r: String)
    ensures
        r@ == utf8_lossy(bytes@),
{
    String::from_utf8_lossy(bytes).into_owned()
}

/// The failure to report when the tool could not be started.
pub fn spawn_failed(detail: &str) -> (e: ErrorKind)
    ensures
        e@ == (ErrorView::SpawnFailed { detail: detail@ }),
{
    ErrorKind::SpawnFailed { detail: String::from_str(detail) }
}

impl ExecutionResult {
    /// The text that the process wrote to its output stream.
    pub fn stdout_text(&self) -> (r: String)
        ensures
            r@ == utf8_lossy(self.stdout@),
    {
        lossy_text(&self.stdout)
    }

    /// The text that the process wrote to its error stream.
    pub fn stderr_text(&self) -> (r: String)
        ensures
            r@ == utf8_lossy(self.stderr@),
    {
        lossy_text(&self.stderr)
    }
}

} // verus!
