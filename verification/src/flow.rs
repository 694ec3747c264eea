//! Operations that take more than one run of a tool: what to do next.

use vstd::prelude::*;
use crate::command::Invocation;

verus! {

/// What an operation in progress asks for: one more run of a tool, after
/// which it goes on from the state given, or nothing more, with its result.
#[derive(Debug)]
pub enum Step<S, T> {
    Run(S, Invocation),
    Done(T),
}

} // verus!
