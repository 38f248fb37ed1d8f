//! The `quit` builtin, also reached as `exit`.

use crate::error::builtin::{BuiltinError, BuiltinErrorView};
use crate::error::{PshError, PshErrorView};
use crate::repl::router::{result_view, Plan, Router, StepView};
use vstd::prelude::*;

verus! {

/// Whatever follows `quit`, the line asks the program to end.
pub fn parse(args: &str) -> (e: BuiltinError)
    ensures
        e@ == BuiltinErrorView::ExitRequested,
{
    BuiltinError::ExitRequested
}

/// Runs a `quit` line: the router stays as it is, and the request to end the
/// program is handed back in the place of a failure.
pub fn handle<H>(router: &mut Router<H>, args: &str) -> (r: Result<Plan<H>, PshError>)
    ensures
        (StepView { state: final(router)@, result: result_view(r) }) == (StepView {
            state: old(router)@,
            result: Err(PshErrorView::Builtin(BuiltinErrorView::ExitRequested)),
        }),
{
    Err(PshError::from(parse(args)))
}

} // verus!
