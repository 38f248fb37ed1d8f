//! The `admin` builtin: `sessions | default set <name> | default get`.

use crate::builtins::{Command, CommandView};
use crate::error::builtin::{BuiltinError, BuiltinErrorView};
use crate::error::PshError;
use crate::repl::router::{commanded, result_view, Plan, Router, StepView};
use crate::text::order::same_text;
use crate::text::space::{split_whitespace, words};
use vstd::prelude::*;

verus! {

/// What an `admin` line asks for.
pub open spec fn command_spec(args: Seq<char>) -> Result<CommandView, BuiltinErrorView> {
    let w = words(args);
    if w.len() == 1 && w[0] == "sessions"@ {
        Ok(CommandView::Sessions)
    } else if w.len() == 3 && w[0] == "default"@ && w[1] == "set"@ {
        Ok(CommandView::DefaultSet { name: w[2] })
    } else if w.len() == 2 && w[0] == "default"@ && w[1] == "get"@ {
        Ok(CommandView::DefaultGet)
    } else {
        Err(BuiltinErrorView::AdminUnrecognized { args })
    }
}

/// Reads an `admin` line.
pub fn parse(args: &str) -> (r: Result<Command, BuiltinError>)
    ensures
        match r {
            Ok(c) => command_spec(args@) == Ok::<CommandView, BuiltinErrorView>(c@),
            Err(e) => command_spec(args@) == Err::<CommandView, BuiltinErrorView>(e@),
        },
{
    let w = split_whitespace(args);
    let n = w.len();
    assert(w.deep_view().len() == n);
    assert forall|i: int| 0 <= i < n implies w[i]@ == #[trigger] w.deep_view()[i] by {}
    if n == 1 && same_text(w[0].as_str(), "sessions") {
        Ok(Command::Sessions)
    } else if n == 3 && same_text(w[0].as_str(), "default") && same_text(w[1].as_str(), "set") {
        Ok(Command::DefaultSet { name: w[2].clone() })
    } else if n == 2 && same_text(w[0].as_str(), "default") && same_text(w[1].as_str(), "get") {
        Ok(Command::DefaultGet)
    } else {
        Err(BuiltinError::AdminUnrecognized { args: String::from_str(args) })
    }
}

/// Runs a `admin` line on the router.
pub fn handle<H>(router: &mut Router<H>, args: &str) -> (r: Result<Plan<H>, PshError>)
    ensures
        (StepView { state: final(router)@, result: result_view(r) }) == commanded(
            old(router)@,
            command_spec(args@),
        ),
{
    match parse(args) {
        Ok(cmd) => router.apply(cmd),
        Err(e) => Err(PshError::from(e)),
    }
}

} // verus!
