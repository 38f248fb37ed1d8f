//! The `local` builtin: `[list] | add <name> <program> | remove <name> |
//! start <name> | stop <name>`.

use crate::builtins::{Command, CommandView};
use crate::error::builtin::{BuiltinError, BuiltinErrorView};
use crate::error::PshError;
use crate::repl::router::{commanded, result_view, Plan, Router, StepView};
use crate::shell::spec::{ShellSpec, ShellSpecView};
use crate::text::order::same_text;
use crate::text::space::{split_whitespace, words};
use vstd::prelude::*;

verus! {

/// What the words `w` of a `local` line ask for; `args` is the line, for the
/// failure that names it.
pub open spec fn command_spec(args: Seq<char>) -> Result<CommandView, BuiltinErrorView> {
    let w = words(args);
    if w.len() == 0 || (w.len() == 1 && w[0] == "list"@) {
        Ok(CommandView::ListLocal)
    } else if w.len() == 3 && w[0] == "add"@ {
        Ok(CommandView::Add { name: w[1], spec: ShellSpecView::Local { program: w[2] } })
    } else if w.len() == 2 && w[0] == "remove"@ {
        Ok(CommandView::Remove { name: w[1] })
    } else if w.len() == 2 && w[0] == "start"@ {
        Ok(CommandView::Start { name: w[1] })
    } else if w.len() == 2 && w[0] == "stop"@ {
        Ok(CommandView::Stop { name: w[1] })
    } else {
        Err(BuiltinErrorView::LocalUnrecognized { args })
    }
}

/// Reads a `local` line.
pub fn parse(args: &str) -> (r: Result<Command, BuiltinError>)
    ensures
        match r {
            Ok(c) => command_spec(args@) == Ok::<CommandView, BuiltinErrorView>(c@),
            Err(e) => command_spec(args@) == Err::<CommandView, BuiltinErrorView>(e@),
        },
{
    let w = split_whitespace(args);
    let n = w.len();
    assert(w.deep_view().len() == n);
    assert forall|i: int| 0 <= i < n implies w[i]@ == #[trigger] w.deep_view()[i] by {}
    if n == 0 || (n == 1 && same_text(w[0].as_str(), "list")) {
        Ok(Command::ListLocal)
    } else if n == 3 && same_text(w[0].as_str(), "add") {
        Ok(
            Command::Add {
                name: w[1].clone(),
                spec: ShellSpec::Local { program: w[2].clone() },
            },
        )
    } else if n == 2 && same_text(w[0].as_str(), "remove") {
        Ok(Command::Remove { name: w[1].clone() })
    } else if n == 2 && same_text(w[0].as_str(), "start") {
        Ok(Command::Start { name: w[1].clone() })
    } else if n == 2 && same_text(w[0].as_str(), "stop") {
        Ok(Command::Stop { name: w[1].clone() })
    } else {
        Err(BuiltinError::LocalUnrecognized { args: String::from_str(args) })
    }
}

/// Runs a `local` line on the router.
pub fn handle<H>(router: &mut Router<H>, args: &str) -> (r: Result<Plan<H>, PshError>)
    ensures
        (StepView { state: final(router)@, result: result_view(r) }) == commanded(
            old(router)@,
            command_spec(args@),
        ),
{
    match parse(args) {
        Ok(cmd) => router.apply(cmd),
        Err(e) => Err(PshError::from(e)),
    }
}

} // verus!
