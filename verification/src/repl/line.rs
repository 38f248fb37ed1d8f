//! The input loop, as the decision it takes on each thing the line editor
//! hands it.

use crate::error::builtin::BuiltinErrorView;
use crate::error::{message_spec, PshErrorView};
use crate::repl::parser::Parsed;
use crate::repl::router::{
    exec_spec, planned, with_current, Follow, FollowView, Plan, PlanView, Router, RouterView,
};
use crate::text::list::join;
use crate::text::order::same_text;
use crate::text::space::{trim, trim_spec};
use vstd::prelude::*;

verus! {

/// The byte that Ctrl-C sends to a terminal.
pub const CTRL_C_LITERAL: u8 = 0x03;

/// The line that the key of the prefix menu submits.
pub open spec fn menu_sentinel() -> Seq<char> {
    "__PSH_MENU__"@
}

/// The line that the key of the prefix menu submits.
pub fn menu_sentinel_text() -> (t: &'static str)
    ensures
        t@ == menu_sentinel(),
{
    "__PSH_MENU__"
}

/// What the line editor hands to the loop.
#[derive(Debug, PartialEq, Eq)]
pub enum Signal {
    /// A line was entered.
    Success(String),
    CtrlC,
    CtrlD,
}

/// A [`Signal`] as contracts see it.
pub enum SignalView {
    Success(Seq<char>),
    CtrlC,
    CtrlD,
}

impl View for Signal {
    type V = SignalView;

    open spec fn view(&self) -> SignalView {
        match self {
            Signal::Success(line) => SignalView::Success(line@),
            Signal::CtrlC => SignalView::CtrlC,
            Signal::CtrlD => SignalView::CtrlD,
        }
    }
}

/// What the loop does next.
#[derive(Debug, PartialEq, Eq)]
pub enum LineStep<H> {
    /// Show the prefix menu, and make what is chosen the current mode.
    Menu,
    /// Read the next line.
    Next,
    /// Carry out the plan, then read the next line.
    Carry { plan: Plan<H> },
    /// Carry out the plan, passing over its failure, then end the line on
    /// the screen and read the next one.
    Interrupt { plan: Plan<H> },
    /// Show the message, then read the next line.
    Report { message: String },
    /// Leave the loop.
    Quit,
}

/// A [`LineStep`] as contracts see it.
pub enum LineStepView<H> {
    Menu,
    Next,
    Carry { plan: PlanView<H> },
    Interrupt { plan: PlanView<H> },
    Report { message: Seq<char> },
    Quit,
}

impl<H> View for LineStep<H> {
    type V = LineStepView<H>;

    open spec fn view(&self) -> LineStepView<H> {
        match self {
            LineStep::Menu => LineStepView::Menu,
            LineStep::Next => LineStepView::Next,
            LineStep::Carry { plan } => LineStepView::Carry { plan: plan@ },
            LineStep::Interrupt { plan } => LineStepView::Interrupt { plan: plan@ },
            LineStep::Report { message } => LineStepView::Report { message: message@ },
            LineStep::Quit => LineStepView::Quit,
        }
    }
}

/// What Ctrl-C asks for: the interrupt byte for the shell of the current
/// mode, whose session is started first where it does not run. Without a
/// current mode, or where it names no shell, nothing.
pub open spec fn interrupt_spec<H>(s: RouterView<H>) -> PlanView<H> {
    match s.mode.current {
        Some(name) => if s.registry.contains_key(name) && s.registry[name] is Shell {
            planned(
                s,
                name,
                s.registry[name]->Shell_0,
                FollowView::SendBytes { bytes: seq![CTRL_C_LITERAL] },
            ).result->Ok_0
        } else {
            PlanView::Idle
        },
        None => PlanView::Idle,
    }
}

/// What follows a line that was run: its plan is carried out; the request to
/// end the program ends the loop; any other failure is shown as `error: ` and
/// its message.
pub open spec fn after_exec<H>(result: Result<PlanView<H>, PshErrorView>) -> LineStepView<H> {
    match result {
        Ok(plan) => LineStepView::Carry { plan },
        Err(e) => if e == PshErrorView::Builtin(BuiltinErrorView::ExitRequested) {
            LineStepView::Quit
        } else {
            LineStepView::Report { message: "error: "@ + message_spec(e) }
        },
    }
}

/// The state that a signal leaves.
pub open spec fn step_state<H>(s: RouterView<H>, signal: SignalView) -> RouterView<H> {
    match signal {
        SignalView::Success(line) => if trim_spec(line) == menu_sentinel() || trim_spec(line).len()
            == 0 {
            s
        } else {
            exec_spec(s, trim_spec(line)).state
        },
        _ => s,
    }
}

/// What the loop does on a signal. A line is trimmed first; the menu's line
/// opens the menu, an empty line is passed over, any other line is run.
/// Ctrl-C interrupts the shell of the current mode, Ctrl-D ends the loop.
pub open spec fn step_spec<H>(s: RouterView<H>, signal: SignalView) -> LineStepView<H> {
    match signal {
        SignalView::Success(line) => if trim_spec(line) == menu_sentinel() {
            LineStepView::Menu
        } else if trim_spec(line).len() == 0 {
            LineStepView::Next
        } else {
            after_exec(exec_spec(s, trim_spec(line)).result)
        },
        SignalView::CtrlC => LineStepView::Interrupt { plan: interrupt_spec(s) },
        SignalView::CtrlD => LineStepView::Quit,
    }
}

fn interrupt<H>(router: &mut Router<H>) -> (plan: Plan<H>)
    ensures
        final(router)@ == old(router)@,
        plan@ == interrupt_spec(old(router)@),
{
    match router.get_current_mode() {
        Some(name) => match router.get_shell_spec(name.as_str()) {
            Some(spec) => {
                let mut bytes: Vec<u8> = Vec::new();
                bytes.push(CTRL_C_LITERAL);
                assert(bytes@ =~= seq![CTRL_C_LITERAL]);
                match router.plan(name.as_str(), &spec, Follow::SendBytes { bytes }) {
                    Ok(plan) => plan,
                    Err(_) => Plan::Idle,
                }
            },
            None => Plan::Idle,
        },
        None => Plan::Idle,
    }
}

/// Takes one signal of the line editor and says what the loop does next.
pub fn step<H>(router: &mut Router<H>, signal: Signal) -> (next: LineStep<H>)
    ensures
        final(router)@ == step_state(old(router)@, signal@),
        next@ == step_spec(old(router)@, signal@),
{
    match signal {
        Signal::Success(line) => {
            let line = trim(line.as_str());
            if same_text(line, menu_sentinel_text()) {
                return LineStep::Menu;
            }
            if line.unicode_len() == 0 {
                return LineStep::Next;
            }
            let ghost before = router@;
            match router.parse_preview(line) {
                Parsed::Entry { name, .. } => {
                    router.set_current_mode(name.as_str());
                    assert(exec_spec(router@, line@) == exec_spec(before, line@)) by {
                        assert(router@ == with_current(before, name@));
                        assert(with_current(router@, name@) == router@);
                    }
                },
                Parsed::Default { .. } => {},
            }
            match router.exec(line) {
                Ok(plan) => LineStep::Carry { plan },
                Err(e) => {
                    if e.is_exit_request() {
                        LineStep::Quit
                    } else {
                        LineStep::Report { message: join("error: ", e.message().as_str()) }
                    }
                },
            }
        },
        Signal::CtrlC => LineStep::Interrupt { plan: interrupt(router) },
        Signal::CtrlD => LineStep::Quit,
    }
}

} // verus!
