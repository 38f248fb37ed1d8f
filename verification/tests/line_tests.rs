use psh::error::ShellError;
use psh::registry::{Entry, Registry};
use psh::repl::line::{menu_sentinel_text, step, LineStep, Signal, CTRL_C_LITERAL};
use psh::repl::router::{Follow, Plan, Router};
use psh::shell::factory::SpawnRequest;
use psh::shell::spec::ShellSpec;

fn router() -> Router<u32> {
    let mut registry = Registry::with_builtins();
    registry
        .register_entry("bash", Entry::Shell(ShellSpec::Local { program: "/usr/bin/bash".to_string() }));
    Router::new(registry, 80, 24)
}

fn line(text: &str) -> Signal {
    Signal::Success(text.to_string())
}

fn bash_request() -> SpawnRequest {
    SpawnRequest {
        name: "bash".to_string(),
        program: "/usr/bin/bash".to_string(),
        args: vec![],
        cols: 80,
        rows: 24,
    }
}

#[test]
fn menu_line_opens_the_menu() {
    let mut r = router();
    assert_eq!(menu_sentinel_text(), "__PSH_MENU__");
    assert_eq!(step(&mut r, line("  __PSH_MENU__ ")), LineStep::Menu);
    assert_eq!(r.get_current_mode(), None);
}

#[test]
fn empty_line_is_passed_over() {
    let mut r = router();
    assert_eq!(step(&mut r, line("")), LineStep::Next);
    assert_eq!(step(&mut r, line("   \t")), LineStep::Next);
}

#[test]
fn a_line_is_run() {
    let mut r = router();
    assert_eq!(
        step(&mut r, line(" bash: ls ")),
        LineStep::Carry {
            plan: Plan::Start {
                request: bash_request(),
                follow: Follow::Send { line: "ls".to_string() }
            }
        }
    );
    assert_eq!(r.get_current_mode(), Some("bash".to_string()));
}

#[test]
fn a_failure_is_shown_and_the_loop_goes_on() {
    let mut r = router();
    assert_eq!(
        step(&mut r, line("ls")),
        LineStep::Report { message: "error: default shell is not set".to_string() }
    );
    assert_eq!(
        step(&mut r, line("local: frob")),
        LineStep::Report { message: "error: unrecognized local command: frob".to_string() }
    );
    assert_eq!(
        step(&mut r, line("local: stop bash")),
        LineStep::Report { message: "error: session is not running: bash".to_string() }
    );
}

#[test]
fn quit_and_ctrl_d_end_the_loop() {
    let mut r = router();
    assert_eq!(step(&mut r, line("quit:")), LineStep::Quit);
    assert_eq!(step(&mut r, line("exit: ")), LineStep::Quit);
    assert_eq!(step(&mut r, Signal::CtrlD), LineStep::Quit);
}

#[test]
fn ctrl_c_without_current_mode_does_nothing() {
    let mut r = router();
    assert_eq!(step(&mut r, Signal::CtrlC), LineStep::Interrupt { plan: Plan::Idle });
    assert!(r.set_current_mode("local"));
    assert_eq!(step(&mut r, Signal::CtrlC), LineStep::Interrupt { plan: Plan::Idle });
}

#[test]
fn ctrl_c_goes_to_the_shell_of_the_current_mode() {
    let mut r = router();
    assert_eq!(CTRL_C_LITERAL, 3);
    assert!(r.set_current_mode("bash"));
    assert_eq!(
        step(&mut r, Signal::CtrlC),
        LineStep::Interrupt {
            plan: Plan::Start {
                request: bash_request(),
                follow: Follow::SendBytes { bytes: vec![3] }
            }
        }
    );
    assert_eq!(r.session_started("bash", 1, Follow::Nothing), Ok(Plan::Idle));
    assert_eq!(
        step(&mut r, Signal::CtrlC),
        LineStep::Interrupt { plan: Plan::SendBytes { name: "bash".to_string(), bytes: vec![3] } }
    );
}

#[test]
fn a_spawn_failure_has_its_message() {
    assert_eq!(psh::PshError::from(ShellError::Spawn).message(), "failed to spawn child");
}
