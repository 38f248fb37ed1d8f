use psh::error::{BuiltinError, PshError, ReplError, ReplRouterError};
use psh::registry::{Entry, Registry};
use psh::repl::mode::ModeState;
use psh::repl::parser::Parsed;
use psh::repl::router::{watch, Ensured, Follow, Plan, Received, Router, WatchStep};
use psh::repl::sessions::SessionTable;
use psh::shell::event::ShellEvent;
use psh::shell::factory::SpawnRequest;
use psh::shell::spec::{RemoteBackend, ShellSpec};

fn local(program: &str) -> ShellSpec {
    ShellSpec::Local { program: program.to_string() }
}

fn router() -> Router<u32> {
    let mut registry = Registry::with_builtins();
    registry.register_entry("bash", Entry::Shell(local("/usr/bin/bash")));
    Router::new(registry, 80, 24)
}

fn request(name: &str, program: &str) -> SpawnRequest {
    SpawnRequest {
        name: name.to_string(),
        program: program.to_string(),
        args: vec![],
        cols: 80,
        rows: 24,
    }
}

fn router_error(e: ReplRouterError) -> PshError {
    PshError::Repl(ReplError::Router(e))
}

#[test]
fn new_router_has_no_mode_and_no_session() {
    let r = router();
    assert_eq!(r.get_current_mode(), None);
    assert_eq!(r.get_default_mode(), None);
    assert!(r.list_running_entries().is_empty());
    assert_eq!(r.list_entries().len(), 6);
}

#[test]
fn exec_without_mode_fails_with_default_shell_unset() {
    let mut r = router();
    assert_eq!(r.exec("ls"), Err(router_error(ReplRouterError::DefaultShellUnset)));
    assert_eq!(r.get_current_mode(), None);
}

#[test]
fn exec_routes_to_the_default_mode_once_set() {
    let mut r = router();
    assert!(r.set_default_mode("bash"));
    assert_eq!(
        r.exec("ls"),
        Ok(Plan::Start {
            request: request("bash", "/usr/bin/bash"),
            follow: Follow::Send { line: "ls".to_string() }
        })
    );
    assert_eq!(r.get_current_mode(), None);
    assert_eq!(r.get_default_mode(), Some("bash".to_string()));
}

#[test]
fn set_mode_refuses_an_unknown_name() {
    let mut r = router();
    assert!(!r.set_default_mode("zsh"));
    assert!(!r.set_current_mode("zsh"));
    assert_eq!(r.get_default_mode(), None);
    assert_eq!(r.get_current_mode(), None);
    assert!(r.set_current_mode("local"));
    assert_eq!(r.get_current_mode(), Some("local".to_string()));
}

#[test]
fn explicit_prefix_sets_the_current_mode_and_sticks() {
    let mut r = router();
    let first = r.exec("bash: echo 1");
    assert_eq!(
        first,
        Ok(Plan::Start {
            request: request("bash", "/usr/bin/bash"),
            follow: Follow::Send { line: "echo 1".to_string() }
        })
    );
    assert_eq!(r.get_current_mode(), Some("bash".to_string()));
    assert_eq!(r.session_started("bash", 7, Follow::Send { line: "echo 1".to_string() }),
        Ok(Plan::Send { name: "bash".to_string(), line: "echo 1".to_string() }));
    assert_eq!(
        r.exec("echo 2"),
        Ok(Plan::Send { name: "bash".to_string(), line: "echo 2".to_string() })
    );
    assert_eq!(r.get_current_mode(), Some("bash".to_string()));
}

#[test]
fn the_line_for_a_shell_is_trimmed() {
    let mut r = router();
    assert_eq!(r.session_started("bash", 1, Follow::Nothing), Ok(Plan::Idle));
    assert_eq!(
        r.exec("bash:   ls  "),
        Ok(Plan::Send { name: "bash".to_string(), line: "ls".to_string() })
    );
    assert_eq!(
        r.exec_by_prefix("bash", "  kept as given  "),
        Ok(Plan::Send { name: "bash".to_string(), line: "  kept as given  ".to_string() })
    );
}

#[test]
fn running_list_follows_start_stop_and_exit() {
    let mut r = router();
    assert!(r.list_running_entries().is_empty());
    assert_eq!(r.session_started("m", 1, Follow::Nothing), Ok(Plan::Idle));
    assert_eq!(r.session_started("a", 2, Follow::Nothing), Ok(Plan::Idle));
    assert_eq!(r.session_started("z", 3, Follow::Nothing), Ok(Plan::Idle));
    assert_eq!(r.list_running_entries(), vec!["a", "m", "z"]);
    assert_eq!(r.stop_shell_session("m"), Ok(Plan::Shutdown { handle: 1 }));
    assert_eq!(r.list_running_entries(), vec!["a", "z"]);
    assert_eq!(r.session_exited("z"), Some(3));
    assert_eq!(r.list_running_entries(), vec!["a"]);
}

#[test]
fn current_mode_wins_over_default_mode() {
    let mut r = router();
    r.register_entry("zsh".to_string(), Entry::Shell(local("zsh")));
    assert!(r.set_default_mode("zsh"));
    assert!(r.set_current_mode("bash"));
    assert_eq!(
        r.exec("pwd"),
        Ok(Plan::Start {
            request: request("bash", "/usr/bin/bash"),
            follow: Follow::Send { line: "pwd".to_string() }
        })
    );
}

#[test]
fn ensure_twice_returns_the_same_handle() {
    let mut r = router();
    let spec = local("/usr/bin/bash");
    match r.ensure_shell_session_by_spec("bash", &spec) {
        Ensured::Spawn(req) => assert_eq!(req, request("bash", "/usr/bin/bash")),
        Ensured::Live(_) => panic!("nothing runs yet"),
    }
    assert_eq!(r.session_started("bash", 41, Follow::Nothing), Ok(Plan::Idle));
    for _ in 0..2 {
        match r.ensure_shell_session_by_spec("bash", &spec) {
            Ensured::Live(h) => assert_eq!(*h, 41),
            Ensured::Spawn(_) => panic!("a second process would be spawned"),
        }
    }
    match r.ensure_shell_session_by_spec("bash", &local("other")) {
        Ensured::Live(h) => assert_eq!(*h, 41),
        Ensured::Spawn(_) => panic!("a live session is used whatever the spec"),
    }
    assert_eq!(r.session("bash"), Some(&41));
    assert_eq!(r.list_running_entries(), vec!["bash"]);
}

#[test]
fn ensure_by_name_needs_a_registered_shell() {
    let r = router();
    match r.ensure_shell_session_by_name("zsh") {
        Err(e) => assert_eq!(e, ReplRouterError::UnknownShell { name: "zsh".to_string() }),
        Ok(_) => panic!("zsh is not registered"),
    }
    match r.ensure_shell_session_by_name("local") {
        Err(e) => assert_eq!(e, ReplRouterError::UnknownShell { name: "local".to_string() }),
        Ok(_) => panic!("local is a builtin"),
    }
    match r.ensure_shell_session_by_name("bash") {
        Ok(Ensured::Spawn(req)) => assert_eq!(req, request("bash", "/usr/bin/bash")),
        _ => panic!("bash is to be started"),
    }
}

#[test]
fn exited_session_leaves_the_table_without_stop() {
    let mut r = router();
    r.register_entry("x".to_string(), Entry::Shell(local("true")));
    assert_eq!(r.session_started("x", 1, Follow::Nothing), Ok(Plan::Idle));
    assert_eq!(r.list_running_entries(), vec!["x"]);
    let step = watch(&Received::Event(ShellEvent::Exited("eof".to_string())));
    assert_eq!(step, WatchStep::Release);
    assert_eq!(r.session_exited("x"), Some(1));
    assert!(r.list_running_entries().is_empty());
    assert!(r.get_shell_spec("x").is_some());
    assert_eq!(r.session_exited("x"), None);
}

#[test]
fn watcher_passes_over_output_and_gives_up_on_a_closed_stream() {
    assert_eq!(watch(&Received::Event(ShellEvent::Output("o".to_string()))), WatchStep::Wait);
    assert_eq!(watch(&Received::Closed), WatchStep::Quit);
    assert_eq!(watch(&Received::Event(ShellEvent::Exited(String::new()))), WatchStep::Release);
}

#[test]
fn stop_without_session_fails_with_session_not_running() {
    let mut r = router();
    assert_eq!(
        r.stop_shell_session("bash"),
        Err(router_error(ReplRouterError::SessionNotRunning { name: "bash".to_string() }))
    );
}

#[test]
fn stop_removes_the_session_and_hands_its_handle_over() {
    let mut r = router();
    assert_eq!(r.session_started("bash", 9, Follow::Nothing), Ok(Plan::Idle));
    assert_eq!(r.stop_shell_session("bash"), Ok(Plan::Shutdown { handle: 9 }));
    assert!(r.list_running_entries().is_empty());
    assert_eq!(r.session("bash"), None);
    assert!(r.get_shell_spec("bash").is_some());
    assert_eq!(
        r.stop_shell_session("bash"),
        Err(router_error(ReplRouterError::SessionNotRunning { name: "bash".to_string() }))
    );
}

#[test]
fn add_and_start_registers_once_the_session_runs() {
    let mut r = router();
    let spec = local("true");
    let plan = r.add_and_start_shell("x", spec.clone());
    assert_eq!(
        plan,
        Ok(Plan::Start { request: request("x", "true"), follow: Follow::Register { spec: spec.clone() } })
    );
    assert_eq!(r.get_entry("x"), None);
    assert_eq!(r.session_started("x", 5, Follow::Register { spec: spec.clone() }), Ok(Plan::Idle));
    assert!(r.list_entries().contains(&("x".to_string(), Entry::Shell(spec.clone()))));
    assert_eq!(r.list_running_entries(), vec!["x"]);
    assert_eq!(r.get_shell_spec("x"), Some(spec));
}

#[test]
fn add_and_start_on_a_live_session_registers_at_once() {
    let mut r = router();
    assert_eq!(r.session_started("y", 2, Follow::Nothing), Ok(Plan::Idle));
    let spec = local("sh");
    assert_eq!(r.add_and_start_shell("y", spec.clone()), Ok(Plan::Idle));
    assert_eq!(r.get_shell_spec("y"), Some(spec));
    assert_eq!(r.session("y"), Some(&2));
}

#[test]
fn registry_and_sessions_are_independent() {
    let mut r = router();
    assert_eq!(r.session_started("bash", 3, Follow::Nothing), Ok(Plan::Idle));
    r.unregister_entry("bash");
    assert_eq!(r.get_entry("bash"), None);
    assert_eq!(r.list_running_entries(), vec!["bash"]);
    r.register_entry("bash".to_string(), Entry::Builtin);
    assert_eq!(r.get_entry("bash"), Some(Entry::Builtin));
    assert_eq!(r.session("bash"), Some(&3));
}

#[test]
fn exec_by_prefix_on_an_unknown_name_fails() {
    let mut r = router();
    assert_eq!(
        r.exec_by_prefix("zsh", "ls"),
        Err(router_error(ReplRouterError::UnknownShell { name: "zsh".to_string() }))
    );
    assert!(r.set_default_mode("bash"));
    r.unregister_entry("bash");
    assert_eq!(
        r.exec("ls"),
        Err(router_error(ReplRouterError::UnknownShell { name: "bash".to_string() }))
    );
}

#[test]
fn quit_and_exit_ask_for_the_end() {
    let mut r = router();
    assert_eq!(r.exec("quit:"), Err(PshError::Builtin(BuiltinError::ExitRequested)));
    assert_eq!(r.get_current_mode(), Some("quit".to_string()));
    assert_eq!(r.exec("exit: now"), Err(PshError::Builtin(BuiltinError::ExitRequested)));
    assert_eq!(r.get_current_mode(), Some("exit".to_string()));
}

#[test]
fn a_builtin_of_another_name_does_nothing() {
    let mut r = router();
    r.register_entry("noop".to_string(), Entry::Builtin);
    assert_eq!(r.exec("noop: anything"), Ok(Plan::Idle));
    assert_eq!(r.get_current_mode(), Some("noop".to_string()));
}

#[test]
fn list_entries_with_status_marks_the_live_names() {
    let mut r = router();
    r.register_entry("zsh".to_string(), Entry::Shell(local("zsh")));
    assert_eq!(r.session_started("zsh", 1, Follow::Nothing), Ok(Plan::Idle));
    let list = r.list_entries_with_status();
    let names: Vec<(&str, bool)> = list.iter().map(|(n, _, live)| (n.as_str(), *live)).collect();
    assert_eq!(
        names,
        vec![
            ("admin", false),
            ("bash", false),
            ("exit", false),
            ("local", false),
            ("quit", false),
            ("remote", false),
            ("zsh", true)
        ]
    );
    assert_eq!(list[6].1, Entry::Shell(local("zsh")));
}

#[test]
fn list_running_entries_is_ordered() {
    let mut r = router();
    for (i, n) in ["zz", "a", "m", "B"].iter().enumerate() {
        assert_eq!(r.session_started(n, i as u32, Follow::Nothing), Ok(Plan::Idle));
    }
    assert_eq!(r.list_running_entries(), vec!["B", "a", "m", "zz"]);
}

#[test]
fn session_started_replaces_the_handle_under_its_name() {
    let mut r = router();
    assert_eq!(r.session_started("bash", 1, Follow::Nothing), Ok(Plan::Idle));
    assert_eq!(r.session_started("bash", 2, Follow::Nothing), Ok(Plan::Idle));
    assert_eq!(r.session("bash"), Some(&2));
    assert_eq!(r.list_running_entries(), vec!["bash"]);
}

#[test]
fn session_started_passes_bytes_on() {
    let mut r = router();
    assert_eq!(
        r.session_started("bash", 1, Follow::SendBytes { bytes: vec![3] }),
        Ok(Plan::SendBytes { name: "bash".to_string(), bytes: vec![3] })
    );
}

#[test]
fn remote_shell_is_planned_with_its_command_line() {
    let mut r = router();
    let spec = ShellSpec::Remote {
        host: "user@host".to_string(),
        backend: RemoteBackend::Ssh { port: 22, extra_args: vec![] },
    };
    r.register_entry("r1".to_string(), Entry::Shell(spec));
    assert_eq!(
        r.exec("r1: uptime"),
        Ok(Plan::Start {
            request: SpawnRequest {
                name: "r1".to_string(),
                program: "ssh".to_string(),
                args: vec!["-tt".to_string(), "-p".to_string(), "22".to_string(), "user@host".to_string()],
                cols: 80,
                rows: 24
            },
            follow: Follow::Send { line: "uptime".to_string() }
        })
    );
}

#[test]
fn parse_preview_changes_nothing() {
    let r = router();
    assert_eq!(
        r.parse_preview("bash: ls"),
        Parsed::Entry {
            name: "bash".to_string(),
            entry: Entry::Shell(local("/usr/bin/bash")),
            command: "ls".to_string()
        }
    );
    assert_eq!(r.get_current_mode(), None);
    assert_eq!(r.get_registry_clone().list_entries(), r.list_entries());
}

#[test]
fn mode_state_holds_two_independent_names() {
    let mut m = ModeState::new();
    assert_eq!(m.get_current(), None);
    assert_eq!(m.get_default(), None);
    assert_eq!(m.target(), None);
    m.set_default(Some("bash".to_string()));
    assert_eq!(m.target(), Some("bash".to_string()));
    m.set_current(Some("zsh".to_string()));
    assert_eq!(m.get_current(), Some("zsh".to_string()));
    assert_eq!(m.get_default(), Some("bash".to_string()));
    assert_eq!(m.target(), Some("zsh".to_string()));
    let copy = m.clone();
    m.set_current(None);
    assert_eq!(m.target(), Some("bash".to_string()));
    assert_eq!(copy.get_current(), Some("zsh".to_string()));
    assert_eq!(ModeState::default().get_default(), None);
}

#[test]
fn router_hands_out_a_copy_of_its_modes() {
    let mut r = router();
    assert!(r.set_current_mode("bash"));
    let m = r.mode_state();
    assert_eq!(m.get_current(), Some("bash".to_string()));
    assert_eq!(m.get_default(), None);
}

#[test]
fn session_table_keeps_one_handle_per_name() {
    let mut t: SessionTable<&str> = SessionTable::new();
    assert!(!t.contains("a"));
    assert_eq!(t.insert("a", "first"), None);
    assert_eq!(t.insert("a", "second"), Some("first"));
    assert_eq!(t.get("a"), Some(&"second"));
    assert_eq!(t.insert("b", "other"), None);
    assert_eq!(t.names(), vec!["a", "b"]);
    assert_eq!(t.remove("a"), Some("second"));
    assert_eq!(t.remove("a"), None);
    assert_eq!(t.get("a"), None);
    assert_eq!(t.names(), vec!["b"]);
}
