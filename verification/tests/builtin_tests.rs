use psh::builtins::{admin, format_shell_line, local, quit, remote, Command};
use psh::error::{BuiltinError, PshError, ReplError, ReplRouterError};
use psh::registry::{Entry, Registry};
use psh::repl::router::{Follow, Plan, Router};
use psh::shell::factory::SpawnRequest;
use psh::shell::spec::{RemoteBackend, ShellSpec};

fn strings(v: &[&str]) -> Vec<String> {
    v.iter().map(|s| s.to_string()).collect()
}

fn ssh(host: &str, port: u16, extra: &[&str]) -> ShellSpec {
    ShellSpec::Remote {
        host: host.to_string(),
        backend: RemoteBackend::Ssh { port, extra_args: strings(extra) },
    }
}

fn telnet(host: &str, port: u16, extra: &[&str]) -> ShellSpec {
    ShellSpec::Remote {
        host: host.to_string(),
        backend: RemoteBackend::Telnet { port, extra_args: strings(extra) },
    }
}

fn local_spec(program: &str) -> ShellSpec {
    ShellSpec::Local { program: program.to_string() }
}

fn router() -> Router<u32> {
    let mut registry = Registry::with_builtins();
    registry.register_entry("bash", Entry::Shell(local_spec("/usr/bin/bash")));
    registry.register_entry("r1", Entry::Shell(ssh("user@host", 2222, &[])));
    registry.register_entry("t1", Entry::Shell(telnet("sw", 23, &[])));
    Router::new(registry, 80, 24)
}

#[test]
fn format_local_lines() {
    let spec = local_spec("/bin/zsh");
    assert_eq!(format_shell_line("zsh", &spec, true), "  zsh: /bin/zsh [running]");
    assert_eq!(format_shell_line("zsh", &spec, false), "  zsh: /bin/zsh [stopped]");
}

#[test]
fn format_remote_lines() {
    assert_eq!(
        format_shell_line("r1", &ssh("user@host", 2222, &["-v"]), true),
        "  r1 (ssh): user@host:2222 [connected]"
    );
    assert_eq!(
        format_shell_line("r1", &ssh("h", 22, &[]), false),
        "  r1 (ssh): h:22 [disconnected]"
    );
    assert_eq!(
        format_shell_line("t", &telnet("sw", 23, &[]), false),
        "  t (telnet): sw:23 [disconnected]"
    );
    assert_eq!(
        format_shell_line("t", &telnet("sw", 65535, &[]), true),
        "  t (telnet): sw:65535 [connected]"
    );
}

#[test]
fn local_grammar() {
    assert_eq!(local::parse(""), Ok(Command::ListLocal));
    assert_eq!(local::parse("  list "), Ok(Command::ListLocal));
    assert_eq!(
        local::parse("add mysh zsh"),
        Ok(Command::Add { name: "mysh".to_string(), spec: local_spec("zsh") })
    );
    assert_eq!(local::parse("remove mysh"), Ok(Command::Remove { name: "mysh".to_string() }));
    assert_eq!(local::parse("start mysh"), Ok(Command::Start { name: "mysh".to_string() }));
    assert_eq!(local::parse("stop mysh"), Ok(Command::Stop { name: "mysh".to_string() }));
}

#[test]
fn local_grammar_refuses_what_it_does_not_know() {
    for args in ["add mysh", "add a b c", "list all", "frob", "stop", "LIST", "remove a b"] {
        assert_eq!(
            local::parse(args),
            Err(BuiltinError::LocalUnrecognized { args: args.to_string() })
        );
    }
}

#[test]
fn remote_grammar() {
    assert_eq!(remote::parse(""), Ok(Command::ListRemote));
    assert_eq!(remote::parse("list"), Ok(Command::ListRemote));
    assert_eq!(
        remote::parse("add r1 ssh user@host"),
        Ok(Command::Add { name: "r1".to_string(), spec: ssh("user@host", 22, &[]) })
    );
    assert_eq!(
        remote::parse("add r1 ssh user@host 2222"),
        Ok(Command::Add { name: "r1".to_string(), spec: ssh("user@host", 2222, &[]) })
    );
    assert_eq!(
        remote::parse("add r1 ssh user@host 2222 -v -A"),
        Ok(Command::Add { name: "r1".to_string(), spec: ssh("user@host", 2222, &["-v", "-A"]) })
    );
    assert_eq!(
        remote::parse("add r1 ssh user@host -v 2222"),
        Ok(Command::Add { name: "r1".to_string(), spec: ssh("user@host", 22, &["-v", "2222"]) })
    );
    assert_eq!(
        remote::parse("add t telnet sw"),
        Ok(Command::Add { name: "t".to_string(), spec: telnet("sw", 23, &[]) })
    );
    assert_eq!(
        remote::parse("add t telnet sw 2323 -4"),
        Ok(Command::Add { name: "t".to_string(), spec: telnet("sw", 2323, &["-4"]) })
    );
    assert_eq!(
        remote::parse("add t telnet sw 70000"),
        Ok(Command::Add { name: "t".to_string(), spec: telnet("sw", 23, &["70000"]) })
    );
    assert_eq!(remote::parse("remove r1"), Ok(Command::Remove { name: "r1".to_string() }));
    assert_eq!(remote::parse("connect r1"), Ok(Command::Start { name: "r1".to_string() }));
    assert_eq!(remote::parse("disconnect r1"), Ok(Command::Stop { name: "r1".to_string() }));
}

#[test]
fn remote_grammar_refuses_what_it_does_not_know() {
    for args in ["add r1 ssh", "add r1 rsh host", "add r1", "start r1", "connect", "list x"] {
        assert_eq!(
            remote::parse(args),
            Err(BuiltinError::RemoteUnrecognized { args: args.to_string() })
        );
    }
}

#[test]
fn admin_grammar() {
    assert_eq!(admin::parse("sessions"), Ok(Command::Sessions));
    assert_eq!(
        admin::parse("default set bash"),
        Ok(Command::DefaultSet { name: "bash".to_string() })
    );
    assert_eq!(admin::parse(" default   get "), Ok(Command::DefaultGet));
    for args in ["", "default", "default set", "default get now", "session", "default put x"] {
        assert_eq!(
            admin::parse(args),
            Err(BuiltinError::AdminUnrecognized { args: args.to_string() })
        );
    }
}

#[test]
fn quit_always_asks_for_the_end() {
    assert_eq!(quit::parse(""), BuiltinError::ExitRequested);
    assert_eq!(quit::parse("later"), BuiltinError::ExitRequested);
    let mut r = router();
    assert_eq!(quit::handle(&mut r, "x"), Err(PshError::Builtin(BuiltinError::ExitRequested)));
}

#[test]
fn local_list_shows_the_local_shells() {
    let mut r = router();
    assert_eq!(r.session_started("bash", 1, Follow::Nothing), Ok(Plan::Idle));
    r.register_entry("zsh".to_string(), Entry::Shell(local_spec("zsh")));
    assert_eq!(
        local::handle(&mut r, "list"),
        Ok(Plan::Print {
            lines: strings(&[
                "Local shell list:",
                "  bash: /usr/bin/bash [running]",
                "  zsh: zsh [stopped]"
            ])
        })
    );
}

#[test]
fn remote_list_shows_the_remote_shells() {
    let mut r = router();
    assert_eq!(r.session_started("t1", 1, Follow::Nothing), Ok(Plan::Idle));
    assert_eq!(
        remote::handle(&mut r, ""),
        Ok(Plan::Print {
            lines: strings(&[
                "Remote shell list:",
                "  r1 (ssh): user@host:2222 [disconnected]",
                "  t1 (telnet): sw:23 [connected]"
            ])
        })
    );
}

#[test]
fn listings_say_when_there_is_nothing() {
    let mut r: Router<u32> = Router::new(Registry::with_builtins(), 80, 24);
    assert_eq!(
        local::handle(&mut r, ""),
        Ok(Plan::Print { lines: strings(&["No local shells registered"]) })
    );
    assert_eq!(
        remote::handle(&mut r, "list"),
        Ok(Plan::Print { lines: strings(&["No remote shells registered"]) })
    );
    assert_eq!(
        admin::handle(&mut r, "sessions"),
        Ok(Plan::Print { lines: strings(&["Running sessions list:", "no running sessions"]) })
    );
}

#[test]
fn admin_sessions_lists_the_running_names() {
    let mut r = router();
    assert_eq!(r.session_started("r1", 1, Follow::Nothing), Ok(Plan::Idle));
    assert_eq!(r.session_started("bash", 2, Follow::Nothing), Ok(Plan::Idle));
    assert_eq!(
        admin::handle(&mut r, "sessions"),
        Ok(Plan::Print { lines: strings(&["Running sessions list:", "  bash", "  r1"]) })
    );
}

#[test]
fn admin_default_set_takes_only_registered_names() {
    let mut r = router();
    assert_eq!(admin::handle(&mut r, "default set bash"), Ok(Plan::Idle));
    assert_eq!(r.get_default_mode(), Some("bash".to_string()));
    assert_eq!(admin::handle(&mut r, "default set nobody"), Ok(Plan::Idle));
    assert_eq!(r.get_default_mode(), Some("bash".to_string()));
    assert_eq!(admin::handle(&mut r, "default get"), Ok(Plan::Idle));
    assert_eq!(
        admin::handle(&mut r, "frob"),
        Err(PshError::Builtin(BuiltinError::AdminUnrecognized { args: "frob".to_string() }))
    );
}

#[test]
fn local_add_starts_then_registers() {
    let mut r = router();
    let plan = local::handle(&mut r, "add mysh zsh");
    let request = SpawnRequest {
        name: "mysh".to_string(),
        program: "zsh".to_string(),
        args: vec![],
        cols: 80,
        rows: 24,
    };
    assert_eq!(
        plan,
        Ok(Plan::Start { request, follow: Follow::Register { spec: local_spec("zsh") } })
    );
    assert_eq!(r.get_entry("mysh"), None);
}

#[test]
fn local_start_and_stop() {
    let mut r = router();
    assert_eq!(
        local::handle(&mut r, "start bash"),
        Ok(Plan::Start {
            request: SpawnRequest {
                name: "bash".to_string(),
                program: "/usr/bin/bash".to_string(),
                args: vec![],
                cols: 80,
                rows: 24
            },
            follow: Follow::Nothing
        })
    );
    assert_eq!(
        local::handle(&mut r, "start nobody"),
        Err(PshError::Repl(ReplError::Router(ReplRouterError::UnknownShell {
            name: "nobody".to_string()
        })))
    );
    assert_eq!(
        local::handle(&mut r, "stop bash"),
        Err(PshError::Repl(ReplError::Router(ReplRouterError::SessionNotRunning {
            name: "bash".to_string()
        })))
    );
    assert_eq!(r.session_started("bash", 4, Follow::Nothing), Ok(Plan::Idle));
    assert_eq!(local::handle(&mut r, "start bash"), Ok(Plan::Idle));
    assert_eq!(local::handle(&mut r, "stop bash"), Ok(Plan::Shutdown { handle: 4 }));
    assert!(r.list_running_entries().is_empty());
}

#[test]
fn remove_stops_the_session_and_unregisters() {
    let mut r = router();
    assert_eq!(r.session_started("r1", 8, Follow::Nothing), Ok(Plan::Idle));
    assert_eq!(remote::handle(&mut r, "remove r1"), Ok(Plan::Shutdown { handle: 8 }));
    assert_eq!(r.get_entry("r1"), None);
    assert!(r.list_running_entries().is_empty());
    assert_eq!(local::handle(&mut r, "remove bash"), Ok(Plan::Idle));
    assert_eq!(r.get_entry("bash"), None);
    assert_eq!(local::handle(&mut r, "remove bash"), Ok(Plan::Idle));
}

#[test]
fn builtins_are_reached_through_exec() {
    let mut r = router();
    assert_eq!(
        r.exec("remote: connect r1"),
        Ok(Plan::Start {
            request: SpawnRequest {
                name: "r1".to_string(),
                program: "ssh".to_string(),
                args: strings(&["-tt", "-p", "2222", "user@host"]),
                cols: 80,
                rows: 24
            },
            follow: Follow::Nothing
        })
    );
    assert_eq!(r.get_current_mode(), Some("remote".to_string()));
    assert_eq!(
        r.exec("frob"),
        Err(PshError::Builtin(BuiltinError::RemoteUnrecognized { args: "frob".to_string() }))
    );
    assert_eq!(
        r.exec("local: frob it"),
        Err(PshError::Builtin(BuiltinError::LocalUnrecognized { args: "frob it".to_string() }))
    );
    assert_eq!(r.exec("admin: default set bash"), Ok(Plan::Idle));
    assert_eq!(r.get_default_mode(), Some("bash".to_string()));
}

#[test]
fn apply_carries_out_a_command() {
    let mut r = router();
    assert_eq!(r.apply(Command::DefaultSet { name: "r1".to_string() }), Ok(Plan::Idle));
    assert_eq!(r.get_default_mode(), Some("r1".to_string()));
    assert_eq!(r.apply(Command::DefaultGet), Ok(Plan::Idle));
    assert_eq!(
        r.apply(Command::Stop { name: "r1".to_string() }),
        Err(PshError::Repl(ReplError::Router(ReplRouterError::SessionNotRunning {
            name: "r1".to_string()
        })))
    );
}
