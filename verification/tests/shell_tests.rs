use psh::error::ShellError;
use psh::shell::cmd::ShellCmd;
use psh::shell::event::ShellEvent;
use psh::shell::factory::{spawn, SpawnRequest};
use psh::shell::pty::{
    chunk_verdict, reader_verdict, waiter_event, writer_step, writer_verdict, ReadOutcome,
    TaskOutcome, Verdict, WaitOutcome, WriterStep, PTY_READ_BUF_SIZE, SHELL_CMD_CHANNEL_CAP,
    SHELL_EVENT_CHANNEL_CAP,
};
use psh::shell::spec::{default_ssh_port, default_telnet_port, RemoteBackend, ShellSpec};

fn strings(v: &[&str]) -> Vec<String> {
    v.iter().map(|s| s.to_string()).collect()
}

#[test]
fn local_shell_is_started_without_arguments() {
    let spec = ShellSpec::Local { program: "true".to_string() };
    assert_eq!(
        spawn("x", &spec, 80, 24),
        SpawnRequest {
            name: "x".to_string(),
            program: "true".to_string(),
            args: vec![],
            cols: 80,
            rows: 24
        }
    );
}

#[test]
fn ssh_command_line() {
    let spec = ShellSpec::Remote {
        host: "user@host".to_string(),
        backend: RemoteBackend::Ssh { port: 2222, extra_args: strings(&["-v", "-A"]) },
    };
    let r = spawn("r1", &spec, 120, 40);
    assert_eq!(r.program, "ssh");
    assert_eq!(r.args, strings(&["-tt", "-p", "2222", "-v", "-A", "user@host"]));
    assert_eq!((r.cols, r.rows), (120, 40));
    assert_eq!(r.name, "r1");
}

#[test]
fn ssh_command_line_with_the_default_port() {
    let spec = ShellSpec::Remote {
        host: "h".to_string(),
        backend: RemoteBackend::Ssh { port: default_ssh_port(), extra_args: vec![] },
    };
    assert_eq!(spawn("r", &spec, 80, 24).args, strings(&["-tt", "-p", "22", "h"]));
}

#[test]
fn telnet_command_line() {
    let spec = ShellSpec::Remote {
        host: "router".to_string(),
        backend: RemoteBackend::Telnet { port: default_telnet_port(), extra_args: strings(&["-4"]) },
    };
    let r = spawn("t", &spec, 80, 24);
    assert_eq!(r.program, "telnet");
    assert_eq!(r.args, strings(&["-4", "router", "23"]));
}

#[test]
fn default_ports() {
    assert_eq!(default_ssh_port(), 22);
    assert_eq!(default_telnet_port(), 23);
}

#[test]
fn engine_limits() {
    assert_eq!(SHELL_CMD_CHANNEL_CAP, 64);
    assert_eq!(SHELL_EVENT_CHANNEL_CAP, 1024);
    assert_eq!(PTY_READ_BUF_SIZE, 4096);
}

#[test]
fn writer_writes_a_line_with_its_newline() {
    assert_eq!(
        writer_step(&ShellCmd::WriteLine("ls é".to_string())),
        WriterStep::Write { bytes: "ls é\n".as_bytes().to_vec() }
    );
    assert_eq!(
        writer_step(&ShellCmd::WriteLine(String::new())),
        WriterStep::Write { bytes: vec![b'\n'] }
    );
}

#[test]
fn writer_writes_bytes_as_they_are() {
    assert_eq!(
        writer_step(&ShellCmd::WriteBytes(vec![3, 0, 255])),
        WriterStep::Write { bytes: vec![3, 0, 255] }
    );
}

#[test]
fn writer_resizes_and_shuts_down() {
    assert_eq!(writer_step(&ShellCmd::Resize(100, 30)), WriterStep::Resize { cols: 100, rows: 30 });
    assert_eq!(writer_step(&ShellCmd::Shutdown), WriterStep::Write { bytes: b"exit\n".to_vec() });
}

#[test]
fn commands_keep_their_order_in_the_stream() {
    let cmds = vec![
        ShellCmd::WriteLine("echo 1".to_string()),
        ShellCmd::WriteBytes(b"ab".to_vec()),
        ShellCmd::WriteLine("echo 2".to_string()),
    ];
    let mut stream: Vec<u8> = Vec::new();
    for c in &cmds {
        if let WriterStep::Write { bytes } = writer_step(c) {
            stream.extend(bytes);
        }
        assert!(writer_verdict(c, &TaskOutcome::Done).proceed);
    }
    assert_eq!(stream, b"echo 1\nabecho 2\n".to_vec());
}

fn ended(reason: &str) -> Verdict {
    Verdict { event: Some(ShellEvent::Exited(reason.to_string())), proceed: false }
}

fn go_on() -> Verdict {
    Verdict { event: None, proceed: true }
}

#[test]
fn writer_goes_on_after_a_write() {
    assert_eq!(writer_verdict(&ShellCmd::WriteLine("x".to_string()), &TaskOutcome::Done), go_on());
    assert_eq!(writer_verdict(&ShellCmd::WriteBytes(vec![1]), &TaskOutcome::Done), go_on());
}

#[test]
fn failed_write_ends_the_session() {
    let failed = TaskOutcome::Failed { message: ShellError::Write.message() };
    assert_eq!(
        writer_verdict(&ShellCmd::WriteLine("x".to_string()), &failed),
        ended("write_failed: failed to write to PTY")
    );
    assert_eq!(
        writer_verdict(&ShellCmd::WriteBytes(vec![1]), &failed),
        ended("write_bytes_failed: failed to write to PTY")
    );
    assert_eq!(
        writer_verdict(&ShellCmd::WriteLine("x".to_string()), &TaskOutcome::JoinFailed),
        ended("join_failed: background task join failed")
    );
    assert_eq!(
        writer_verdict(&ShellCmd::WriteBytes(vec![]), &TaskOutcome::JoinFailed),
        ended("write_bytes_join_failed: background task join failed")
    );
}

#[test]
fn failed_resize_is_passed_over() {
    let failed = TaskOutcome::Failed { message: "no tty".to_string() };
    assert_eq!(writer_verdict(&ShellCmd::Resize(1, 1), &failed), go_on());
    assert_eq!(writer_verdict(&ShellCmd::Resize(1, 1), &TaskOutcome::JoinFailed), go_on());
    assert_eq!(writer_verdict(&ShellCmd::Resize(1, 1), &TaskOutcome::Done), go_on());
}

#[test]
fn shutdown_ends_the_writer_whatever_came_of_it() {
    let quiet = Verdict { event: None, proceed: false };
    assert_eq!(writer_verdict(&ShellCmd::Shutdown, &TaskOutcome::Done), quiet);
    assert_eq!(
        writer_verdict(&ShellCmd::Shutdown, &TaskOutcome::Failed { message: "x".to_string() }),
        quiet
    );
    assert_eq!(writer_verdict(&ShellCmd::Shutdown, &TaskOutcome::JoinFailed), quiet);
}

#[test]
fn reader_broadcasts_chunks_and_ends_on_eof() {
    assert_eq!(
        reader_verdict(&ReadOutcome::Data(b"hello\r\n".to_vec())),
        Verdict { event: Some(ShellEvent::Output("hello\r\n".to_string())), proceed: true }
    );
    assert_eq!(reader_verdict(&ReadOutcome::Data(vec![])), ended("eof"));
    assert_eq!(
        reader_verdict(&ReadOutcome::Failed),
        ended("reader_error: failed to read from PTY")
    );
}

#[test]
fn reader_replaces_bytes_that_are_no_utf8() {
    assert_eq!(
        reader_verdict(&ReadOutcome::Data(vec![b'a', 0xff, b'b'])),
        Verdict { event: Some(ShellEvent::Output("a\u{fffd}b".to_string())), proceed: true }
    );
    assert_eq!(
        reader_verdict(&ReadOutcome::Data("é".as_bytes().to_vec())),
        chunk_verdict("é".to_string())
    );
}

#[test]
fn waiter_reports_the_end_either_way() {
    assert_eq!(
        waiter_event(&WaitOutcome::Exited { status: "ExitStatus { code: 0 }".to_string() }),
        ShellEvent::Exited("ExitStatus { code: 0 }".to_string())
    );
    assert_eq!(
        waiter_event(&WaitOutcome::Failed { message: "gone".to_string() }),
        ShellEvent::Exited("wait_failed: gone".to_string())
    );
}

#[test]
fn commands_and_events_are_cloned() {
    let c = ShellCmd::WriteBytes(vec![1, 2]);
    assert_eq!(c.clone(), c);
    let e = ShellEvent::Output("o".to_string());
    assert_eq!(e.clone(), e);
    let s = ShellSpec::Remote {
        host: "h".to_string(),
        backend: RemoteBackend::Telnet { port: 1, extra_args: strings(&["a"]) },
    };
    assert_eq!(s.clone(), s);
}
