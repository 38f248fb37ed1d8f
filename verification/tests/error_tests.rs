use psh::error::{
    BuiltinError, PshError, ReplError, ReplRouterError, RuntimeError, ShellError, SyncError, UiError,
};

#[test]
fn builtin_messages() {
    assert_eq!(
        BuiltinError::LocalUnrecognized { args: "frob".to_string() }.message(),
        "unrecognized local command: frob"
    );
    assert_eq!(
        BuiltinError::RemoteUnrecognized { args: "x y".to_string() }.message(),
        "unrecognized remote command: x y"
    );
    assert_eq!(
        BuiltinError::AdminUnrecognized { args: "".to_string() }.message(),
        "unrecognized admin command: "
    );
    assert_eq!(BuiltinError::InvalidArgs { detail: "d".to_string() }.message(), "invalid arguments: d");
    assert_eq!(BuiltinError::ExitRequested.message(), "user requested exit");
}

#[test]
fn router_messages() {
    assert_eq!(ReplRouterError::UnknownShell { name: "zsh".to_string() }.message(), "unknown shell: zsh");
    assert_eq!(ReplRouterError::DefaultShellUnset.message(), "default shell is not set");
    assert_eq!(
        ReplRouterError::DefaultShellUnknown { name: "q".to_string() }.message(),
        "default shell is unknown: q"
    );
    assert_eq!(
        ReplRouterError::SessionNotRunning { name: "bash".to_string() }.message(),
        "session is not running: bash"
    );
    assert_eq!(
        ReplError::Router(ReplRouterError::DefaultShellUnset).message(),
        "default shell is not set"
    );
}

#[test]
fn shell_messages() {
    assert_eq!(ShellError::PtyOpen.message(), "failed to open PTY");
    assert_eq!(ShellError::Spawn.message(), "failed to spawn child");
    assert_eq!(ShellError::CloneReader.message(), "failed to clone PTY reader");
    assert_eq!(ShellError::TakeWriter.message(), "failed to clone PTY writer");
    assert_eq!(ShellError::Write.message(), "failed to write to PTY");
    assert_eq!(ShellError::Read.message(), "failed to read from PTY");
    assert_eq!(ShellError::Resize.message(), "failed to resize PTY");
    assert_eq!(ShellError::Wait.message(), "failed to wait on child");
    assert_eq!(ShellError::Join.message(), "background task join failed");
    assert_eq!(ShellError::ChannelClosed.message(), "command channel closed");
    assert_eq!(ShellError::Read.text(), "failed to read from PTY");
}

#[test]
fn sync_ui_and_runtime_messages() {
    assert_eq!(SyncError::MutexPoison { context: "w".to_string() }.message(), "mutex poisoned: w");
    assert_eq!(SyncError::ChannelSend.message(), "channel send failed");
    assert_eq!(SyncError::ChannelRecv.message(), "channel receive failed");
    assert_eq!(
        SyncError::ChannelClosed { context: "cmd_tx shutdown: closed".to_string() }.message(),
        "channel closed: cmd_tx shutdown: closed"
    );
    assert_eq!(SyncError::Join.message(), "background task join failed");
    assert_eq!(UiError::IoRead.message(), "stdin read failed");
    assert_eq!(UiError::IoWrite.message(), "stdin write failed");
    assert_eq!(UiError::ResizeRead.message(), "terminal size read failed");
    assert_eq!(UiError::RawModeEnable.message(), "failed to enable raw mode");
    assert_eq!(UiError::RawModeDisable.message(), "failed to disable raw mode");
    assert_eq!(UiError::EventRecv.message(), "event receive failed");
    assert_eq!(
        RuntimeError::ConfigRead { path: "/p".to_string() }.message(),
        "failed to read config at /p"
    );
    assert_eq!(
        RuntimeError::ConfigParse { path: "/p".to_string() }.message(),
        "failed to parse config at /p"
    );
    assert_eq!(RuntimeError::LoggingReconfigure.message(), "failed to reconfigure logging");
}

#[test]
fn every_failure_becomes_a_program_failure() {
    assert_eq!(
        PshError::from(ReplRouterError::DefaultShellUnset),
        PshError::Repl(ReplError::Router(ReplRouterError::DefaultShellUnset))
    );
    assert_eq!(PshError::from(BuiltinError::ExitRequested), PshError::Builtin(BuiltinError::ExitRequested));
    assert_eq!(PshError::from(ShellError::Spawn), PshError::Shell(ShellError::Spawn));
    assert_eq!(PshError::from(UiError::IoRead), PshError::Ui(UiError::IoRead));
    assert_eq!(
        PshError::from(RuntimeError::LoggingReconfigure),
        PshError::Runtime(RuntimeError::LoggingReconfigure)
    );
    assert_eq!(
        ReplError::from(ReplRouterError::DefaultShellUnset),
        ReplError::Router(ReplRouterError::DefaultShellUnset)
    );
    assert_eq!(PshError::from(ShellError::PtyOpen).message(), "failed to open PTY");
    assert_eq!(
        PshError::from(ReplRouterError::UnknownShell { name: "x".to_string() }).message(),
        "unknown shell: x"
    );
}

#[test]
fn only_the_exit_request_ends_the_program() {
    assert!(PshError::Builtin(BuiltinError::ExitRequested).is_exit_request());
    assert!(!PshError::Builtin(BuiltinError::InvalidArgs { detail: String::new() }).is_exit_request());
    assert!(!PshError::Shell(ShellError::Spawn).is_exit_request());
}
