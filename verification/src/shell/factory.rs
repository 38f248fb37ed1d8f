//! From the description of a shell to the command line that starts it.

use crate::shell::spec::{BackendView, RemoteBackend, ShellSpec, ShellSpecView};
use crate::text::list::{clone_strings, extend_strings};
use crate::text::number::{decimal, u16_to_string};
use vstd::prelude::*;

verus! {

/// What to start for a session: a program with its arguments, on a terminal of
/// `cols` by `rows`.
#[derive(Debug, PartialEq, Eq)]
pub struct SpawnRequest {
    pub name: String,
    pub program: String,
    pub args: Vec<String>,
    pub cols: u16,
    pub rows: u16,
}

/// A [`SpawnRequest`] as contracts see it.
pub struct SpawnRequestView {
    pub name: Seq<char>,
    pub program: Seq<char>,
    pub args: Seq<Seq<char>>,
    pub cols: u16,
    pub rows: u16,
}

impl View for SpawnRequest {
    type V = SpawnRequestView;

    open spec fn view(&self) -> SpawnRequestView {
        SpawnRequestView {
            name: self.name@,
            program: self.program@,
            args: self.args.deep_view(),
            cols: self.cols,
            rows: self.rows,
        }
    }
}

impl Clone for SpawnRequest {
    fn clone(&self) -> (r: Self)
        ensures
            r@ == self@,
    {
        SpawnRequest {
            name: self.name.clone(),
            program: self.program.clone(),
            args: clone_strings(&self.args),
            cols: self.cols,
            rows: self.rows,
        }
    }
}

/// The program that a shell runs: its own for a local shell, the client for a
/// remote one.
pub open spec fn program_spec(spec: ShellSpecView) -> Seq<char> {
    match spec {
        ShellSpecView::Local { program } => program,
        ShellSpecView::Remote { backend: BackendView::Ssh { .. }, .. } => "ssh"@,
        ShellSpecView::Remote { backend: BackendView::Telnet { .. }, .. } => "telnet"@,
    }
}

/// The arguments of that program: none for a local shell;
/// `-tt -p <port> <extra...> <host>` for `ssh`; `<extra...> <host> <port>` for
/// `telnet`.
pub open spec fn args_spec(spec: ShellSpecView) -> Seq<Seq<char>> {
    match spec {
        ShellSpecView::Local { .. } => Seq::empty(),
        ShellSpecView::Remote { host, backend: BackendView::Ssh { port, extra_args } } => seq![
            "-tt"@,
            "-p"@,
            decimal(port as nat),
        ] + extra_args + seq![host],
        ShellSpecView::Remote { host, backend: BackendView::Telnet { port, extra_args } } => {
            extra_args + seq![host, decimal(port as nat)]
        },
    }
}

/// What [`spawn`] asks to be started.
pub open spec fn spawn_spec(name: Seq<char>, spec: ShellSpecView, cols: u16, rows: u16) -> SpawnRequestView {
    SpawnRequestView { name, program: program_spec(spec), args: args_spec(spec), cols, rows }
}

/// The request that starts a session for `spec` under `name`.
pub fn spawn(name: &str, spec: &ShellSpec, cols: u16, rows: u16) -> (request: SpawnRequest)
    ensures
        request@ == spawn_spec(name@, spec@, cols, rows),
{
    match spec {
        ShellSpec::Local { program } => {
            let args: Vec<String> = Vec::new();
            assert(args.deep_view() =~= Seq::<Seq<char>>::empty());
            SpawnRequest { name: String::from_str(name), program: program.clone(), args, cols, rows }
        },
        ShellSpec::Remote { host, backend } => match backend {
            RemoteBackend::Ssh { port, extra_args } => {
                let mut args: Vec<String> = Vec::new();
                args.push(String::from_str("-tt"));
                args.push(String::from_str("-p"));
                args.push(u16_to_string(*port));
                assert(args.deep_view() =~= seq!["-tt"@, "-p"@, decimal(*port as nat)]);
                extend_strings(&mut args, extra_args);
                let ghost before = args.deep_view();
                args.push(host.clone());
                assert(args.deep_view() =~= before + seq![host@]);
                SpawnRequest {
                    name: String::from_str(name),
                    program: String::from_str("ssh"),
                    args,
                    cols,
                    rows,
                }
            },
            RemoteBackend::Telnet { port, extra_args } => {
                let mut args: Vec<String> = clone_strings(extra_args);
                args.push(host.clone());
                args.push(u16_to_string(*port));
                assert(args.deep_view() =~= extra_args.deep_view() + seq![
                    host@,
                    decimal(*port as nat),
                ]);
                SpawnRequest {
                    name: String::from_str(name),
                    program: String::from_str("telnet"),
                    args,
                    cols,
                    rows,
                }
            },
        },
    }
}

} // verus!
