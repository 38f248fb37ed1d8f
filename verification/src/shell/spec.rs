//! The description of a shell: what to run to start it.

use crate::text::list::clone_strings;
use vstd::prelude::*;

verus! {

/// The client program that reaches a remote host.
#[derive(Debug, PartialEq, Eq)]
pub enum RemoteBackend {
    Ssh { port: u16, extra_args: Vec<String> },
    Telnet { port: u16, extra_args: Vec<String> },
}

/// How to start a session: a local program, or a host behind a client program.
#[derive(Debug, PartialEq, Eq)]
pub enum ShellSpec {
    Local { program: String },
    Remote { host: String, backend: RemoteBackend },
}

/// A [`RemoteBackend`] as contracts see it.
pub enum BackendView {
    Ssh { port: u16, extra_args: Seq<Seq<char>> },
    Telnet { port: u16, extra_args: Seq<Seq<char>> },
}

/// A [`ShellSpec`] as contracts see it.
pub enum ShellSpecView {
    Local { program: Seq<char> },
    Remote { host: Seq<char>, backend: BackendView },
}

impl View for RemoteBackend {
    type V = BackendView;

    open spec fn view(&self) -> BackendView {
        match self {
            RemoteBackend::Ssh { port, extra_args } => BackendView::Ssh {
                port: *port,
                extra_args: extra_args.deep_view(),
            },
            RemoteBackend::Telnet { port, extra_args } => BackendView::Telnet {
                port: *port,
                extra_args: extra_args.deep_view(),
            },
        }
    }
}

impl View for ShellSpec {
    type V = ShellSpecView;

    open spec fn view(&self) -> ShellSpecView {
        match self {
            ShellSpec::Local { program } => ShellSpecView::Local { program: program@ },
            ShellSpec::Remote { host, backend } => ShellSpecView::Remote {
                host: host@,
                backend: backend@,
            },
        }
    }
}

impl Clone for RemoteBackend {
    fn clone(&self) -> (r: Self)
        ensures
            r@ == self@,
    {
        match self {
            RemoteBackend::Ssh { port, extra_args } => RemoteBackend::Ssh {
                port: *port,
                extra_args: clone_strings(extra_args),
            },
            RemoteBackend::Telnet { port, extra_args } => RemoteBackend::Telnet {
                port: *port,
                extra_args: clone_strings(extra_args),
            },
        }
    }
}

impl Clone for ShellSpec {
    fn clone(&self) -> (r: Self)
        ensures
            r@ == self@,
    {
        match self {
            ShellSpec::Local { program } => ShellSpec::Local { program: program.clone() },
            ShellSpec::Remote { host, backend } => ShellSpec::Remote {
                host: host.clone(),
                backend: backend.clone(),
            },
        }
    }
}

/// The port that `ssh` connects to unless an entry names another.
pub open spec fn ssh_port() -> u16 {
    22
}

/// The port that `telnet` connects to unless an entry names another.
pub open spec fn telnet_port() -> u16 {
    23
}

/// The kind of a shell, as listings name it.
pub open spec fn kind_name_spec(spec: ShellSpecView) -> Seq<char> {
    match spec {
        ShellSpecView::Local { .. } => "local"@,
        ShellSpecView::Remote { backend: BackendView::Ssh { .. }, .. } => "remote_ssh"@,
        ShellSpecView::Remote { backend: BackendView::Telnet { .. }, .. } => "remote_telnet"@,
    }
}

impl ShellSpec {
    /// The kind of this shell: `local`, `remote_ssh` or `remote_telnet`.
    pub fn kind_name(&self) -> (k: &'static str)
        ensures
            k@ == kind_name_spec(self@),
    {
        match self {
            ShellSpec::Local { .. } => "local",
            ShellSpec::Remote { backend, .. } => match backend {
                RemoteBackend::Ssh { .. } => "remote_ssh",
                RemoteBackend::Telnet { .. } => "remote_telnet",
            },
        }
    }
}

/// The port that an `ssh` entry gets where it names none.
pub fn default_ssh_port() -> (p: u16)
    ensures
        p == ssh_port(),
{
    22
}

/// The port that a `telnet` entry gets where it names none.
pub fn default_telnet_port() -> (p: u16)
    ensures
        p == telnet_port(),
{
    23
}

} // verus!
