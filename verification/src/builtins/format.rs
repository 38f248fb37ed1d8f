//! How a shell is shown in a listing.

use crate::shell::spec::{BackendView, RemoteBackend, ShellSpec, ShellSpecView};
use crate::text::number::{decimal, u16_to_string};
use vstd::prelude::*;

verus! {

/// The line of a listing for the shell `spec` under `name`: two blanks, the
/// name, what it runs or where it connects to, and whether it is live.
pub open spec fn format_shell_line_spec(name: Seq<char>, spec: ShellSpecView, running: bool) -> Seq<
    char,
> {
    match spec {
        ShellSpecView::Local { program } => "  "@ + name + ": "@ + program + " "@ + (if running {
            "[running]"@
        } else {
            "[stopped]"@
        }),
        ShellSpecView::Remote { host, backend } => {
            let status = if running {
                "[connected]"@
            } else {
                "[disconnected]"@
            };
            match backend {
                BackendView::Ssh { port, .. } => "  "@ + name + " (ssh): "@ + host + ":"@ + decimal(
                    port as nat,
                ) + " "@ + status,
                BackendView::Telnet { port, .. } => "  "@ + name + " (telnet): "@ + host + ":"@
                    + decimal(port as nat) + " "@ + status,
            }
        },
    }
}

/// The line of a listing for the shell `spec` under `name`.
pub fn format_shell_line(name: &str, spec: &ShellSpec, running: bool) -> (line: String)
    ensures
        line@ == format_shell_line_spec(name@, spec@, running),
{
    let mut line = String::from_str("  ");
    line.append(name);
    match spec {
        ShellSpec::Local { program } => {
            line.append(": ");
            line.append(program.as_str());
            line.append(" ");
            line.append(
                if running {
                    "[running]"
                } else {
                    "[stopped]"
                },
            );
        },
        ShellSpec::Remote { host, backend } => {
            let port = match backend {
                RemoteBackend::Ssh { port, .. } => {
                    line.append(" (ssh): ");
                    *port
                },
                RemoteBackend::Telnet { port, .. } => {
                    line.append(" (telnet): ");
                    *port
                },
            };
            line.append(host.as_str());
            line.append(":");
            line.append(u16_to_string(port).as_str());
            line.append(" ");
            line.append(
                if running {
                    "[connected]"
                } else {
                    "[disconnected]"
                },
            );
        },
    }
    line
}

} // verus!
