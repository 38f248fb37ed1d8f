//! The `remote` builtin: `[list] | add <name> ssh|telnet <host> [port]
//! [extra-args...] | remove <name> | connect <name> | disconnect <name>`.

use crate::builtins::{Command, CommandView};
use crate::error::builtin::{BuiltinError, BuiltinErrorView};
use crate::error::PshError;
use crate::repl::router::{commanded, result_view, Plan, Router, StepView};
use crate::shell::spec::{
    default_ssh_port, default_telnet_port, ssh_port, telnet_port, BackendView, RemoteBackend,
    ShellSpec, ShellSpecView,
};
use crate::text::number::{numeral, parse_u16};
use crate::text::order::same_text;
use crate::text::space::{split_whitespace, words};
use vstd::prelude::*;

verus! {

/// The port that the words after the host name: the first of them where it is
/// a numeral of 16 bits, else `fallback`.
pub open spec fn port_spec(rest: Seq<Seq<char>>, fallback: u16) -> u16 {
    if rest.len() > 0 && numeral(rest[0], 0xffff) is Some {
        numeral(rest[0], 0xffff)->0 as u16
    } else {
        fallback
    }
}

/// The extra arguments among the words after the host: all of them but a
/// leading port.
pub open spec fn extra_spec(rest: Seq<Seq<char>>) -> Seq<Seq<char>> {
    if rest.len() > 0 && numeral(rest[0], 0xffff) is Some {
        rest.skip(1)
    } else {
        rest
    }
}

/// What a `remote` line asks for.
pub open spec fn command_spec(args: Seq<char>) -> Result<CommandView, BuiltinErrorView> {
    let w = words(args);
    if w.len() == 0 || (w.len() == 1 && w[0] == "list"@) {
        Ok(CommandView::ListRemote)
    } else if w.len() >= 4 && w[0] == "add"@ && w[2] == "ssh"@ {
        Ok(
            CommandView::Add {
                name: w[1],
                spec: ShellSpecView::Remote {
                    host: w[3],
                    backend: BackendView::Ssh {
                        port: port_spec(w.skip(4), ssh_port()),
                        extra_args: extra_spec(w.skip(4)),
                    },
                },
            },
        )
    } else if w.len() >= 4 && w[0] == "add"@ && w[2] == "telnet"@ {
        Ok(
            CommandView::Add {
                name: w[1],
                spec: ShellSpecView::Remote {
                    host: w[3],
                    backend: BackendView::Telnet {
                        port: port_spec(w.skip(4), telnet_port()),
                        extra_args: extra_spec(w.skip(4)),
                    },
                },
            },
        )
    } else if w.len() == 2 && w[0] == "remove"@ {
        Ok(CommandView::Remove { name: w[1] })
    } else if w.len() == 2 && w[0] == "connect"@ {
        Ok(CommandView::Start { name: w[1] })
    } else if w.len() == 2 && w[0] == "disconnect"@ {
        Ok(CommandView::Stop { name: w[1] })
    } else {
        Err(BuiltinErrorView::RemoteUnrecognized { args })
    }
}

/// The port and the extra arguments that the words of `w` from place 4 on
/// give.
fn port_and_extra(w: &Vec<String>, fallback: u16) -> (r: (u16, Vec<String>))
    requires
        w.len() >= 4,
    ensures
        r.0 == port_spec(w.deep_view().skip(4), fallback),
        r.1.deep_view() == extra_spec(w.deep_view().skip(4)),
{
    let ghost rest = w.deep_view().skip(4);
    let mut port = fallback;
    let mut from: usize = 4;
    if w.len() > 4 {
        assert(rest[0] == w[4]@);
        match parse_u16(w[4].as_str()) {
            Some(p) => {
                port = p;
                from = 5;
            },
            None => {},
        }
    }
    let ghost want = extra_spec(rest);
    assert(want =~= w.deep_view().skip(from as int));
    let mut extra: Vec<String> = Vec::new();
    let mut i: usize = from;
    while i < w.len()
        invariant
            4 <= from <= i <= w.len(),
            extra.len() == i - from,
            forall|k: int| 0 <= k < i - from ==> extra[k]@ == w[from + k]@,
        decreases w.len() - i,
    {
        extra.push(w[i].clone());
        i += 1;
    }
    assert(extra.deep_view() =~= w.deep_view().skip(from as int));
    (port, extra)
}

/// Reads a `remote` line.
pub fn parse(args: &str) -> (r: Result<Command, BuiltinError>)
    ensures
        match r {
            Ok(c) => command_spec(args@) == Ok::<CommandView, BuiltinErrorView>(c@),
            Err(e) => command_spec(args@) == Err::<CommandView, BuiltinErrorView>(e@),
        },
{
    let w = split_whitespace(args);
    let n = w.len();
    assert(w.deep_view().len() == n);
    assert forall|i: int| 0 <= i < n implies w[i]@ == #[trigger] w.deep_view()[i] by {}
    if n == 0 || (n == 1 && same_text(w[0].as_str(), "list")) {
        Ok(Command::ListRemote)
    } else if n >= 4 && same_text(w[0].as_str(), "add") && same_text(w[2].as_str(), "ssh") {
        let (port, extra_args) = port_and_extra(&w, default_ssh_port());
        Ok(
            Command::Add {
                name: w[1].clone(),
                spec: ShellSpec::Remote {
                    host: w[3].clone(),
                    backend: RemoteBackend::Ssh { port, extra_args },
                },
            },
        )
    } else if n >= 4 && same_text(w[0].as_str(), "add") && same_text(w[2].as_str(), "telnet") {
        let (port, extra_args) = port_and_extra(&w, default_telnet_port());
        Ok(
            Command::Add {
                name: w[1].clone(),
                spec: ShellSpec::Remote {
                    host: w[3].clone(),
                    backend: RemoteBackend::Telnet { port, extra_args },
                },
            },
        )
    } else if n == 2 && same_text(w[0].as_str(), "remove") {
        Ok(Command::Remove { name: w[1].clone() })
    } else if n == 2 && same_text(w[0].as_str(), "connect") {
        Ok(Command::Start { name: w[1].clone() })
    } else if n == 2 && same_text(w[0].as_str(), "disconnect") {
        Ok(Command::Stop { name: w[1].clone() })
    } else {
        Err(BuiltinError::RemoteUnrecognized { args: String::from_str(args) })
    }
}

/// Runs a `remote` line on the router.
pub fn handle<H>(router: &mut Router<H>, args: &str) -> (r: Result<Plan<H>, PshError>)
    ensures
        (StepView { state: final(router)@, result: result_view(r) }) == commanded(
            old(router)@,
            command_spec(args@),
        ),
{
    match parse(args) {
        Ok(cmd) => router.apply(cmd),
        Err(e) => Err(PshError::from(e)),
    }
}

} // verus!
