//! What holds of the router, whatever its state.

use crate::error::PshErrorView;
use crate::registry::{is_listing, Entry, EntryView};
use crate::repl::mode::ModeView;
use crate::repl::parser::parse_spec;
use crate::repl::router::{
    dispatch_spec, ensured_spec, exec_spec, exited, planned, refused, started, stopped, watch_spec,
    with_default, EnsuredView, FollowView, PlanView, RouterView, StepView, WatchStep,
};
use crate::error::repl::ReplRouterErrorView;
use crate::shell::event::ShellEventView;
use crate::shell::factory::spawn_spec;
use crate::shell::spec::ShellSpecView;
use crate::text::order::{is_ordering, lemma_ordering_contains, lemma_ordering_remove, lemma_ordering_unique};
use crate::text::space::trim_spec;
use vstd::prelude::*;

verus! {

/// Once a session was started under a name, making sure of that name yields
/// that session's handle, as often as it is asked and whatever shell is
/// asked for, and plans no second start.
pub proof fn lemma_ensure_hits<H>(
    s: RouterView<H>,
    name: Seq<char>,
    handle: H,
    follow: FollowView,
    spec: ShellSpecView,
    next: FollowView,
)
    ensures
        ensured_spec(started(s, name, handle, follow).state, name, spec) == EnsuredView::Live(
            handle,
        ),
        !(planned(started(s, name, handle, follow).state, name, spec, next).result matches Ok(
            PlanView::Start { .. },
        )),
{
}

/// Making sure of a live session changes nothing, so asking twice gives the
/// same handle.
pub proof fn lemma_ensure_keeps<H>(s: RouterView<H>, name: Seq<char>, spec: ShellSpecView)
    requires
        s.sessions.contains_key(name),
    ensures
        ensured_spec(s, name, spec) == EnsuredView::Live(s.sessions[name]),
        planned(s, name, spec, FollowView::Nothing) == (StepView {
            state: s,
            result: Ok(PlanView::Idle),
        }),
{
}

/// An `Exited` event makes the watcher release the session, and a released
/// session is neither in the table nor in any list of the running names.
pub proof fn lemma_exit_releases<H>(
    s: RouterView<H>,
    name: Seq<char>,
    reason: Seq<char>,
    running: Seq<Seq<char>>,
)
    requires
        is_ordering(exited(s, name).sessions.dom(), running),
    ensures
        watch_spec(Some(ShellEventView::Exited(reason))) == WatchStep::Release,
        !exited(s, name).sessions.contains_key(name),
        forall|i: int| 0 <= i < running.len() ==> running[i] != name,
        exited(s, name).registry == s.registry,
{
    assert forall|i: int| 0 <= i < running.len() implies running[i] != name by {
        assert(exited(s, name).sessions.dom().contains(running[i]));
    }
}

/// A list of the running names holds a name exactly where a session is live
/// under it.
pub proof fn lemma_running_list<H>(s: RouterView<H>, running: Seq<Seq<char>>, name: Seq<char>)
    requires
        is_ordering(s.sessions.dom(), running),
    ensures
        running.contains(name) <==> s.sessions.contains_key(name),
{
    lemma_ordering_contains(s.sessions.dom(), running, name);
}

/// Once a session was started under a name, every list of the running names
/// holds that name.
pub proof fn lemma_started_runs<H>(
    s: RouterView<H>,
    name: Seq<char>,
    handle: H,
    follow: FollowView,
    running: Seq<Seq<char>>,
)
    requires
        is_ordering(started(s, name, handle, follow).state.sessions.dom(), running),
    ensures
        running.contains(name),
{
    let after = started(s, name, handle, follow).state;
    assert(after.sessions.contains_key(name));
    lemma_ordering_contains(after.sessions.dom(), running, name);
}

/// Stopping a live session leaves the list of the running names as it was,
/// but for the session's name, which is gone from it.
pub proof fn lemma_stop_running_list<H>(
    s: RouterView<H>,
    name: Seq<char>,
    before: Seq<Seq<char>>,
    after: Seq<Seq<char>>,
)
    requires
        s.sessions.contains_key(name),
        is_ordering(s.sessions.dom(), before),
        is_ordering(stopped(s, name).state.sessions.dom(), after),
    ensures
        !after.contains(name),
        exists|i: int| 0 <= i < before.len() && before[i] == name && after == before.remove(i),
{
    lemma_ordering_contains(s.sessions.dom(), before, name);
    let i = choose|i: int| 0 <= i < before.len() && before[i] == name;
    lemma_ordering_remove(s.sessions.dom(), before, i);
    assert(stopped(s, name).state.sessions.dom() =~= s.sessions.dom().remove(name));
    lemma_ordering_unique(s.sessions.dom().remove(name), after, before.remove(i));
}

/// Stopping fails with `SessionNotRunning` exactly where no session is live
/// under the name, and then changes nothing; where one is live it has left
/// the table when its handle is handed over, before anything is asked of it.
pub proof fn lemma_stop<H>(s: RouterView<H>, name: Seq<char>)
    ensures
        !s.sessions.contains_key(name) <==> stopped(s, name).result == Err::<
            PlanView<H>,
            PshErrorView,
        >(refused(ReplRouterErrorView::SessionNotRunning { name })),
        !s.sessions.contains_key(name) ==> stopped(s, name).state == s,
        s.sessions.contains_key(name) ==> stopped(s, name).result == Ok::<
            PlanView<H>,
            PshErrorView,
        >(PlanView::Shutdown { handle: s.sessions[name] }),
        !stopped(s, name).state.sessions.contains_key(name),
        stopped(s, name).state.registry == s.registry,
{
}

/// Adding a shell under a name without a session asks for its start; once it
/// has started, the registry holds the shell under that name, every listing
/// of the registry shows it, and the table holds the session.
pub proof fn lemma_add_round_trip<H>(
    s: RouterView<H>,
    name: Seq<char>,
    spec: ShellSpecView,
    handle: H,
    listing: Seq<(String, Entry)>,
)
    requires
        !s.sessions.contains_key(name),
        is_listing(
            started(s, name, handle, FollowView::Register { spec }).state.registry,
            listing,
        ),
    ensures
        planned(s, name, spec, FollowView::Register { spec }) == (StepView {
            state: s,
            result: Ok(
                PlanView::Start {
                    request: spawn_spec(name, spec, s.cols, s.rows),
                    follow: FollowView::Register { spec },
                },
            ),
        }),
        started(s, name, handle, FollowView::Register { spec }).state.registry[name]
            == EntryView::Shell(spec),
        started(s, name, handle, FollowView::Register { spec }).state.sessions.contains_key(name),
        started(s, name, handle, FollowView::Register { spec }).state.sessions[name] == handle,
        exists|i: int|
            0 <= i < listing.len() && #[trigger] listing[i].0@ == name && listing[i].1@
                == EntryView::Shell(spec),
{
    let after = started(s, name, handle, FollowView::Register { spec }).state;
    assert(after.registry.contains_key(name));
    let i = choose|i: int| 0 <= i < listing.len() && #[trigger] listing[i].0@ == name;
    assert(after.registry[listing[i].0@] == listing[i].1@);
}

/// A line without a registered prefix fails with `DefaultShellUnset` while
/// neither mode is set, and changes nothing.
pub proof fn lemma_default_unset<H>(s: RouterView<H>, input: Seq<char>)
    requires
        s.mode.current is None,
        s.mode.default is None,
        parse_spec(s.registry, input) is Default,
    ensures
        exec_spec(s, input) == (StepView {
            state: s,
            result: Err(refused(ReplRouterErrorView::DefaultShellUnset)),
        }),
{
}

/// Once the default mode was set to a registered name, and while no current
/// mode is set, the same line goes to that name, trimmed. Where the name is a
/// shell, the line is sent to the shell's session, which is started first
/// where it does not run.
pub proof fn lemma_default_routes<H>(s: RouterView<H>, input: Seq<char>, name: Seq<char>)
    requires
        s.mode.current is None,
        parse_spec(s.registry, input) is Default,
        s.registry.contains_key(name),
    ensures
        with_default(s, name).mode == (ModeView { current: None, default: Some(name) }),
        exec_spec(with_default(s, name), input) == dispatch_spec(
            with_default(s, name),
            name,
            trim_spec(input),
        ),
        s.registry[name] matches EntryView::Shell(spec) ==> exec_spec(with_default(s, name), input)
            == planned(
            with_default(s, name),
            name,
            spec,
            FollowView::Send { line: trim_spec(input) },
        ),
{
}

} // verus!
