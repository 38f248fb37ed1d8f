//! The router: it owns the registry, the modes and the table of live
//! sessions, and decides what each input line does to them. What has to be
//! done outside (starting a process, writing to it, printing) it hands back as
//! a [`Plan`]; what came of it is told through [`Router::session_started`] and
//! [`Router::session_exited`].

use crate::builtins::format::{format_shell_line, format_shell_line_spec};
use crate::builtins::{admin, local, quit, remote, Command, CommandView};
use crate::error::builtin::BuiltinErrorView;
use crate::error::repl::{ReplErrorView, ReplRouterError, ReplRouterErrorView};
use crate::error::{PshError, PshErrorView};
use crate::registry::{is_listing, Entry, EntryView, Registry};
use crate::repl::mode::{target_spec, ModeState, ModeView};
use crate::repl::parser::{parse, parse_spec, Parsed, ParsedView};
use crate::repl::sessions::SessionTable;
use crate::shell::event::{ShellEvent, ShellEventView};
use crate::shell::factory::{spawn, spawn_spec, SpawnRequest, SpawnRequestView};
use crate::shell::spec::{ShellSpec, ShellSpecView};
use crate::text::list::{join, option_text};
use crate::text::order::{is_ordering, lemma_ordering_is, ordering, same_text, text_lt};
use vstd::prelude::*;

verus! {

/// What is left to do once a session runs.
#[derive(Debug, PartialEq, Eq)]
pub enum Follow {
    Nothing,
    /// Register the shell under the session's name.
    Register { spec: ShellSpec },
    /// Send the line to the session.
    Send { line: String },
    /// Send the bytes to the session as they are.
    SendBytes { bytes: Vec<u8> },
}

/// A [`Follow`] as contracts see it.
pub enum FollowView {
    Nothing,
    Register { spec: ShellSpecView },
    Send { line: Seq<char> },
    SendBytes { bytes: Seq<u8> },
}

impl View for Follow {
    type V = FollowView;

    open spec fn view(&self) -> FollowView {
        match self {
            Follow::Nothing => FollowView::Nothing,
            Follow::Register { spec } => FollowView::Register { spec: spec@ },
            Follow::Send { line } => FollowView::Send { line: line@ },
            Follow::SendBytes { bytes } => FollowView::SendBytes { bytes: bytes@ },
        }
    }
}

/// What the router asks its caller to carry out.
#[derive(Debug, PartialEq, Eq)]
pub enum Plan<H> {
    /// Nothing.
    Idle,
    /// Show these lines.
    Print { lines: Vec<String> },
    /// Send `line` to the live session `name`.
    Send { name: String, line: String },
    /// Send `bytes` to the live session `name`.
    SendBytes { name: String, bytes: Vec<u8> },
    /// Start what `request` describes; once it runs, report it with
    /// [`Router::session_started`], passing `follow` on.
    Start { request: SpawnRequest, follow: Follow },
    /// Ask the session behind `handle`, which has left the table, to shut
    /// down.
    Shutdown { handle: H },
}

/// A [`Plan`] as contracts see it.
pub enum PlanView<H> {
    Idle,
    Print { lines: Seq<Seq<char>> },
    Send { name: Seq<char>, line: Seq<char> },
    SendBytes { name: Seq<char>, bytes: Seq<u8> },
    Start { request: SpawnRequestView, follow: FollowView },
    Shutdown { handle: H },
}

impl<H> View for Plan<H> {
    type V = PlanView<H>;

    open spec fn view(&self) -> PlanView<H> {
        match self {
            Plan::Idle => PlanView::Idle,
            Plan::Print { lines } => PlanView::Print { lines: lines.deep_view() },
            Plan::Send { name, line } => PlanView::Send { name: name@, line: line@ },
            Plan::SendBytes { name, bytes } => PlanView::SendBytes { name: name@, bytes: bytes@ },
            Plan::Start { request, follow } => PlanView::Start { request: request@, follow: follow@ },
            Plan::Shutdown { handle } => PlanView::Shutdown { handle: *handle },
        }
    }
}

/// What making sure of a session comes to: it is live, or it has to be
/// started.
#[derive(Debug)]
pub enum Ensured<'a, H> {
    Live(&'a H),
    Spawn(SpawnRequest),
}

/// An [`Ensured`] as contracts see it.
pub enum EnsuredView<H> {
    Live(H),
    Spawn(SpawnRequestView),
}

impl<'a, H> View for Ensured<'a, H> {
    type V = EnsuredView<H>;

    open spec fn view(&self) -> EnsuredView<H> {
        match self {
            Ensured::Live(h) => EnsuredView::Live(**h),
            Ensured::Spawn(request) => EnsuredView::Spawn(request@),
        }
    }
}

/// The router's state as contracts see it.
pub struct RouterView<H> {
    pub registry: Map<Seq<char>, EntryView>,
    pub mode: ModeView,
    pub sessions: Map<Seq<char>, H>,
    pub cols: u16,
    pub rows: u16,
}

/// A step of the router: the state it leaves and what it hands back.
pub struct StepView<H> {
    pub state: RouterView<H>,
    pub result: Result<PlanView<H>, PshErrorView>,
}

/// The result of a step as contracts see it.
pub open spec fn result_view<H>(r: Result<Plan<H>, PshError>) -> Result<PlanView<H>, PshErrorView> {
    match r {
        Ok(plan) => Ok(plan@),
        Err(e) => Err(e@),
    }
}

/// The failure of a step that the router itself refuses.
pub open spec fn refused(e: ReplRouterErrorView) -> PshErrorView {
    PshErrorView::Repl(ReplErrorView::Router(e))
}

/// What is done for a session that is live under `name`.
pub open spec fn followed<H>(s: RouterView<H>, name: Seq<char>, follow: FollowView) -> StepView<H> {
    match follow {
        FollowView::Nothing => StepView { state: s, result: Ok(PlanView::Idle) },
        FollowView::Register { spec } => StepView {
            state: RouterView { registry: s.registry.insert(name, EntryView::Shell(spec)), ..s },
            result: Ok(PlanView::Idle),
        },
        FollowView::Send { line } => StepView { state: s, result: Ok(PlanView::Send { name, line }) },
        FollowView::SendBytes { bytes } => StepView {
            state: s,
            result: Ok(PlanView::SendBytes { name, bytes }),
        },
    }
}

/// Making sure of a session: a live one is used as it is, whatever `spec`
/// says; else one is to be started for `spec`, on the router's terminal size.
pub open spec fn planned<H>(
    s: RouterView<H>,
    name: Seq<char>,
    spec: ShellSpecView,
    follow: FollowView,
) -> StepView<H> {
    if s.sessions.contains_key(name) {
        followed(s, name, follow)
    } else {
        StepView {
            state: s,
            result: Ok(PlanView::Start { request: spawn_spec(name, spec, s.cols, s.rows), follow }),
        }
    }
}

/// A session that was started enters the table under its name, and what was
/// to follow is done.
pub open spec fn started<H>(s: RouterView<H>, name: Seq<char>, handle: H, follow: FollowView) -> StepView<
    H,
> {
    followed(RouterView { sessions: s.sessions.insert(name, handle), ..s }, name, follow)
}

/// What [`Router::ensure_shell_session_by_spec`] answers.
pub open spec fn ensured_spec<H>(s: RouterView<H>, name: Seq<char>, spec: ShellSpecView) -> EnsuredView<
    H,
> {
    if s.sessions.contains_key(name) {
        EnsuredView::Live(s.sessions[name])
    } else {
        EnsuredView::Spawn(spawn_spec(name, spec, s.cols, s.rows))
    }
}

/// Stopping a session takes it out of the table and hands its handle over to
/// be shut down; without a session under `name` it fails.
pub open spec fn stopped<H>(s: RouterView<H>, name: Seq<char>) -> StepView<H> {
    if s.sessions.contains_key(name) {
        StepView {
            state: RouterView { sessions: s.sessions.remove(name), ..s },
            result: Ok(PlanView::Shutdown { handle: s.sessions[name] }),
        }
    } else {
        StepView {
            state: s,
            result: Err(refused(ReplRouterErrorView::SessionNotRunning { name })),
        }
    }
}

/// A session that is over leaves the table; nothing else changes.
pub open spec fn exited<H>(s: RouterView<H>, name: Seq<char>) -> RouterView<H> {
    RouterView { sessions: s.sessions.remove(name), ..s }
}

/// Removing a name stops its session if one runs and takes the name out of
/// the registry either way.
pub open spec fn removed<H>(s: RouterView<H>, name: Seq<char>) -> StepView<H> {
    StepView {
        state: RouterView {
            registry: s.registry.remove(name),
            sessions: s.sessions.remove(name),
            ..s
        },
        result: Ok(
            if s.sessions.contains_key(name) {
                PlanView::Shutdown { handle: s.sessions[name] }
            } else {
                PlanView::Idle
            },
        ),
    }
}

/// Making sure of a session by name: the name must be registered as a shell.
pub open spec fn start_by_name<H>(s: RouterView<H>, name: Seq<char>) -> StepView<H> {
    if s.registry.contains_key(name) && s.registry[name] is Shell {
        planned(s, name, s.registry[name]->Shell_0, FollowView::Nothing)
    } else {
        StepView { state: s, result: Err(refused(ReplRouterErrorView::UnknownShell { name })) }
    }
}

/// Setting a mode: only a registered name is taken.
pub open spec fn with_default<H>(s: RouterView<H>, name: Seq<char>) -> RouterView<H> {
    if s.registry.contains_key(name) {
        RouterView { mode: ModeView { default: Some(name), ..s.mode }, ..s }
    } else {
        s
    }
}

/// Setting the current mode: only a registered name is taken.
pub open spec fn with_current<H>(s: RouterView<H>, name: Seq<char>) -> RouterView<H> {
    if s.registry.contains_key(name) {
        RouterView { mode: ModeView { current: Some(name), ..s.mode }, ..s }
    } else {
        s
    }
}

/// The registered names in order, each with its entry and whether a session
/// runs under it.
pub open spec fn status_listing<H>(s: RouterView<H>) -> Seq<(Seq<char>, EntryView, bool)> {
    let names = ordering(s.registry.dom());
    Seq::new(names.len(), |i: int| (names[i], s.registry[names[i]], s.sessions.contains_key(names[i])))
}

/// The names of a listing with status, in its order.
pub open spec fn status_names(list: Seq<(Seq<char>, EntryView, bool)>) -> Seq<Seq<char>> {
    Seq::new(list.len(), |i: int| list[i].0)
}

/// A listing with status as contracts see it.
pub open spec fn status_view(list: Seq<(String, Entry, bool)>) -> Seq<(Seq<char>, EntryView, bool)> {
    Seq::new(list.len(), |i: int| (list[i].0@, list[i].1@, list[i].2))
}

/// The lines for the shells of a listing that are remote, or that are local.
pub open spec fn shell_lines(list: Seq<(Seq<char>, EntryView, bool)>, remote: bool) -> Seq<Seq<char>>
    decreases list.len(),
{
    if list.len() == 0 {
        Seq::empty()
    } else {
        let head = shell_lines(list.drop_last(), remote);
        match list.last().1 {
            EntryView::Shell(spec) => if (spec is Remote) == remote {
                head.push(format_shell_line_spec(list.last().0, spec, list.last().2))
            } else {
                head
            },
            EntryView::Builtin => head,
        }
    }
}

/// What a listing of shells shows: a heading and a line for each, or that
/// there are none.
pub open spec fn listing_lines(list: Seq<(Seq<char>, EntryView, bool)>, remote: bool) -> Seq<Seq<char>> {
    let body = shell_lines(list, remote);
    if body.len() == 0 {
        seq![
            if remote {
                "No remote shells registered"@
            } else {
                "No local shells registered"@
            },
        ]
    } else {
        seq![
            if remote {
                "Remote shell list:"@
            } else {
                "Local shell list:"@
            },
        ] + body
    }
}

/// What a listing of sessions shows: a heading, and the names or that there
/// are none.
pub open spec fn session_lines(names: Seq<Seq<char>>) -> Seq<Seq<char>> {
    seq!["Running sessions list:"@] + (if names.len() == 0 {
        seq!["no running sessions"@]
    } else {
        Seq::new(names.len(), |i: int| "  "@ + names[i])
    })
}

/// What a builtin command does.
pub open spec fn apply_spec<H>(s: RouterView<H>, cmd: CommandView) -> StepView<H> {
    match cmd {
        CommandView::ListLocal => StepView {
            state: s,
            result: Ok(PlanView::Print { lines: listing_lines(status_listing(s), false) }),
        },
        CommandView::ListRemote => StepView {
            state: s,
            result: Ok(PlanView::Print { lines: listing_lines(status_listing(s), true) }),
        },
        CommandView::Add { name, spec } => planned(s, name, spec, FollowView::Register { spec }),
        CommandView::Remove { name } => removed(s, name),
        CommandView::Start { name } => start_by_name(s, name),
        CommandView::Stop { name } => stopped(s, name),
        CommandView::Sessions => StepView {
            state: s,
            result: Ok(PlanView::Print { lines: session_lines(ordering(s.sessions.dom())) }),
        },
        CommandView::DefaultSet { name } => StepView {
            state: with_default(s, name),
            result: Ok(PlanView::Idle),
        },
        CommandView::DefaultGet => StepView { state: s, result: Ok(PlanView::Idle) },
    }
}

/// What a line of a builtin does: the command it reads is applied; a line
/// that reads as none fails and changes nothing.
pub open spec fn commanded<H>(
    s: RouterView<H>,
    command: Result<CommandView, BuiltinErrorView>,
) -> StepView<H> {
    match command {
        Ok(cmd) => apply_spec(s, cmd),
        Err(e) => StepView { state: s, result: Err(PshErrorView::Builtin(e)) },
    }
}

/// What the builtin registered under `name` does with `args`. A builtin of
/// another name does nothing.
pub open spec fn builtin_spec<H>(s: RouterView<H>, name: Seq<char>, args: Seq<char>) -> StepView<H> {
    if name == "local"@ {
        commanded(s, local::command_spec(args))
    } else if name == "remote"@ {
        commanded(s, remote::command_spec(args))
    } else if name == "admin"@ {
        commanded(s, admin::command_spec(args))
    } else if name == "quit"@ || name == "exit"@ {
        StepView { state: s, result: Err(PshErrorView::Builtin(BuiltinErrorView::ExitRequested)) }
    } else {
        StepView { state: s, result: Ok(PlanView::Idle) }
    }
}

/// What a command for `name` does: a shell gets it as a line, once its
/// session runs; a builtin handles it; an unregistered name fails.
pub open spec fn dispatch_spec<H>(s: RouterView<H>, name: Seq<char>, command: Seq<char>) -> StepView<
    H,
> {
    if !s.registry.contains_key(name) {
        StepView { state: s, result: Err(refused(ReplRouterErrorView::UnknownShell { name })) }
    } else {
        match s.registry[name] {
            EntryView::Shell(spec) => planned(s, name, spec, FollowView::Send { line: command }),
            EntryView::Builtin => builtin_spec(s, name, command),
        }
    }
}

/// What an input line does. A line with a registered prefix makes that name
/// the current mode and goes to it. Any other line goes to the current mode,
/// else to the default mode, and fails where neither is set.
pub open spec fn exec_spec<H>(s: RouterView<H>, input: Seq<char>) -> StepView<H> {
    match parse_spec(s.registry, input) {
        ParsedView::Entry { name, command, .. } => dispatch_spec(
            with_current(s, name),
            name,
            command,
        ),
        ParsedView::Default { command } => match target_spec(s.mode) {
            Some(name) => dispatch_spec(s, name, command),
            None => StepView {
                state: s,
                result: Err(refused(ReplRouterErrorView::DefaultShellUnset)),
            },
        },
    }
}

/// The registry, the modes, the live sessions, and the size of the terminal
/// that every new session gets.
#[derive(Debug)]
pub struct Router<H> {
    registry: Registry,
    mode: ModeState,
    sessions: SessionTable<H>,
    cols: u16,
    rows: u16,
}

impl<H> View for Router<H> {
    type V = RouterView<H>;

    closed spec fn view(&self) -> RouterView<H> {
        RouterView {
            registry: self.registry@,
            mode: self.mode@,
            sessions: self.sessions@,
            cols: self.cols,
            rows: self.rows,
        }
    }
}

impl<H> Router<H> {
    /// A router over `registry`, with no mode set and no session live.
    pub fn new(registry: Registry, cols: u16, rows: u16) -> (r: Self)
        ensures
            r@ == (RouterView::<H> {
                registry: registry@,
                mode: ModeView { current: None, default: None },
                sessions: Map::empty(),
                cols,
                rows,
            }),
    {
        Router { registry, mode: ModeState::new(), sessions: SessionTable::new(), cols, rows }
    }

    /// What `input` would be read as, without doing anything.
    pub fn parse_preview(&self, input: &str) -> (p: Parsed)
        ensures
            p@ == parse_spec(self@.registry, input@),
    {
        parse(&self.registry, input)
    }

    /// A copy of the registry.
    pub fn get_registry_clone(&self) -> (r: Registry)
        ensures
            r@ == self@.registry,
    {
        self.registry.clone()
    }

    /// A copy of the modes.
    pub fn mode_state(&self) -> (m: ModeState)
        ensures
            m@ == self@.mode,
    {
        self.mode.clone()
    }

    /// The current mode.
    pub fn get_current_mode(&self) -> (r: Option<String>)
        ensures
            option_text(r) == self@.mode.current,
    {
        self.mode.get_current()
    }

    /// Makes `name` the current mode if it is registered, and says whether it
    /// did.
    pub fn set_current_mode(&mut self, name: &str) -> (ok: bool)
        ensures
            ok == old(self)@.registry.contains_key(name@),
            final(self)@ == with_current(old(self)@, name@),
    {
        if self.registry.has_entry(name) {
            self.mode.set_current(Some(String::from_str(name)));
            true
        } else {
            false
        }
    }

    /// The default mode.
    pub fn get_default_mode(&self) -> (r: Option<String>)
        ensures
            option_text(r) == self@.mode.default,
    {
        self.mode.get_default()
    }

    /// Makes `name` the default mode if it is registered, and says whether it
    /// did.
    pub fn set_default_mode(&mut self, name: &str) -> (ok: bool)
        ensures
            ok == old(self)@.registry.contains_key(name@),
            final(self)@ == with_default(old(self)@, name@),
    {
        if self.registry.has_entry(name) {
            self.mode.set_default(Some(String::from_str(name)));
            true
        } else {
            false
        }
    }

    fn follow(&mut self, name: &str, follow: Follow) -> (r: Result<Plan<H>, PshError>)
        ensures
            (StepView { state: final(self)@, result: result_view(r) }) == followed(
                old(self)@,
                name@,
                follow@,
            ),
    {
        match follow {
            Follow::Nothing => Ok(Plan::Idle),
            Follow::Register { spec } => {
                self.registry.register_entry(name, Entry::Shell(spec));
                Ok(Plan::Idle)
            },
            Follow::Send { line } => Ok(Plan::Send { name: String::from_str(name), line }),
            Follow::SendBytes { bytes } => Ok(
                Plan::SendBytes { name: String::from_str(name), bytes },
            ),
        }
    }

    /// Makes sure of a session under `name`, for `spec` where none is live,
    /// and has `follow` done once it runs.
    pub fn plan(&mut self, name: &str, spec: &ShellSpec, follow: Follow) -> (r: Result<
        Plan<H>,
        PshError,
    >)
        ensures
            (StepView { state: final(self)@, result: result_view(r) }) == planned(
                old(self)@,
                name@,
                spec@,
                follow@,
            ),
    {
        if self.sessions.contains(name) {
            self.follow(name, follow)
        } else {
            Ok(Plan::Start { request: spawn(name, spec, self.cols, self.rows), follow })
        }
    }

    /// Runs the command for the entry registered under `name`.
    pub fn exec_by_prefix(&mut self, name: &str, command: &str) -> (r: Result<Plan<H>, PshError>)
        ensures
            (StepView { state: final(self)@, result: result_view(r) }) == dispatch_spec(
                old(self)@,
                name@,
                command@,
            ),
    {
        match self.registry.get_entry(name) {
            Some(Entry::Shell(spec)) => self.plan(
                name,
                &spec,
                Follow::Send { line: String::from_str(command) },
            ),
            Some(Entry::Builtin) => {
                if same_text(name, "local") {
                    local::handle(self, command)
                } else if same_text(name, "remote") {
                    remote::handle(self, command)
                } else if same_text(name, "admin") {
                    admin::handle(self, command)
                } else if same_text(name, "quit") || same_text(name, "exit") {
                    quit::handle(self, command)
                } else {
                    Ok(Plan::Idle)
                }
            },
            None => Err(
                PshError::from(ReplRouterError::UnknownShell { name: String::from_str(name) }),
            ),
        }
    }

    /// Runs an input line.
    pub fn exec(&mut self, input: &str) -> (r: Result<Plan<H>, PshError>)
        ensures
            (StepView { state: final(self)@, result: result_view(r) }) == exec_spec(
                old(self)@,
                input@,
            ),
    {
        match parse(&self.registry, input) {
            Parsed::Entry { name, command, .. } => {
                self.set_current_mode(name.as_str());
                self.exec_by_prefix(name.as_str(), command.as_str())
            },
            Parsed::Default { command } => match self.mode.target() {
                Some(name) => self.exec_by_prefix(name.as_str(), command.as_str()),
                None => Err(PshError::from(ReplRouterError::DefaultShellUnset)),
            },
        }
    }

    /// Starts a session for `spec` under `name`, unless one is live there, and
    /// registers `spec` under `name` once the session runs.
    pub fn add_and_start_shell(&mut self, name: &str, spec: ShellSpec) -> (r: Result<
        Plan<H>,
        PshError,
    >)
        ensures
            (StepView { state: final(self)@, result: result_view(r) }) == planned(
                old(self)@,
                name@,
                spec@,
                FollowView::Register { spec: spec@ },
            ),
    {
        if self.sessions.contains(name) {
            self.follow(name, Follow::Register { spec })
        } else {
            let request = spawn(name, &spec, self.cols, self.rows);
            Ok(Plan::Start { request, follow: Follow::Register { spec } })
        }
    }

    /// Takes the session under `name` out of the table and hands its handle
    /// over to be shut down. The session has left the table whatever comes of
    /// the shutdown.
    pub fn stop_shell_session(&mut self, name: &str) -> (r: Result<Plan<H>, PshError>)
        ensures
            (StepView { state: final(self)@, result: result_view(r) }) == stopped(
                old(self)@,
                name@,
            ),
    {
        match self.sessions.remove(name) {
            Some(handle) => Ok(Plan::Shutdown { handle }),
            None => {
                assert(self@.sessions =~= old(self)@.sessions);
                Err(
                    PshError::from(
                        ReplRouterError::SessionNotRunning { name: String::from_str(name) },
                    ),
                )
            },
        }
    }

    /// What it takes to have a session for the registered shell `name`.
    pub fn ensure_shell_session_by_name(&self, name: &str) -> (r: Result<
        Ensured<'_, H>,
        ReplRouterError,
    >)
        ensures
            match r {
                Ok(e) => self@.registry.contains_key(name@) && self@.registry[name@] is Shell && e@
                    == ensured_spec(self@, name@, self@.registry[name@]->Shell_0),
                Err(e) => !(self@.registry.contains_key(name@) && self@.registry[name@] is Shell)
                    && e@ == (ReplRouterErrorView::UnknownShell { name: name@ }),
            },
    {
        match self.registry.get_shell_spec(name) {
            Some(spec) => Ok(self.ensure_shell_session_by_spec(name, &spec)),
            None => Err(ReplRouterError::UnknownShell { name: String::from_str(name) }),
        }
    }

    /// What it takes to have a session under `name`: the live one, or the
    /// request that starts one for `spec`.
    pub fn ensure_shell_session_by_spec(&self, name: &str, spec: &ShellSpec) -> (r: Ensured<'_, H>)
        ensures
            r@ == ensured_spec(self@, name@, spec@),
    {
        match self.sessions.get(name) {
            Some(handle) => Ensured::Live(handle),
            None => Ensured::Spawn(spawn(name, spec, self.cols, self.rows)),
        }
    }

    /// The session that a plan asked to start runs: it enters the table under
    /// `name`, and what was to follow is done.
    pub fn session_started(&mut self, name: &str, handle: H, follow: Follow) -> (r: Result<
        Plan<H>,
        PshError,
    >)
        ensures
            (StepView { state: final(self)@, result: result_view(r) }) == started(
                old(self)@,
                name@,
                handle,
                follow@,
            ),
    {
        self.sessions.insert(name, handle);
        self.follow(name, follow)
    }

    /// The session under `name` is over: it leaves the table, if it is still
    /// there.
    pub fn session_exited(&mut self, name: &str) -> (was: Option<H>)
        ensures
            final(self)@ == exited(old(self)@, name@),
            match was {
                Some(h) => old(self)@.sessions.contains_key(name@) && h == old(self)@.sessions[name@],
                None => !old(self)@.sessions.contains_key(name@),
            },
    {
        self.sessions.remove(name)
    }

    /// The handle of the live session under `name`.
    pub fn session(&self, name: &str) -> (r: Option<&H>)
        ensures
            match r {
                Some(h) => self@.sessions.contains_key(name@) && *h == self@.sessions[name@],
                None => !self@.sessions.contains_key(name@),
            },
    {
        self.sessions.get(name)
    }

    /// The shell that is registered under `name`.
    pub fn get_shell_spec(&self, name: &str) -> (r: Option<ShellSpec>)
        ensures
            match r {
                Some(spec) => self@.registry.contains_key(name@) && self@.registry[name@]
                    == EntryView::Shell(spec@),
                None => !self@.registry.contains_key(name@) || self@.registry[name@] is Builtin,
            },
    {
        self.registry.get_shell_spec(name)
    }

    /// The entry that is registered under `name`.
    pub fn get_entry(&self, name: &str) -> (r: Option<Entry>)
        ensures
            match r {
                Some(e) => self@.registry.contains_key(name@) && e@ == self@.registry[name@],
                None => !self@.registry.contains_key(name@),
            },
    {
        self.registry.get_entry(name)
    }

    /// The entries in order, each with whether a session runs under its name.
    pub fn list_entries_with_status(&self) -> (list: Vec<(String, Entry, bool)>)
        ensures
            is_ordering(self@.registry.dom(), status_names(status_view(list@))),
            ordering(self@.registry.dom()) == status_names(status_view(list@)),
            status_view(list@) == status_listing(self@),
    {
        let entries = self.registry.list_entries();
        let mut list: Vec<(String, Entry, bool)> = Vec::new();
        let mut i: usize = 0;
        while i < entries.len()
            invariant
                i <= entries.len(),
                list@.len() == i,
                forall|k: int|
                    0 <= k < i ==> (#[trigger] list@[k]).0@ == entries@[k].0@ && list@[k].1@
                        == entries@[k].1@ && list@[k].2 == self@.sessions.contains_key(
                        entries@[k].0@,
                    ),
            decreases entries.len() - i,
        {
            let running = self.sessions.contains(entries[i].0.as_str());
            list.push((entries[i].0.clone(), entries[i].1.clone(), running));
            i += 1;
        }
        proof {
            let names = Seq::new(entries@.len(), |k: int| entries@[k].0@);
            let dom = self@.registry.dom();
            assert forall|i: int, j: int| 0 <= i < j < names.len() implies text_lt(
                #[trigger] names[i],
                #[trigger] names[j],
            ) by {
                assert(text_lt(entries@[i].0@, entries@[j].0@));
            }
            assert forall|k: int| 0 <= k < names.len() implies dom.contains(#[trigger] names[k]) by {
                assert(self@.registry.contains_key(entries@[k].0@));
            }
            assert forall|k: Seq<char>| #[trigger] dom.contains(k) implies exists|i: int|
                0 <= i < names.len() && #[trigger] names[i] == k by {
                assert(self@.registry.contains_key(k));
                let i = choose|i: int| 0 <= i < entries@.len() && #[trigger] entries@[i].0@ == k;
                assert(names[i] == k);
            }
            lemma_ordering_is(dom, names);
            let want = status_listing(self@);
            let got = status_view(list@);
            assert(status_names(got) =~= names) by {
                assert forall|k: int| 0 <= k < names.len() implies status_names(got)[k]
                    == names[k] by {
                    assert(list@[k].0@ == entries@[k].0@);
                }
            }
            assert(got.len() == want.len());
            assert forall|k: int| 0 <= k < got.len() implies got[k] == want[k] by {
                assert(list@[k].0@ == entries@[k].0@);
                assert(names[k] == entries@[k].0@);
                assert(self@.registry.contains_key(entries@[k].0@));
            }
            assert(got =~= want);
        }
        list
    }

    /// The names of the live sessions: each name of the table once, in order.
    pub fn list_running_entries(&self) -> (names: Vec<String>)
        ensures
            is_ordering(self@.sessions.dom(), names.deep_view()),
            names.deep_view() == ordering(self@.sessions.dom()),
    {
        self.sessions.names()
    }

    /// The entries of the registry, in order.
    pub fn list_entries(&self) -> (list: Vec<(String, Entry)>)
        ensures
            is_listing(self@.registry, list@),
    {
        self.registry.list_entries()
    }

    /// Puts `entry` under `name` in the registry. No session is touched.
    pub fn register_entry(&mut self, name: String, entry: Entry)
        ensures
            final(self)@ == (RouterView {
                registry: old(self)@.registry.insert(name@, entry@),
                ..old(self)@
            }),
    {
        self.registry.register_entry(name.as_str(), entry);
    }

    /// Takes `name` out of the registry. A session that runs under it goes
    /// on.
    pub fn unregister_entry(&mut self, name: &str)
        ensures
            final(self)@ == (RouterView {
                registry: old(self)@.registry.remove(name@),
                ..old(self)@
            }),
    {
        self.registry.unregister_entry(name);
    }

    fn shell_listing(&self, remote: bool) -> (lines: Vec<String>)
        ensures
            lines.deep_view() == listing_lines(status_listing(self@), remote),
    {
        let list = self.list_entries_with_status();
        let ghost all = status_view(list@);
        let mut body: Vec<String> = Vec::new();
        body.push(
            String::from_str(
                if remote {
                    "Remote shell list:"
                } else {
                    "Local shell list:"
                },
            ),
        );
        let ghost heading = body.deep_view();
        let mut i: usize = 0;
        assert(all.take(0) =~= Seq::empty());
        assert(body.deep_view() =~= heading + shell_lines(all.take(0), remote));
        while i < list.len()
            invariant
                i <= list.len(),
                all == status_view(list@),
                heading.len() == 1,
                body.deep_view() == heading + shell_lines(all.take(i as int), remote),
            decreases list.len() - i,
        {
            let ghost before = body.deep_view();
            proof {
                assert(all.take(i + 1).drop_last() =~= all.take(i as int));
                assert(all.take(i + 1).last() == all[i as int]);
                assert(all[i as int] == (list@[i as int].0@, list@[i as int].1@, list@[i as int].2));
            }
            let item = &list[i];
            match &item.1 {
                Entry::Shell(spec) => {
                    let is_remote = match spec {
                        ShellSpec::Remote { .. } => true,
                        ShellSpec::Local { .. } => false,
                    };
                    if is_remote == remote {
                        let line = format_shell_line(item.0.as_str(), spec, item.2);
                        body.push(line);
                        assert(body.deep_view() =~= before.push(line@));
                    }
                },
                Entry::Builtin => {},
            }
            i += 1;
        }
        assert(all.take(list.len() as int) =~= all);
        if body.len() == 1 {
            let mut none: Vec<String> = Vec::new();
            none.push(
                String::from_str(
                    if remote {
                        "No remote shells registered"
                    } else {
                        "No local shells registered"
                    },
                ),
            );
            assert(shell_lines(all, remote).len() == 0);
            assert(none.deep_view() =~= listing_lines(all, remote));
            none
        } else {
            assert(shell_lines(all, remote).len() > 0);
            body
        }
    }

    fn session_listing(&self) -> (lines: Vec<String>)
        ensures
            lines.deep_view() == session_lines(ordering(self@.sessions.dom())),
    {
        let names = self.list_running_entries();
        let mut lines: Vec<String> = Vec::new();
        lines.push(String::from_str("Running sessions list:"));
        if names.len() == 0 {
            lines.push(String::from_str("no running sessions"));
            assert(lines.deep_view() =~= session_lines(names.deep_view()));
        } else {
            let mut i: usize = 0;
            while i < names.len()
                invariant
                    i <= names.len(),
                    lines@.len() == i + 1,
                    lines@[0]@ == "Running sessions list:"@,
                    forall|k: int| 0 <= k < i ==> (#[trigger] lines@[k + 1])@ == "  "@ + names@[k]@,
                decreases names.len() - i,
            {
                lines.push(join("  ", names[i].as_str()));
                i += 1;
            }
            assert(lines.deep_view() =~= session_lines(names.deep_view())) by {
                let want = session_lines(names.deep_view());
                assert(want.len() == lines@.len());
                assert forall|k: int| 0 <= k < want.len() implies lines.deep_view()[k]
                    == want[k] by {
                    if k > 0 {
                        assert(lines@[(k - 1) + 1]@ == "  "@ + names@[k - 1]@);
                    }
                }
            }
        }
        lines
    }

    /// Carries out a builtin command.
    pub fn apply(&mut self, cmd: Command) -> (r: Result<Plan<H>, PshError>)
        ensures
            (StepView { state: final(self)@, result: result_view(r) }) == apply_spec(
                old(self)@,
                cmd@,
            ),
    {
        match cmd {
            Command::ListLocal => Ok(Plan::Print { lines: self.shell_listing(false) }),
            Command::ListRemote => Ok(Plan::Print { lines: self.shell_listing(true) }),
            Command::Add { name, spec } => self.add_and_start_shell(name.as_str(), spec),
            Command::Remove { name } => {
                let was = self.sessions.remove(name.as_str());
                self.registry.unregister_entry(name.as_str());
                match was {
                    Some(handle) => Ok(Plan::Shutdown { handle }),
                    None => Ok(Plan::Idle),
                }
            },
            Command::Start { name } => match self.registry.get_shell_spec(name.as_str()) {
                Some(spec) => self.plan(name.as_str(), &spec, Follow::Nothing),
                None => Err(PshError::from(ReplRouterError::UnknownShell { name })),
            },
            Command::Stop { name } => self.stop_shell_session(name.as_str()),
            Command::Sessions => Ok(Plan::Print { lines: self.session_listing() }),
            Command::DefaultSet { name } => {
                self.set_default_mode(name.as_str());
                Ok(Plan::Idle)
            },
            Command::DefaultGet => Ok(Plan::Idle),
        }
    }
}

/// What a watcher received from the session it watches.
#[derive(Debug, PartialEq, Eq)]
pub enum Received {
    Event(ShellEvent),
    /// The stream of events is closed or was lost.
    Closed,
}

/// What a watcher does next.
#[derive(Debug, Clone, Copy, PartialEq, Eq, Structural)]
pub enum WatchStep {
    /// Report the session as over with [`Router::session_exited`], and stop
    /// watching.
    Release,
    /// Wait for the next event.
    Wait,
    /// Stop watching.
    Quit,
}

/// A watcher releases the session's place in the table on the first `Exited`
/// event, passes over output, and gives up when the stream ends.
pub open spec fn watch_spec(received: Option<ShellEventView>) -> WatchStep {
    match received {
        Some(ShellEventView::Exited(_)) => WatchStep::Release,
        Some(ShellEventView::Output(_)) => WatchStep::Wait,
        None => WatchStep::Quit,
    }
}

/// What a watcher received, as contracts see it.
pub open spec fn received_view(received: Received) -> Option<ShellEventView> {
    match received {
        Received::Event(e) => Some(e@),
        Received::Closed => None,
    }
}

/// What the watcher of a session does on what it received.
pub fn watch(received: &Received) -> (step: WatchStep)
    ensures
        step == watch_spec(received_view(*received)),
{
    match received {
        Received::Event(ShellEvent::Exited(_)) => WatchStep::Release,
        Received::Event(ShellEvent::Output(_)) => WatchStep::Wait,
        Received::Closed => WatchStep::Quit,
    }
}

} // verus!
