//! From a configuration to a router that is ready for input.

use crate::registry::{builtin_catalog, Entry, EntryView, Registry};
use crate::repl::mode::ModeView;
use crate::repl::router::{status_listing, status_view, with_default, Router, RouterView};
use crate::runtime::config::PshConfig;
use crate::shell::spec::{ShellSpec, ShellSpecView};
use crate::text::list::option_text;
use crate::text::order::{is_ordering, ordering};
use vstd::prelude::*;

verus! {

/// The name of the shell that is always there.
pub open spec fn fallback_name() -> Seq<char> {
    "bash"@
}

/// The shell that is registered under that name where the configuration
/// brings none.
pub open spec fn fallback_shell() -> ShellSpecView {
    ShellSpecView::Local { program: "/usr/bin/bash"@ }
}

/// The registry that startup begins with: the builtins.
pub fn build_base_registry() -> (r: Registry)
    ensures
        r@ == builtin_catalog(),
{
    Registry::with_builtins()
}

/// The shells that a configuration names, in the order in which it was read.
pub open spec fn catalog_of(cfg: PshConfig) -> Seq<(String, ShellSpec)> {
    match cfg.shells {
        Some(section) => match section.catalog {
            Some(catalog) => catalog@,
            None => Seq::empty(),
        },
        None => Seq::empty(),
    }
}

/// `registry` with each shell of `catalog` registered, a later one of the same
/// name in place of an earlier one.
pub open spec fn with_shells(registry: Map<Seq<char>, EntryView>, catalog: Seq<(String, ShellSpec)>) -> Map<
    Seq<char>,
    EntryView,
>
    decreases catalog.len(),
{
    if catalog.len() == 0 {
        registry
    } else {
        with_shells(registry, catalog.drop_last()).insert(
            catalog.last().0@,
            EntryView::Shell(catalog.last().1@),
        )
    }
}

/// Registers the shells that `cfg` names.
pub fn apply_shells_from_config<H>(cfg: &PshConfig, router: &mut Router<H>)
    ensures
        final(router)@ == (RouterView {
            registry: with_shells(old(router)@.registry, catalog_of(*cfg)),
            ..old(router)@
        }),
{
    if let Some(section) = &cfg.shells {
        if let Some(catalog) = &section.catalog {
            let mut i: usize = 0;
            assert(catalog@.take(0) =~= Seq::empty());
            while i < catalog.len()
                invariant
                    i <= catalog.len(),
                    router@ == (RouterView {
                        registry: with_shells(old(router)@.registry, catalog@.take(i as int)),
                        ..old(router)@
                    }),
                decreases catalog.len() - i,
            {
                proof {
                    assert(catalog@.take(i + 1).drop_last() =~= catalog@.take(i as int));
                    assert(catalog@.take(i + 1).last() == catalog@[i as int]);
                }
                router.register_entry(catalog[i].0.clone(), Entry::Shell(catalog[i].1.clone()));
                i += 1;
            }
            assert(catalog@.take(catalog.len() as int) =~= catalog@);
        }
    }
}

/// The names of the shells of a listing, in its order.
pub open spec fn shell_names(listing: Seq<(Seq<char>, EntryView, bool)>) -> Seq<Seq<char>>
    decreases listing.len(),
{
    if listing.len() == 0 {
        Seq::empty()
    } else if listing.last().1 is Shell {
        shell_names(listing.drop_last()).push(listing.last().0)
    } else {
        shell_names(listing.drop_last())
    }
}

/// The names of the registered shells, in order: the sessions to start
/// before the first line is read.
pub fn eager_start_registered_shells<H>(router: &Router<H>) -> (names: Vec<String>)
    ensures
        is_ordering(router@.registry.dom(), ordering(router@.registry.dom())),
        names.deep_view() == shell_names(status_listing(router@)),
{
    let list = router.list_entries_with_status();
    let ghost all = status_view(list@);
    let mut names: Vec<String> = Vec::new();
    let mut i: usize = 0;
    assert(all.take(0) =~= Seq::empty());
    assert(names.deep_view() =~= shell_names(all.take(0)));
    while i < list.len()
        invariant
            i <= list.len(),
            all == status_view(list@),
            names.deep_view() == shell_names(all.take(i as int)),
        decreases list.len() - i,
    {
        let ghost before = names.deep_view();
        proof {
            assert(all.take(i + 1).drop_last() =~= all.take(i as int));
            assert(all.take(i + 1).last() == all[i as int]);
            assert(all[i as int].1 == list@[i as int].1@);
            assert(all[i as int].0 == list@[i as int].0@);
        }
        match &list[i].1 {
            Entry::Shell(_) => {
                names.push(list[i].0.clone());
                assert(names.deep_view() =~= before.push(list@[i as int].0@));
            },
            Entry::Builtin => {},
        }
        i += 1;
    }
    assert(all.take(list.len() as int) =~= all);
    names
}

/// Whether a local shell stands under the fallback name.
pub open spec fn has_fallback(registry: Map<Seq<char>, EntryView>) -> bool {
    registry.contains_key(fallback_name()) && registry[fallback_name()] matches EntryView::Shell(
        ShellSpecView::Local { .. },
    )
}

/// The registry with the fallback shell put under its name, unless a local
/// shell stands there.
pub open spec fn with_fallback(registry: Map<Seq<char>, EntryView>) -> Map<Seq<char>, EntryView> {
    if has_fallback(registry) {
        registry
    } else {
        registry.insert(fallback_name(), EntryView::Shell(fallback_shell()))
    }
}

/// Makes sure that a local shell is registered under `bash`.
pub fn ensure_fallback_bash<H>(router: &mut Router<H>)
    ensures
        final(router)@ == (RouterView {
            registry: with_fallback(old(router)@.registry),
            ..old(router)@
        }),
{
    let present = match router.get_shell_spec("bash") {
        Some(ShellSpec::Local { .. }) => true,
        _ => false,
    };
    if !present {
        router.register_entry(
            String::from_str("bash"),
            Entry::Shell(ShellSpec::Local { program: String::from_str("/usr/bin/bash") }),
        );
    }
}

/// The name that becomes the default mode: the configured one if it is
/// registered, else the login shell's if that is registered, else the
/// fallback name.
pub open spec fn default_name(
    registry: Map<Seq<char>, EntryView>,
    configured: Option<Seq<char>>,
    login: Option<Seq<char>>,
) -> Seq<char> {
    if configured is Some && registry.contains_key(configured->0) {
        configured->0
    } else if login is Some && registry.contains_key(login->0) {
        login->0
    } else {
        fallback_name()
    }
}

/// The text of an optional string slice.
pub open spec fn option_str(o: Option<&str>) -> Option<Seq<char>> {
    match o {
        Some(s) => Some(s@),
        None => None,
    }
}

/// Sets the default mode and hands back its name. Where not even the
/// fallback name is registered the default mode stays as it was, and the
/// fallback name is handed back all the same.
pub fn choose_default_shell<H>(
    router: &mut Router<H>,
    configured: Option<&str>,
    login: Option<&str>,
) -> (name: String)
    ensures
        name@ == default_name(old(router)@.registry, option_str(configured), option_str(login)),
        final(router)@ == with_default(old(router)@, name@),
{
    if let Some(n) = configured {
        if router.set_default_mode(n) {
            return String::from_str(n);
        }
    }
    if let Some(n) = login {
        if router.set_default_mode(n) {
            return String::from_str(n);
        }
    }
    router.set_default_mode("bash");
    String::from_str("bash")
}

/// What startup hands to the input loop.
#[derive(Debug)]
pub struct AppParts<H> {
    /// The router, with the registry filled and the default mode set.
    pub router: Router<H>,
    /// The name that was chosen for the default mode.
    pub default_shell: String,
    /// The names of the sessions to start before the first line is read, in
    /// the order in which to start them.
    pub start_order: Vec<String>,
}

/// The registry that startup leaves: the builtins, the configured shells,
/// and the fallback shell.
pub open spec fn startup_registry(cfg: PshConfig) -> Map<Seq<char>, EntryView> {
    with_fallback(with_shells(builtin_catalog(), catalog_of(cfg)))
}

/// The configured name of the default shell.
pub open spec fn configured_default(cfg: PshConfig) -> Option<Seq<char>> {
    match cfg.shells {
        Some(section) => option_text(section.default_shell),
        None => None,
    }
}

/// The router before the fallback shell is registered.
pub open spec fn configured_router<H>(cfg: PshConfig, cols: u16, rows: u16) -> RouterView<H> {
    RouterView {
        registry: with_shells(builtin_catalog(), catalog_of(cfg)),
        mode: ModeView { current: None, default: None },
        sessions: Map::empty(),
        cols,
        rows,
    }
}

/// Sets the program up from its configuration: registers the builtins, the
/// configured shells and the fallback shell, and chooses the default mode.
/// The sessions to start are named in `start_order`: every shell that the
/// configuration registered, then the fallback name.
pub fn bootstrap<H>(cfg: &PshConfig, login: Option<&str>, cols: u16, rows: u16) -> (parts: AppParts<H>)
    ensures
        parts.router@.registry == startup_registry(*cfg),
        parts.router@.sessions == Map::<Seq<char>, H>::empty(),
        parts.router@.cols == cols,
        parts.router@.rows == rows,
        parts.default_shell@ == default_name(
            startup_registry(*cfg),
            configured_default(*cfg),
            option_str(login),
        ),
        parts.router@ == with_default(
            RouterView { registry: startup_registry(*cfg), ..configured_router::<H>(*cfg, cols, rows) },
            parts.default_shell@,
        ),
        is_ordering(
            configured_router::<H>(*cfg, cols, rows).registry.dom(),
            ordering(configured_router::<H>(*cfg, cols, rows).registry.dom()),
        ),
        parts.start_order.deep_view() == shell_names(
            status_listing(configured_router::<H>(*cfg, cols, rows)),
        ).push(fallback_name()),
{
    let mut router: Router<H> = Router::new(build_base_registry(), cols, rows);
    apply_shells_from_config(cfg, &mut router);
    let mut start_order = eager_start_registered_shells(&router);
    let ghost eager = start_order.deep_view();
    ensure_fallback_bash(&mut router);
    start_order.push(String::from_str("bash"));
    assert(start_order.deep_view() =~= eager.push(fallback_name()));
    let configured: Option<&str> = match &cfg.shells {
        Some(section) => match &section.default_shell {
            Some(name) => Some(name.as_str()),
            None => None,
        },
        None => None,
    };
    let default_shell = choose_default_shell(&mut router, configured, login);
    AppParts { router, default_shell, start_order }
}

} // verus!
