//! Which color a name is shown in.

use crate::registry::{Entry, EntryView, Registry};
use crate::runtime::config::ReplSettings;
use crate::shell::spec::ShellSpec;
use nu_ansi_term::Color;
use vstd::prelude::*;

verus! {

/// The color of an entry's name: that of builtins, of local shells or of
/// remote shells.
pub open spec fn entry_color_spec(settings: ReplSettings, entry: EntryView) -> Color {
    match entry {
        EntryView::Builtin => settings.color_builtin,
        EntryView::Shell(spec) => if spec is Remote {
            settings.color_remote
        } else {
            settings.color_local
        },
    }
}

/// The color of an entry's name.
pub fn color_for_entry(entry: &Entry, settings: &ReplSettings) -> (color: Color)
    ensures
        color == entry_color_spec(*settings, entry@),
{
    match entry {
        Entry::Builtin => settings.color_builtin,
        Entry::Shell(ShellSpec::Local { .. }) => settings.color_local,
        Entry::Shell(ShellSpec::Remote { .. }) => settings.color_remote,
    }
}

/// The color of the name `name`: that of its entry, or that of unknown names
/// where nothing is registered under it or no registry is at hand.
pub open spec fn name_color_spec(
    settings: ReplSettings,
    catalog: Option<Map<Seq<char>, EntryView>>,
    name: Seq<char>,
) -> Color {
    match catalog {
        Some(entries) => if entries.contains_key(name) {
            entry_color_spec(settings, entries[name])
        } else {
            settings.color_unknown
        },
        None => settings.color_unknown,
    }
}

/// The catalog of an optional registry.
pub open spec fn catalog_of(registry: Option<Registry>) -> Option<Map<Seq<char>, EntryView>> {
    match registry {
        Some(r) => Some(r@),
        None => None,
    }
}

/// The color of the name `name`.
pub fn color_for_name(registry: &Option<Registry>, settings: &ReplSettings, name: &str) -> (color:
    Color)
    ensures
        color == name_color_spec(*settings, catalog_of(*registry), name@),
{
    match registry {
        Some(reg) => match reg.get_entry(name) {
            Some(entry) => color_for_entry(&entry, settings),
            None => settings.color_unknown,
        },
        None => settings.color_unknown,
    }
}

} // verus!
