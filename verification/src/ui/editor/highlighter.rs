//! The parts of a line and the color of each.

use crate::registry::{EntryView, Registry};
use crate::repl::parser::{
    addressed, first_colon, has_colon, is_first_colon, lemma_first_colon_unique, parse, Parsed,
};
use crate::runtime::config::ReplSettings;
use crate::ui::palette::{color_for_entry, entry_color_spec};
use nu_ansi_term::Color;
use vstd::prelude::*;

verus! {

/// Colors the prefix of a line by the kind of entry that it addresses.
#[derive(Debug)]
pub struct PshHighlighter {
    registry: Registry,
    settings: ReplSettings,
}

/// A [`PshHighlighter`] as contracts see it.
pub struct HighlighterView {
    pub registry: Map<Seq<char>, EntryView>,
    pub settings: ReplSettings,
}

impl View for PshHighlighter {
    type V = HighlighterView;

    closed spec fn view(&self) -> HighlighterView {
        HighlighterView { registry: self.registry@, settings: self.settings }
    }
}

/// The color of what stands before the first `:` of a line: that of the entry
/// which the line addresses, else that of an unknown name.
pub open spec fn prefix_color_spec(h: HighlighterView, line: Seq<char>) -> Color {
    match addressed(h.registry, line) {
        Some(name) => entry_color_spec(h.settings, h.registry[name]),
        None => h.settings.color_unknown,
    }
}

/// Colored pieces as contracts see them. A piece without a color is shown as
/// it is.
pub open spec fn pieces_view(pieces: Seq<(Option<Color>, String)>) -> Seq<(Option<Color>, Seq<char>)> {
    Seq::new(pieces.len(), |i: int| (pieces[i].0, pieces[i].1@))
}

/// The pieces of a line: without a `:` the line as it is; else what stands
/// before the first `:` in the color of its entry, the `:`, and the rest.
pub open spec fn highlight_spec(h: HighlighterView, line: Seq<char>) -> Seq<
    (Option<Color>, Seq<char>),
> {
    if has_colon(line) {
        seq![
            (Some(prefix_color_spec(h, line)), line.take(first_colon(line))),
            (None, ":"@),
            (None, line.skip(first_colon(line) + 1)),
        ]
    } else {
        seq![(None, line)]
    }
}

/// Where the first `:` of `line` stands.
pub fn find_colon(line: &str) -> (r: Option<usize>)
    ensures
        match r {
            Some(i) => is_first_colon(line@, i as int),
            None => !has_colon(line@),
        },
{
    let n = line.unicode_len();
    let mut i: usize = 0;
    while i < n
        invariant
            n == line@.len(),
            i <= n,
            forall|k: int| 0 <= k < i ==> line@[k] != ':',
        decreases n - i,
    {
        if line.get_char(i) == ':' {
            return Some(i);
        }
        i += 1;
    }
    assert(!has_colon(line@)) by {
        if has_colon(line@) {
            let c = first_colon(line@);
            assert(line@[c] == ':');
        }
    }
    None
}

impl PshHighlighter {
    /// A highlighter over `registry`, with the colors of `settings`.
    pub fn new(registry: Registry, settings: &ReplSettings) -> (h: Self)
        ensures
            h@ == (HighlighterView { registry: registry@, settings: *settings }),
    {
        PshHighlighter { registry, settings: *settings }
    }

    /// Takes `registry` in place of the one at hand.
    pub fn update_registry(&mut self, registry: Registry)
        ensures
            final(self)@ == (HighlighterView { registry: registry@, settings: old(self)@.settings }),
    {
        self.registry = registry;
    }

    /// The pieces of `line` with their colors.
    pub fn highlight(&self, line: &str) -> (pieces: Vec<(Option<Color>, String)>)
        ensures
            pieces_view(pieces@) == highlight_spec(self@, line@),
    {
        let mut pieces: Vec<(Option<Color>, String)> = Vec::new();
        match find_colon(line) {
            Some(i) => {
                proof {
                    lemma_first_colon_unique(line@, i as int, i as int);
                }
                let n = line.unicode_len();
                let prefix = line.substring_char(0, i);
                let rest = line.substring_char(i + 1, n);
                assert(prefix@ =~= line@.take(i as int));
                assert(rest@ =~= line@.skip(i + 1));
                let color = match parse(&self.registry, line) {
                    Parsed::Entry { entry, .. } => color_for_entry(&entry, &self.settings),
                    Parsed::Default { .. } => self.settings.color_unknown,
                };
                pieces.push((Some(color), String::from_str(prefix)));
                pieces.push((None, String::from_str(":")));
                pieces.push((None, String::from_str(rest)));
                assert(pieces_view(pieces@) =~= highlight_spec(self@, line@));
            },
            None => {
                pieces.push((None, String::from_str(line)));
                assert(pieces_view(pieces@) =~= highlight_spec(self@, line@));
            },
        }
        pieces
    }
}

impl Clone for PshHighlighter {
    fn clone(&self) -> (h: Self)
        ensures
            h@ == self@,
    {
        PshHighlighter { registry: self.registry.clone(), settings: self.settings }
    }
}

} // verus!
