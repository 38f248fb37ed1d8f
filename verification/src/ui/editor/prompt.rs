//! The prompt: the program's mark, and the current mode if one is set.

use crate::registry::{EntryView, Registry};
use crate::repl::mode::{ModeState, ModeView};
use crate::runtime::config::ReplSettings;
use crate::text::list::join;
use crate::ui::paint::{paint, painted, reset};
use crate::ui::palette::{catalog_of, color_for_name, name_color_spec};
use nu_ansi_term::Color;
use vstd::prelude::*;

verus! {

/// The sequence that resets the terminal before the prompt.
pub const ANSI_RESET: &'static str = "\x1b[0m";

/// The prompt of the line editor. It shows the modes and the registry that
/// it was last given.
#[derive(Debug)]
pub struct PshPrompt {
    mode: Option<ModeState>,
    registry: Option<Registry>,
    settings: ReplSettings,
}

/// A [`PshPrompt`] as contracts see it.
pub struct PromptView {
    pub mode: Option<ModeView>,
    pub registry: Option<Map<Seq<char>, EntryView>>,
    pub settings: ReplSettings,
}

impl View for PshPrompt {
    type V = PromptView;

    closed spec fn view(&self) -> PromptView {
        PromptView {
            mode: match self.mode {
                Some(m) => Some(m@),
                None => None,
            },
            registry: catalog_of(self.registry),
            settings: self.settings,
        }
    }
}

/// The current mode that a prompt knows of.
pub open spec fn current_of(p: PromptView) -> Option<Seq<char>> {
    match p.mode {
        Some(m) => m.current,
        None => None,
    }
}

/// What follows the program's mark: the current mode and `: `, in the color
/// of its name; nothing without a current mode.
pub open spec fn suffix_spec(p: PromptView) -> Seq<char> {
    match current_of(p) {
        Some(name) => painted(name_color_spec(p.settings, p.registry, name), name + ": "@),
        None => Seq::empty(),
    }
}

/// The prompt on the left: a reset, `psh> ` in the prompt's color, and the
/// current mode.
pub open spec fn prompt_spec(p: PromptView) -> Seq<char> {
    reset() + painted(p.settings.color_prompt, "psh> "@) + suffix_spec(p)
}

/// The prompt on the left, put together from its painted parts.
pub fn assemble(prefix: &str, suffix: &str) -> (out: String)
    ensures
        out@ == reset() + prefix@ + suffix@,
{
    let mut out = String::from_str(ANSI_RESET);
    out.append(prefix);
    out.append(suffix);
    out
}

impl PshPrompt {
    /// A prompt with the colors of `settings`, which knows neither modes nor
    /// registry yet.
    pub fn new(settings: &ReplSettings) -> (p: Self)
        ensures
            p@ == (PromptView { mode: None, registry: None, settings: *settings }),
    {
        PshPrompt { mode: None, registry: None, settings: *settings }
    }

    /// Gives the prompt the modes to show.
    pub fn set_mode_state(&mut self, mode: ModeState)
        ensures
            final(self)@ == (PromptView { mode: Some(mode@), ..old(self)@ }),
    {
        self.mode = Some(mode);
    }

    /// Gives the prompt the registry to look names up in.
    pub fn set_registry(&mut self, reg: Registry)
        ensures
            final(self)@ == (PromptView { registry: Some(reg@), ..old(self)@ }),
    {
        self.registry = Some(reg);
    }

    /// The color that the mode `name` is shown in.
    pub fn color_for_mode(&self, name: &str) -> (color: Color)
        ensures
            color == name_color_spec(self@.settings, self@.registry, name@),
    {
        color_for_name(&self.registry, &self.settings, name)
    }

    /// The prompt on the left.
    pub fn render_prompt_left(&self) -> (out: String)
        ensures
            out@ == prompt_spec(self@),
    {
        let prefix = paint(self.settings.color_prompt, "psh> ");
        let current = match &self.mode {
            Some(m) => m.get_current(),
            None => None,
        };
        let suffix = match current {
            Some(name) => {
                let color = self.color_for_mode(name.as_str());
                paint(color, join(name.as_str(), ": ").as_str())
            },
            None => String::new(),
        };
        let out = assemble(prefix.as_str(), suffix.as_str());
        assert(out@ =~= prompt_spec(self@));
        out
    }

    /// The prompt on the right: none.
    pub fn render_prompt_right(&self) -> (t: &'static str)
        ensures
            t@ == ""@,
    {
        ""
    }

    /// The mark of the editing mode: none.
    pub fn render_prompt_indicator(&self) -> (t: &'static str)
        ensures
            t@ == ""@,
    {
        ""
    }

    /// The prompt of a line that continues the one before.
    pub fn render_prompt_multiline_indicator(&self) -> (t: &'static str)
        ensures
            t@ == "... "@,
    {
        "... "
    }

    /// The prompt while the history is searched.
    pub fn render_prompt_history_search_indicator(&self) -> (t: &'static str)
        ensures
            t@ == "(search) "@,
    {
        "(search) "
    }
}

impl Clone for PshPrompt {
    fn clone(&self) -> (p: Self)
        ensures
            p@ == self@,
    {
        PshPrompt {
            mode: match &self.mode {
                Some(m) => Some(m.clone()),
                None => None,
            },
            registry: match &self.registry {
                Some(r) => Some(r.clone()),
                None => None,
            },
            settings: self.settings,
        }
    }
}

} // verus!
