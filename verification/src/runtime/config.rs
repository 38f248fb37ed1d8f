//! The configuration: the sections as they were read, and the settings of
//! the line editor that follow from them.

use crate::runtime::keys::{
    menu_key_spec, no_modifiers, parse_menu_key, KeyCode, KeyModifiers, Modifier,
};
use crate::shell::spec::ShellSpec;
use crate::text::case::{lower, lower_is};
use crate::text::list::option_text;
use nu_ansi_term::Color;
use vstd::prelude::*;

verus! {

/// The whole configuration. Every section may be missing.
#[derive(Debug, Default, Clone)]
pub struct PshConfig {
    pub logging: Option<LoggingSection>,
    pub shells: Option<ShellsSection>,
    pub repl: Option<ReplSection>,
}

/// Where and how much to log.
#[derive(Debug, Default, Clone)]
pub struct LoggingSection {
    pub file: Option<String>,
    pub level: Option<String>,
}

/// The shells to register at startup, and the name of the default one.
#[derive(Debug, Default, Clone)]
pub struct ShellsSection {
    pub default_shell: Option<String>,
    pub catalog: Option<Vec<(String, ShellSpec)>>,
}

/// The line editor's key for the prefix menu and its colors, as written.
#[derive(Debug, Default, Clone)]
pub struct ReplSection {
    pub menu_key: Option<String>,
    pub colors: Option<ReplColors>,
}

/// The names of the colors, as written.
#[derive(Debug, Default, Clone)]
pub struct ReplColors {
    pub prompt: Option<String>,
    pub builtin: Option<String>,
    pub local: Option<String>,
    pub remote: Option<String>,
    pub unknown: Option<String>,
}

/// The settings of the line editor.
#[derive(Debug, Clone, Copy, PartialEq, Eq)]
pub struct ReplSettings {
    pub menu_key: (KeyCode, KeyModifiers),
    pub color_prompt: Color,
    pub color_builtin: Color,
    pub color_local: Color,
    pub color_remote: Color,
    pub color_unknown: Color,
}

/// The color that the word `t` names, in lower case.
pub open spec fn color_spec(t: Seq<char>) -> Option<Color> {
    if t == "black"@ {
        Some(Color::Black)
    } else if t == "lightgrey"@ || t == "lightgray"@ {
        Some(Color::LightGray)
    } else if t == "darkgrey"@ || t == "darkgray"@ {
        Some(Color::DarkGray)
    } else if t == "lightred"@ {
        Some(Color::LightRed)
    } else if t == "red"@ {
        Some(Color::Red)
    } else if t == "lightgreen"@ {
        Some(Color::LightGreen)
    } else if t == "green"@ {
        Some(Color::Green)
    } else if t == "lightyellow"@ {
        Some(Color::LightYellow)
    } else if t == "yellow"@ {
        Some(Color::Yellow)
    } else if t == "lightblue"@ {
        Some(Color::LightBlue)
    } else if t == "blue"@ {
        Some(Color::Blue)
    } else if t == "lightmagenta"@ {
        Some(Color::LightMagenta)
    } else if t == "magenta"@ {
        Some(Color::Magenta)
    } else if t == "lightcyan"@ {
        Some(Color::LightCyan)
    } else if t == "cyan"@ {
        Some(Color::Cyan)
    } else if t == "white"@ {
        Some(Color::White)
    } else {
        None
    }
}

/// The color that `name` names, whatever the case of its letters.
pub fn parse_color(name: &str) -> (r: Option<Color>)
    ensures
        r == color_spec(lower(name@)),
{
    if lower_is(name, "black") {
        Some(Color::Black)
    } else if lower_is(name, "lightgrey") || lower_is(name, "lightgray") {
        Some(Color::LightGray)
    } else if lower_is(name, "darkgrey") || lower_is(name, "darkgray") {
        Some(Color::DarkGray)
    } else if lower_is(name, "lightred") {
        Some(Color::LightRed)
    } else if lower_is(name, "red") {
        Some(Color::Red)
    } else if lower_is(name, "lightgreen") {
        Some(Color::LightGreen)
    } else if lower_is(name, "green") {
        Some(Color::Green)
    } else if lower_is(name, "lightyellow") {
        Some(Color::LightYellow)
    } else if lower_is(name, "yellow") {
        Some(Color::Yellow)
    } else if lower_is(name, "lightblue") {
        Some(Color::LightBlue)
    } else if lower_is(name, "blue") {
        Some(Color::Blue)
    } else if lower_is(name, "lightmagenta") {
        Some(Color::LightMagenta)
    } else if lower_is(name, "magenta") {
        Some(Color::Magenta)
    } else if lower_is(name, "lightcyan") {
        Some(Color::LightCyan)
    } else if lower_is(name, "cyan") {
        Some(Color::Cyan)
    } else if lower_is(name, "white") {
        Some(Color::White)
    } else {
        None
    }
}

/// The key of the prefix menu where the configuration names none: Ctrl-G.
pub open spec fn default_menu_key() -> (KeyCode, KeyModifiers) {
    (KeyCode::Char('g'), KeyModifiers { control: true, ..no_modifiers() })
}

/// The color that is written as `name`, or `fallback` where nothing is
/// written or what is written names no color.
pub open spec fn color_or(name: Option<Seq<char>>, fallback: Color) -> Color {
    match name {
        Some(n) => match color_spec(lower(n)) {
            Some(c) => c,
            None => fallback,
        },
        None => fallback,
    }
}

/// The colors of a configuration, as written; all missing where the section
/// is.
pub open spec fn colors_of(cfg: PshConfig) -> ReplColors {
    match cfg.repl {
        Some(repl) => match repl.colors {
            Some(colors) => colors,
            None => ReplColors { prompt: None, builtin: None, local: None, remote: None, unknown: None },
        },
        None => ReplColors { prompt: None, builtin: None, local: None, remote: None, unknown: None },
    }
}

/// The key of the prefix menu that a configuration names.
pub open spec fn menu_key_of(cfg: PshConfig) -> (KeyCode, KeyModifiers) {
    match cfg.repl {
        Some(repl) => match repl.menu_key {
            Some(key) => match menu_key_spec(key@) {
                Some(k) => k,
                None => default_menu_key(),
            },
            None => default_menu_key(),
        },
        None => default_menu_key(),
    }
}

/// The settings that follow from a configuration. What is missing or cannot
/// be read falls back: the menu key to Ctrl-G, the prompt to white, builtins
/// to yellow, local shells to green, remote shells to blue, unknown names to
/// red.
pub open spec fn settings_spec(cfg: PshConfig) -> ReplSettings {
    ReplSettings {
        menu_key: menu_key_of(cfg),
        color_prompt: color_or(option_text(colors_of(cfg).prompt), Color::White),
        color_builtin: color_or(option_text(colors_of(cfg).builtin), Color::Yellow),
        color_local: color_or(option_text(colors_of(cfg).local), Color::Green),
        color_remote: color_or(option_text(colors_of(cfg).remote), Color::Blue),
        color_unknown: color_or(option_text(colors_of(cfg).unknown), Color::Red),
    }
}

fn pick_color(name: &Option<String>, fallback: Color) -> (c: Color)
    ensures
        c == color_or(option_text(*name), fallback),
{
    match name {
        Some(n) => match parse_color(n.as_str()) {
            Some(c) => c,
            None => fallback,
        },
        None => fallback,
    }
}

/// The settings of the line editor that follow from `cfg`.
pub fn repl_settings_from_config(cfg: &PshConfig) -> (settings: ReplSettings)
    ensures
        settings == settings_spec(*cfg),
{
    let fallback_key = (KeyCode::Char('g'), KeyModifiers::empty().with(Modifier::Control));
    let mut menu_key = fallback_key;
    let mut settings = ReplSettings {
        menu_key: fallback_key,
        color_prompt: Color::White,
        color_builtin: Color::Yellow,
        color_local: Color::Green,
        color_remote: Color::Blue,
        color_unknown: Color::Red,
    };
    if let Some(repl) = &cfg.repl {
        if let Some(key) = &repl.menu_key {
            if let Some(k) = parse_menu_key(key.as_str()) {
                menu_key = k;
            }
        }
        if let Some(colors) = &repl.colors {
            settings = ReplSettings {
                menu_key: fallback_key,
                color_prompt: pick_color(&colors.prompt, Color::White),
                color_builtin: pick_color(&colors.builtin, Color::Yellow),
                color_local: pick_color(&colors.local, Color::Green),
                color_remote: pick_color(&colors.remote, Color::Blue),
                color_unknown: pick_color(&colors.unknown, Color::Red),
            };
        }
    }
    ReplSettings { menu_key, ..settings }
}

} // verus!
