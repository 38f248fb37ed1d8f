//! Text in color, as a terminal takes it.

use crate::text::number::decimal;
use nu_ansi_term::Style;
use vstd::prelude::*;

verus! {

/// The colors of `nu_ansi_term`, with their variants as that crate declares
/// them.
#[verifier::external_type_specification]
pub struct ExColor(nu_ansi_term::Color);

/// The code that selects `color` for the text that follows.
pub open spec fn foreground_code(color: nu_ansi_term::Color) -> Seq<char> {
    match color {
        nu_ansi_term::Color::Black => "30"@,
        nu_ansi_term::Color::Red => "31"@,
        nu_ansi_term::Color::Green => "32"@,
        nu_ansi_term::Color::Yellow => "33"@,
        nu_ansi_term::Color::Blue => "34"@,
        nu_ansi_term::Color::Purple => "35"@,
        nu_ansi_term::Color::Magenta => "35"@,
        nu_ansi_term::Color::Cyan => "36"@,
        nu_ansi_term::Color::White => "37"@,
        nu_ansi_term::Color::Fixed(n) => "38;5;"@ + decimal(n as nat),
        nu_ansi_term::Color::Rgb(r, g, b) => "38;2;"@ + decimal(r as nat) + ";"@ + decimal(
            g as nat,
        ) + ";"@ + decimal(b as nat),
        nu_ansi_term::Color::Default => "39"@,
        nu_ansi_term::Color::DarkGray => "90"@,
        nu_ansi_term::Color::LightRed => "91"@,
        nu_ansi_term::Color::LightGreen => "92"@,
        nu_ansi_term::Color::LightYellow => "93"@,
        nu_ansi_term::Color::LightBlue => "94"@,
        nu_ansi_term::Color::LightPurple => "95"@,
        nu_ansi_term::Color::LightMagenta => "95"@,
        nu_ansi_term::Color::LightCyan => "96"@,
        nu_ansi_term::Color::LightGray => "97"@,
    }
}

/// `text` in `color`: the escape sequence that selects the color, the text,
/// and the escape sequence that resets the terminal.
pub open spec fn painted(color: nu_ansi_term::Color, text: Seq<char>) -> Seq<char> {
    "\x1b["@ + foreground_code(color) + "m"@ + text + "\x1b[0m"@
}

/// `nu_ansi_term`'s `Style::paint`, for a style that sets the foreground
/// color and nothing else, written out as a string: the crate writes `ESC [`,
/// the color's foreground code and `m` before the text, and `ESC [ 0 m`
/// after it.
#[verifier::external_body]
pub(crate) fn paint(color: nu_ansi_term::Color, text: &str) -> (out: String)
    ensures
        out@ == painted(color, text@),
{
    Style::new().fg(color).paint(text).to_string()
}

/// The sequence that resets the terminal.
pub open spec fn reset() -> Seq<char> {
    "\x1b[0m"@
}

} // verus!
