//! Keys as a configuration writes them: `ctrl+g`, `alt-f4`, `Shift + Tab`.

use crate::text::case::{lower, lower_char, lower_is};
use crate::text::number::{numeral, parse_bounded};
use crate::text::space::{trim, trim_spec};
use vstd::prelude::*;

verus! {

/// The highest function key that a configuration can name.
pub const MAX_FUNCTION_KEY: u8 = 24;

/// A key without its modifiers.
#[derive(Debug, Clone, Copy, PartialEq, Eq, Structural)]
pub enum KeyCode {
    Char(char),
    Tab,
    Enter,
    Esc,
    Backspace,
    Delete,
    Insert,
    PageUp,
    PageDown,
    Home,
    End,
    Up,
    Down,
    Left,
    Right,
    F(u8),
}

/// The modifiers that are held with a key.
#[derive(Debug, Clone, Copy, PartialEq, Eq, Structural)]
pub struct KeyModifiers {
    pub shift: bool,
    pub control: bool,
    pub alt: bool,
    pub super_key: bool,
    pub meta: bool,
}

/// One modifier.
#[derive(Debug, Clone, Copy, PartialEq, Eq, Structural)]
pub enum Modifier {
    Shift,
    Control,
    Alt,
    Super,
    Meta,
}

/// No modifier.
pub open spec fn no_modifiers() -> KeyModifiers {
    KeyModifiers { shift: false, control: false, alt: false, super_key: false, meta: false }
}

/// `mods` with `m` held too.
pub open spec fn with_modifier(mods: KeyModifiers, m: Modifier) -> KeyModifiers {
    match m {
        Modifier::Shift => KeyModifiers { shift: true, ..mods },
        Modifier::Control => KeyModifiers { control: true, ..mods },
        Modifier::Alt => KeyModifiers { alt: true, ..mods },
        Modifier::Super => KeyModifiers { super_key: true, ..mods },
        Modifier::Meta => KeyModifiers { meta: true, ..mods },
    }
}

impl KeyModifiers {
    /// No modifier.
    pub fn empty() -> (m: Self)
        ensures
            m == no_modifiers(),
    {
        KeyModifiers { shift: false, control: false, alt: false, super_key: false, meta: false }
    }

    /// These modifiers with `m` held too.
    pub fn with(self, m: Modifier) -> (r: Self)
        ensures
            r == with_modifier(self, m),
    {
        match m {
            Modifier::Shift => KeyModifiers { shift: true, ..self },
            Modifier::Control => KeyModifiers { control: true, ..self },
            Modifier::Alt => KeyModifiers { alt: true, ..self },
            Modifier::Super => KeyModifiers { super_key: true, ..self },
            Modifier::Meta => KeyModifiers { meta: true, ..self },
        }
    }
}

/// The modifier that the word `t` names, in lower case.
pub open spec fn modifier_spec(t: Seq<char>) -> Option<Modifier> {
    if t == "super"@ || t == "win"@ || t == "windows"@ {
        Some(Modifier::Super)
    } else if t == "ctrl"@ || t == "control"@ {
        Some(Modifier::Control)
    } else if t == "alt"@ || t == "option"@ {
        Some(Modifier::Alt)
    } else if t == "meta"@ {
        Some(Modifier::Meta)
    } else if t == "shift"@ {
        Some(Modifier::Shift)
    } else {
        None
    }
}

/// The modifier that `token` names, whatever the case of its letters.
pub fn parse_modifier(token: &str) -> (r: Option<Modifier>)
    ensures
        r == modifier_spec(lower(token@)),
{
    if lower_is(token, "super") || lower_is(token, "win") || lower_is(token, "windows") {
        Some(Modifier::Super)
    } else if lower_is(token, "ctrl") || lower_is(token, "control") {
        Some(Modifier::Control)
    } else if lower_is(token, "alt") || lower_is(token, "option") {
        Some(Modifier::Alt)
    } else if lower_is(token, "meta") {
        Some(Modifier::Meta)
    } else if lower_is(token, "shift") {
        Some(Modifier::Shift)
    } else {
        None
    }
}

/// The key that the word `t` names, in lower case.
pub open spec fn named_key_spec(t: Seq<char>) -> Option<KeyCode> {
    if t == "space"@ {
        Some(KeyCode::Char(' '))
    } else if t == "tab"@ {
        Some(KeyCode::Tab)
    } else if t == "enter"@ || t == "return"@ {
        Some(KeyCode::Enter)
    } else if t == "esc"@ || t == "escape"@ {
        Some(KeyCode::Esc)
    } else if t == "backspace"@ || t == "bs"@ {
        Some(KeyCode::Backspace)
    } else if t == "delete"@ || t == "del"@ {
        Some(KeyCode::Delete)
    } else if t == "insert"@ || t == "ins"@ {
        Some(KeyCode::Insert)
    } else if t == "pageup"@ || t == "pgup"@ {
        Some(KeyCode::PageUp)
    } else if t == "pagedown"@ || t == "pgdn"@ {
        Some(KeyCode::PageDown)
    } else if t == "home"@ {
        Some(KeyCode::Home)
    } else if t == "end"@ {
        Some(KeyCode::End)
    } else if t == "up"@ {
        Some(KeyCode::Up)
    } else if t == "down"@ {
        Some(KeyCode::Down)
    } else if t == "left"@ {
        Some(KeyCode::Left)
    } else if t == "right"@ {
        Some(KeyCode::Right)
    } else {
        None
    }
}

/// The function key that `t` names: an `f` in either case and a numeral from
/// 1 to 24.
pub open spec fn function_key_spec(t: Seq<char>) -> Option<KeyCode> {
    if t.len() > 0 && lower_char(t[0]) == 'f' && numeral(t.skip(1), 255) is Some && 1 <= numeral(
        t.skip(1),
        255,
    )->0 <= MAX_FUNCTION_KEY {
        Some(KeyCode::F(numeral(t.skip(1), 255)->0 as u8))
    } else {
        None
    }
}

/// The key that `token` names, white space around it and the case of its
/// letters set aside: a single character stands for itself, in lower case;
/// then come the named keys; then the function keys.
pub open spec fn key_code_spec(token: Seq<char>) -> Option<KeyCode> {
    let t = trim_spec(token);
    if t.len() == 1 {
        Some(KeyCode::Char(lower_char(t[0])))
    } else if named_key_spec(lower(t)) is Some {
        named_key_spec(lower(t))
    } else {
        function_key_spec(t)
    }
}

fn parse_named_key(t: &str) -> (r: Option<KeyCode>)
    ensures
        r == named_key_spec(lower(t@)),
{
    if lower_is(t, "space") {
        Some(KeyCode::Char(' '))
    } else if lower_is(t, "tab") {
        Some(KeyCode::Tab)
    } else if lower_is(t, "enter") || lower_is(t, "return") {
        Some(KeyCode::Enter)
    } else if lower_is(t, "esc") || lower_is(t, "escape") {
        Some(KeyCode::Esc)
    } else if lower_is(t, "backspace") || lower_is(t, "bs") {
        Some(KeyCode::Backspace)
    } else if lower_is(t, "delete") || lower_is(t, "del") {
        Some(KeyCode::Delete)
    } else if lower_is(t, "insert") || lower_is(t, "ins") {
        Some(KeyCode::Insert)
    } else if lower_is(t, "pageup") || lower_is(t, "pgup") {
        Some(KeyCode::PageUp)
    } else if lower_is(t, "pagedown") || lower_is(t, "pgdn") {
        Some(KeyCode::PageDown)
    } else if lower_is(t, "home") {
        Some(KeyCode::Home)
    } else if lower_is(t, "end") {
        Some(KeyCode::End)
    } else if lower_is(t, "up") {
        Some(KeyCode::Up)
    } else if lower_is(t, "down") {
        Some(KeyCode::Down)
    } else if lower_is(t, "left") {
        Some(KeyCode::Left)
    } else if lower_is(t, "right") {
        Some(KeyCode::Right)
    } else {
        None
    }
}

/// The key that `token` names.
pub fn parse_key_code(token: &str) -> (r: Option<KeyCode>)
    ensures
        r == key_code_spec(token@),
{
    let t = trim(token);
    let n = t.unicode_len();
    if n == 1 {
        return Some(KeyCode::Char(t.get_char(0).to_ascii_lowercase()));
    }
    match parse_named_key(t) {
        Some(key) => Some(key),
        None => {
            if n > 0 && t.get_char(0).to_ascii_lowercase() == 'f' {
                assert(t@.subrange(1, n as int) =~= t@.skip(1));
                match parse_bounded(t.substring_char(1, n), 255) {
                    Some(number) => {
                        if 1 <= number && number <= MAX_FUNCTION_KEY as u64 {
                            Some(KeyCode::F(number as u8))
                        } else {
                            None
                        }
                    },
                    None => None,
                }
            } else {
                None
            }
        },
    }
}

/// Whether `c` joins the parts of a key: `+` or `-`.
pub open spec fn is_joint(c: char) -> bool {
    c == '+' || c == '-'
}

/// The length of the run of characters at the start of `s` that are no
/// joints.
pub open spec fn part_len(s: Seq<char>) -> nat
    decreases s.len(),
{
    if s.len() > 0 && !is_joint(s[0]) {
        1 + part_len(s.drop_first())
    } else {
        0
    }
}

/// The parts of a key: the maximal runs of characters that are no joints.
pub open spec fn parts(s: Seq<char>) -> Seq<Seq<char>>
    decreases s.len(),
{
    if s.len() == 0 {
        Seq::empty()
    } else if is_joint(s[0]) {
        parts(s.drop_first())
    } else {
        let k = part_len(s) as int;
        proof {
            lemma_part_len_bounds(s);
        }
        seq![s.take(k)] + parts(s.skip(k))
    }
}

/// A part is at most as long as the text, and not empty where the text starts
/// with a character that is no joint.
pub proof fn lemma_part_len_bounds(s: Seq<char>)
    ensures
        part_len(s) <= s.len(),
        s.len() > 0 && !is_joint(s[0]) ==> part_len(s) >= 1,
    decreases s.len(),
{
    if s.len() > 0 && !is_joint(s[0]) {
        lemma_part_len_bounds(s.drop_first());
    }
}

proof fn lemma_part_len_at(s: Seq<char>, i: int, j: int)
    requires
        0 <= i <= j <= s.len(),
        forall|k: int| i <= k < j ==> !is_joint(#[trigger] s[k]),
        j == s.len() || is_joint(s[j]),
    ensures
        part_len(s.skip(i)) == j - i,
    decreases j - i,
{
    let t = s.skip(i);
    if i == j {
        if j < s.len() {
            assert(t[0] == s[j]);
        }
    } else {
        assert(t[0] == s[i]);
        lemma_part_len_at(s, i + 1, j);
        assert(t.drop_first() =~= s.skip(i + 1));
    }
}

/// The parts of the key `s`, each as a string of its own.
pub fn split_parts(s: &str) -> (out: Vec<String>)
    ensures
        out.deep_view() == parts(s@),
{
    let n = s.unicode_len();
    let mut out: Vec<String> = Vec::new();
    let mut i: usize = 0;
    assert(s@.skip(0) =~= s@);
    assert(out.deep_view() =~= Seq::<Seq<char>>::empty());
    while i < n
        invariant
            n == s@.len(),
            i <= n,
            parts(s@) == out.deep_view() + parts(s@.skip(i as int)),
        decreases n - i,
    {
        let ghost rest = s@.skip(i as int);
        let ghost before = out.deep_view();
        assert(rest[0] == s@[i as int]);
        let c = s.get_char(i);
        if c == '+' || c == '-' {
            assert(rest.drop_first() =~= s@.skip(i + 1));
            i += 1;
        } else {
            let mut j: usize = i + 1;
            while j < n && s.get_char(j) != '+' && s.get_char(j) != '-'
                invariant
                    n == s@.len(),
                    i < j <= n,
                    forall|k: int| i <= k < j ==> !is_joint(#[trigger] s@[k]),
                decreases n - j,
            {
                j += 1;
            }
            proof {
                lemma_part_len_at(s@, i as int, j as int);
                assert(rest.take(j - i) =~= s@.subrange(i as int, j as int));
                assert(rest.skip(j - i) =~= s@.skip(j as int));
            }
            out.push(String::from_str(s.substring_char(i, j)));
            assert(out.deep_view() =~= before + seq![s@.subrange(i as int, j as int)]);
            i = j;
        }
    }
    assert(s@.skip(n as int) =~= Seq::<char>::empty());
    out
}

/// What the parts `fs` come to, after the modifiers `mods` and the key `code`
/// were read. A part of white space is passed over; a modifier is added; one
/// other part names the key. A second key, or a part that names nothing, is a
/// mistake.
pub open spec fn scan_spec(fs: Seq<Seq<char>>, mods: KeyModifiers, code: Option<KeyCode>) -> Option<
    (KeyCode, KeyModifiers),
>
    decreases fs.len(),
{
    if fs.len() == 0 {
        match code {
            Some(c) => Some((c, mods)),
            None => None,
        }
    } else if trim_spec(fs[0]).len() == 0 {
        scan_spec(fs.drop_first(), mods, code)
    } else if modifier_spec(lower(trim_spec(fs[0]))) is Some {
        scan_spec(
            fs.drop_first(),
            with_modifier(mods, modifier_spec(lower(trim_spec(fs[0])))->0),
            code,
        )
    } else if code is Some || key_code_spec(fs[0]) is None {
        None
    } else {
        scan_spec(fs.drop_first(), mods, key_code_spec(fs[0]))
    }
}

/// The key with its modifiers that `s` names: parts joined by `+` or `-`, any
/// number of modifiers and exactly one key, in any order.
pub open spec fn menu_key_spec(s: Seq<char>) -> Option<(KeyCode, KeyModifiers)> {
    scan_spec(parts(s), no_modifiers(), None)
}

/// The key with its modifiers that `s` names.
pub fn parse_menu_key(s: &str) -> (r: Option<(KeyCode, KeyModifiers)>)
    ensures
        r == menu_key_spec(s@),
{
    let fs = split_parts(s);
    let mut mods = KeyModifiers::empty();
    let mut code: Option<KeyCode> = None;
    let mut i: usize = 0;
    assert(fs.deep_view().skip(0) =~= fs.deep_view());
    while i < fs.len()
        invariant
            i <= fs.len(),
            menu_key_spec(s@) == scan_spec(fs.deep_view().skip(i as int), mods, code),
        decreases fs.len() - i,
    {
        let ghost rest = fs.deep_view().skip(i as int);
        assert(rest[0] == fs[i as int]@);
        assert(rest.drop_first() =~= fs.deep_view().skip(i + 1));
        let tok = trim(fs[i].as_str());
        if tok.unicode_len() != 0 {
            match parse_modifier(tok) {
                Some(m) => {
                    mods = mods.with(m);
                },
                None => {
                    if code.is_some() {
                        return None;
                    }
                    match parse_key_code(fs[i].as_str()) {
                        Some(key) => {
                            code = Some(key);
                        },
                        None => {
                            return None;
                        },
                    }
                },
            }
        }
        i += 1;
    }
    match code {
        Some(c) => Some((c, mods)),
        None => None,
    }
}

} // verus!
