//! The prefix menu: its lines, and what an answer to it picks.

use crate::registry::{Entry, EntryView};
use crate::runtime::config::ReplSettings;
use crate::text::number::{decimal, numeral, parse_usize, u64_to_string};
use crate::text::order::same_text;
use crate::text::space::{trim, trim_spec};
use crate::ui::paint::{paint, painted};
use crate::ui::palette::{color_for_entry, entry_color_spec};
use vstd::prelude::*;

verus! {

/// What an answer to the menu comes to.
#[derive(Debug, PartialEq, Eq)]
pub enum Choice {
    /// The menu is left without a choice.
    Cancel,
    /// This name is chosen.
    Chosen(String),
    /// The answer picks nothing: the menu is shown again.
    Retry,
}

/// A [`Choice`] as contracts see it.
pub enum ChoiceView {
    Cancel,
    Chosen(Seq<char>),
    Retry,
}

impl View for Choice {
    type V = ChoiceView;

    open spec fn view(&self) -> ChoiceView {
        match self {
            Choice::Cancel => ChoiceView::Cancel,
            Choice::Chosen(name) => ChoiceView::Chosen(name@),
            Choice::Retry => ChoiceView::Retry,
        }
    }
}

/// The names of a listing, in its order.
pub open spec fn names_of(entries: Seq<(String, Entry, bool)>) -> Seq<Seq<char>> {
    Seq::new(entries.len(), |i: int| entries[i].0@)
}

/// What the answer `input` picks among `names`. An empty answer cancels. A
/// numeral picks by place, counted from 1, and picks nothing where no name
/// stands at that place. Any other answer picks the name that it spells.
pub open spec fn choice_spec(names: Seq<Seq<char>>, input: Seq<char>) -> ChoiceView {
    let answer = trim_spec(input);
    if answer.len() == 0 {
        ChoiceView::Cancel
    } else {
        match numeral(answer, usize::MAX as nat) {
            Some(place) => if 1 <= place <= names.len() {
                ChoiceView::Chosen(names[place - 1])
            } else {
                ChoiceView::Retry
            },
            None => if names.contains(answer) {
                ChoiceView::Chosen(answer)
            } else {
                ChoiceView::Retry
            },
        }
    }
}

/// Reads the answer `input` to a menu of `entries`.
pub fn resolve_choice(entries: &Vec<(String, Entry, bool)>, input: &str) -> (choice: Choice)
    ensures
        choice@ == choice_spec(names_of(entries@), input@),
{
    let ghost names = names_of(entries@);
    let answer = trim(input);
    if answer.unicode_len() == 0 {
        return Choice::Cancel;
    }
    match parse_usize(answer) {
        Some(place) => {
            if place >= 1 && place <= entries.len() {
                assert(names[place - 1] == entries@[place - 1].0@);
                Choice::Chosen(entries[place - 1].0.clone())
            } else {
                Choice::Retry
            }
        },
        None => {
            let mut i: usize = 0;
            while i < entries.len()
                invariant
                    i <= entries.len(),
                    names == names_of(entries@),
                    answer@ == trim_spec(input@),
                    answer@.len() > 0,
                    numeral(answer@, usize::MAX as nat) is None,
                    forall|k: int| 0 <= k < i ==> names[k] != answer@,
                decreases entries.len() - i,
            {
                assert(names[i as int] == entries@[i as int].0@);
                if same_text(entries[i].0.as_str(), answer) {
                    assert(names.contains(answer@));
                    return Choice::Chosen(String::from_str(answer));
                }
                i += 1;
            }
            Choice::Retry
        },
    }
}

/// What the menu shows before the name at place `index`, counted from 0: the
/// number of the place in two columns, a mark on the current mode, and a mark
/// on a name whose session runs.
pub open spec fn label_spec(index: nat, current: bool, running: bool) -> Seq<char> {
    (if index + 1 < 10 {
        " "@
    } else {
        ""@
    }) + decimal(index + 1) + ". "@ + (if current {
        ">"@
    } else {
        " "@
    }) + " "@ + (if running {
        "*"@
    } else {
        " "@
    }) + " "@
}

/// What the menu shows before the name at place `index`.
pub fn menu_label(index: usize, current: bool, running: bool) -> (label: String)
    requires
        index < usize::MAX,
    ensures
        label@ == label_spec(index as nat, current, running),
{
    let number = index + 1;
    let mut label = String::from_str(
        if number < 10 {
            " "
        } else {
            ""
        },
    );
    label.append(u64_to_string(number as u64).as_str());
    label.append(". ");
    label.append(
        if current {
            ">"
        } else {
            " "
        },
    );
    label.append(" ");
    label.append(
        if running {
            "*"
        } else {
            " "
        },
    );
    label.append(" ");
    label
}

/// The line of the menu for the name at place `index`: its label, the name
/// in the color of its entry, and the end of the line.
pub open spec fn menu_line_spec(
    index: nat,
    name: Seq<char>,
    entry: EntryView,
    running: bool,
    current: Option<Seq<char>>,
    settings: ReplSettings,
) -> Seq<char> {
    label_spec(index, current == Some(name), running) + painted(
        entry_color_spec(settings, entry),
        name,
    ) + "\r\n"@
}

/// What the menu writes, piece after piece: an empty line, the hint, and a
/// line for each of `entries`.
pub open spec fn menu_spec(
    entries: Seq<(String, Entry, bool)>,
    current: Option<Seq<char>>,
    settings: ReplSettings,
) -> Seq<Seq<char>> {
    seq!["\r\n"@, "Select a prefix by number or name. Empty line cancels.\r\n"@] + Seq::new(
        entries.len(),
        |i: int|
            menu_line_spec(i as nat, entries[i].0@, entries[i].1@, entries[i].2, current, settings),
    )
}

/// The text of an optional string slice.
pub open spec fn option_str(o: Option<&str>) -> Option<Seq<char>> {
    match o {
        Some(s) => Some(s@),
        None => None,
    }
}

/// What the menu writes for `entries`, with the mark on `current`.
pub fn print_menu(entries: &Vec<(String, Entry, bool)>, settings: &ReplSettings, current: Option<
    &str,
>) -> (out: Vec<String>)
    ensures
        out.deep_view() == menu_spec(entries@, option_str(current), *settings),
{
    let mut out: Vec<String> = Vec::new();
    out.push(String::from_str("\r\n"));
    out.push(String::from_str("Select a prefix by number or name. Empty line cancels.\r\n"));
    let mut i: usize = 0;
    while i < entries.len()
        invariant
            i <= entries.len(),
            out@.len() == i + 2,
            out@[0]@ == "\r\n"@,
            out@[1]@ == "Select a prefix by number or name. Empty line cancels.\r\n"@,
            forall|k: int|
                0 <= k < i ==> (#[trigger] out@[k + 2])@ == menu_line_spec(
                    k as nat,
                    entries@[k].0@,
                    entries@[k].1@,
                    entries@[k].2,
                    option_str(current),
                    *settings,
                ),
        decreases entries.len() - i,
    {
        let item = &entries[i];
        let is_current = match current {
            Some(c) => same_text(item.0.as_str(), c),
            None => false,
        };
        let mut line = menu_label(i, is_current, item.2);
        line.append(paint(color_for_entry(&item.1, settings), item.0.as_str()).as_str());
        line.append("\r\n");
        out.push(line);
        i += 1;
    }
    assert(out.deep_view() =~= menu_spec(entries@, option_str(current), *settings)) by {
        let want = menu_spec(entries@, option_str(current), *settings);
        assert(want.len() == out@.len());
        assert forall|k: int| 0 <= k < want.len() implies out.deep_view()[k] == want[k] by {
            if k >= 2 {
                assert(out@[(k - 2) + 2]@ == want[k]);
            }
        }
    }
    out
}

} // verus!
