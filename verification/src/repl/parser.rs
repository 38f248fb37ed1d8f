//! Splitting an input line into the name it addresses and the command for it.

use crate::registry::{longest, Entry, EntryView, Registry};
use crate::text::space::{trim, trim_end_spec, trim_spec, trim_start_spec, white_space};
use vstd::prelude::*;

verus! {

/// A line as the parser read it.
#[derive(Debug, PartialEq, Eq)]
pub enum Parsed {
    /// The line addresses nobody by name.
    Default { command: String },
    /// The line addresses the registered `name`.
    Entry { name: String, entry: Entry, command: String },
}

/// A [`Parsed`] as contracts see it.
pub enum ParsedView {
    Default { command: Seq<char> },
    Entry { name: Seq<char>, entry: EntryView, command: Seq<char> },
}

impl View for Parsed {
    type V = ParsedView;

    open spec fn view(&self) -> ParsedView {
        match self {
            Parsed::Default { command } => ParsedView::Default { command: command@ },
            Parsed::Entry { name, entry, command } => ParsedView::Entry {
                name: name@,
                entry: entry@,
                command: command@,
            },
        }
    }
}

impl Clone for Parsed {
    fn clone(&self) -> (r: Self)
        ensures
            r@ == self@,
    {
        match self {
            Parsed::Default { command } => Parsed::Default { command: command.clone() },
            Parsed::Entry { name, entry, command } => Parsed::Entry {
                name: name.clone(),
                entry: entry.clone(),
                command: command.clone(),
            },
        }
    }
}

/// Whether the first `:` of `s` stands at `i`.
pub open spec fn is_first_colon(s: Seq<char>, i: int) -> bool {
    &&& 0 <= i < s.len()
    &&& s[i] == ':'
    &&& forall|k: int| 0 <= k < i ==> s[k] != ':'
}

/// Whether `s` holds a `:`.
pub open spec fn has_colon(s: Seq<char>) -> bool {
    exists|i: int| is_first_colon(s, i)
}

/// Where the first `:` of `s` stands.
pub open spec fn first_colon(s: Seq<char>) -> int {
    choose|i: int| is_first_colon(s, i)
}

/// Whether some registered name has a character.
pub open spec fn names_have_chars(catalog: Map<Seq<char>, EntryView>) -> bool {
    exists|k: Seq<char>| #[trigger] catalog.contains_key(k) && k.len() > 0
}

/// The name that `input` addresses: what stands before its first `:`, where that
/// is registered. A catalog whose names are all empty addresses nothing.
pub open spec fn addressed(catalog: Map<Seq<char>, EntryView>, input: Seq<char>) -> Option<
    Seq<char>,
> {
    if names_have_chars(catalog) && has_colon(input) && catalog.contains_key(
        input.take(first_colon(input)),
    ) {
        Some(input.take(first_colon(input)))
    } else {
        None
    }
}

/// What [`parse`] makes of `input`. Only the first `:` is looked at. Where what
/// stands before it is a registered name, the line addresses that name, and
/// its command is what follows the `:`, trimmed. Else the whole line, trimmed,
/// is a command for the default shell.
pub open spec fn parse_spec(catalog: Map<Seq<char>, EntryView>, input: Seq<char>) -> ParsedView {
    match addressed(catalog, input) {
        Some(name) => ParsedView::Entry {
            name,
            entry: catalog[name],
            command: trim_spec(input.skip(name.len() as int + 1)),
        },
        None => ParsedView::Default { command: trim_spec(input) },
    }
}

/// A text has one first `:`.
pub proof fn lemma_first_colon_unique(s: Seq<char>, i: int, j: int)
    requires
        is_first_colon(s, i),
        is_first_colon(s, j),
    ensures
        i == j,
        first_colon(s) == i,
        has_colon(s),
{
    let c = first_colon(s);
    if c < i {
        assert(s[c] != ':');
    }
    if i < c {
        assert(s[i] != ':');
    }
    if j < i {
        assert(s[j] != ':');
    }
    if i < j {
        assert(s[i] != ':');
    }
}

/// With no name registered, every line is a command for the default shell.
pub proof fn lemma_parse_empty_registry(input: Seq<char>)
    ensures
        parse_spec(Map::<Seq<char>, EntryView>::empty(), input) == (ParsedView::Default {
            command: trim_spec(input),
        }),
{
}

/// A line made of a registered name without `:`, a `:` and some text addresses
/// that name, and its command is the text, trimmed. The catalog must hold a
/// name with a character.
pub proof fn lemma_parse_registered(
    catalog: Map<Seq<char>, EntryView>,
    name: Seq<char>,
    rest: Seq<char>,
)
    requires
        catalog.contains_key(name),
        names_have_chars(catalog),
        forall|k: int| 0 <= k < name.len() ==> name[k] != ':',
    ensures
        parse_spec(catalog, name + seq![':'] + rest) == (ParsedView::Entry {
            name,
            entry: catalog[name],
            command: trim_spec(rest),
        }),
{
    let input = name + seq![':'] + rest;
    let i = name.len() as int;
    assert(is_first_colon(input, i));
    lemma_first_colon_unique(input, i, i);
    assert(input.take(i) =~= name);
    assert(input.skip(i + 1) =~= rest);
}

/// The line `<name>: foo`, for a registered name of at least one character
/// and without `:`, addresses that name with the command `foo`.
pub proof fn lemma_parse_name_foo(catalog: Map<Seq<char>, EntryView>, name: Seq<char>)
    requires
        catalog.contains_key(name),
        name.len() >= 1,
        forall|k: int| 0 <= k < name.len() ==> name[k] != ':',
    ensures
        parse_spec(catalog, name + ": foo"@) == (ParsedView::Entry {
            name,
            entry: catalog[name],
            command: "foo"@,
        }),
{
    reveal_strlit(": foo");
    reveal_strlit("foo");
    let rest = seq![' ', 'f', 'o', 'o'];
    let foo = seq!['f', 'o', 'o'];
    assert(": foo"@ =~= seq![':'] + rest);
    assert("foo"@ =~= foo);
    assert(name + ": foo"@ =~= name + seq![':'] + rest);
    lemma_parse_registered(catalog, name, rest);
    assert(rest.drop_first() =~= foo);
    assert(white_space(rest[0]));
    assert(!white_space(foo[0]));
    assert(!white_space(foo.last()));
    assert(trim_start_spec(rest) == foo) by {
        assert(trim_start_spec(rest) == trim_start_spec(rest.drop_first()));
    }
    assert(trim_end_spec(foo) == foo);
}

/// A line that starts with an unregistered prefix and a `:` is a command for
/// the default shell as a whole, whatever follows the `:`.
pub proof fn lemma_parse_unregistered(
    catalog: Map<Seq<char>, EntryView>,
    prefix: Seq<char>,
    rest: Seq<char>,
)
    requires
        !catalog.contains_key(prefix),
        forall|k: int| 0 <= k < prefix.len() ==> prefix[k] != ':',
    ensures
        parse_spec(catalog, prefix + seq![':'] + rest) == (ParsedView::Default {
            command: trim_spec(prefix + seq![':'] + rest),
        }),
{
    let input = prefix + seq![':'] + rest;
    let i = prefix.len() as int;
    assert(is_first_colon(input, i));
    lemma_first_colon_unique(input, i, i);
    assert(input.take(i) =~= prefix);
}

/// Reads `input` against the names of `registry`.
pub fn parse(registry: &Registry, input: &str) -> (parsed: Parsed)
    ensures
        parsed@ == parse_spec(registry@, input@),
{
    let max_len = registry.max_name_len();
    if max_len == 0 {
        assert(!names_have_chars(registry@)) by {
            if names_have_chars(registry@) {
                let k = choose|k: Seq<char>| #[trigger] registry@.contains_key(k) && k.len() > 0;
                assert(registry@.dom().contains(k));
            }
        }
        return Parsed::Default { command: String::from_str(trim(input)) };
    }
    assert(names_have_chars(registry@)) by {
        let k = choose|k: Seq<char>| #[trigger]
            registry@.dom().contains(k) && k.len() == max_len as nat;
        assert(registry@.contains_key(k));
    }
    let n = input.unicode_len();
    let mut i: usize = 0;
    while i < n
        invariant
            n == input@.len(),
            i <= n,
            i <= max_len,
            max_len > 0,
            names_have_chars(registry@),
            longest(registry@.dom(), max_len as nat),
            forall|k: int| 0 <= k < i ==> input@[k] != ':',
        decreases n - i,
    {
        if input.get_char(i) == ':' {
            proof {
                assert(is_first_colon(input@, i as int));
                lemma_first_colon_unique(input@, i as int, i as int);
                assert(input@.subrange(0, i as int) =~= input@.take(i as int));
                assert(input@.subrange(i + 1, n as int) =~= input@.skip(i + 1));
            }
            let name = input.substring_char(0, i);
            let rest = trim(input.substring_char(i + 1, n));
            return match registry.get_entry(name) {
                Some(entry) => Parsed::Entry {
                    name: String::from_str(name),
                    entry,
                    command: String::from_str(rest),
                },
                None => Parsed::Default { command: String::from_str(trim(input)) },
            };
        }
        i += 1;
        if i > max_len {
            proof {
                lemma_out_of_reach(registry@, input@, max_len as nat);
            }
            return Parsed::Default { command: String::from_str(trim(input)) };
        }
    }
    assert(!has_colon(input@)) by {
        if has_colon(input@) {
            let c = first_colon(input@);
            assert(input@[c] == ':');
        }
    }
    Parsed::Default { command: String::from_str(trim(input)) }
}

/// Where no `:` stands among the first `max_len + 1` characters, what stands
/// before the first `:` is longer than every registered name.
proof fn lemma_out_of_reach(catalog: Map<Seq<char>, EntryView>, input: Seq<char>, max_len: nat)
    requires
        longest(catalog.dom(), max_len),
        forall|k: int| 0 <= k <= max_len && k < input.len() ==> input[k] != ':',
    ensures
        addressed(catalog, input) is None,
{
    if has_colon(input) {
        let c = first_colon(input);
        assert(input[c] == ':');
        let name = input.take(c);
        if catalog.contains_key(name) {
            assert(catalog.dom().contains(name));
        }
    }
}

} // verus!
