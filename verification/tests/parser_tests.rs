use psh::registry::{Entry, Registry};
use psh::repl::parser::{parse, Parsed};
use psh::shell::spec::ShellSpec;

fn bash() -> Entry {
    Entry::Shell(ShellSpec::Local { program: "/usr/bin/bash".to_string() })
}

fn registry() -> Registry {
    let mut r = Registry::with_builtins();
    r.register_entry("bash", bash());
    r
}

fn default_of(command: &str) -> Parsed {
    Parsed::Default { command: command.to_string() }
}

#[test]
fn registered_prefix_yields_entry() {
    let r = registry();
    assert_eq!(
        parse(&r, "bash: foo"),
        Parsed::Entry { name: "bash".to_string(), entry: bash(), command: "foo".to_string() }
    );
    assert_eq!(
        parse(&r, "local: list"),
        Parsed::Entry { name: "local".to_string(), entry: Entry::Builtin, command: "list".to_string() }
    );
}

#[test]
fn unregistered_prefix_yields_default_with_the_whole_line() {
    let r = registry();
    assert_eq!(parse(&r, "zsh: foo"), default_of("zsh: foo"));
}

#[test]
fn a_later_colon_is_not_tried() {
    let r = registry();
    assert_eq!(parse(&r, "x:bash: ls"), default_of("x:bash: ls"));
    assert_eq!(parse(&r, "echo a: bash: b"), default_of("echo a: bash: b"));
}

#[test]
fn empty_registry_always_yields_default() {
    let r = Registry::new();
    for input in ["", "bash: ls", ":", "  spaced  ", "a:b:c", "local: list"] {
        assert_eq!(parse(&r, input), default_of(input.trim()));
    }
}

#[test]
fn line_without_colon_is_a_default_command() {
    let r = registry();
    assert_eq!(parse(&r, "  ls -la  "), default_of("ls -la"));
    assert_eq!(parse(&r, ""), default_of(""));
    assert_eq!(parse(&r, "bash"), default_of("bash"));
}

#[test]
fn command_is_trimmed_at_both_ends() {
    let r = registry();
    assert_eq!(
        parse(&r, "bash:   echo hi  "),
        Parsed::Entry { name: "bash".to_string(), entry: bash(), command: "echo hi".to_string() }
    );
    assert_eq!(
        parse(&r, "bash:   ls  "),
        Parsed::Entry { name: "bash".to_string(), entry: bash(), command: "ls".to_string() }
    );
    assert_eq!(
        parse(&r, "bash: \t "),
        Parsed::Entry { name: "bash".to_string(), entry: bash(), command: "".to_string() }
    );
    assert_eq!(
        parse(&r, "bash:"),
        Parsed::Entry { name: "bash".to_string(), entry: bash(), command: "".to_string() }
    );
}

#[test]
fn prefix_is_matched_exactly() {
    let r = registry();
    assert_eq!(parse(&r, "Bash: ls"), default_of("Bash: ls"));
    assert_eq!(parse(&r, " bash: ls"), default_of("bash: ls"));
    assert_eq!(parse(&r, "bash : ls"), default_of("bash : ls"));
}

#[test]
fn colon_beyond_the_longest_name_is_not_looked_at() {
    let mut r = Registry::new();
    r.register_entry("ab", bash());
    assert_eq!(parse(&r, "abc: x"), default_of("abc: x"));
    assert_eq!(parse(&r, "abcdefgh: x"), default_of("abcdefgh: x"));
    assert_eq!(
        parse(&r, "ab: x"),
        Parsed::Entry { name: "ab".to_string(), entry: bash(), command: "x".to_string() }
    );
}

#[test]
fn the_empty_name_is_addressed_only_beside_a_longer_one() {
    let mut r = Registry::new();
    r.register_entry("", Entry::Builtin);
    assert_eq!(parse(&r, ": x"), default_of(": x"));
    r.register_entry("sh", bash());
    assert_eq!(
        parse(&r, ": x"),
        Parsed::Entry { name: "".to_string(), entry: Entry::Builtin, command: "x".to_string() }
    );
}

#[test]
fn a_name_with_a_colon_is_never_addressed() {
    let mut r = Registry::new();
    r.register_entry("a:b", bash());
    assert_eq!(parse(&r, "a:b: ls"), default_of("a:b: ls"));
}

#[test]
fn names_are_counted_in_characters() {
    let mut r = Registry::new();
    r.register_entry("zürich", bash());
    assert_eq!(
        parse(&r, "zürich: date"),
        Parsed::Entry { name: "zürich".to_string(), entry: bash(), command: "date".to_string() }
    );
}
