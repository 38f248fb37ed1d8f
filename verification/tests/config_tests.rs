use psh::cli::{Cli, DEFAULT_COLS, DEFAULT_ROWS};
use nu_ansi_term::Color;
use psh::runtime::config::{
    parse_color, repl_settings_from_config, PshConfig, ReplColors, ReplSection, ReplSettings,
};
use psh::runtime::keys::{
    parse_key_code, parse_menu_key, parse_modifier, split_parts, KeyCode, KeyModifiers, Modifier,
    MAX_FUNCTION_KEY,
};
use psh::shell::cmd::ShellCmd;
use psh::shell::event::ShellEvent;
use psh::shell::mock::{echo, line_bytes, shutdown_event};
use psh::shell::pty::send_failure;
use psh::error::SyncError;
use psh::text::case::lower_is;

fn mods(shift: bool, control: bool, alt: bool, super_key: bool, meta: bool) -> KeyModifiers {
    KeyModifiers { shift, control, alt, super_key, meta }
}

#[test]
fn cli_defaults() {
    let cli = Cli::default();
    assert_eq!((cli.cols, cli.rows), (80, 24));
    assert_eq!((DEFAULT_COLS, DEFAULT_ROWS), (80, 24));
    assert!(cli.bash && cli.zsh && cli.interactive);
    assert_eq!(cli.verbose, 0);
}

#[test]
fn colors_are_read_in_any_case() {
    assert_eq!(parse_color("black"), Some(Color::Black));
    assert_eq!(parse_color("White"), Some(Color::White));
    assert_eq!(parse_color("LIGHTGREY"), Some(Color::LightGray));
    assert_eq!(parse_color("lightgray"), Some(Color::LightGray));
    assert_eq!(parse_color("DarkGrey"), Some(Color::DarkGray));
    assert_eq!(parse_color("darkgray"), Some(Color::DarkGray));
    assert_eq!(parse_color("lightred"), Some(Color::LightRed));
    assert_eq!(parse_color("red"), Some(Color::Red));
    assert_eq!(parse_color("lightgreen"), Some(Color::LightGreen));
    assert_eq!(parse_color("green"), Some(Color::Green));
    assert_eq!(parse_color("lightyellow"), Some(Color::LightYellow));
    assert_eq!(parse_color("yellow"), Some(Color::Yellow));
    assert_eq!(parse_color("lightblue"), Some(Color::LightBlue));
    assert_eq!(parse_color("blue"), Some(Color::Blue));
    assert_eq!(parse_color("lightmagenta"), Some(Color::LightMagenta));
    assert_eq!(parse_color("magenta"), Some(Color::Magenta));
    assert_eq!(parse_color("lightcyan"), Some(Color::LightCyan));
    assert_eq!(parse_color("cyan"), Some(Color::Cyan));
    assert_eq!(parse_color("purple"), None);
    assert_eq!(parse_color(" red"), None);
    assert_eq!(parse_color(""), None);
}

#[test]
fn lower_is_sets_ascii_case_aside() {
    assert!(lower_is("CtRl", "ctrl"));
    assert!(lower_is("", ""));
    assert!(!lower_is("ctrl", "CTRL"));
    assert!(!lower_is("É", "é"));
    assert!(!lower_is("ctr", "ctrl"));
    assert!(lower_is("[", "["));
    assert!(!lower_is("@", "`"));
}

#[test]
fn key_codes() {
    assert_eq!(parse_key_code("g"), Some(KeyCode::Char('g')));
    assert_eq!(parse_key_code(" G "), Some(KeyCode::Char('g')));
    assert_eq!(parse_key_code("é"), Some(KeyCode::Char('é')));
    assert_eq!(parse_key_code("f"), Some(KeyCode::Char('f')));
    assert_eq!(parse_key_code("space"), Some(KeyCode::Char(' ')));
    assert_eq!(parse_key_code("Tab"), Some(KeyCode::Tab));
    assert_eq!(parse_key_code("enter"), Some(KeyCode::Enter));
    assert_eq!(parse_key_code("RETURN"), Some(KeyCode::Enter));
    assert_eq!(parse_key_code("esc"), Some(KeyCode::Esc));
    assert_eq!(parse_key_code("escape"), Some(KeyCode::Esc));
    assert_eq!(parse_key_code("backspace"), Some(KeyCode::Backspace));
    assert_eq!(parse_key_code("bs"), Some(KeyCode::Backspace));
    assert_eq!(parse_key_code("delete"), Some(KeyCode::Delete));
    assert_eq!(parse_key_code("del"), Some(KeyCode::Delete));
    assert_eq!(parse_key_code("insert"), Some(KeyCode::Insert));
    assert_eq!(parse_key_code("ins"), Some(KeyCode::Insert));
    assert_eq!(parse_key_code("pageup"), Some(KeyCode::PageUp));
    assert_eq!(parse_key_code("pgup"), Some(KeyCode::PageUp));
    assert_eq!(parse_key_code("pagedown"), Some(KeyCode::PageDown));
    assert_eq!(parse_key_code("pgdn"), Some(KeyCode::PageDown));
    assert_eq!(parse_key_code("home"), Some(KeyCode::Home));
    assert_eq!(parse_key_code("end"), Some(KeyCode::End));
    assert_eq!(parse_key_code("up"), Some(KeyCode::Up));
    assert_eq!(parse_key_code("down"), Some(KeyCode::Down));
    assert_eq!(parse_key_code("left"), Some(KeyCode::Left));
    assert_eq!(parse_key_code("right"), Some(KeyCode::Right));
    assert_eq!(parse_key_code(""), None);
    assert_eq!(parse_key_code("nokey"), None);
}

#[test]
fn function_keys() {
    assert_eq!(MAX_FUNCTION_KEY, 24);
    assert_eq!(parse_key_code("f1"), Some(KeyCode::F(1)));
    assert_eq!(parse_key_code("F12"), Some(KeyCode::F(12)));
    assert_eq!(parse_key_code("f24"), Some(KeyCode::F(24)));
    assert_eq!(parse_key_code("f25"), None);
    assert_eq!(parse_key_code("f0"), None);
    assert_eq!(parse_key_code("f256"), None);
    assert_eq!(parse_key_code("f+5"), Some(KeyCode::F(5)));
    assert_eq!(parse_key_code("f 5"), None);
    assert_eq!(parse_key_code("fx"), None);
    assert_eq!(parse_key_code("f05"), Some(KeyCode::F(5)));
}

#[test]
fn modifiers() {
    assert_eq!(parse_modifier("ctrl"), Some(Modifier::Control));
    assert_eq!(parse_modifier("Control"), Some(Modifier::Control));
    assert_eq!(parse_modifier("alt"), Some(Modifier::Alt));
    assert_eq!(parse_modifier("option"), Some(Modifier::Alt));
    assert_eq!(parse_modifier("super"), Some(Modifier::Super));
    assert_eq!(parse_modifier("win"), Some(Modifier::Super));
    assert_eq!(parse_modifier("windows"), Some(Modifier::Super));
    assert_eq!(parse_modifier("meta"), Some(Modifier::Meta));
    assert_eq!(parse_modifier("SHIFT"), Some(Modifier::Shift));
    assert_eq!(parse_modifier("hyper"), None);
    assert_eq!(KeyModifiers::empty(), mods(false, false, false, false, false));
    assert_eq!(
        KeyModifiers::empty().with(Modifier::Alt).with(Modifier::Shift),
        mods(true, false, true, false, false)
    );
}

#[test]
fn key_parts() {
    assert_eq!(split_parts("ctrl+g"), vec!["ctrl", "g"]);
    assert_eq!(split_parts("ctrl-alt- f4 "), vec!["ctrl", "alt", " f4 "]);
    assert_eq!(split_parts("++a--"), vec!["a"]);
    assert!(split_parts("").is_empty());
    assert!(split_parts("+-").is_empty());
}

#[test]
fn menu_keys() {
    assert_eq!(
        parse_menu_key("ctrl+g"),
        Some((KeyCode::Char('g'), mods(false, true, false, false, false)))
    );
    assert_eq!(
        parse_menu_key("Ctrl - Alt - F4"),
        Some((KeyCode::F(4), mods(false, true, true, false, false)))
    );
    assert_eq!(
        parse_menu_key("tab+shift"),
        Some((KeyCode::Tab, mods(true, false, false, false, false)))
    );
    assert_eq!(
        parse_menu_key("super+meta+x"),
        Some((KeyCode::Char('x'), mods(false, false, false, true, true)))
    );
    assert_eq!(parse_menu_key("g"), Some((KeyCode::Char('g'), KeyModifiers::empty())));
    assert_eq!(
        parse_menu_key("ctrl++g"),
        Some((KeyCode::Char('g'), mods(false, true, false, false, false)))
    );
    assert_eq!(
        parse_menu_key("ctrl+ +g"),
        Some((KeyCode::Char('g'), mods(false, true, false, false, false)))
    );
}

#[test]
fn menu_keys_that_name_no_key() {
    assert_eq!(parse_menu_key(""), None);
    assert_eq!(parse_menu_key("ctrl"), None);
    assert_eq!(parse_menu_key("ctrl+alt"), None);
    assert_eq!(parse_menu_key("a+b"), None);
    assert_eq!(parse_menu_key("ctrl+nokey"), None);
    assert_eq!(parse_menu_key("g+nokey"), None);
    assert_eq!(parse_menu_key("+"), None);
}

fn defaults() -> ReplSettings {
    ReplSettings {
        menu_key: (KeyCode::Char('g'), mods(false, true, false, false, false)),
        color_prompt: Color::White,
        color_builtin: Color::Yellow,
        color_local: Color::Green,
        color_remote: Color::Blue,
        color_unknown: Color::Red,
    }
}

#[test]
fn settings_fall_back_on_their_defaults() {
    assert_eq!(repl_settings_from_config(&PshConfig::default()), defaults());
    let empty = PshConfig {
        logging: None,
        shells: None,
        repl: Some(ReplSection { menu_key: None, colors: None }),
    };
    assert_eq!(repl_settings_from_config(&empty), defaults());
    let unreadable = PshConfig {
        logging: None,
        shells: None,
        repl: Some(ReplSection {
            menu_key: Some("ctrl+".to_string()),
            colors: Some(ReplColors {
                prompt: Some("mauve".to_string()),
                builtin: None,
                local: None,
                remote: None,
                unknown: None,
            }),
        }),
    };
    assert_eq!(repl_settings_from_config(&unreadable), defaults());
}

#[test]
fn settings_follow_the_configuration() {
    let cfg = PshConfig {
        logging: None,
        shells: None,
        repl: Some(ReplSection {
            menu_key: Some("alt+p".to_string()),
            colors: Some(ReplColors {
                prompt: Some("Cyan".to_string()),
                builtin: Some("magenta".to_string()),
                local: None,
                remote: Some("LightBlue".to_string()),
                unknown: Some("darkgray".to_string()),
            }),
        }),
    };
    assert_eq!(
        repl_settings_from_config(&cfg),
        ReplSettings {
            menu_key: (KeyCode::Char('p'), mods(false, false, true, false, false)),
            color_prompt: Color::Cyan,
            color_builtin: Color::Magenta,
            color_local: Color::Green,
            color_remote: Color::LightBlue,
            color_unknown: Color::DarkGray,
        }
    );
}

#[test]
fn mock_session_echoes() {
    assert_eq!(line_bytes("ls é"), "ls é".as_bytes().to_vec());
    assert_eq!(echo(&b"ping".to_vec()), ShellEvent::Output("ping".to_string()));
    assert_eq!(echo(&vec![0xc3]), ShellEvent::Output("\u{fffd}".to_string()));
    assert_eq!(shutdown_event(), ShellEvent::Exited("mock_shutdown".to_string()));
}

#[test]
fn a_command_for_a_dead_writer_fails_with_channel_closed() {
    assert_eq!(
        send_failure(&ShellCmd::WriteLine("x".to_string()), "channel closed"),
        SyncError::ChannelClosed { context: "cmd_tx write_line: channel closed".to_string() }
    );
    assert_eq!(
        send_failure(&ShellCmd::WriteBytes(vec![]), "c"),
        SyncError::ChannelClosed { context: "cmd_tx write_bytes: c".to_string() }
    );
    assert_eq!(
        send_failure(&ShellCmd::Resize(1, 2), "c"),
        SyncError::ChannelClosed { context: "cmd_tx resize: c".to_string() }
    );
    assert_eq!(
        send_failure(&ShellCmd::Shutdown, "c"),
        SyncError::ChannelClosed { context: "cmd_tx shutdown: c".to_string() }
    );
}
