use atri_bot::cli::{help_text, parse_command, CliCommand};
use atri_bot::text::{contains, parse_u8, same_text, starts_with, trim_end, white_space};

#[test]
fn parse_small_numbers() {
    assert_eq!(parse_u8("0"), Some(0));
    assert_eq!(parse_u8("255"), Some(255));
    assert_eq!(parse_u8("256"), None);
    assert_eq!(parse_u8("007"), Some(7));
    assert_eq!(parse_u8("+7"), Some(7));
    assert_eq!(parse_u8("+"), None);
    assert_eq!(parse_u8(""), None);
    assert_eq!(parse_u8("-1"), None);
    assert_eq!(parse_u8("1a"), None);
    assert_eq!(parse_u8("99999999999"), None);
    assert_eq!(parse_u8("٣"), None);
    for s in ["0", "1", "42", "100", "255", "+3", "256", "", "x", "00000000000000000009"] {
        assert_eq!(parse_u8(s), s.parse::<u8>().ok(), "{}", s);
    }
}

#[test]
fn text_search() {
    assert!(contains("你好亚托莉呀", "亚托莉"));
    assert!(!contains("你好", "亚托莉"));
    assert!(contains("abc", ""));
    assert!(contains("abc", "abc"));
    assert!(!contains("ab", "abc"));
    assert!(contains("aab", "ab"));
    assert!(starts_with("plugin load x", "plugin"));
    assert!(!starts_with("plug", "plugin"));
    assert!(same_text("00000", "00000"));
    assert!(!same_text("0000", "00000"));
    assert!(!same_text("00001", "00000"));
}

#[test]
fn trimming_matches_std() {
    for s in ["a \t\n", "  ", "", "x\u{3000}", "x\u{200B}", "a b ", "\u{85}z\u{85}"] {
        assert_eq!(trim_end(s), s.trim_end(), "{:?}", s);
    }
    for c in ['\t', ' ', '\u{2000}', '\u{200A}', '\u{200B}', 'a', '\u{FEFF}', '\u{3000}'] {
        assert_eq!(white_space(c), c.is_whitespace(), "{:?}", c);
    }
}

#[test]
fn command_line() {
    assert!(matches!(parse_command("\n", "plugin"), CliCommand::Prompt));
    assert!(matches!(parse_command("help\r\n", "plugin"), CliCommand::Help));
    assert!(matches!(parse_command("?", "plugin"), CliCommand::Help));
    assert!(matches!(parse_command("h", "plugin"), CliCommand::Help));
    for w in ["exit", "quit", "stop", "q\n"] {
        assert!(matches!(parse_command(w, "plugin"), CliCommand::Exit));
    }
    assert!(matches!(parse_command("plugin list \n", "plugin"), CliCommand::Plugin(s) if s == "plugin list"));
    assert!(matches!(parse_command(" help", "plugin"), CliCommand::Unknown(s) if s == " help"));
    assert!(matches!(parse_command("helpme", "plugin"), CliCommand::Unknown(s) if s == "helpme"));
}

#[test]
fn help_lines() {
    assert_eq!(help_text(&["help: 显示本帮助", "exit: 退出程序"]), "\nhelp: 显示本帮助\nexit: 退出程序");
    assert_eq!(help_text(&["one"]), "\none");
    assert_eq!(help_text(&[]), "");
}
