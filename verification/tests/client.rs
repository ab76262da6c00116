use bh_agent::client::{chown, file_open, get_process_channel, parse_number, run_process};
use bh_agent::types::{FileOpenMode, FileOpenType, ProcessChannel, Redirection, UserId};

#[test]
fn mode_strings() {
    assert_eq!(file_open("r"), (FileOpenMode::Read, FileOpenType::Text));
    assert_eq!(file_open("rb"), (FileOpenMode::Read, FileOpenType::Binary));
    assert_eq!(file_open("w"), (FileOpenMode::Write, FileOpenType::Text));
    assert_eq!(file_open("a"), (FileOpenMode::Append, FileOpenType::Text));
    assert_eq!(file_open("x"), (FileOpenMode::ExclusiveWrite, FileOpenType::Text));
    assert_eq!(file_open("wb"), (FileOpenMode::Write, FileOpenType::Binary));
    assert_eq!(file_open("r+"), (FileOpenMode::Update, FileOpenType::Text));
    assert_eq!(file_open("rb+"), (FileOpenMode::Update, FileOpenType::Binary));
    assert_eq!(file_open("r+b"), (FileOpenMode::Update, FileOpenType::Binary));
}

#[test]
fn mode_string_defaults_and_last_letter() {
    assert_eq!(file_open(""), (FileOpenMode::Read, FileOpenType::Text));
    assert_eq!(file_open("b"), (FileOpenMode::Read, FileOpenType::Binary));
    assert_eq!(file_open("t"), (FileOpenMode::Read, FileOpenType::Text));
    assert_eq!(file_open("rw"), (FileOpenMode::Write, FileOpenType::Text));
    assert_eq!(file_open("+w"), (FileOpenMode::Write, FileOpenType::Text));
    assert_eq!(file_open("w\u{e9}b"), (FileOpenMode::Write, FileOpenType::Binary));
}

#[test]
fn channel_numbers() {
    assert_eq!(get_process_channel(0), Ok(ProcessChannel::Stdin));
    assert_eq!(get_process_channel(1), Ok(ProcessChannel::Stdout));
    assert_eq!(get_process_channel(2), Ok(ProcessChannel::Stderr));
    assert_eq!(get_process_channel(3), Err("Invalid channel".to_string()));
    assert_eq!(get_process_channel(-1), Err("Invalid channel".to_string()));
}

#[test]
fn numbers_parse_like_the_standard_library() {
    let samples = [
        "0", "7", "007", "42", "+42", "4294967295", "4294967296", "+4294967295", "99999999999999999999",
        "", "+", "-", "-1", "+-1", "++1", " 1", "1 ", "1a", "a1", "0x10", "1_000", "nobody", "\u{661}",
        "12\u{e9}",
    ];
    for text in samples {
        assert_eq!(parse_number(text), text.parse::<u32>().ok(), "for {:?}", text);
    }
}

#[test]
fn numbers_have_exact_values() {
    assert_eq!(parse_number("65534"), Some(65534));
    assert_eq!(parse_number("+0"), Some(0));
    assert_eq!(parse_number("4294967295"), Some(u32::MAX));
    assert_eq!(parse_number("4294967296"), None);
}

#[test]
fn owner_is_a_number_or_a_name() {
    assert_eq!(chown("1000".to_string()), UserId::Id(1000));
    assert_eq!(chown("+5".to_string()), UserId::Id(5));
    assert_eq!(chown("nobody".to_string()), UserId::Name("nobody".to_string()));
    assert_eq!(chown("".to_string()), UserId::Name("".to_string()));
    assert_eq!(chown("-1".to_string()), UserId::Name("-1".to_string()));
    assert_eq!(chown("4294967296".to_string()), UserId::Name("4294967296".to_string()));
}

#[test]
fn run_process_builds_the_configuration() {
    let config = run_process(
        vec!["ls".to_string(), "-l".to_string()],
        true,
        false,
        true,
        Some("/bin/ls".to_string()),
        Some(vec![("LANG".to_string(), "C".to_string())]),
        Some("/tmp".to_string()),
        Some(1),
        Some(2),
        true,
    );
    assert_eq!(config.argv, vec!["ls".to_string(), "-l".to_string()]);
    assert_eq!(config.stdin, Redirection::Save);
    assert_eq!(config.stdout, Redirection::Inherit);
    assert_eq!(config.stderr, Redirection::Save);
    assert_eq!(config.executable, Some("/bin/ls".to_string()));
    assert_eq!(config.env, Some(vec![("LANG".to_string(), "C".to_string())]));
    assert_eq!(config.cwd, Some("/tmp".to_string()));
    assert_eq!(config.setuid, Some(1));
    assert_eq!(config.setgid, Some(2));
    assert!(config.setpgid);
}
