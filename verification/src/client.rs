//! What a client library settles before it sends a request: the form in
//! which its user names a mode, a channel or an owner, turned into the form
//! that the agent takes.

use vstd::prelude::*;
use vstd::string::StrSliceExecFns;
use vstd::string::StringExecFns;
use crate::types::{
    FileOpenMode, FileOpenType, ProcessChannel, Redirection, RemotePOpenConfig, UserId,
};

verus! {

/// The configuration of a process whose streams are captured or not.
pub fn run_process(
    argv: Vec<String>,
    stdin: bool,
    stdout: bool,
    stderr: bool,
    executable: Option<String>,
    env: Option<Vec<(String, String)>>,
    cwd: Option<String>,
    setuid: Option<u32>,
    setgid: Option<u32>,
    setpgid: bool,
) -> (config: RemotePOpenConfig)
    ensures
        config.argv == argv,
        config.stdin.is_captured() == stdin,
        config.stdout.is_captured() == stdout,
        config.stderr.is_captured() == stderr,
        config.executable == executable,
        config.env == env,
        config.cwd == cwd,
        config.setuid == setuid,
        config.setgid == setgid,
        config.setpgid == setpgid,
{
    RemotePOpenConfig {
        argv,
        stdin: Redirection::from_capture(stdin),
        stdout: Redirection::from_capture(stdout),
        stderr: Redirection::from_capture(stderr),
        executable,
        env,
        cwd,
        setuid,
        setgid,
        setpgid,
    }
}

/// The channel with the number `channel`: 0 is the standard input, 1 the
/// standard output and 2 the standard error.
pub open spec fn channel_of(channel: i32) -> Option<ProcessChannel> {
    if channel == 0 {
        Some(ProcessChannel::Stdin)
    } else if channel == 1 {
        Some(ProcessChannel::Stdout)
    } else if channel == 2 {
        Some(ProcessChannel::Stderr)
    } else {
        None
    }
}

/// The channel that a client names by the number `channel`, or the message
/// for a number that names none.
pub fn get_process_channel(channel: i32) -> (r: Result<ProcessChannel, String>)
    ensures
        match channel_of(channel) {
            Some(found) => r matches Ok(named) && named == found,
            None => r matches Err(detail) && detail@ == "Invalid channel"@,
        },
{
    if channel == 0 {
        Ok(ProcessChannel::Stdin)
    } else if channel == 1 {
        Ok(ProcessChannel::Stdout)
    } else if channel == 2 {
        Ok(ProcessChannel::Stderr)
    } else {
        Err(String::from_str("Invalid channel"))
    }
}

/// The access mode that one character of a mode string selects, if it
/// selects one.
pub open spec fn mode_letter(c: char) -> Option<FileOpenMode> {
    if c == 'r' {
        Some(FileOpenMode::Read)
    } else if c == 'w' {
        Some(FileOpenMode::Write)
    } else if c == 'x' {
        Some(FileOpenMode::ExclusiveWrite)
    } else if c == 'a' {
        Some(FileOpenMode::Append)
    } else if c == '+' {
        Some(FileOpenMode::Update)
    } else {
        None
    }
}

/// The access mode that a mode string stands for: that of the last of its
/// characters that selects one, and reading where none does.
pub open spec fn mode_of(text: Seq<char>) -> FileOpenMode
    decreases text.len(),
{
    if text.len() == 0 {
        FileOpenMode::Read
    } else {
        match mode_letter(text.last()) {
            Some(mode) => mode,
            None => mode_of(text.drop_last()),
        }
    }
}

/// The data type that a mode string stands for: binary where it holds a
/// `b`, text where it does not.
pub open spec fn type_of(text: Seq<char>) -> FileOpenType {
    if text.contains('b') {
        FileOpenType::Binary
    } else {
        FileOpenType::Text
    }
}

/// The access mode and the data type that the mode string `mode_and_type`
/// stands for.
pub fn file_open(mode_and_type: &str) -> (r: (FileOpenMode, FileOpenType))
    ensures
        r.0 == mode_of(mode_and_type@),
        r.1 == type_of(mode_and_type@),
{
    let length = mode_and_type.unicode_len();
    let mut mode = FileOpenMode::Read;
    let mut binary = false;
    let mut i: usize = 0;
    while i < length
        invariant
            0 <= i <= length,
            length == mode_and_type@.len(),
            mode == mode_of(mode_and_type@.take(i as int)),
            binary == mode_and_type@.take(i as int).contains('b'),
        decreases length - i,
    {
        let c = mode_and_type.get_char(i);
        let ghost seen = mode_and_type@.take(i as int);
        let ghost next = mode_and_type@.take(i + 1);
        proof {
            assert(next.drop_last() =~= seen);
            if seen.contains('b') {
                let k = choose|k: int| 0 <= k < seen.len() && seen[k] == 'b';
                assert(next[k] == 'b');
            }
            if next.contains('b') && c != 'b' {
                let k = choose|k: int| 0 <= k < next.len() && next[k] == 'b';
                assert(seen[k] == 'b');
            }
        }
        if c == 'r' {
            mode = FileOpenMode::Read;
        } else if c == 'w' {
            mode = FileOpenMode::Write;
        } else if c == 'x' {
            mode = FileOpenMode::ExclusiveWrite;
        } else if c == 'a' {
            mode = FileOpenMode::Append;
        } else if c == '+' {
            mode = FileOpenMode::Update;
        }
        if c == 'b' {
            binary = true;
        }
        i = i + 1;
    }
    assert(mode_and_type@.take(i as int) =~= mode_and_type@);
    let file_type = if binary {
        FileOpenType::Binary
    } else {
        FileOpenType::Text
    };
    (mode, file_type)
}

/// The value of a decimal digit.
pub open spec fn digit_of(c: char) -> Option<nat> {
    if c == '0' {
        Some(0)
    } else if c == '1' {
        Some(1)
    } else if c == '2' {
        Some(2)
    } else if c == '3' {
        Some(3)
    } else if c == '4' {
        Some(4)
    } else if c == '5' {
        Some(5)
    } else if c == '6' {
        Some(6)
    } else if c == '7' {
        Some(7)
    } else if c == '8' {
        Some(8)
    } else if c == '9' {
        Some(9)
    } else {
        None
    }
}

/// The number that a sequence of decimal digits writes; nothing where a
/// character is no digit.
pub open spec fn digits_value(text: Seq<char>) -> Option<nat>
    decreases text.len(),
{
    if text.len() == 0 {
        Some(0)
    } else {
        match (digits_value(text.drop_last()), digit_of(text.last())) {
            (Some(value), Some(digit)) => Some(10 * value + digit),
            _ => None,
        }
    }
}

/// The unsigned number that `text` writes in decimal: an optional plus
/// sign, then at least one digit and nothing else, for a number that fits
/// in thirty-two bits.
pub open spec fn number_of(text: Seq<char>) -> Option<u32> {
    let digits = if text.len() > 0 && text[0] == '+' {
        text.skip(1)
    } else {
        text
    };
    if digits.len() == 0 {
        None
    } else {
        match digits_value(digits) {
            Some(value) => if value <= u32::MAX {
                Some(value as u32)
            } else {
                None
            },
            None => None,
        }
    }
}

/// A longer sequence of digits writes no smaller a number.
proof fn lemma_digits_value_grows(text: Seq<char>, k: int)
    requires
        0 <= k <= text.len(),
        digits_value(text) is Some,
    ensures
        digits_value(text.take(k)) is Some,
        digits_value(text.take(k))->Some_0 <= digits_value(text)->Some_0,
    decreases text.len(),
{
    if k == text.len() {
        assert(text.take(k) =~= text);
    } else {
        lemma_digits_value_grows(text.drop_last(), k);
        assert(text.drop_last().take(k) =~= text.take(k));
    }
}

fn digit(c: char) -> (r: Option<u64>)
    ensures
        match digit_of(c) {
            Some(value) => r == Some(value as u64) && value < 10,
            None => r is None,
        },
{
    if c == '0' {
        Some(0)
    } else if c == '1' {
        Some(1)
    } else if c == '2' {
        Some(2)
    } else if c == '3' {
        Some(3)
    } else if c == '4' {
        Some(4)
    } else if c == '5' {
        Some(5)
    } else if c == '6' {
        Some(6)
    } else if c == '7' {
        Some(7)
    } else if c == '8' {
        Some(8)
    } else if c == '9' {
        Some(9)
    } else {
        None
    }
}

/// Reads `text` as an unsigned decimal number.
pub fn parse_number(text: &str) -> (r: Option<u32>)
    ensures
        r == number_of(text@),
{
    let length = text.unicode_len();
    if length == 0 {
        return None;
    }
    let start: usize = if text.get_char(0) == '+' {
        1
    } else {
        0
    };
    if start == length {
        return None;
    }
    let ghost digits = text@.skip(start as int);
    let mut value: u64 = 0;
    let mut i: usize = start;
    assert(text@.skip(0) =~= text@);
    while i < length
        invariant
            start <= i <= length,
            length == text@.len(),
            digits == text@.skip(start as int),
            digits.len() > 0,
            number_of(text@) == (match digits_value(digits) {
                Some(value) => if value <= u32::MAX {
                    Some(value as u32)
                } else {
                    None
                },
                None => None,
            }),
            digits_value(digits.take(i - start)) == Some(value as nat),
            value <= u32::MAX,
        decreases length - i,
    {
        let c = text.get_char(i);
        assert(digits.take(i - start + 1).drop_last() =~= digits.take(i - start));
        match digit(c) {
            None => {
                proof {
                    if digits_value(digits) is Some {
                        lemma_digits_value_grows(digits, i - start + 1);
                    }
                }
                return None;
            },
            Some(d) => {
                let grown = value * 10 + d;
                if grown > u32::MAX as u64 {
                    proof {
                        if digits_value(digits) is Some {
                            lemma_digits_value_grows(digits, i - start + 1);
                        }
                    }
                    return None;
                }
                value = grown;
            },
        }
        i = i + 1;
    }
    assert(digits.take(i - start) =~= digits);
    Some(value as u32)
}

/// The user or group that `text` names: the one with that number where
/// `text` reads as an unsigned decimal number, else the one with that name.
pub fn chown(text: String) -> (r: UserId)
    ensures
        match number_of(text@) {
            Some(id) => r == UserId::Id(id),
            None => r == UserId::Name(text),
        },
{
    match parse_number(text.as_str()) {
        Some(id) => UserId::Id(id),
        None => UserId::Name(text),
    }
}

} // verus!
