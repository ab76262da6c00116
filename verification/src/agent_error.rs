//! The errors an agent reports to its clients.

use vstd::prelude::*;
use vstd::std_specs::convert::FromSpecImpl;
use vstd::string::StringExecFns;

verus! {

/// Every way in which a request to the agent can fail.
#[derive(Debug, Clone, PartialEq, Eq)]
pub enum AgentError {
    InvalidEnvironmentId,
    IoError(String),
    InvalidFileDescriptor,
    InvalidSeekWhence,
    LockError,
    ProcessStartFailure(String),
    InvalidProcessId,
    ProcessChannelNotPiped,
    UserNotFound(String),
    GroupNotFound(String),
    Errno(i32),
    UnsupportedPlatform,
    Inconsistent,
    Unknown,
}

/// The character that writes the digit `d`.
pub open spec fn digit_char(d: int) -> char {
    if d == 0 {
        '0'
    } else if d == 1 {
        '1'
    } else if d == 2 {
        '2'
    } else if d == 3 {
        '3'
    } else if d == 4 {
        '4'
    } else if d == 5 {
        '5'
    } else if d == 6 {
        '6'
    } else if d == 7 {
        '7'
    } else if d == 8 {
        '8'
    } else {
        '9'
    }
}

/// The decimal digits of `n`, most significant first, without leading zeros.
pub open spec fn decimal_digits(n: nat) -> Seq<char>
    decreases n,
{
    if n < 10 {
        seq![digit_char(n as int)]
    } else {
        decimal_digits(n / 10).push(digit_char((n % 10) as int))
    }
}

/// The decimal notation of `v`, with a minus sign when it is negative.
pub open spec fn decimal(v: int) -> Seq<char> {
    if v < 0 {
        seq!['-'] + decimal_digits((-v) as nat)
    } else {
        decimal_digits(v as nat)
    }
}

fn push_digit(s: &mut String, d: u64)
    requires
        d < 10,
    ensures
        final(s)@ == old(s)@.push(digit_char(d as int)),
{
    proof {
        reveal_strlit("0");
        reveal_strlit("1");
        reveal_strlit("2");
        reveal_strlit("3");
        reveal_strlit("4");
        reveal_strlit("5");
        reveal_strlit("6");
        reveal_strlit("7");
        reveal_strlit("8");
        reveal_strlit("9");
    }
    let digit = if d == 0 {
        "0"
    } else if d == 1 {
        "1"
    } else if d == 2 {
        "2"
    } else if d == 3 {
        "3"
    } else if d == 4 {
        "4"
    } else if d == 5 {
        "5"
    } else if d == 6 {
        "6"
    } else if d == 7 {
        "7"
    } else if d == 8 {
        "8"
    } else {
        "9"
    };
    s.append(digit);
}

fn push_digits(s: &mut String, n: u64)
    ensures
        final(s)@ == old(s)@ + decimal_digits(n as nat),
    decreases n,
{
    if n >= 10 {
        push_digits(s, n / 10);
    }
    push_digit(s, n % 10);
}

/// Appends the decimal notation of `v` to `s`.
pub fn push_decimal(s: &mut String, v: i32)
    ensures
        final(s)@ == old(s)@ + decimal(v as int),
{
    if v < 0 {
        proof {
            reveal_strlit("-");
        }
        s.append("-");
        let magnitude: u64 = (-(v as i64)) as u64;
        push_digits(s, magnitude);
    } else {
        push_digits(s, v as u64);
    }
}

impl AgentError {
    /// The text of the message that describes this error.
    pub open spec fn message_text(self) -> Seq<char> {
        match self {
            AgentError::InvalidEnvironmentId => "Invalid environment ID"@,
            AgentError::IoError(detail) => "IO Error: "@ + detail@,
            AgentError::InvalidFileDescriptor => "Invalid file ID"@,
            AgentError::InvalidSeekWhence => "Invalid seek whence"@,
            AgentError::LockError => "Lock Error"@,
            AgentError::ProcessStartFailure(detail) => "Failed to start process: "@ + detail@,
            AgentError::InvalidProcessId => "Invalid process ID"@,
            AgentError::ProcessChannelNotPiped => "Process channel not piped"@,
            AgentError::UserNotFound(name) => "User "@ + name@ + " not found"@,
            AgentError::GroupNotFound(name) => "Group "@ + name@ + " not found"@,
            AgentError::Errno(code) => "Unix Error: "@ + decimal(code as int),
            AgentError::UnsupportedPlatform => "Unsupported platform"@,
            AgentError::Inconsistent => "The server state is inconsistent"@,
            AgentError::Unknown => "Unknown Error"@,
        }
    }

    /// The message that describes this error to a client.
    pub fn message(&self) -> (text: String)
        ensures
            text@ == self.message_text(),
    {
        match self {
            AgentError::InvalidEnvironmentId => String::from_str("Invalid environment ID"),
            AgentError::IoError(detail) => String::from_str("IO Error: ").concat(detail.as_str()),
            AgentError::InvalidFileDescriptor => String::from_str("Invalid file ID"),
            AgentError::InvalidSeekWhence => String::from_str("Invalid seek whence"),
            AgentError::LockError => String::from_str("Lock Error"),
            AgentError::ProcessStartFailure(detail) => String::from_str(
                "Failed to start process: ",
            ).concat(detail.as_str()),
            AgentError::InvalidProcessId => String::from_str("Invalid process ID"),
            AgentError::ProcessChannelNotPiped => String::from_str("Process channel not piped"),
            AgentError::UserNotFound(name) => String::from_str("User ").concat(
                name.as_str(),
            ).concat(" not found"),
            AgentError::GroupNotFound(name) => String::from_str("Group ").concat(
                name.as_str(),
            ).concat(" not found"),
            AgentError::Errno(code) => {
                let mut text = String::from_str("Unix Error: ");
                push_decimal(&mut text, *code);
                text
            },
            AgentError::UnsupportedPlatform => String::from_str("Unsupported platform"),
            AgentError::Inconsistent => String::from_str("The server state is inconsistent"),
            AgentError::Unknown => String::from_str("Unknown Error"),
        }
    }

    /// The error that stands for the operating-system error number `errno`.
    pub fn from_errno(errno: i32) -> (e: Self)
        ensures
            e == AgentError::Errno(errno),
    {
        AgentError::Errno(errno)
    }
}

/// `std::sync::PoisonError`, the error of a lock whose holder panicked.
#[verifier::external_type_specification]
#[verifier::external_body]
#[verifier::reject_recursive_types(T)]
pub struct ExPoisonError<T>(std::sync::PoisonError<T>);

/// `std::io::Error`, the error of an operating-system call.
#[verifier::external_type_specification]
#[verifier::external_body]
pub struct ExIoError(std::io::Error);

/// A lock whose holder panicked is reported as a lock error.
impl<T> From<std::sync::PoisonError<T>> for AgentError {
    fn from(_poisoned: std::sync::PoisonError<T>) -> (e: Self) {
        AgentError::LockError
    }
}

impl<T> FromSpecImpl<std::sync::PoisonError<T>> for AgentError {
    open spec fn obeys_from_spec() -> bool {
        true
    }

    open spec fn from_spec(_poisoned: std::sync::PoisonError<T>) -> Self {
        AgentError::LockError
    }
}

/// `std::sync::RwLockReadGuard`, the guard of a lock held for reading.
#[verifier::external_type_specification]
#[verifier::external_body]
#[verifier::reject_recursive_types(T)]
pub struct ExRwLockReadGuard<'a, T: ?Sized>(std::sync::RwLockReadGuard<'a, T>);

/// `std::sync::RwLockWriteGuard`, the guard of a lock held for writing.
#[verifier::external_type_specification]
#[verifier::external_body]
#[verifier::reject_recursive_types(T)]
pub struct ExRwLockWriteGuard<'a, T: ?Sized + 'a>(std::sync::RwLockWriteGuard<'a, T>);

/// A read guard that is handed over as an error is reported as a lock
/// error.
impl<T> From<std::sync::RwLockReadGuard<'_, T>> for AgentError {
    fn from(_guard: std::sync::RwLockReadGuard<'_, T>) -> (e: Self) {
        AgentError::LockError
    }
}

impl<T> FromSpecImpl<std::sync::RwLockReadGuard<'_, T>> for AgentError {
    open spec fn obeys_from_spec() -> bool {
        true
    }

    open spec fn from_spec(_guard: std::sync::RwLockReadGuard<'_, T>) -> Self {
        AgentError::LockError
    }
}

/// A write guard that is handed over as an error is reported as a lock
/// error.
impl<T> From<std::sync::RwLockWriteGuard<'_, T>> for AgentError {
    fn from(_guard: std::sync::RwLockWriteGuard<'_, T>) -> (e: Self) {
        AgentError::LockError
    }
}

impl<T> FromSpecImpl<std::sync::RwLockWriteGuard<'_, T>> for AgentError {
    open spec fn obeys_from_spec() -> bool {
        true
    }

    open spec fn from_spec(_guard: std::sync::RwLockWriteGuard<'_, T>) -> Self {
        AgentError::LockError
    }
}

/// A failure of the operating system is reported with its own description.
impl From<std::io::Error> for AgentError {
    fn from(error: std::io::Error) -> (e: Self)
        ensures
            e matches AgentError::IoError(detail)
                && vstd::string::to_string_from_display_ensures::<std::io::Error>(&error, detail),
    {
        AgentError::IoError(error.to_string())
    }
}

impl FromSpecImpl<std::io::Error> for AgentError {
    open spec fn obeys_from_spec() -> bool {
        false
    }

    open spec fn from_spec(error: std::io::Error) -> Self {
        AgentError::IoError(
            choose|detail: String|
                vstd::string::to_string_from_display_ensures::<std::io::Error>(&error, detail),
        )
    }
}

} // verus!
