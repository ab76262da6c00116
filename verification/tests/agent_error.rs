use bh_agent::agent_error::{push_decimal, AgentError};

#[test]
fn messages() {
    assert_eq!(AgentError::InvalidEnvironmentId.message(), "Invalid environment ID");
    assert_eq!(AgentError::IoError("disk full".to_string()).message(), "IO Error: disk full");
    assert_eq!(AgentError::InvalidFileDescriptor.message(), "Invalid file ID");
    assert_eq!(AgentError::InvalidSeekWhence.message(), "Invalid seek whence");
    assert_eq!(AgentError::LockError.message(), "Lock Error");
    assert_eq!(
        AgentError::ProcessStartFailure("no such file".to_string()).message(),
        "Failed to start process: no such file"
    );
    assert_eq!(AgentError::InvalidProcessId.message(), "Invalid process ID");
    assert_eq!(AgentError::ProcessChannelNotPiped.message(), "Process channel not piped");
    assert_eq!(AgentError::UserNotFound("bob".to_string()).message(), "User bob not found");
    assert_eq!(AgentError::GroupNotFound("staff".to_string()).message(), "Group staff not found");
    assert_eq!(AgentError::Errno(13).message(), "Unix Error: 13");
    assert_eq!(AgentError::UnsupportedPlatform.message(), "Unsupported platform");
    assert_eq!(AgentError::Inconsistent.message(), "The server state is inconsistent");
    assert_eq!(AgentError::Unknown.message(), "Unknown Error");
}

#[test]
fn decimal_notation_matches_the_standard_library() {
    for value in [0, 1, 9, 10, 11, 99, 100, 12345, i32::MAX, -1, -10, -2147483647, i32::MIN] {
        let mut text = String::from("n=");
        push_decimal(&mut text, value);
        assert_eq!(text, format!("n={}", value));
    }
}

#[test]
fn errno_becomes_an_errno_error() {
    assert_eq!(AgentError::from_errno(2), AgentError::Errno(2));
    assert_eq!(AgentError::from_errno(-5).message(), "Unix Error: -5");
}

#[test]
fn io_error_becomes_an_io_error_with_its_description() {
    let error = std::io::Error::new(std::io::ErrorKind::NotFound, "gone");
    assert_eq!(AgentError::from(error), AgentError::IoError("gone".to_string()));
}

#[test]
fn poisoned_lock_becomes_a_lock_error() {
    let poisoned = std::sync::PoisonError::new(5);
    assert_eq!(AgentError::from(poisoned), AgentError::LockError);
}

#[test]
fn lock_guards_become_lock_errors() {
    let lock = std::sync::RwLock::new(5);
    assert_eq!(AgentError::from(lock.read().unwrap()), AgentError::LockError);
    assert_eq!(AgentError::from(lock.write().unwrap()), AgentError::LockError);
}
