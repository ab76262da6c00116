use bh_agent::agent_error::AgentError;
use bh_agent::process::{ExitStatus, WaitStep};
use bh_agent::state::{BhAgentState, FileRef};
use bh_agent::types::{
    FileOpenMode, FileOpenType, ProcessChannel, Redirection, RemotePOpenConfig,
};

type State = BhAgentState<String, String>;

fn config(argv: &[&str], stdin: bool, stdout: bool, stderr: bool) -> RemotePOpenConfig {
    RemotePOpenConfig {
        argv: argv.iter().map(|s| s.to_string()).collect(),
        stdin: Redirection::from_capture(stdin),
        stdout: Redirection::from_capture(stdout),
        stderr: Redirection::from_capture(stderr),
        ..RemotePOpenConfig::default()
    }
}

fn open(state: &mut State, name: &str, mode: FileOpenMode) -> u64 {
    state
        .open_path(Ok(name.to_string()), mode, FileOpenType::Binary)
        .expect("a file that was opened gets a handle")
}

#[test]
fn file_handles_count_up_from_zero() {
    let mut state = State::new();
    assert_eq!(open(&mut state, "a", FileOpenMode::Read), 0);
    assert_eq!(open(&mut state, "b", FileOpenMode::Write), 1);
    assert_eq!(open(&mut state, "c", FileOpenMode::Append), 2);
}

#[test]
fn a_closed_handle_is_not_reissued() {
    let mut state = State::new();
    let first = open(&mut state, "a", FileOpenMode::Read);
    assert_eq!(state.close_file(&first), Ok(()));
    let second = open(&mut state, "b", FileOpenMode::Read);
    assert_ne!(first, second);
    assert_eq!(second, 1);
}

#[test]
fn failed_open_is_an_io_error_and_takes_no_handle() {
    let mut state = State::new();
    let r = state.open_path(
        Err("File exists (os error 17)".to_string()),
        FileOpenMode::ExclusiveWrite,
        FileOpenType::Binary,
    );
    assert_eq!(r, Err(AgentError::IoError("File exists (os error 17)".to_string())));
    assert_eq!(open(&mut state, "a", FileOpenMode::Read), 0);
}

#[test]
fn lookup_finds_the_registered_file() {
    let mut state = State::new();
    let a = open(&mut state, "a", FileOpenMode::Read);
    let b = open(&mut state, "b", FileOpenMode::Read);
    match state.lookup_file_or_stream(&b) {
        Ok(FileRef::File(file)) => assert_eq!(file, "b"),
        _ => panic!("an open file is routed to its file object"),
    }
    match state.lookup_file_or_stream(&a) {
        Ok(FileRef::File(file)) => assert_eq!(file, "a"),
        _ => panic!("an open file is routed to its file object"),
    }
    assert!(matches!(state.lookup_file_or_stream(&7), Err(AgentError::InvalidFileDescriptor)));
}

#[test]
fn closed_file_fails_every_operation() {
    let mut state = State::new();
    let fd = open(&mut state, "a", FileOpenMode::Update);
    assert_eq!(state.is_file_closed(&fd), Ok(false));
    assert_eq!(state.close_file(&fd), Ok(()));
    assert_eq!(state.close_file(&fd), Err(AgentError::InvalidFileDescriptor));
    assert!(matches!(state.lookup_file_or_stream(&fd), Err(AgentError::InvalidFileDescriptor)));
    assert_eq!(state.file_type(&fd), Err(AgentError::InvalidFileDescriptor));
    assert_eq!(
        state.file_has_any_mode(&fd, &vec![FileOpenMode::Update]),
        Err(AgentError::InvalidFileDescriptor)
    );
    assert_eq!(state.do_mut_operation(&fd, |_| 1), Err(AgentError::InvalidFileDescriptor));
    assert_eq!(state.is_file_closed(&fd), Ok(true));
    open(&mut state, "b", FileOpenMode::Read);
    state.run_command(&config(&["true"], true, true, true), Ok("p".to_string())).unwrap();
    assert!(matches!(state.lookup_file_or_stream(&fd), Err(AgentError::InvalidFileDescriptor)));
    assert_eq!(state.file_type(&fd), Err(AgentError::InvalidFileDescriptor));
}

#[test]
fn file_mode_and_type_are_recorded() {
    let mut state = State::new();
    let fd = state
        .open_path(Ok("a".to_string()), FileOpenMode::Append, FileOpenType::Text)
        .unwrap();
    assert_eq!(state.file_type(&fd), Ok(FileOpenType::Text));
    assert_eq!(state.file_has_any_mode(&fd, &vec![FileOpenMode::Read, FileOpenMode::Update]), Ok(false));
    assert_eq!(state.file_has_any_mode(&fd, &vec![FileOpenMode::Write, FileOpenMode::Append]), Ok(true));
    assert_eq!(state.file_has_any_mode(&fd, &vec![]), Ok(false));
}

#[test]
fn run_command_registers_one_handle_per_captured_stream() {
    let mut state = State::new();
    let file = open(&mut state, "a", FileOpenMode::Read);
    assert_eq!(file, 0);
    let p = state.run_command(&config(&["cat"], true, false, true), Ok("cat".to_string()));
    assert_eq!(p, Ok(0));
    assert_eq!(state.get_process_channel(&0, ProcessChannel::Stdin), Ok(1));
    assert_eq!(state.get_process_channel(&0, ProcessChannel::Stdout), Err(AgentError::InvalidProcessId));
    assert_eq!(state.get_process_channel(&0, ProcessChannel::Stderr), Ok(2));
    assert_eq!(open(&mut state, "b", FileOpenMode::Read), 3);
}

#[test]
fn stderr_has_a_handle_of_its_own() {
    let mut state = State::new();
    let p = state.run_command(&config(&["sh"], false, true, true), Ok("sh".to_string())).unwrap();
    let out = state.get_process_channel(&p, ProcessChannel::Stdout).unwrap();
    let err = state.get_process_channel(&p, ProcessChannel::Stderr).unwrap();
    assert_eq!((out, err), (0, 1));
    match state.lookup_file_or_stream(&err) {
        Ok(FileRef::Stream { process, channel }) => {
            assert_eq!(process, "sh");
            assert_eq!(channel, ProcessChannel::Stderr);
        }
        _ => panic!("the handle of standard error is routed to standard error"),
    }
    match state.lookup_file_or_stream(&out) {
        Ok(FileRef::Stream { process, channel }) => {
            assert_eq!(process, "sh");
            assert_eq!(channel, ProcessChannel::Stdout);
        }
        _ => panic!("the handle of standard output is routed to standard output"),
    }
}

#[test]
fn stream_handles_have_fixed_mode_and_type() {
    let mut state = State::new();
    let p = state.run_command(&config(&["sh"], true, true, true), Ok("sh".to_string())).unwrap();
    let stdin = state.get_process_channel(&p, ProcessChannel::Stdin).unwrap();
    let stdout = state.get_process_channel(&p, ProcessChannel::Stdout).unwrap();
    let stderr = state.get_process_channel(&p, ProcessChannel::Stderr).unwrap();
    assert_eq!(state.file_has_any_mode(&stdin, &vec![FileOpenMode::Write]), Ok(true));
    assert_eq!(state.file_has_any_mode(&stdout, &vec![FileOpenMode::Read]), Ok(true));
    assert_eq!(state.file_has_any_mode(&stderr, &vec![FileOpenMode::Read]), Ok(true));
    for fd in [stdin, stdout, stderr] {
        assert_eq!(state.file_type(&fd), Ok(FileOpenType::Binary));
    }
}

#[test]
fn stream_handle_is_reported_closed_and_cannot_be_closed() {
    let mut state = State::new();
    let p = state.run_command(&config(&["sh"], false, true, false), Ok("sh".to_string())).unwrap();
    let out = state.get_process_channel(&p, ProcessChannel::Stdout).unwrap();
    assert_eq!(state.is_file_closed(&out), Ok(true));
    assert_eq!(state.close_file(&out), Err(AgentError::InvalidFileDescriptor));
    assert_eq!(state.get_process_channel(&p, ProcessChannel::Stdout), Ok(out));
    assert!(matches!(state.lookup_file_or_stream(&out), Ok(FileRef::Stream { .. })));
}

#[test]
fn process_channel_is_the_same_on_every_call() {
    let mut state = State::new();
    let p = state.run_command(&config(&["sh"], true, true, false), Ok("sh".to_string())).unwrap();
    let first = state.get_process_channel(&p, ProcessChannel::Stdout);
    let file = open(&mut state, "a", FileOpenMode::Read);
    state.run_command(&config(&["ls"], true, true, true), Ok("ls".to_string())).unwrap();
    state.close_file(&file).unwrap();
    let second = state.get_process_channel(&p, ProcessChannel::Stdout);
    assert_eq!(first, Ok(1));
    assert_eq!(first, second);
}

#[test]
fn run_command_with_empty_argv_fails() {
    let mut state = State::new();
    let r = state.run_command(&config(&[], false, true, false), Ok("none".to_string()));
    assert_eq!(r, Err(AgentError::ProcessStartFailure("argv must not be empty".to_string())));
    assert_eq!(state.get_process_ids(), Vec::<u64>::new());
    assert_eq!(open(&mut state, "a", FileOpenMode::Read), 0);
}

#[test]
fn failed_spawn_is_a_process_start_failure() {
    let mut state = State::new();
    let r = state.run_command(
        &config(&["/nonexistent"], false, true, false),
        Err("No such file or directory (os error 2)".to_string()),
    );
    assert_eq!(
        r,
        Err(AgentError::ProcessStartFailure("No such file or directory (os error 2)".to_string()))
    );
    assert_eq!(state.run_command(&config(&["true"], false, false, false), Ok("t".to_string())), Ok(0));
}

#[test]
fn process_ids_list_every_started_process() {
    let mut state = State::new();
    assert_eq!(state.get_process_ids(), Vec::<u64>::new());
    for name in ["a", "b", "c"] {
        state.run_command(&config(&[name], false, false, false), Ok(name.to_string())).unwrap();
    }
    assert_eq!(state.get_process_ids(), vec![0, 1, 2]);
    assert_eq!(state.process(&1).map(|p| p.as_str()), Ok("b"));
    assert!(matches!(state.process(&3), Err(AgentError::InvalidProcessId)));
}

#[test]
fn poll_normalizes_the_exit_status() {
    let mut state = State::new();
    let p = state.run_command(&config(&["true"], false, false, false), Ok("t".to_string())).unwrap();
    assert_eq!(state.process_poll(&p, None), Ok(None));
    assert_eq!(state.process_poll(&p, Some(ExitStatus::Exited(3))), Ok(Some(3)));
    assert_eq!(state.process_poll(&p, Some(ExitStatus::Signaled(9))), Ok(Some(9)));
    assert_eq!(state.process_poll(&p, Some(ExitStatus::Other(-1))), Ok(Some(4294967295)));
    assert_eq!(state.process_poll(&p, Some(ExitStatus::Undetermined)), Err(AgentError::Unknown));
    assert_eq!(state.process_exit_code(&p, Some(ExitStatus::Exited(0))), Ok(Some(0)));
    assert_eq!(state.process_exit_code(&p, None), Ok(None));
    assert_eq!(state.process_poll(&(p + 1), None), Err(AgentError::InvalidProcessId));
    assert_eq!(state.process_exit_code(&(p + 1), None), Err(AgentError::InvalidProcessId));
}

#[test]
fn wait_on_an_unknown_process_fails() {
    let state = State::new();
    assert_eq!(state.process_wait(&0, None, 0, Some(200)), Err(AgentError::InvalidProcessId));
}

#[test]
fn wait_times_out_after_two_intervals_of_two_hundred_milliseconds() {
    let mut state = State::new();
    let p = state.run_command(&config(&["sleep", "2"], false, false, false), Ok("s".to_string())).unwrap();
    let first = state.process_wait(&p, None, 0, Some(200));
    assert_eq!(first, Ok(WaitStep::Sleep { millis: 100, waited: 100 }));
    let second = state.process_wait(&p, None, 100, Some(200));
    assert_eq!(second, Ok(WaitStep::Done { timed_out: true }));
    let later = state.process_wait(&p, Some(ExitStatus::Exited(0)), 0, None);
    assert_eq!(later, Ok(WaitStep::Done { timed_out: false }));
}

#[test]
fn do_mut_operation_applies_the_operation_to_the_target() {
    let mut state = State::new();
    let fd = open(&mut state, "data", FileOpenMode::Read);
    let p = state.run_command(&config(&["sh"], true, false, false), Ok("sh".to_string())).unwrap();
    let stdin = state.get_process_channel(&p, ProcessChannel::Stdin).unwrap();
    let describe = |target: FileRef<'_, String, String>| match target {
        FileRef::File(file) => format!("file {}", file),
        FileRef::Stream { process, channel } => format!("{:?} of {}", channel, process),
    };
    assert_eq!(state.do_mut_operation(&fd, describe), Ok("file data".to_string()));
    assert_eq!(state.do_mut_operation(&stdin, describe), Ok("Stdin of sh".to_string()));
    assert_eq!(state.do_mut_operation(&99, describe), Err(AgentError::InvalidFileDescriptor));
}

#[test]
fn metadata_is_a_map_from_strings_to_strings() {
    let mut state = State::new();
    let key = "color".to_string();
    assert_eq!(state.get_metadata(&key), Ok(None));
    assert_eq!(state.set_metadata(&key, &"red".to_string()), Ok(()));
    assert_eq!(state.get_metadata(&key), Ok(Some("red".to_string())));
    assert_eq!(state.set_metadata(&"size".to_string(), &"9".to_string()), Ok(()));
    assert_eq!(state.set_metadata(&key, &"blue".to_string()), Ok(()));
    assert_eq!(state.get_metadata(&key), Ok(Some("blue".to_string())));
    assert_eq!(state.get_metadata(&"size".to_string()), Ok(Some("9".to_string())));
    assert_eq!(state.get_metadata(&"".to_string()), Ok(None));
}
