use bh_agent::agent_error::AgentError;
use bh_agent::process::{exit_code, spawn_request, wait_step, ExitStatus, WaitStep};
use bh_agent::types::{Redirection, RemotePOpenConfig};

#[test]
fn exit_code_of_a_normal_exit_is_its_code() {
    assert_eq!(exit_code(Some(ExitStatus::Exited(0))), Ok(Some(0)));
    assert_eq!(exit_code(Some(ExitStatus::Exited(255))), Ok(Some(255)));
}

#[test]
fn exit_code_of_a_signal_is_its_number() {
    assert_eq!(exit_code(Some(ExitStatus::Signaled(15))), Ok(Some(15)));
}

#[test]
fn exit_code_of_another_end_keeps_its_bits() {
    assert_eq!(exit_code(Some(ExitStatus::Other(7))), Ok(Some(7)));
    assert_eq!(exit_code(Some(ExitStatus::Other(-2))), Ok(Some(4294967294)));
    assert_eq!(exit_code(Some(ExitStatus::Other(i32::MIN))), Ok(Some(2147483648)));
}

#[test]
fn exit_code_of_an_undetermined_end_is_an_error() {
    assert_eq!(exit_code(Some(ExitStatus::Undetermined)), Err(AgentError::Unknown));
}

#[test]
fn exit_code_of_a_running_process_is_absent() {
    assert_eq!(exit_code(None), Ok(None));
}

#[test]
fn wait_with_timeout_zero_times_out_at_once() {
    assert_eq!(wait_step(false, 0, Some(0)), WaitStep::Done { timed_out: true });
}

#[test]
fn wait_reports_an_exit_before_the_timeout() {
    assert_eq!(wait_step(true, 0, Some(0)), WaitStep::Done { timed_out: false });
    assert_eq!(wait_step(true, 5000, Some(100)), WaitStep::Done { timed_out: false });
    assert_eq!(wait_step(true, 0, None), WaitStep::Done { timed_out: false });
}

#[test]
fn wait_polls_every_hundred_milliseconds() {
    assert_eq!(wait_step(false, 0, Some(250)), WaitStep::Sleep { millis: 100, waited: 100 });
    assert_eq!(wait_step(false, 100, Some(250)), WaitStep::Sleep { millis: 100, waited: 200 });
    assert_eq!(wait_step(false, 200, Some(250)), WaitStep::Done { timed_out: true });
    assert_eq!(wait_step(false, 0, Some(100)), WaitStep::Done { timed_out: true });
    assert_eq!(wait_step(false, 0, Some(101)), WaitStep::Sleep { millis: 100, waited: 100 });
}

#[test]
fn wait_without_timeout_never_times_out() {
    assert_eq!(wait_step(false, 0, None), WaitStep::Sleep { millis: 100, waited: 100 });
    assert_eq!(
        wait_step(false, u64::MAX - 50, None),
        WaitStep::Sleep { millis: 100, waited: u64::MAX }
    );
    assert_eq!(wait_step(false, u64::MAX, None), WaitStep::Sleep { millis: 100, waited: u64::MAX });
}

#[test]
fn wait_counts_intervals_up_to_the_timeout() {
    let mut waited = 0;
    let mut sleeps = 0;
    loop {
        match wait_step(false, waited, Some(1000)) {
            WaitStep::Sleep { millis, waited: now } => {
                assert_eq!(millis, 100);
                waited = now;
                sleeps += 1;
            }
            WaitStep::Done { timed_out } => {
                assert!(timed_out);
                break;
            }
        }
    }
    assert_eq!(sleeps, 9);
}

fn sample_config() -> RemotePOpenConfig {
    RemotePOpenConfig {
        argv: vec!["echo".to_string(), "hello".to_string()],
        stdin: Redirection::Inherit,
        stdout: Redirection::Save,
        stderr: Redirection::Inherit,
        executable: Some("/bin/echo".to_string()),
        env: Some(vec![("A".to_string(), "1".to_string())]),
        cwd: Some("/".to_string()),
        setuid: Some(1000),
        setgid: Some(2000),
        setpgid: true,
    }
}

#[test]
fn spawn_request_honors_credentials_on_posix() {
    let request = spawn_request(sample_config(), true).unwrap();
    assert_eq!(request.argv, vec!["echo".to_string(), "hello".to_string()]);
    assert_eq!(request.stdin, Redirection::Inherit);
    assert_eq!(request.stdout, Redirection::Save);
    assert_eq!(request.stderr, Redirection::Inherit);
    assert!(!request.detached);
    assert_eq!(request.executable, Some("/bin/echo".to_string()));
    assert_eq!(request.env, Some(vec![("A".to_string(), "1".to_string())]));
    assert_eq!(request.cwd, Some("/".to_string()));
    assert_eq!(request.setuid, Some(1000));
    assert_eq!(request.setgid, Some(2000));
    assert!(request.setpgid);
}

#[test]
fn spawn_request_ignores_credentials_elsewhere() {
    let request = spawn_request(sample_config(), false).unwrap();
    assert_eq!(request.setuid, None);
    assert_eq!(request.setgid, None);
    assert!(!request.setpgid);
    assert_eq!(request.executable, Some("/bin/echo".to_string()));
}

#[test]
fn spawn_request_refuses_an_empty_argv() {
    let r = spawn_request(RemotePOpenConfig::default(), true);
    match r {
        Err(e) => assert_eq!(e, AgentError::ProcessStartFailure("argv must not be empty".to_string())),
        Ok(_) => panic!("a process without a program cannot be started"),
    }
}
