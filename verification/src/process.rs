//! The life of a child process as the agent reports it: how an exit status
//! becomes an exit code, and how a wait with a timeout proceeds.

use vstd::prelude::*;
use vstd::string::StringExecFns;
use crate::agent_error::AgentError;
use crate::types::{Redirection, RemotePOpenConfig};

verus! {

/// What the operating system is asked to start.
#[derive(Debug)]
pub struct SpawnRequest {
    /// The program followed by its arguments; never empty.
    pub argv: Vec<String>,
    pub stdin: Redirection,
    pub stdout: Redirection,
    pub stderr: Redirection,
    /// Whether the child outlives the handle to it; the agent never asks
    /// for that.
    pub detached: bool,
    pub executable: Option<String>,
    pub env: Option<Vec<(String, String)>>,
    pub cwd: Option<String>,
    pub setuid: Option<u32>,
    pub setgid: Option<u32>,
    pub setpgid: bool,
}

/// `request` asks for what `config` describes on a host that is of the
/// POSIX kind or not: the same program, streams, executable, environment
/// and directory, and the user, the group and the process group of
/// `config` where the host is of the POSIX kind, none of them where it is
/// not.
pub open spec fn asks_for(request: SpawnRequest, config: RemotePOpenConfig, posix: bool) -> bool {
    &&& request.argv == config.argv
    &&& request.stdin == config.stdin
    &&& request.stdout == config.stdout
    &&& request.stderr == config.stderr
    &&& !request.detached
    &&& request.executable == config.executable
    &&& request.env == config.env
    &&& request.cwd == config.cwd
    &&& request.setuid == (if posix { config.setuid } else { None })
    &&& request.setgid == (if posix { config.setgid } else { None })
    &&& request.setpgid == (posix && config.setpgid)
}

/// What to ask of the operating system to start the process that `config`
/// describes. A process without a program cannot be started.
pub fn spawn_request(config: RemotePOpenConfig, posix: bool) -> (r: Result<SpawnRequest, AgentError>)
    ensures
        match r {
            Ok(request) => config.argv@.len() > 0 && asks_for(request, config, posix),
            Err(e) => {
                &&& config.argv@.len() == 0
                &&& e matches AgentError::ProcessStartFailure(detail)
                &&& detail@ == "argv must not be empty"@
            },
        },
{
    if config.argv.len() == 0 {
        return Err(AgentError::ProcessStartFailure(String::from_str("argv must not be empty")));
    }
    Ok(
        SpawnRequest {
            argv: config.argv,
            stdin: config.stdin,
            stdout: config.stdout,
            stderr: config.stderr,
            detached: false,
            executable: config.executable,
            env: config.env,
            cwd: config.cwd,
            setuid: if posix { config.setuid } else { None },
            setgid: if posix { config.setgid } else { None },
            setpgid: posix && config.setpgid,
        },
    )
}

/// How a child process ended, as the operating system reports it.
#[derive(Copy, Clone, Debug, PartialEq, Eq, Structural)]
pub enum ExitStatus {
    /// The process exited by itself with this code.
    Exited(u32),
    /// The process was ended by the signal of this number.
    Signaled(u8),
    /// The process ended in another way, described by this code.
    Other(i32),
    /// The process has ended, but how is not known.
    Undetermined,
}

/// The number of milliseconds between two polls of a wait.
pub const POLL_INTERVAL_MS: u64 = 100;

/// The unsigned number with the same thirty-two bits as `code`.
pub open spec fn reinterpret(code: i32) -> u32 {
    if code >= 0 {
        code as u32
    } else {
        (code + 0x1_0000_0000) as u32
    }
}

/// The exit code that stands for `status`: the exit code of a normal exit,
/// the signal number of a signal, the code of any other end.
pub open spec fn exit_code_of(status: ExitStatus) -> Option<u32> {
    match status {
        ExitStatus::Exited(code) => Some(code),
        ExitStatus::Signaled(signal) => Some(signal as u32),
        ExitStatus::Other(code) => Some(reinterpret(code)),
        ExitStatus::Undetermined => None,
    }
}

/// What a poll reports for the status `polled`: nothing while the process
/// runs, its exit code once it has ended, and an error where the status
/// cannot be determined.
pub open spec fn poll_result(polled: Option<ExitStatus>) -> Result<Option<u32>, AgentError> {
    match polled {
        None => Ok(None),
        Some(status) => match exit_code_of(status) {
            Some(code) => Ok(Some(code)),
            None => Err(AgentError::Unknown),
        },
    }
}

/// Normalizes the status of a process into what a client is told.
pub fn exit_code(polled: Option<ExitStatus>) -> (r: Result<Option<u32>, AgentError>)
    ensures
        r == poll_result(polled),
{
    match polled {
        None => Ok(None),
        Some(ExitStatus::Exited(code)) => Ok(Some(code)),
        Some(ExitStatus::Signaled(signal)) => Ok(Some(signal as u32)),
        Some(ExitStatus::Other(code)) => {
            let unsigned = code as u32;
            assert(unsigned == reinterpret(code)) by (bit_vector)
                requires
                    unsigned == code as u32,
            ;
            Ok(Some(unsigned))
        },
        Some(ExitStatus::Undetermined) => Err(AgentError::Unknown),
    }
}

/// What a wait does after a poll.
#[derive(Copy, Clone, Debug, PartialEq, Eq, Structural)]
pub enum WaitStep {
    /// The wait is over. `timed_out` tells whether the timeout elapsed
    /// before the process ended.
    Done { timed_out: bool },
    /// The caller sleeps for `millis` milliseconds and polls again; by then
    /// the wait has lasted `waited` milliseconds.
    Sleep { millis: u64, waited: u64 },
}

/// The time a wait has lasted once the next interval has passed.
pub open spec fn waited_after(waited: u64) -> u64 {
    if waited + POLL_INTERVAL_MS <= u64::MAX {
        (waited + POLL_INTERVAL_MS) as u64
    } else {
        u64::MAX
    }
}

/// The step of a wait that has lasted `waited` milliseconds, after a poll
/// that found the process ended (`exited`) or still running. A process that
/// has ended ends the wait. Otherwise one more interval is counted, and the
/// wait times out once the time counted reaches the timeout; without a
/// timeout it never does.
pub open spec fn wait_step_of(exited: bool, waited: u64, timeout: Option<u32>) -> WaitStep {
    if exited {
        WaitStep::Done { timed_out: false }
    } else if timeout is Some && waited_after(waited) >= timeout->Some_0 {
        WaitStep::Done { timed_out: true }
    } else {
        WaitStep::Sleep { millis: POLL_INTERVAL_MS, waited: waited_after(waited) }
    }
}

/// Decides the next step of a wait from the result of a poll.
pub fn wait_step(exited: bool, waited: u64, timeout: Option<u32>) -> (step: WaitStep)
    ensures
        step == wait_step_of(exited, waited, timeout),
{
    if exited {
        return WaitStep::Done { timed_out: false };
    }
    let now = if waited <= u64::MAX - POLL_INTERVAL_MS {
        waited + POLL_INTERVAL_MS
    } else {
        u64::MAX
    };
    match timeout {
        Some(limit) => {
            if now >= limit as u64 {
                WaitStep::Done { timed_out: true }
            } else {
                WaitStep::Sleep { millis: POLL_INTERVAL_MS, waited: now }
            }
        },
        None => WaitStep::Sleep { millis: POLL_INTERVAL_MS, waited: now },
    }
}

/// A wait with a timeout of zero is over at the first poll: it reports a
/// process that still runs as timed out, at once.
pub proof fn lemma_wait_without_patience(waited: u64)
    ensures
        wait_step_of(false, waited, Some(0)) == (WaitStep::Done { timed_out: true }),
{
}

/// The time that `rounds` polls of a running process have taken, where the
/// wait began at zero.
pub open spec fn waited_for(rounds: nat) -> u64
    decreases rounds,
{
    if rounds == 0 {
        0
    } else {
        waited_after(waited_for((rounds - 1) as nat))
    }
}

/// A wait sleeps between polls and counts one interval for each. With a
/// timeout, a process that keeps running is reported as timed out at the
/// first poll by which the intervals counted reach the timeout, and not
/// before; a process that has ended is reported as such at any poll.
pub proof fn lemma_wait_rounds(rounds: nat, timeout: u32)
    ensures
        waited_for(rounds) == (if rounds * POLL_INTERVAL_MS <= u64::MAX {
            (rounds * POLL_INTERVAL_MS) as u64
        } else {
            u64::MAX
        }),
        wait_step_of(false, waited_for(rounds), Some(timeout)) is Done <==> (rounds + 1)
            * POLL_INTERVAL_MS >= timeout,
        wait_step_of(true, waited_for(rounds), Some(timeout)) == (WaitStep::Done {
            timed_out: false,
        }),
    decreases rounds,
{
    if rounds > 0 {
        lemma_wait_rounds((rounds - 1) as nat, timeout);
    }
}

} // verus!
