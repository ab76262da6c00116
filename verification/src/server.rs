//! The service of an agent: every operation a client can ask for, as the
//! decision the agent takes on it.
//!
//! Each operation names the environment it is meant for and is refused
//! unless that is the one environment the agent serves. An operation that
//! needs the operating system comes in two parts: one that says what to ask
//! of it, and one that takes its answer and says what the client is told.

use vstd::prelude::*;
use vstd::string::StringExecFns;
use crate::agent_error::AgentError;
use crate::files::{
    open_flags_of, open_options, seek_target, seek_target_of, tell_offset, tell_offset_of, OpenFlags,
    SeekTarget,
};
use crate::process::{
    asks_for, poll_result, spawn_request, wait_step_of, ExitStatus, SpawnRequest, WaitStep,
};
use crate::registry::{Registry, Route};
use crate::state::{BhAgentState, FileRef};
use crate::types::{
    EnvironmentId, FileId, FileOpenMode, FileOpenType, FileStat, ProcessChannel, ProcessId, RawStat,
    RemotePOpenConfig, UserId,
};
use crate::util::read_chars::{read_generic, start_of, ReadStep};
use crate::util::read_lines::{lines_of, lines_view, read_lines};
use crate::util::set_blocking::{set_blocking, with_blocking};
use crate::util::unix_functions::{chmod, chown, chown_of, stat, Lookup, Ownership, PERMISSION_BITS};

verus! {

/// The one environment that an agent serves.
pub const DEFAULT_ENVIRONMENT: EnvironmentId = 0;

/// `r` refuses an environment that the agent does not serve.
pub open spec fn refused<T>(r: Result<T, AgentError>) -> bool {
    r matches Err(e) && e == AgentError::InvalidEnvironmentId
}

/// `r` reports that the host is not of the POSIX kind.
pub open spec fn unsupported<T>(r: Result<T, AgentError>) -> bool {
    r matches Err(e) && e == AgentError::UnsupportedPlatform
}

/// `r` reports that a file handle is invalid.
pub open spec fn invalid_file<T>(r: Result<T, AgentError>) -> bool {
    r matches Err(e) && e == AgentError::InvalidFileDescriptor
}

/// Accepts the environment that the agent serves and refuses any other.
pub fn check_env_id(env_id: EnvironmentId) -> (r: Result<(), AgentError>)
    ensures
        env_id == DEFAULT_ENVIRONMENT ==> r is Ok,
        env_id != DEFAULT_ENVIRONMENT ==> refused(r),
{
    if env_id != DEFAULT_ENVIRONMENT {
        Err(AgentError::InvalidEnvironmentId)
    } else {
        Ok(())
    }
}

/// An agent: its registry, and whether its host is of the POSIX kind.
pub struct BhAgentServer<F, P> {
    pub state: BhAgentState<F, P>,
    pub posix: bool,
}

impl<F, P> BhAgentServer<F, P> {
    /// The invariant of the agent.
    pub open spec fn wf(&self) -> bool {
        self.state.wf()
    }

    /// An agent that has issued no handle, on a host that is of the POSIX
    /// kind or not.
    pub fn new(posix: bool) -> (server: Self)
        ensures
            server.wf(),
            server.posix == posix,
            server.state@ == Registry::empty(),
            server.state.metadata() =~= Map::empty(),
    {
        BhAgentServer { state: BhAgentState::new(), posix }
    }

    /// The environments that the agent serves.
    pub fn get_environments() -> (envs: Vec<EnvironmentId>)
        ensures
            envs@ == seq![DEFAULT_ENVIRONMENT],
    {
        let mut envs = Vec::new();
        envs.push(DEFAULT_ENVIRONMENT);
        envs
    }

    /// The directory for temporary files.
    pub fn get_tempdir(&self, env_id: EnvironmentId) -> (r: Result<String, AgentError>)
        ensures
            env_id != DEFAULT_ENVIRONMENT ==> refused(r),
            env_id == DEFAULT_ENVIRONMENT && !self.posix ==> unsupported(r),
            env_id == DEFAULT_ENVIRONMENT && self.posix ==> (r matches Ok(path) && path@ == "/tmp"@),
    {
        if env_id != DEFAULT_ENVIRONMENT {
            return Err(AgentError::InvalidEnvironmentId);
        }
        if !self.posix {
            return Err(AgentError::UnsupportedPlatform);
        }
        Ok(String::from_str("/tmp"))
    }

    /// What to ask of the operating system to start the process that
    /// `config` describes.
    pub fn spawn_request(&self, env_id: EnvironmentId, config: RemotePOpenConfig) -> (r: Result<
        SpawnRequest,
        AgentError,
    >)
        ensures
            env_id != DEFAULT_ENVIRONMENT ==> refused(r),
            env_id == DEFAULT_ENVIRONMENT ==> match r {
                Ok(request) => config.argv@.len() > 0 && asks_for(request, config, self.posix),
                Err(e) => {
                    &&& config.argv@.len() == 0
                    &&& e matches AgentError::ProcessStartFailure(detail)
                    &&& detail@ == "argv must not be empty"@
                },
            },
    {
        if env_id != DEFAULT_ENVIRONMENT {
            return Err(AgentError::InvalidEnvironmentId);
        }
        spawn_request(config, self.posix)
    }

    /// Registers the outcome `spawned` of starting the process that
    /// `config` describes and returns the handle of the process.
    pub fn run_command(
        &mut self,
        env_id: EnvironmentId,
        config: &RemotePOpenConfig,
        spawned: Result<P, String>,
    ) -> (r: Result<ProcessId, AgentError>)
        requires
            old(self).wf(),
        ensures
            final(self).wf(),
            final(self).posix == old(self).posix,
            final(self).state.file_objects() == old(self).state.file_objects(),
            final(self).state.metadata() == old(self).state.metadata(),
            env_id != DEFAULT_ENVIRONMENT ==> refused(r),
            match r {
                Ok(proc_id) => {
                    &&& env_id == DEFAULT_ENVIRONMENT
                    &&& config.argv@.len() > 0
                    &&& spawned is Ok
                    &&& old(self).state@.has_process_room()
                    &&& old(self).state@.has_file_room(config.captured_count())
                    &&& proc_id == old(self).state@.next_process_id
                    &&& final(self).state@ == old(self).state@.register_process(
                        config.stdin.is_captured(),
                        config.stdout.is_captured(),
                        config.stderr.is_captured(),
                    )
                    &&& final(self).state.process_objects() == old(
                        self,
                    ).state.process_objects().insert(proc_id, spawned->Ok_0)
                },
                Err(e) => {
                    &&& final(self).state@ == old(self).state@
                    &&& final(self).state.process_objects() == old(self).state.process_objects()
                    &&& env_id == DEFAULT_ENVIRONMENT ==> if config.argv@.len() == 0 {
                        e matches AgentError::ProcessStartFailure(detail) && detail@
                            == "argv must not be empty"@
                    } else {
                        match spawned {
                            Err(detail) => e == AgentError::ProcessStartFailure(detail),
                            Ok(_) => e == AgentError::Inconsistent && !(old(
                                self,
                            ).state@.has_process_room() && old(self).state@.has_file_room(
                                config.captured_count(),
                            )),
                        }
                    }
                },
            },
    {
        if env_id != DEFAULT_ENVIRONMENT {
            return Err(AgentError::InvalidEnvironmentId);
        }
        self.state.run_command(config, spawned)
    }

    /// The handles of all processes started so far.
    pub fn get_process_ids(&self, env_id: EnvironmentId) -> (r: Result<Vec<ProcessId>, AgentError>)
        requires
            self.wf(),
        ensures
            env_id != DEFAULT_ENVIRONMENT ==> refused(r),
            env_id == DEFAULT_ENVIRONMENT ==> {
                &&& r matches Ok(ids)
                &&& ids@.len() == self.state@.next_process_id
                &&& forall|i: int| 0 <= i < ids@.len() ==> ids@[i] == i
                &&& forall|p: ProcessId| ids@.contains(p) <==> self.state@.processes.contains(p)
            },
    {
        if env_id != DEFAULT_ENVIRONMENT {
            return Err(AgentError::InvalidEnvironmentId);
        }
        Ok(self.state.get_process_ids())
    }

    /// The handle of the captured stream `channel` of the process `proc_id`.
    pub fn get_process_channel(
        &self,
        env_id: EnvironmentId,
        proc_id: ProcessId,
        channel: ProcessChannel,
    ) -> (r: Result<FileId, AgentError>)
        requires
            self.wf(),
        ensures
            env_id != DEFAULT_ENVIRONMENT ==> refused(r),
            env_id == DEFAULT_ENVIRONMENT ==> match r {
                Ok(fd) => self.state@.channel(proc_id, channel) == Some(fd),
                Err(e) => e == AgentError::InvalidProcessId && self.state@.channel(proc_id, channel)
                    is None,
            },
    {
        if env_id != DEFAULT_ENVIRONMENT {
            return Err(AgentError::InvalidEnvironmentId);
        }
        self.state.get_process_channel(&proc_id, channel)
    }

    /// The process object to poll, to wait for or to ask for its recorded
    /// status.
    pub fn process(&self, env_id: EnvironmentId, proc_id: ProcessId) -> (r: Result<&P, AgentError>)
        requires
            self.wf(),
        ensures
            env_id != DEFAULT_ENVIRONMENT ==> refused(r),
            env_id == DEFAULT_ENVIRONMENT ==> match r {
                Ok(process) => self.state@.processes.contains(proc_id) && *process
                    == self.state.process_objects()[proc_id],
                Err(e) => e == AgentError::InvalidProcessId && !self.state@.processes.contains(
                    proc_id,
                ),
            },
    {
        if env_id != DEFAULT_ENVIRONMENT {
            return Err(AgentError::InvalidEnvironmentId);
        }
        self.state.process(&proc_id)
    }

    /// What a poll of the process `proc_id` reports, given the status
    /// `polled` that the operating system returned for it.
    pub fn process_poll(&self, env_id: EnvironmentId, proc_id: ProcessId, polled: Option<ExitStatus>) -> (r:
        Result<Option<u32>, AgentError>)
        requires
            self.wf(),
        ensures
            env_id != DEFAULT_ENVIRONMENT ==> refused(r),
            env_id == DEFAULT_ENVIRONMENT ==> r == (if self.state@.processes.contains(proc_id) {
                poll_result(polled)
            } else {
                Err(AgentError::InvalidProcessId)
            }),
    {
        if env_id != DEFAULT_ENVIRONMENT {
            return Err(AgentError::InvalidEnvironmentId);
        }
        self.state.process_poll(&proc_id, polled)
    }

    /// One round of a wait for the process `proc_id` that has lasted
    /// `waited` milliseconds, given the status `polled` that the operating
    /// system just returned for it.
    pub fn process_wait(
        &self,
        env_id: EnvironmentId,
        proc_id: ProcessId,
        polled: Option<ExitStatus>,
        waited: u64,
        timeout: Option<u32>,
    ) -> (r: Result<WaitStep, AgentError>)
        requires
            self.wf(),
        ensures
            env_id != DEFAULT_ENVIRONMENT ==> refused(r),
            env_id == DEFAULT_ENVIRONMENT ==> r == (if !self.state@.processes.contains(proc_id) {
                Err(AgentError::InvalidProcessId)
            } else {
                match poll_result(polled) {
                    Ok(code) => Ok(wait_step_of(code is Some, waited, timeout)),
                    Err(e) => Err(e),
                }
            }),
    {
        if env_id != DEFAULT_ENVIRONMENT {
            return Err(AgentError::InvalidEnvironmentId);
        }
        self.state.process_wait(&proc_id, polled, waited, timeout)
    }

    /// The exit code of the process `proc_id`, given the status `recorded`
    /// that was last observed for it.
    pub fn process_returncode(
        &self,
        env_id: EnvironmentId,
        proc_id: ProcessId,
        recorded: Option<ExitStatus>,
    ) -> (r: Result<Option<u32>, AgentError>)
        requires
            self.wf(),
        ensures
            env_id != DEFAULT_ENVIRONMENT ==> refused(r),
            env_id == DEFAULT_ENVIRONMENT ==> r == (if self.state@.processes.contains(proc_id) {
                poll_result(recorded)
            } else {
                Err(AgentError::InvalidProcessId)
            }),
    {
        if env_id != DEFAULT_ENVIRONMENT {
            return Err(AgentError::InvalidEnvironmentId);
        }
        self.state.process_exit_code(&proc_id, recorded)
    }

    /// The options with which to open a file in `mode`.
    pub fn file_open_options(&self, env_id: EnvironmentId, mode: FileOpenMode) -> (r: Result<
        OpenFlags,
        AgentError,
    >)
        ensures
            env_id != DEFAULT_ENVIRONMENT ==> refused(r),
            env_id == DEFAULT_ENVIRONMENT ==> (r matches Ok(flags) && flags == open_flags_of(mode)),
    {
        if env_id != DEFAULT_ENVIRONMENT {
            return Err(AgentError::InvalidEnvironmentId);
        }
        Ok(open_options(mode))
    }

    /// Registers the outcome `opened` of opening a file in `mode` and
    /// returns the handle of the file.
    pub fn file_open(
        &mut self,
        env_id: EnvironmentId,
        opened: Result<F, String>,
        mode: FileOpenMode,
        type_: FileOpenType,
    ) -> (r: Result<FileId, AgentError>)
        requires
            old(self).wf(),
        ensures
            final(self).wf(),
            final(self).posix == old(self).posix,
            final(self).state.process_objects() == old(self).state.process_objects(),
            final(self).state.metadata() == old(self).state.metadata(),
            env_id != DEFAULT_ENVIRONMENT ==> refused(r),
            match r {
                Ok(fd) => {
                    &&& env_id == DEFAULT_ENVIRONMENT
                    &&& opened is Ok
                    &&& old(self).state@.has_file_room(1)
                    &&& fd == old(self).state@.next_file_id
                    &&& final(self).state@ == old(self).state@.register_file(mode, type_)
                    &&& final(self).state.file_objects() == old(self).state.file_objects().insert(
                        fd,
                        opened->Ok_0,
                    )
                },
                Err(e) => {
                    &&& final(self).state@ == old(self).state@
                    &&& final(self).state.file_objects() == old(self).state.file_objects()
                    &&& env_id == DEFAULT_ENVIRONMENT ==> match opened {
                        Err(detail) => e == AgentError::IoError(detail),
                        Ok(_) => e == AgentError::Inconsistent && !old(self).state@.has_file_room(
                            1,
                        ),
                    }
                },
            },
    {
        if env_id != DEFAULT_ENVIRONMENT {
            return Err(AgentError::InvalidEnvironmentId);
        }
        self.state.open_path(opened, mode, type_)
    }

    /// Closes the open file `fd`.
    pub fn file_close(&mut self, env_id: EnvironmentId, fd: FileId) -> (r: Result<(), AgentError>)
        requires
            old(self).wf(),
        ensures
            final(self).wf(),
            final(self).posix == old(self).posix,
            final(self).state.process_objects() == old(self).state.process_objects(),
            final(self).state.metadata() == old(self).state.metadata(),
            env_id != DEFAULT_ENVIRONMENT ==> refused(r),
            match r {
                Ok(_) => {
                    &&& env_id == DEFAULT_ENVIRONMENT
                    &&& old(self).state@.open_files.contains(fd)
                    &&& final(self).state@ == old(self).state@.close_file(fd)
                    &&& final(self).state.file_objects() == old(self).state.file_objects().remove(
                        fd,
                    )
                },
                Err(e) => {
                    &&& final(self).state@ == old(self).state@
                    &&& final(self).state.file_objects() == old(self).state.file_objects()
                    &&& env_id == DEFAULT_ENVIRONMENT ==> e == AgentError::InvalidFileDescriptor
                        && !old(self).state@.open_files.contains(fd)
                },
            },
    {
        if env_id != DEFAULT_ENVIRONMENT {
            return Err(AgentError::InvalidEnvironmentId);
        }
        self.state.close_file(&fd)
    }

    /// Whether `fd` is closed, that is, not an open file.
    pub fn file_is_closed(&self, env_id: EnvironmentId, fd: FileId) -> (r: Result<bool, AgentError>)
        requires
            self.wf(),
        ensures
            env_id != DEFAULT_ENVIRONMENT ==> refused(r),
            env_id == DEFAULT_ENVIRONMENT ==> (r matches Ok(closed) && closed
                == !self.state@.open_files.contains(fd)),
    {
        if env_id != DEFAULT_ENVIRONMENT {
            return Err(AgentError::InvalidEnvironmentId);
        }
        self.state.is_file_closed(&fd)
    }

    /// Whether `fd` was opened in a mode that reads.
    pub fn file_is_readable(&self, env_id: EnvironmentId, fd: FileId) -> (r: Result<bool, AgentError>)
        requires
            self.wf(),
        ensures
            env_id != DEFAULT_ENVIRONMENT ==> refused(r),
            env_id == DEFAULT_ENVIRONMENT ==> match r {
                Ok(readable) => self.state@.modes.contains_key(fd) && readable
                    == self.state@.modes[fd].is_readable(),
                Err(e) => e == AgentError::InvalidFileDescriptor && !self.state@.modes.contains_key(
                    fd,
                ),
            },
    {
        if env_id != DEFAULT_ENVIRONMENT {
            return Err(AgentError::InvalidEnvironmentId);
        }
        let mut modes = Vec::new();
        modes.push(FileOpenMode::Read);
        modes.push(FileOpenMode::Update);
        let r = self.state.file_has_any_mode(&fd, &modes);
        proof {
            if self.state@.modes.contains_key(fd) {
                assert(modes@[0] == FileOpenMode::Read);
                assert(modes@[1] == FileOpenMode::Update);
            }
        }
        r
    }

    /// Whether `fd` was opened in a mode that writes.
    pub fn file_is_writable(&self, env_id: EnvironmentId, fd: FileId) -> (r: Result<bool, AgentError>)
        requires
            self.wf(),
        ensures
            env_id != DEFAULT_ENVIRONMENT ==> refused(r),
            env_id == DEFAULT_ENVIRONMENT ==> match r {
                Ok(writable) => self.state@.modes.contains_key(fd) && writable
                    == self.state@.modes[fd].is_writable(),
                Err(e) => e == AgentError::InvalidFileDescriptor && !self.state@.modes.contains_key(
                    fd,
                ),
            },
    {
        if env_id != DEFAULT_ENVIRONMENT {
            return Err(AgentError::InvalidEnvironmentId);
        }
        let mut modes = Vec::new();
        modes.push(FileOpenMode::Write);
        modes.push(FileOpenMode::ExclusiveWrite);
        modes.push(FileOpenMode::Update);
        modes.push(FileOpenMode::Append);
        let r = self.state.file_has_any_mode(&fd, &modes);
        proof {
            if self.state@.modes.contains_key(fd) {
                assert(modes@[0] == FileOpenMode::Write);
                assert(modes@[1] == FileOpenMode::ExclusiveWrite);
                assert(modes@[2] == FileOpenMode::Update);
                assert(modes@[3] == FileOpenMode::Append);
            }
        }
        r
    }

    /// Whether the position of `fd` can be moved: that of a file opened by
    /// path can, that of a captured stream cannot.
    pub fn file_is_seekable(&self, env_id: EnvironmentId, fd: FileId) -> (r: Result<bool, AgentError>)
        requires
            self.wf(),
        ensures
            env_id != DEFAULT_ENVIRONMENT ==> refused(r),
            env_id == DEFAULT_ENVIRONMENT ==> match self.state@.route(fd) {
                Some(route) => r matches Ok(seekable) && seekable == (route == Route::File),
                None => invalid_file(r),
            },
    {
        if env_id != DEFAULT_ENVIRONMENT {
            return Err(AgentError::InvalidEnvironmentId);
        }
        match self.state.lookup_file_or_stream(&fd) {
            Ok(FileRef::File(_)) => Ok(true),
            Ok(FileRef::Stream { .. }) => Ok(false),
            Err(e) => Err(e),
        }
    }

    /// The object behind the handle `fd`, on which to carry out a read, a
    /// write, a seek or a tell.
    pub fn file_target(&self, env_id: EnvironmentId, fd: FileId) -> (r: Result<
        FileRef<'_, F, P>,
        AgentError,
    >)
        requires
            self.wf(),
        ensures
            env_id != DEFAULT_ENVIRONMENT ==> refused(r),
            env_id == DEFAULT_ENVIRONMENT ==> match r {
                Ok(target) => self.state.target(fd) == Some(target),
                Err(e) => e == AgentError::InvalidFileDescriptor && self.state@.route(fd) is None,
            },
    {
        if env_id != DEFAULT_ENVIRONMENT {
            return Err(AgentError::InvalidEnvironmentId);
        }
        self.state.lookup_file_or_stream(&fd)
    }

    /// Begins a read of `num_bytes` bytes or characters from `fd`, or of
    /// all there is where `num_bytes` is absent. `blocking` tells whether
    /// the descriptor of `fd` blocks.
    pub fn file_read(
        &self,
        env_id: EnvironmentId,
        fd: FileId,
        num_bytes: Option<u32>,
        blocking: bool,
    ) -> (r: Result<ReadStep, AgentError>)
        requires
            self.wf(),
        ensures
            env_id != DEFAULT_ENVIRONMENT ==> refused(r),
            env_id == DEFAULT_ENVIRONMENT ==> if self.state@.types.contains_key(fd) {
                r matches Ok(step) && step.shows(
                    start_of(num_bytes, self.state@.types[fd], blocking),
                )
            } else {
                invalid_file(r)
            },
    {
        if env_id != DEFAULT_ENVIRONMENT {
            return Err(AgentError::InvalidEnvironmentId);
        }
        match self.state.file_type(&fd) {
            Ok(file_type) => Ok(read_generic(num_bytes, file_type, blocking)),
            Err(e) => Err(e),
        }
    }

    /// The lines of `fd`, given the outcome `read` of reading all that is
    /// left of it: the bytes, or the message of a failure. `hint` is a
    /// budget of bytes that the agent accepts and does not use.
    pub fn file_read_lines(
        &self,
        env_id: EnvironmentId,
        fd: FileId,
        hint: u32,
        read: Result<Vec<u8>, String>,
    ) -> (r: Result<Vec<Vec<u8>>, AgentError>)
        requires
            self.wf(),
        ensures
            env_id != DEFAULT_ENVIRONMENT ==> refused(r),
            env_id == DEFAULT_ENVIRONMENT ==> if self.state@.route(fd) is None {
                invalid_file(r)
            } else {
                match read {
                    Ok(data) => r matches Ok(lines) && lines_view(lines@) == lines_of(data@),
                    Err(detail) => r matches Err(e) && e == AgentError::IoError(detail),
                }
            },
    {
        if env_id != DEFAULT_ENVIRONMENT {
            return Err(AgentError::InvalidEnvironmentId);
        }
        match self.state.lookup_file_or_stream(&fd) {
            Ok(_) => {},
            Err(e) => {
                return Err(e);
            },
        }
        match read {
            Ok(data) => Ok(read_lines(&data)),
            Err(detail) => Err(AgentError::IoError(detail)),
        }
    }

    /// The object behind `fd` and the target to move its position to. The
    /// place that `whence` names is checked before the handle.
    pub fn file_seek(&self, env_id: EnvironmentId, fd: FileId, offset: i32, whence: i32) -> (r:
        Result<(FileRef<'_, F, P>, SeekTarget), AgentError>)
        requires
            self.wf(),
        ensures
            env_id != DEFAULT_ENVIRONMENT ==> refused(r),
            env_id == DEFAULT_ENVIRONMENT ==> match seek_target_of(offset, whence) {
                None => r matches Err(e) && e == AgentError::InvalidSeekWhence,
                Some(target) => match r {
                    Ok(found) => self.state.target(fd) == Some(found.0) && found.1 == target,
                    Err(e) => e == AgentError::InvalidFileDescriptor && self.state@.route(fd)
                        is None,
                },
            },
    {
        if env_id != DEFAULT_ENVIRONMENT {
            return Err(AgentError::InvalidEnvironmentId);
        }
        let target = match seek_target(offset, whence) {
            Ok(target) => target,
            Err(e) => {
                return Err(e);
            },
        };
        match self.state.lookup_file_or_stream(&fd) {
            Ok(object) => Ok((object, target)),
            Err(e) => Err(e),
        }
    }

    /// The offset of `fd`, given the position `position` that the operating
    /// system reports for it.
    pub fn file_tell(&self, env_id: EnvironmentId, fd: FileId, position: u64) -> (r: Result<
        i32,
        AgentError,
    >)
        requires
            self.wf(),
        ensures
            env_id != DEFAULT_ENVIRONMENT ==> refused(r),
            env_id == DEFAULT_ENVIRONMENT ==> if self.state@.route(fd) is None {
                invalid_file(r)
            } else {
                match tell_offset_of(position) {
                    Some(offset) => r matches Ok(found) && found == offset,
                    None => {
                        &&& r matches Err(AgentError::IoError(detail))
                        &&& detail@ == "file position out of range"@
                    },
                }
            },
    {
        if env_id != DEFAULT_ENVIRONMENT {
            return Err(AgentError::InvalidEnvironmentId);
        }
        match self.state.lookup_file_or_stream(&fd) {
            Ok(_) => {},
            Err(e) => {
                return Err(e);
            },
        }
        tell_offset(position)
    }

    /// The object behind `fd`, to which all the bytes of a write go.
    pub fn file_write(&self, env_id: EnvironmentId, fd: FileId) -> (r: Result<
        FileRef<'_, F, P>,
        AgentError,
    >)
        requires
            self.wf(),
        ensures
            env_id != DEFAULT_ENVIRONMENT ==> refused(r),
            env_id == DEFAULT_ENVIRONMENT ==> match r {
                Ok(target) => self.state.target(fd) == Some(target),
                Err(e) => e == AgentError::InvalidFileDescriptor && self.state@.route(fd) is None,
            },
    {
        if env_id != DEFAULT_ENVIRONMENT {
            return Err(AgentError::InvalidEnvironmentId);
        }
        self.state.lookup_file_or_stream(&fd)
    }

    /// The status flags to set on the descriptor of `fd` so that it blocks
    /// or not, given the status flags `flags` that a query returned and the
    /// bit `nonblock` of the platform; nothing where the query failed.
    pub fn file_set_blocking(
        &self,
        env_id: EnvironmentId,
        fd: FileId,
        flags: i32,
        nonblock: i32,
        blocking: bool,
    ) -> (r: Result<Option<i32>, AgentError>)
        requires
            self.wf(),
        ensures
            env_id != DEFAULT_ENVIRONMENT ==> refused(r),
            env_id == DEFAULT_ENVIRONMENT && !self.posix ==> unsupported(r),
            env_id == DEFAULT_ENVIRONMENT && self.posix ==> if self.state@.route(fd) is None {
                invalid_file(r)
            } else {
                r matches Ok(found) && found == (if flags < 0 {
                    None
                } else {
                    Some(with_blocking(flags, nonblock, blocking))
                })
            },
    {
        if env_id != DEFAULT_ENVIRONMENT {
            return Err(AgentError::InvalidEnvironmentId);
        }
        if !self.posix {
            return Err(AgentError::UnsupportedPlatform);
        }
        match self.state.lookup_file_or_stream(&fd) {
            Ok(_) => {},
            Err(e) => {
                return Err(e);
            },
        }
        Ok(set_blocking(flags, nonblock, blocking))
    }

    /// The numeric owner to give a file, for a change of owner to `user`
    /// and `group`, given the answers of the user and group databases.
    pub fn chown(
        &self,
        env_id: EnvironmentId,
        user: Option<UserId>,
        user_lookup: Lookup,
        group: Option<UserId>,
        group_lookup: Lookup,
    ) -> (r: Result<Ownership, AgentError>)
        ensures
            env_id != DEFAULT_ENVIRONMENT ==> refused(r),
            env_id == DEFAULT_ENVIRONMENT && !self.posix ==> unsupported(r),
            env_id == DEFAULT_ENVIRONMENT && self.posix ==> r == chown_of(
                user,
                user_lookup,
                group,
                group_lookup,
            ),
    {
        if env_id != DEFAULT_ENVIRONMENT {
            return Err(AgentError::InvalidEnvironmentId);
        }
        if !self.posix {
            return Err(AgentError::UnsupportedPlatform);
        }
        chown(user, user_lookup, group, group_lookup)
    }

    /// The permission bits to set on a file, for a change of mode to
    /// `mode`.
    pub fn chmod(&self, env_id: EnvironmentId, mode: u32) -> (r: Result<u32, AgentError>)
        ensures
            env_id != DEFAULT_ENVIRONMENT ==> refused(r),
            env_id == DEFAULT_ENVIRONMENT && !self.posix ==> unsupported(r),
            env_id == DEFAULT_ENVIRONMENT && self.posix ==> (r matches Ok(bits) && bits == mode
                & PERMISSION_BITS),
    {
        if env_id != DEFAULT_ENVIRONMENT {
            return Err(AgentError::InvalidEnvironmentId);
        }
        if !self.posix {
            return Err(AgentError::UnsupportedPlatform);
        }
        Ok(chmod(mode))
    }

    /// What is reported of a file, given the outcome `raw` of asking the
    /// operating system for its status: the status, or an error number.
    pub fn stat(&self, env_id: EnvironmentId, raw: Result<RawStat, i32>) -> (r: Result<
        FileStat,
        AgentError,
    >)
        ensures
            env_id != DEFAULT_ENVIRONMENT ==> refused(r),
            env_id == DEFAULT_ENVIRONMENT && !self.posix ==> unsupported(r),
            env_id == DEFAULT_ENVIRONMENT && self.posix ==> match raw {
                Ok(status) => r matches Ok(report) && report == FileStat::report_of(status),
                Err(errno) => r matches Err(e) && e == AgentError::Errno(errno),
            },
    {
        if env_id != DEFAULT_ENVIRONMENT {
            return Err(AgentError::InvalidEnvironmentId);
        }
        if !self.posix {
            return Err(AgentError::UnsupportedPlatform);
        }
        match raw {
            Ok(status) => Ok(stat(status)),
            Err(errno) => Err(AgentError::Errno(errno)),
        }
    }

    /// The string that clients stored under `key`, if any.
    pub fn get_metadata(&self, env_id: EnvironmentId, key: String) -> (r: Result<
        Option<String>,
        AgentError,
    >)
        requires
            self.wf(),
        ensures
            env_id != DEFAULT_ENVIRONMENT ==> refused(r),
            env_id == DEFAULT_ENVIRONMENT ==> (r matches Ok(found) && match found {
                Some(value) => self.state.metadata().contains_key(key@) && value@
                    == self.state.metadata()[key@],
                None => !self.state.metadata().contains_key(key@),
            }),
    {
        if env_id != DEFAULT_ENVIRONMENT {
            return Err(AgentError::InvalidEnvironmentId);
        }
        self.state.get_metadata(&key)
    }

    /// Stores `value` under `key`, in place of what was stored there.
    pub fn set_metadata(&mut self, env_id: EnvironmentId, key: String, value: String) -> (r: Result<
        (),
        AgentError,
    >)
        requires
            old(self).wf(),
        ensures
            final(self).wf(),
            final(self).posix == old(self).posix,
            final(self).state@ == old(self).state@,
            final(self).state.file_objects() == old(self).state.file_objects(),
            final(self).state.process_objects() == old(self).state.process_objects(),
            env_id != DEFAULT_ENVIRONMENT ==> refused(r) && final(self).state.metadata() == old(
                self,
            ).state.metadata(),
            env_id == DEFAULT_ENVIRONMENT ==> r is Ok && final(self).state.metadata() == old(
                self,
            ).state.metadata().insert(key@, value@),
    {
        if env_id != DEFAULT_ENVIRONMENT {
            return Err(AgentError::InvalidEnvironmentId);
        }
        self.state.set_metadata(&key, &value)
    }
}

} // verus!
