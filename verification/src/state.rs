//! The handle registry of an agent: it owns every file and process object
//! that was registered and routes each handle back to its object.
//!
//! The registry is generic in the type `F` of a file object and the type `P`
//! of a process object, which it stores and hands out without looking into
//! them. A process object carries its own captured streams, so a stream
//! handle is routed to the process that owns the stream.

use vstd::prelude::*;
use vstd::std_specs::hash::group_hash_axioms;
use std::collections::HashMap;
use bimap::BiMap;
use crate::agent_error::AgentError;
use crate::metadata::MetadataStore;
use crate::process::{exit_code, poll_result, wait_step, wait_step_of, ExitStatus, WaitStep};
use crate::registry::{
    lemma_capture_wf, lemma_close_file_wf, lemma_register_file_wf, lemma_unissued_is_dead,
    lemma_unissued_process, Op, Registry, Route,
};
use crate::stream_map::{
    get_by_left, get_by_right, insert, lemma_inserted_fresh, new_table, pairs,
};
use crate::types::{
    FileId, FileOpenMode, FileOpenType, ProcessChannel, ProcessId, Redirection, RemotePOpenConfig,
};

verus! {

broadcast use group_hash_axioms;

/// The object behind a file handle.
pub enum FileRef<'a, F, P> {
    /// The file object that was registered under the handle.
    File(&'a F),
    /// The captured stream `channel` of the process object `process`.
    Stream { process: &'a P, channel: ProcessChannel },
}

/// The registry of open files, child processes and their captured streams.
pub struct BhAgentState<F, P> {
    files: HashMap<FileId, F>,
    file_modes: HashMap<FileId, FileOpenMode>,
    file_types: HashMap<FileId, FileOpenType>,
    processes: HashMap<ProcessId, P>,
    proc_stdin_ids: BiMap<ProcessId, FileId>,
    proc_stdout_ids: BiMap<ProcessId, FileId>,
    proc_stderr_ids: BiMap<ProcessId, FileId>,
    metadata: MetadataStore,
    next_file_id: FileId,
    next_process_id: ProcessId,
}

impl<F, P> View for BhAgentState<F, P> {
    type V = Registry;

    closed spec fn view(&self) -> Registry {
        Registry {
            open_files: self.files@.dom(),
            modes: self.file_modes@,
            types: self.file_types@,
            processes: self.processes@.dom(),
            stdin_ids: pairs(self.proc_stdin_ids),
            stdout_ids: pairs(self.proc_stdout_ids),
            stderr_ids: pairs(self.proc_stderr_ids),
            next_file_id: self.next_file_id as int,
            next_process_id: self.next_process_id as int,
        }
    }
}

impl<F, P> BhAgentState<F, P> {
    /// The file object registered under each open file handle.
    pub closed spec fn file_objects(&self) -> Map<FileId, F> {
        self.files@
    }

    /// The process object registered under each process handle.
    pub closed spec fn process_objects(&self) -> Map<ProcessId, P> {
        self.processes@
    }

    /// The strings that clients have stored, each under its key.
    pub closed spec fn metadata(&self) -> Map<Seq<char>, Seq<char>> {
        self.metadata@
    }

    /// The invariant of the scratch space.
    pub closed spec fn metadata_wf(&self) -> bool {
        self.metadata.wf()
    }

    /// The invariant of the registry.
    pub open spec fn wf(&self) -> bool {
        &&& self@.wf()
        &&& self.metadata_wf()
        &&& self.file_objects().dom() =~= self@.open_files
        &&& self.process_objects().dom() =~= self@.processes
    }

    /// The object that `fd` is routed to.
    pub open spec fn target(&self, fd: FileId) -> Option<FileRef<'_, F, P>> {
        match self@.route(fd) {
            Some(Route::File) => Some(FileRef::File(&self.file_objects()[fd])),
            Some(Route::Stream { process, channel }) => Some(
                FileRef::Stream { process: &self.process_objects()[process], channel },
            ),
            None => None,
        }
    }

    /// A registry that has issued no handle.
    pub fn new() -> (state: Self)
        ensures
            state.wf(),
            state@ == Registry::empty(),
            state.metadata() =~= Map::empty(),
    {
        BhAgentState {
            files: HashMap::new(),
            file_modes: HashMap::new(),
            file_types: HashMap::new(),
            processes: HashMap::new(),
            proc_stdin_ids: new_table(),
            proc_stdout_ids: new_table(),
            proc_stderr_ids: new_table(),
            metadata: MetadataStore::new(),
            next_file_id: 0,
            next_process_id: 0,
        }
    }

    /// Issues the next file handle, unless the handles are used up.
    fn take_file_id(&mut self) -> (r: Result<FileId, AgentError>)
        requires
            old(self).wf(),
        ensures
            final(self).wf(),
            final(self).file_objects() == old(self).file_objects(),
            final(self).process_objects() == old(self).process_objects(),
            final(self).metadata() == old(self).metadata(),
            match r {
                Ok(file_id) => {
                    &&& old(self)@.has_file_room(1)
                    &&& file_id == old(self)@.next_file_id
                    &&& final(self)@ == Registry {
                        next_file_id: old(self)@.next_file_id + 1,
                        ..old(self)@
                    }
                },
                Err(e) => {
                    &&& e == AgentError::Inconsistent
                    &&& !old(self)@.has_file_room(1)
                    &&& final(self)@ == old(self)@
                },
            },
    {
        if self.next_file_id == u64::MAX {
            return Err(AgentError::Inconsistent);
        }
        let file_id = self.next_file_id;
        self.next_file_id = self.next_file_id + 1;
        Ok(file_id)
    }

    /// Issues the next process handle, unless the handles are used up.
    /// The handle is at once that of a registered process: `process`.
    fn take_proc_id(&mut self, process: P) -> (r: Result<ProcessId, AgentError>)
        requires
            old(self).wf(),
        ensures
            final(self).wf(),
            final(self).file_objects() == old(self).file_objects(),
            final(self).metadata() == old(self).metadata(),
            match r {
                Ok(proc_id) => {
                    &&& old(self)@.has_process_room()
                    &&& proc_id == old(self)@.next_process_id
                    &&& final(self)@ == Registry {
                        processes: old(self)@.processes.insert(proc_id),
                        next_process_id: old(self)@.next_process_id + 1,
                        ..old(self)@
                    }
                    &&& final(self).process_objects() == old(self).process_objects().insert(
                        proc_id,
                        process,
                    )
                },
                Err(e) => {
                    &&& e == AgentError::Inconsistent
                    &&& !old(self)@.has_process_room()
                    &&& final(self)@ == old(self)@
                    &&& final(self).process_objects() == old(self).process_objects()
                },
            },
    {
        if self.next_process_id == u64::MAX {
            return Err(AgentError::Inconsistent);
        }
        let proc_id = self.next_process_id;
        proof {
            lemma_unissued_process(self@, proc_id);
        }
        self.next_process_id = self.next_process_id + 1;
        self.processes.insert(proc_id, process);
        Ok(proc_id)
    }

    /// Gives the captured stream `channel` of the process `proc_id` the
    /// next file handle, unless the handles are used up.
    fn capture(&mut self, proc_id: ProcessId, channel: ProcessChannel) -> (r: Result<
        FileId,
        AgentError,
    >)
        requires
            old(self).wf(),
            old(self)@.processes.contains(proc_id),
            !old(self)@.channel_ids(channel).contains_key(proc_id),
        ensures
            final(self).wf(),
            final(self).file_objects() == old(self).file_objects(),
            final(self).process_objects() == old(self).process_objects(),
            final(self).metadata() == old(self).metadata(),
            match r {
                Ok(file_id) => {
                    &&& old(self)@.has_file_room(1)
                    &&& file_id == old(self)@.next_file_id
                    &&& final(self)@ == old(self)@.capture(proc_id, channel)
                },
                Err(e) => {
                    &&& e == AgentError::Inconsistent
                    &&& !old(self)@.has_file_room(1)
                    &&& final(self)@ == old(self)@
                },
            },
    {
        let file_id = match self.take_file_id() {
            Ok(file_id) => file_id,
            Err(e) => {
                return Err(e);
            },
        };
        proof {
            lemma_capture_wf(old(self)@, proc_id, channel);
            lemma_unissued_is_dead(old(self)@, file_id);
            lemma_inserted_fresh(old(self)@.channel_ids(channel), proc_id, file_id);
        }
        match channel {
            ProcessChannel::Stdin => {
                insert(&mut self.proc_stdin_ids, proc_id, file_id);
                self.file_modes.insert(file_id, FileOpenMode::Write);
            },
            ProcessChannel::Stdout => {
                insert(&mut self.proc_stdout_ids, proc_id, file_id);
                self.file_modes.insert(file_id, FileOpenMode::Read);
            },
            ProcessChannel::Stderr => {
                insert(&mut self.proc_stderr_ids, proc_id, file_id);
                self.file_modes.insert(file_id, FileOpenMode::Read);
            },
        }
        self.file_types.insert(file_id, FileOpenType::Binary);
        assert(self@ =~= old(self)@.capture(proc_id, channel));
        Ok(file_id)
    }

    /// Registers the outcome of opening a file: a file object that the
    /// caller opened with `mode`, or the message of the failure to open it.
    ///
    /// An opened file gets the next file handle. A failure is reported as
    /// an I/O error with its message, and a handle space that is used up as
    /// an inconsistent state; neither changes the registry.
    pub fn open_path(
        &mut self,
        opened: Result<F, String>,
        mode: FileOpenMode,
        type_: FileOpenType,
    ) -> (r: Result<FileId, AgentError>)
        requires
            old(self).wf(),
        ensures
            final(self).wf(),
            final(self).process_objects() == old(self).process_objects(),
            final(self).metadata() == old(self).metadata(),
            opened is Ok ==> final(self)@ == old(self)@.apply(Op::Open { mode, type_ }),
            match r {
                Ok(fd) => {
                    &&& opened is Ok
                    &&& old(self)@.has_file_room(1)
                    &&& fd == old(self)@.next_file_id
                    &&& final(self)@ == old(self)@.register_file(mode, type_)
                    &&& final(self).file_objects() == old(self).file_objects().insert(
                        fd,
                        opened->Ok_0,
                    )
                },
                Err(e) => {
                    &&& final(self)@ == old(self)@
                    &&& final(self).file_objects() == old(self).file_objects()
                    &&& match opened {
                        Err(detail) => e == AgentError::IoError(detail),
                        Ok(_) => e == AgentError::Inconsistent && !old(self)@.has_file_room(1),
                    }
                },
            },
    {
        let file = match opened {
            Ok(file) => file,
            Err(detail) => {
                return Err(AgentError::IoError(detail));
            },
        };
        let file_id = match self.take_file_id() {
            Ok(file_id) => file_id,
            Err(e) => {
                return Err(e);
            },
        };
        proof {
            lemma_register_file_wf(old(self)@, mode, type_);
        }
        self.files.insert(file_id, file);
        self.file_modes.insert(file_id, mode);
        self.file_types.insert(file_id, type_);
        Ok(file_id)
    }

    /// Registers the outcome of starting the process that `config`
    /// describes: the process object that the caller started, or the message
    /// of the failure to start it.
    ///
    /// An empty `argv` is refused before anything else. A started process
    /// gets the next process handle; then each stream that `config` captures
    /// gets the next file handle, in the order standard input, output,
    /// error: standard input in write mode, the other two in read mode, all
    /// of the binary type. Nothing changes when the call fails.
    pub fn run_command(&mut self, config: &RemotePOpenConfig, spawned: Result<P, String>) -> (r:
        Result<ProcessId, AgentError>)
        requires
            old(self).wf(),
        ensures
            final(self).wf(),
            final(self).file_objects() == old(self).file_objects(),
            final(self).metadata() == old(self).metadata(),
            config.argv@.len() > 0 && spawned is Ok ==> final(self)@ == old(self)@.apply(
                Op::Spawn {
                    stdin: config.stdin.is_captured(),
                    stdout: config.stdout.is_captured(),
                    stderr: config.stderr.is_captured(),
                },
            ),
            match r {
                Ok(proc_id) => {
                    &&& config.argv@.len() > 0
                    &&& spawned is Ok
                    &&& old(self)@.has_process_room()
                    &&& old(self)@.has_file_room(config.captured_count())
                    &&& proc_id == old(self)@.next_process_id
                    &&& final(self)@ == old(self)@.register_process(
                        config.stdin.is_captured(),
                        config.stdout.is_captured(),
                        config.stderr.is_captured(),
                    )
                    &&& final(self).process_objects() == old(self).process_objects().insert(
                        proc_id,
                        spawned->Ok_0,
                    )
                },
                Err(e) => {
                    &&& final(self)@ == old(self)@
                    &&& final(self).process_objects() == old(self).process_objects()
                    &&& if config.argv@.len() == 0 {
                        e matches AgentError::ProcessStartFailure(detail) && detail@
                            == "argv must not be empty"@
                    } else {
                        match spawned {
                            Err(detail) => e == AgentError::ProcessStartFailure(detail),
                            Ok(_) => e == AgentError::Inconsistent && !(
                            old(self)@.has_process_room() && old(self)@.has_file_room(
                                config.captured_count(),
                            )),
                        }
                    }
                },
            },
    {
        if config.argv.len() == 0 {
            return Err(AgentError::ProcessStartFailure(String::from_str("argv must not be empty")));
        }
        let process = match spawned {
            Ok(process) => process,
            Err(detail) => {
                return Err(AgentError::ProcessStartFailure(detail));
            },
        };
        let stdin = config.stdin == Redirection::Save;
        let stdout = config.stdout == Redirection::Save;
        let stderr = config.stderr == Redirection::Save;
        let mut wanted: u64 = 0;
        if stdin {
            wanted = wanted + 1;
        }
        if stdout {
            wanted = wanted + 1;
        }
        if stderr {
            wanted = wanted + 1;
        }
        if self.next_process_id == u64::MAX || u64::MAX - self.next_file_id < wanted {
            return Err(AgentError::Inconsistent);
        }
        let proc_id = match self.take_proc_id(process) {
            Ok(proc_id) => proc_id,
            Err(e) => {
                return Err(e);
            },
        };
        if stdin {
            match self.capture(proc_id, ProcessChannel::Stdin) {
                Ok(_) => {},
                Err(e) => {
                    return Err(e);
                },
            }
        }
        if stdout {
            match self.capture(proc_id, ProcessChannel::Stdout) {
                Ok(_) => {},
                Err(e) => {
                    return Err(e);
                },
            }
        }
        if stderr {
            match self.capture(proc_id, ProcessChannel::Stderr) {
                Ok(_) => {},
                Err(e) => {
                    return Err(e);
                },
            }
        }
        Ok(proc_id)
    }

    /// Whether the mode recorded for `fd` is one of `modes`.
    pub fn file_has_any_mode(&self, fd: &FileId, modes: &Vec<FileOpenMode>) -> (r: Result<
        bool,
        AgentError,
    >)
        requires
            self.wf(),
        ensures
            match r {
                Ok(found) => self@.modes.contains_key(*fd) && found == modes@.contains(
                    self@.modes[*fd],
                ),
                Err(e) => e == AgentError::InvalidFileDescriptor && !self@.modes.contains_key(*fd),
            },
    {
        let mode = match self.file_modes.get(fd) {
            Some(mode) => *mode,
            None => {
                return Err(AgentError::InvalidFileDescriptor);
            },
        };
        let mut i: usize = 0;
        while i < modes.len()
            invariant
                0 <= i <= modes.len(),
                self@.modes.contains_key(*fd),
                mode == self@.modes[*fd],
                forall|j: int| 0 <= j < i ==> modes@[j] != mode,
            decreases modes.len() - i,
        {
            if modes[i] == mode {
                return Ok(true);
            }
            i = i + 1;
        }
        Ok(false)
    }

    /// The data type recorded for `fd`.
    pub fn file_type(&self, fd: &FileId) -> (r: Result<FileOpenType, AgentError>)
        requires
            self.wf(),
        ensures
            match r {
                Ok(type_) => self@.types.contains_key(*fd) && type_ == self@.types[*fd],
                Err(e) => e == AgentError::InvalidFileDescriptor && !self@.types.contains_key(*fd),
            },
    {
        match self.file_types.get(fd) {
            Some(type_) => Ok(*type_),
            None => Err(AgentError::InvalidFileDescriptor),
        }
    }

    /// The handle of the captured stream `channel` of the process `proc_id`.
    /// It fails with an invalid process handle where the process has no such
    /// stream, be it that the stream was not captured or that no such
    /// process was started.
    pub fn get_process_channel(&self, proc_id: &ProcessId, channel: ProcessChannel) -> (r: Result<
        FileId,
        AgentError,
    >)
        requires
            self.wf(),
        ensures
            match r {
                Ok(fd) => self@.channel(*proc_id, channel) == Some(fd),
                Err(e) => e == AgentError::InvalidProcessId && self@.channel(*proc_id, channel)
                    is None,
            },
    {
        let found = match channel {
            ProcessChannel::Stdin => get_by_left(&self.proc_stdin_ids, *proc_id),
            ProcessChannel::Stdout => get_by_left(&self.proc_stdout_ids, *proc_id),
            ProcessChannel::Stderr => get_by_left(&self.proc_stderr_ids, *proc_id),
        };
        match found {
            Some(fd) => Ok(fd),
            None => Err(AgentError::InvalidProcessId),
        }
    }

    /// The process object registered under `proc_id`.
    pub fn process(&self, proc_id: &ProcessId) -> (r: Result<&P, AgentError>)
        requires
            self.wf(),
        ensures
            match r {
                Ok(process) => self@.processes.contains(*proc_id) && *process
                    == self.process_objects()[*proc_id],
                Err(e) => e == AgentError::InvalidProcessId && !self@.processes.contains(*proc_id),
            },
    {
        match self.processes.get(proc_id) {
            Some(process) => Ok(process),
            None => Err(AgentError::InvalidProcessId),
        }
    }

    /// The handles of all processes started so far, in the order in which
    /// they were issued.
    pub fn get_process_ids(&self) -> (ids: Vec<ProcessId>)
        requires
            self.wf(),
        ensures
            ids@.len() == self@.next_process_id,
            forall|i: int| 0 <= i < ids@.len() ==> ids@[i] == i,
            forall|p: ProcessId| ids@.contains(p) <==> self@.processes.contains(p),
    {
        let mut ids: Vec<ProcessId> = Vec::new();
        let mut next: ProcessId = 0;
        while next < self.next_process_id
            invariant
                next <= self.next_process_id,
                ids@.len() == next,
                forall|i: int| 0 <= i < ids@.len() ==> ids@[i] == i,
            decreases self.next_process_id - next,
        {
            ids.push(next);
            next = next + 1;
        }
        assert forall|p: ProcessId| ids@.contains(p) <==> self@.processes.contains(p) by {
            if self@.processes.contains(p) {
                assert(ids@[p as int] == p);
            }
        }
        ids
    }

    /// What a poll of the process `proc_id` reports, given the status
    /// `polled` that the operating system returned for it: nothing while it
    /// runs, else its exit code.
    pub fn process_poll(&self, proc_id: &ProcessId, polled: Option<ExitStatus>) -> (r: Result<
        Option<u32>,
        AgentError,
    >)
        requires
            self.wf(),
        ensures
            r == (if self@.processes.contains(*proc_id) {
                poll_result(polled)
            } else {
                Err(AgentError::InvalidProcessId)
            }),
    {
        if !self.processes.contains_key(proc_id) {
            return Err(AgentError::InvalidProcessId);
        }
        exit_code(polled)
    }

    /// The exit code of the process `proc_id`, given the status `recorded`
    /// that was last observed for it, without polling again.
    pub fn process_exit_code(&self, proc_id: &ProcessId, recorded: Option<ExitStatus>) -> (r:
        Result<Option<u32>, AgentError>)
        requires
            self.wf(),
        ensures
            r == (if self@.processes.contains(*proc_id) {
                poll_result(recorded)
            } else {
                Err(AgentError::InvalidProcessId)
            }),
    {
        if !self.processes.contains_key(proc_id) {
            return Err(AgentError::InvalidProcessId);
        }
        exit_code(recorded)
    }

    /// One round of a wait for the process `proc_id` that has lasted
    /// `waited` milliseconds, given the status `polled` that the operating
    /// system just returned for it.
    pub fn process_wait(
        &self,
        proc_id: &ProcessId,
        polled: Option<ExitStatus>,
        waited: u64,
        timeout: Option<u32>,
    ) -> (r: Result<WaitStep, AgentError>)
        requires
            self.wf(),
        ensures
            r == (if !self@.processes.contains(*proc_id) {
                Err(AgentError::InvalidProcessId)
            } else {
                match poll_result(polled) {
                    Ok(code) => Ok(wait_step_of(code is Some, waited, timeout)),
                    Err(e) => Err(e),
                }
            }),
    {
        match self.process_poll(proc_id, polled) {
            Ok(code) => Ok(wait_step(code.is_some(), waited, timeout)),
            Err(e) => Err(e),
        }
    }

    /// The object behind the handle `fd`. The file table is searched first,
    /// then the tables of standard input, output and error; a handle found
    /// in none of them is invalid.
    pub fn lookup_file_or_stream(&self, fd: &FileId) -> (r: Result<FileRef<'_, F, P>, AgentError>)
        requires
            self.wf(),
        ensures
            match r {
                Ok(target) => self.target(*fd) == Some(target),
                Err(e) => e == AgentError::InvalidFileDescriptor && self@.route(*fd) is None,
            },
    {
        if let Some(file) = self.files.get(fd) {
            return Ok(FileRef::File(file));
        }
        if let Some(pid) = get_by_right(&self.proc_stdin_ids, *fd) {
            let process = self.processes.get(&pid).unwrap();
            return Ok(FileRef::Stream { process, channel: ProcessChannel::Stdin });
        }
        if let Some(pid) = get_by_right(&self.proc_stdout_ids, *fd) {
            let process = self.processes.get(&pid).unwrap();
            return Ok(FileRef::Stream { process, channel: ProcessChannel::Stdout });
        }
        if let Some(pid) = get_by_right(&self.proc_stderr_ids, *fd) {
            let process = self.processes.get(&pid).unwrap();
            return Ok(FileRef::Stream { process, channel: ProcessChannel::Stderr });
        }
        Err(AgentError::InvalidFileDescriptor)
    }

    /// Applies `op` to the object behind the handle `fd` and returns what
    /// it returns.
    pub fn do_mut_operation<R, Op: Fn(FileRef<'_, F, P>) -> R>(&self, fd: &FileId, op: Op) -> (r:
        Result<R, AgentError>)
        requires
            self.wf(),
            forall|target: FileRef<'_, F, P>| self.target(*fd) == Some(target) ==> op.requires(
                (target,),
            ),
        ensures
            match r {
                Ok(value) => self.target(*fd) matches Some(target) && op.ensures((target,), value),
                Err(e) => e == AgentError::InvalidFileDescriptor && self@.route(*fd) is None,
            },
    {
        match self.lookup_file_or_stream(fd) {
            Ok(target) => Ok(op(target)),
            Err(e) => Err(e),
        }
    }

    /// Closes the open file `fd`: the handle leaves the registry and its
    /// file object is dropped. A handle that is not an open file, a stream
    /// handle included, is refused and nothing changes.
    pub fn close_file(&mut self, fd: &FileId) -> (r: Result<(), AgentError>)
        requires
            old(self).wf(),
        ensures
            final(self).wf(),
            final(self).process_objects() == old(self).process_objects(),
            final(self).metadata() == old(self).metadata(),
            final(self)@ == old(self)@.apply(Op::Close { fd: *fd }),
            match r {
                Ok(_) => {
                    &&& old(self)@.open_files.contains(*fd)
                    &&& final(self)@ == old(self)@.close_file(*fd)
                    &&& final(self).file_objects() == old(self).file_objects().remove(*fd)
                },
                Err(e) => {
                    &&& e == AgentError::InvalidFileDescriptor
                    &&& !old(self)@.open_files.contains(*fd)
                    &&& final(self)@ == old(self)@
                    &&& final(self).file_objects() == old(self).file_objects()
                },
            },
    {
        if !self.files.contains_key(fd) {
            return Err(AgentError::InvalidFileDescriptor);
        }
        proof {
            lemma_close_file_wf(self@, *fd);
        }
        let _ = self.files.remove(fd);
        let _ = self.file_modes.remove(fd);
        let _ = self.file_types.remove(fd);
        Ok(())
    }

    /// The string that clients stored under `key`, if any.
    pub fn get_metadata(&self, key: &String) -> (r: Result<Option<String>, AgentError>)
        requires
            self.wf(),
        ensures
            r matches Ok(found) && match found {
                Some(value) => self.metadata().contains_key(key@) && value@ == self.metadata()[key@],
                None => !self.metadata().contains_key(key@),
            },
    {
        Ok(self.metadata.get(key))
    }

    /// Stores `value` under `key`, in place of what was stored there.
    pub fn set_metadata(&mut self, key: &String, value: &String) -> (r: Result<(), AgentError>)
        requires
            old(self).wf(),
        ensures
            r is Ok,
            final(self).wf(),
            final(self).metadata() == old(self).metadata().insert(key@, value@),
            final(self)@ == old(self)@,
            final(self).file_objects() == old(self).file_objects(),
            final(self).process_objects() == old(self).process_objects(),
    {
        self.metadata.set(key, value);
        Ok(())
    }

    /// Whether `fd` is closed, that is, not an open file. A stream handle is
    /// therefore reported as closed.
    pub fn is_file_closed(&self, fd: &FileId) -> (r: Result<bool, AgentError>)
        requires
            self.wf(),
        ensures
            r matches Ok(closed) && closed == !self@.open_files.contains(*fd),
    {
        Ok(!self.files.contains_key(fd))
    }
}

} // verus!
