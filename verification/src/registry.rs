//! The mathematical model of the handle registry: which handles exist, what
//! each stands for, and how every operation changes that.
//!
//! The executable registry is specified against this model, and the laws at
//! the end of the file are proved about it once and for all.

use vstd::prelude::*;
use crate::types::{FileId, FileOpenMode, FileOpenType, ProcessChannel, ProcessId};

verus! {

/// What a file handle refers to.
#[derive(Copy, Clone, Debug, PartialEq, Eq, Structural)]
pub enum Route {
    /// A file opened by path.
    File,
    /// The captured stream `channel` of the process `process`.
    Stream { process: ProcessId, channel: ProcessChannel },
}

/// The handles of a registry and what is recorded about each.
pub struct Registry {
    /// The handles of the files opened by path and not closed since.
    pub open_files: Set<FileId>,
    /// The access mode recorded for each live file handle.
    pub modes: Map<FileId, FileOpenMode>,
    /// The data type recorded for each live file handle.
    pub types: Map<FileId, FileOpenType>,
    /// The handles of the processes started so far.
    pub processes: Set<ProcessId>,
    /// For each process whose standard input was captured, its handle.
    pub stdin_ids: Map<ProcessId, FileId>,
    /// For each process whose standard output was captured, its handle.
    pub stdout_ids: Map<ProcessId, FileId>,
    /// For each process whose standard error was captured, its handle.
    pub stderr_ids: Map<ProcessId, FileId>,
    /// The next file handle to be issued.
    pub next_file_id: int,
    /// The next process handle to be issued.
    pub next_process_id: int,
}

/// The largest value a handle can take.
pub open spec fn max_handle() -> int {
    0xffff_ffff_ffff_ffff
}

/// No stream handle stands for two processes.
pub open spec fn one_to_one(ids: Map<ProcessId, FileId>) -> bool {
    forall|p: ProcessId, q: ProcessId|
        ids.contains_key(p) && ids.contains_key(q) && #[trigger] ids[p] == #[trigger] ids[q] ==> p
            == q
}

/// `fd` is the stream handle of some process in `ids`.
pub open spec fn is_stream_of(ids: Map<ProcessId, FileId>, fd: FileId) -> bool {
    exists|p: ProcessId| ids.contains_key(p) && #[trigger] ids[p] == fd
}

/// The process whose stream handle in `ids` is `fd`.
pub open spec fn stream_owner(ids: Map<ProcessId, FileId>, fd: FileId) -> ProcessId {
    choose|p: ProcessId| ids.contains_key(p) && #[trigger] ids[p] == fd
}

impl Registry {
    /// The registry of an agent that has issued no handle yet.
    pub open spec fn empty() -> Registry {
        Registry {
            open_files: Set::empty(),
            modes: Map::empty(),
            types: Map::empty(),
            processes: Set::empty(),
            stdin_ids: Map::empty(),
            stdout_ids: Map::empty(),
            stderr_ids: Map::empty(),
            next_file_id: 0,
            next_process_id: 0,
        }
    }

    /// The table of stream handles of one channel.
    pub open spec fn channel_ids(self, channel: ProcessChannel) -> Map<ProcessId, FileId> {
        match channel {
            ProcessChannel::Stdin => self.stdin_ids,
            ProcessChannel::Stdout => self.stdout_ids,
            ProcessChannel::Stderr => self.stderr_ids,
        }
    }

    /// `fd` is a stream handle of some process.
    pub open spec fn is_stream(self, fd: FileId) -> bool {
        is_stream_of(self.stdin_ids, fd) || is_stream_of(self.stdout_ids, fd) || is_stream_of(
            self.stderr_ids,
            fd,
        )
    }

    /// `fd` is live: an open file or a stream handle.
    pub open spec fn is_live(self, fd: FileId) -> bool {
        self.open_files.contains(fd) || self.is_stream(fd)
    }

    /// What `fd` refers to. The file table is searched first, then the
    /// tables of standard input, output and error, in that order.
    pub open spec fn route(self, fd: FileId) -> Option<Route> {
        if self.open_files.contains(fd) {
            Some(Route::File)
        } else if is_stream_of(self.stdin_ids, fd) {
            Some(
                Route::Stream {
                    process: stream_owner(self.stdin_ids, fd),
                    channel: ProcessChannel::Stdin,
                },
            )
        } else if is_stream_of(self.stdout_ids, fd) {
            Some(
                Route::Stream {
                    process: stream_owner(self.stdout_ids, fd),
                    channel: ProcessChannel::Stdout,
                },
            )
        } else if is_stream_of(self.stderr_ids, fd) {
            Some(
                Route::Stream {
                    process: stream_owner(self.stderr_ids, fd),
                    channel: ProcessChannel::Stderr,
                },
            )
        } else {
            None
        }
    }

    /// The handle of the captured stream `channel` of `process`, if any.
    pub open spec fn channel(self, process: ProcessId, channel: ProcessChannel) -> Option<FileId> {
        if self.channel_ids(channel).contains_key(process) {
            Some(self.channel_ids(channel)[process])
        } else {
            None
        }
    }

    /// The file handle `fd` was issued at some point in the past.
    pub open spec fn issued_file(self, fd: FileId) -> bool {
        fd < self.next_file_id
    }

    /// The process handle `process` was issued at some point in the past.
    pub open spec fn issued_process(self, process: ProcessId) -> bool {
        process < self.next_process_id
    }

    /// The stream handles of one table: each belongs to a started process,
    /// was issued, has the mode `mode` and the binary type.
    pub open spec fn streams_recorded(self, ids: Map<ProcessId, FileId>, mode: FileOpenMode) -> bool {
        forall|p: ProcessId| #[trigger]
            ids.contains_key(p) ==> {
                &&& self.processes.contains(p)
                &&& self.modes.contains_key(ids[p])
                &&& self.modes[ids[p]] == mode
                &&& self.types[ids[p]] == FileOpenType::Binary
                &&& !self.open_files.contains(ids[p])
            }
    }

    /// No handle belongs to two of the given tables.
    pub open spec fn tables_apart(a: Map<ProcessId, FileId>, b: Map<ProcessId, FileId>) -> bool {
        forall|p: ProcessId, q: ProcessId|
            a.contains_key(p) && b.contains_key(q) ==> #[trigger] a[p] != #[trigger] b[q]
    }

    /// The invariant of a registry.
    pub open spec fn wf(self) -> bool {
        &&& 0 <= self.next_file_id <= max_handle()
        &&& 0 <= self.next_process_id <= max_handle()
        &&& self.modes.dom() =~= self.types.dom()
        &&& forall|fd: FileId| #[trigger] self.modes.contains_key(fd) <==> self.is_live(fd)
        &&& forall|fd: FileId| #[trigger] self.modes.contains_key(fd) ==> self.issued_file(fd)
        &&& forall|p: ProcessId| #[trigger] self.processes.contains(p) <==> self.issued_process(p)
        &&& one_to_one(self.stdin_ids)
        &&& one_to_one(self.stdout_ids)
        &&& one_to_one(self.stderr_ids)
        &&& Self::tables_apart(self.stdin_ids, self.stdout_ids)
        &&& Self::tables_apart(self.stdin_ids, self.stderr_ids)
        &&& Self::tables_apart(self.stdout_ids, self.stderr_ids)
        &&& self.streams_recorded(self.stdin_ids, FileOpenMode::Write)
        &&& self.streams_recorded(self.stdout_ids, FileOpenMode::Read)
        &&& self.streams_recorded(self.stderr_ids, FileOpenMode::Read)
    }

    /// There is room for `count` more file handles.
    pub open spec fn has_file_room(self, count: int) -> bool {
        self.next_file_id + count <= max_handle()
    }

    /// There is room for one more process handle.
    pub open spec fn has_process_room(self) -> bool {
        self.next_process_id + 1 <= max_handle()
    }

    /// The registry after a file opened with `mode` and `type_` was given
    /// the next file handle.
    pub open spec fn register_file(self, mode: FileOpenMode, type_: FileOpenType) -> Registry {
        let fd = self.next_file_id as FileId;
        Registry {
            open_files: self.open_files.insert(fd),
            modes: self.modes.insert(fd, mode),
            types: self.types.insert(fd, type_),
            next_file_id: self.next_file_id + 1,
            ..self
        }
    }

    /// The mode of the handle of a captured stream: a client writes to the
    /// standard input of a process and reads from its other streams.
    pub open spec fn stream_mode(channel: ProcessChannel) -> FileOpenMode {
        match channel {
            ProcessChannel::Stdin => FileOpenMode::Write,
            ProcessChannel::Stdout => FileOpenMode::Read,
            ProcessChannel::Stderr => FileOpenMode::Read,
        }
    }

    /// The registry with `ids` as the table of stream handles of `channel`.
    pub open spec fn with_channel_ids(
        self,
        channel: ProcessChannel,
        ids: Map<ProcessId, FileId>,
    ) -> Registry {
        match channel {
            ProcessChannel::Stdin => Registry { stdin_ids: ids, ..self },
            ProcessChannel::Stdout => Registry { stdout_ids: ids, ..self },
            ProcessChannel::Stderr => Registry { stderr_ids: ids, ..self },
        }
    }

    /// The registry after the stream `channel` of `process` was captured:
    /// the stream has the next file handle, with the mode of its channel and
    /// the binary type.
    pub open spec fn capture(self, process: ProcessId, channel: ProcessChannel) -> Registry {
        let fd = self.next_file_id as FileId;
        Registry {
            modes: self.modes.insert(fd, Self::stream_mode(channel)),
            types: self.types.insert(fd, FileOpenType::Binary),
            next_file_id: self.next_file_id + 1,
            ..self.with_channel_ids(channel, self.channel_ids(channel).insert(process, fd))
        }
    }

    /// The number of streams that a start captures.
    pub open spec fn captured_count(stdin: bool, stdout: bool, stderr: bool) -> int {
        (if stdin { 1int } else { 0 }) + (if stdout { 1int } else { 0 }) + (if stderr { 1int } else { 0 })
    }

    /// The registry after a started process was given the next process
    /// handle and each captured stream, in the order standard input, output,
    /// error, the next file handle.
    pub open spec fn register_process(self, stdin: bool, stdout: bool, stderr: bool) -> Registry {
        let process = self.next_process_id as ProcessId;
        let named = Registry {
            processes: self.processes.insert(process),
            next_process_id: self.next_process_id + 1,
            ..self
        };
        let with_in = if stdin { named.capture(process, ProcessChannel::Stdin) } else { named };
        let with_out = if stdout {
            with_in.capture(process, ProcessChannel::Stdout)
        } else {
            with_in
        };
        if stderr {
            with_out.capture(process, ProcessChannel::Stderr)
        } else {
            with_out
        }
    }

    /// The registry after the open file `fd` was closed.
    pub open spec fn close_file(self, fd: FileId) -> Registry {
        Registry {
            open_files: self.open_files.remove(fd),
            modes: self.modes.remove(fd),
            types: self.types.remove(fd),
            ..self
        }
    }
}

/// A handle that was not issued yet is in no table.
pub proof fn lemma_unissued_is_dead(r: Registry, fd: FileId)
    requires
        r.wf(),
        !r.issued_file(fd),
    ensures
        !r.is_live(fd),
        !r.modes.contains_key(fd),
        !r.types.contains_key(fd),
        r.route(fd) is None,
        !is_stream_of(r.stdin_ids, fd),
        !is_stream_of(r.stdout_ids, fd),
        !is_stream_of(r.stderr_ids, fd),
{
    assert(!r.modes.contains_key(fd));
}

/// Giving a file the next handle keeps the invariant.
pub proof fn lemma_register_file_wf(r: Registry, mode: FileOpenMode, type_: FileOpenType)
    requires
        r.wf(),
        r.has_file_room(1),
    ensures
        r.register_file(mode, type_).wf(),
{
    lemma_unissued_is_dead(r, r.next_file_id as FileId);
}

/// Closing an open file keeps the invariant.
pub proof fn lemma_close_file_wf(r: Registry, fd: FileId)
    requires
        r.wf(),
        r.open_files.contains(fd),
    ensures
        r.close_file(fd).wf(),
        !r.is_stream(fd),
        !r.close_file(fd).is_live(fd),
{
}

/// Capturing a stream of a started process keeps the invariant.
pub proof fn lemma_capture_wf(r: Registry, process: ProcessId, channel: ProcessChannel)
    requires
        r.wf(),
        r.has_file_room(1),
        r.processes.contains(process),
        !r.channel_ids(channel).contains_key(process),
    ensures
        r.capture(process, channel).wf(),
{
    let fd = r.next_file_id as FileId;
    let s = r.capture(process, channel);
    let old_ids = r.channel_ids(channel);
    let new_ids = s.channel_ids(channel);
    lemma_unissued_is_dead(r, fd);
    assert forall|h: FileId| #[trigger] s.modes.contains_key(h) <==> s.is_live(h) by {
        if h == fd {
            assert(new_ids.contains_key(process) && new_ids[process] == fd);
        } else if is_stream_of(old_ids, h) {
            let p = stream_owner(old_ids, h);
            assert(new_ids.contains_key(p) && new_ids[p] == h);
        }
    }
}

/// A process that was not issued yet has no captured stream.
pub proof fn lemma_unissued_process(r: Registry, process: ProcessId)
    requires
        r.wf(),
        !r.issued_process(process),
    ensures
        !r.processes.contains(process),
        !r.stdin_ids.contains_key(process),
        !r.stdout_ids.contains_key(process),
        !r.stderr_ids.contains_key(process),
{
}

/// Registering a started process keeps the invariant.
pub proof fn lemma_register_process_wf(r: Registry, stdin: bool, stdout: bool, stderr: bool)
    requires
        r.wf(),
        r.has_process_room(),
        r.has_file_room(Registry::captured_count(stdin, stdout, stderr)),
    ensures
        r.register_process(stdin, stdout, stderr).wf(),
{
    let process = r.next_process_id as ProcessId;
    lemma_unissued_process(r, process);
    let named = Registry {
        processes: r.processes.insert(process),
        next_process_id: r.next_process_id + 1,
        ..r
    };
    if stdin {
        lemma_capture_wf(named, process, ProcessChannel::Stdin);
    }
    let with_in = if stdin { named.capture(process, ProcessChannel::Stdin) } else { named };
    if stdout {
        lemma_capture_wf(with_in, process, ProcessChannel::Stdout);
    }
    let with_out = if stdout { with_in.capture(process, ProcessChannel::Stdout) } else { with_in };
    if stderr {
        lemma_capture_wf(with_out, process, ProcessChannel::Stderr);
    }
}

/// An operation that changes the handles of a registry.
pub enum Op {
    /// A file that was opened with this mode and type is registered.
    Open { mode: FileOpenMode, type_: FileOpenType },
    /// A process that was started is registered, with the streams that
    /// were captured.
    Spawn { stdin: bool, stdout: bool, stderr: bool },
    /// The file with this handle is closed.
    Close { fd: FileId },
}

impl Registry {
    /// The registry after `op`. An operation that cannot be carried out,
    /// for want of handles or because the handle to close is no open file,
    /// changes nothing.
    pub open spec fn apply(self, op: Op) -> Registry {
        match op {
            Op::Open { mode, type_ } => if self.has_file_room(1) {
                self.register_file(mode, type_)
            } else {
                self
            },
            Op::Spawn { stdin, stdout, stderr } => if self.has_process_room() && self.has_file_room(
                Self::captured_count(stdin, stdout, stderr),
            ) {
                self.register_process(stdin, stdout, stderr)
            } else {
                self
            },
            Op::Close { fd } => if self.open_files.contains(fd) {
                self.close_file(fd)
            } else {
                self
            },
        }
    }

    /// The registry after the operations `ops`, in their order.
    pub open spec fn apply_all(self, ops: Seq<Op>) -> Registry
        decreases ops.len(),
    {
        if ops.len() == 0 {
            self
        } else {
            self.apply_all(ops.drop_last()).apply(ops.last())
        }
    }
}

/// Every operation keeps the invariant.
pub proof fn lemma_apply_wf(r: Registry, op: Op)
    requires
        r.wf(),
    ensures
        r.apply(op).wf(),
{
    match op {
        Op::Open { mode, type_ } => {
            if r.has_file_room(1) {
                lemma_register_file_wf(r, mode, type_);
            }
        },
        Op::Spawn { stdin, stdout, stderr } => {
            if r.has_process_room() && r.has_file_room(
                Registry::captured_count(stdin, stdout, stderr),
            ) {
                lemma_register_process_wf(r, stdin, stdout, stderr);
            }
        },
        Op::Close { fd } => {
            if r.open_files.contains(fd) {
                lemma_close_file_wf(r, fd);
            }
        },
    }
}

/// Every sequence of operations keeps the invariant.
pub proof fn lemma_apply_all_wf(r: Registry, ops: Seq<Op>)
    requires
        r.wf(),
    ensures
        r.apply_all(ops).wf(),
    decreases ops.len(),
{
    if ops.len() > 0 {
        lemma_apply_all_wf(r, ops.drop_last());
        lemma_apply_wf(r.apply_all(ops.drop_last()), ops.last());
    }
}

/// A handle is never reissued. A file handle that an operation brings to
/// life was not issued before, and counts as issued from then on; so does a
/// process handle that an operation registers. Whatever was issued before
/// an operation stays issued after it.
pub proof fn lemma_handles_are_fresh(r: Registry, op: Op)
    requires
        r.wf(),
    ensures
        forall|fd: FileId|
            !r.is_live(fd) && #[trigger] r.apply(op).is_live(fd) ==> !r.issued_file(fd)
                && r.apply(op).issued_file(fd),
        forall|p: ProcessId|
            !r.processes.contains(p) && #[trigger] r.apply(op).processes.contains(p)
                ==> !r.issued_process(p) && r.apply(op).issued_process(p),
        forall|fd: FileId| r.issued_file(fd) ==> #[trigger] r.apply(op).issued_file(fd),
        forall|p: ProcessId| r.issued_process(p) ==> #[trigger] r.apply(op).issued_process(p),
{
    lemma_apply_wf(r, op);
}

/// The handles with a recorded mode after an operation: those of before,
/// without the handle that was closed, and with handles that were not
/// issued before. No counter goes back.
pub proof fn lemma_modes_after(r: Registry, op: Op, fd: FileId)
    requires
        r.wf(),
    ensures
        r.next_file_id <= r.apply(op).next_file_id,
        r.next_process_id <= r.apply(op).next_process_id,
        r.apply(op).modes.contains_key(fd) ==> r.modes.contains_key(fd) || (!r.issued_file(fd)
            && r.apply(op).issued_file(fd)),
        r.modes.contains_key(fd) && !(op matches Op::Close { fd: closed } && closed == fd)
            ==> r.apply(op).modes.contains_key(fd) && r.apply(op).modes[fd] == r.modes[fd]
            && r.apply(op).types[fd] == r.types[fd],
{
    lemma_apply_wf(r, op);
}

/// A closed handle stays invalid. After the open file `fd` was closed, and
/// whatever operations follow, `fd` is routed nowhere and has neither a mode
/// nor a type, so every operation on it is refused as an invalid file
/// handle; only the question whether it is closed is answered, with yes.
pub proof fn lemma_closed_stays_closed(r: Registry, fd: FileId, ops: Seq<Op>)
    requires
        r.wf(),
        r.open_files.contains(fd),
    ensures
        r.close_file(fd).apply_all(ops).route(fd) is None,
        !r.close_file(fd).apply_all(ops).modes.contains_key(fd),
        !r.close_file(fd).apply_all(ops).types.contains_key(fd),
        !r.close_file(fd).apply_all(ops).open_files.contains(fd),
        r.close_file(fd).apply_all(ops).issued_file(fd),
    decreases ops.len(),
{
    let closed = r.close_file(fd);
    lemma_close_file_wf(r, fd);
    assert(r.modes.contains_key(fd));
    if ops.len() > 0 {
        let before = closed.apply_all(ops.drop_last());
        lemma_closed_stays_closed(r, fd, ops.drop_last());
        lemma_apply_all_wf(closed, ops.drop_last());
        lemma_modes_after(before, ops.last(), fd);
        lemma_apply_wf(before, ops.last());
    }
}

/// The stream handle of a channel never changes. Once the channel
/// `channel` of the process `process` has a handle, it has the same handle
/// after any operations.
pub proof fn lemma_channel_is_stable(
    r: Registry,
    process: ProcessId,
    channel: ProcessChannel,
    ops: Seq<Op>,
)
    requires
        r.wf(),
        r.channel(process, channel) is Some,
    ensures
        r.apply_all(ops).channel(process, channel) == r.channel(process, channel),
    decreases ops.len(),
{
    if ops.len() > 0 {
        lemma_channel_is_stable(r, process, channel, ops.drop_last());
        lemma_apply_all_wf(r, ops.drop_last());
    }
}

/// No sequence of operations takes a counter back, so what was issued
/// once counts as issued for good.
pub proof fn lemma_issued_stays_issued(r: Registry, ops: Seq<Op>)
    requires
        r.wf(),
    ensures
        r.next_file_id <= r.apply_all(ops).next_file_id,
        r.next_process_id <= r.apply_all(ops).next_process_id,
    decreases ops.len(),
{
    if ops.len() > 0 {
        lemma_issued_stays_issued(r, ops.drop_last());
        lemma_apply_all_wf(r, ops.drop_last());
        lemma_modes_after(r.apply_all(ops.drop_last()), ops.last(), 0);
    }
}

/// A file handle that was issued and is no longer live is never live
/// again, whatever operations follow: the registry does not reissue it.
pub proof fn lemma_handle_is_never_reissued(r: Registry, fd: FileId, ops: Seq<Op>)
    requires
        r.wf(),
        r.issued_file(fd),
        !r.is_live(fd),
    ensures
        !r.apply_all(ops).is_live(fd),
        r.apply_all(ops).route(fd) is None,
        r.apply_all(ops).issued_file(fd),
    decreases ops.len(),
{
    if ops.len() > 0 {
        let before = r.apply_all(ops.drop_last());
        lemma_handle_is_never_reissued(r, fd, ops.drop_last());
        lemma_apply_all_wf(r, ops.drop_last());
        lemma_handles_are_fresh(before, ops.last());
    }
}

} // verus!
