//! The plain data exchanged between an agent and its clients.

use vstd::prelude::*;
use vstd::std_specs::convert::FromSpecImpl;

verus! {

/// Identifies an environment served by an agent.
pub type EnvironmentId = u64;

/// Handle of a child process.
pub type ProcessId = u64;

/// Handle of an open file or of a captured child stream.
pub type FileId = u64;

/// One of the three standard streams of a child process.
#[derive(Copy, Clone, Debug, PartialEq, Eq, Structural)]
pub enum ProcessChannel {
    Stdin,
    Stdout,
    Stderr,
}

/// What happens to a standard stream of a child when it is started.
#[derive(Copy, Clone, Debug, PartialEq, Eq, Structural)]
pub enum Redirection {
    /// The child inherits the stream of the agent.
    Inherit,
    /// The stream is captured through a pipe and becomes a file handle.
    Save,
}

impl Default for Redirection {
    fn default() -> (r: Self)
        ensures
            r == Redirection::Inherit,
    {
        Redirection::Inherit
    }
}

/// Access mode of an open file.
#[derive(Copy, Clone, Debug, PartialEq, Eq, Structural)]
pub enum FileOpenMode {
    Read,
    Write,
    ExclusiveWrite,
    Append,
    Update,
}

/// Whether the length of a read counts bytes or user-perceived characters.
#[derive(Copy, Clone, Debug, PartialEq, Eq, Structural)]
pub enum FileOpenType {
    Binary,
    Text,
}

impl Redirection {
    /// The stream is captured.
    pub open spec fn is_captured(self) -> bool {
        self == Redirection::Save
    }

    /// The redirection that captures a stream exactly when `capture` holds.
    pub fn from_capture(capture: bool) -> (r: Self)
        ensures
            r.is_captured() == capture,
    {
        if capture {
            Redirection::Save
        } else {
            Redirection::Inherit
        }
    }
}

/// How a child process is to be started.
#[derive(Clone, Debug)]
pub struct RemotePOpenConfig {
    /// The program followed by its arguments.
    pub argv: Vec<String>,
    pub stdin: Redirection,
    pub stdout: Redirection,
    pub stderr: Redirection,
    /// The executable to run in place of the first entry of `argv`.
    pub executable: Option<String>,
    /// The environment of the child, in place of the inherited one.
    pub env: Option<Vec<(String, String)>>,
    /// The working directory of the child.
    pub cwd: Option<String>,
    /// The user the child runs as.
    pub setuid: Option<u32>,
    /// The group the child runs as.
    pub setgid: Option<u32>,
    /// Whether the child is put in a process group of its own.
    pub setpgid: bool,
}

impl RemotePOpenConfig {
    /// The number of standard streams that this configuration captures.
    pub open spec fn captured_count(&self) -> int {
        (if self.stdin.is_captured() { 1int } else { 0 })
            + (if self.stdout.is_captured() { 1int } else { 0 })
            + (if self.stderr.is_captured() { 1int } else { 0 })
    }
}

impl Default for RemotePOpenConfig {
    fn default() -> (config: Self)
        ensures
            config.argv@.len() == 0,
            config.stdin == Redirection::Inherit,
            config.stdout == Redirection::Inherit,
            config.stderr == Redirection::Inherit,
            config.executable is None,
            config.env is None,
            config.cwd is None,
            config.setuid is None,
            config.setgid is None,
            !config.setpgid,
    {
        RemotePOpenConfig {
            argv: Vec::new(),
            stdin: Redirection::Inherit,
            stdout: Redirection::Inherit,
            stderr: Redirection::Inherit,
            executable: None,
            env: None,
            cwd: None,
            setuid: None,
            setgid: None,
            setpgid: false,
        }
    }
}

/// A user or a group, given by number or by name.
#[derive(Clone, Debug, PartialEq, Eq)]
pub enum UserId {
    Id(u32),
    Name(String),
}

/// The status of a file as the operating system returns it.
#[derive(Copy, Clone, Debug, PartialEq, Eq, Structural)]
pub struct RawStat {
    /// The file-mode word: the type of the file and its permission bits.
    pub st_mode: u32,
    pub st_uid: u32,
    pub st_gid: u32,
    pub st_size: i64,
    pub st_atime: i64,
    pub st_mtime: i64,
    pub st_ctime: i64,
}

/// The status of a file as the agent reports it.
#[derive(Copy, Clone, Debug, PartialEq, Eq, Structural)]
pub struct FileStat {
    /// The low sixteen bits of the file-mode word.
    pub mode: u16,
    pub uid: u32,
    pub gid: u32,
    pub size: i64,
    pub atime: i64,
    pub mtime: i64,
    pub ctime: i64,
}

impl FileStat {
    /// What is reported of the status `stat`: its fields as they are, and
    /// of the file-mode word the low sixteen bits.
    pub open spec fn report_of(stat: RawStat) -> FileStat {
        FileStat {
            mode: (stat.st_mode & 0xffff) as u16,
            uid: stat.st_uid,
            gid: stat.st_gid,
            size: stat.st_size,
            atime: stat.st_atime,
            mtime: stat.st_mtime,
            ctime: stat.st_ctime,
        }
    }
}

impl From<RawStat> for FileStat {
    fn from(stat: RawStat) -> (report: Self) {
        FileStat {
            mode: (stat.st_mode & 0xffff) as u16,
            uid: stat.st_uid,
            gid: stat.st_gid,
            size: stat.st_size,
            atime: stat.st_atime,
            mtime: stat.st_mtime,
            ctime: stat.st_ctime,
        }
    }
}

impl FromSpecImpl<RawStat> for FileStat {
    open spec fn obeys_from_spec() -> bool {
        true
    }

    open spec fn from_spec(stat: RawStat) -> Self {
        FileStat::report_of(stat)
    }
}

impl FileOpenMode {
    /// A handle in this mode may be read from.
    pub open spec fn is_readable(self) -> bool {
        self == FileOpenMode::Read || self == FileOpenMode::Update
    }

    /// A handle in this mode may be written to.
    pub open spec fn is_writable(self) -> bool {
        self == FileOpenMode::Write || self == FileOpenMode::ExclusiveWrite
            || self == FileOpenMode::Update || self == FileOpenMode::Append
    }
}

} // verus!
