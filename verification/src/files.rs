//! What the agent asks of the operating system for an open, a seek and a
//! tell, and how it reads the answers.

use vstd::prelude::*;
use crate::agent_error::AgentError;
use crate::types::FileOpenMode;

verus! {

/// The options with which a file is opened.
#[derive(Copy, Clone, Debug, PartialEq, Eq, Structural)]
pub struct OpenFlags {
    /// The file is opened for reading.
    pub read: bool,
    /// The file is opened for writing.
    pub write: bool,
    /// Every write goes to the end of the file.
    pub append: bool,
    /// The file is created if it does not exist.
    pub create: bool,
    /// The file is created, and the open fails if it exists.
    pub create_new: bool,
}

/// The options that stand for an access mode. Reading and updating need a
/// file that exists; writing creates it where it is missing and does not
/// truncate it; exclusive writing creates it and fails where it exists;
/// appending writes at the end.
pub open spec fn open_flags_of(mode: FileOpenMode) -> OpenFlags {
    match mode {
        FileOpenMode::Read => OpenFlags {
            read: true,
            write: false,
            append: false,
            create: false,
            create_new: false,
        },
        FileOpenMode::Write => OpenFlags {
            read: false,
            write: true,
            append: false,
            create: true,
            create_new: false,
        },
        FileOpenMode::ExclusiveWrite => OpenFlags {
            read: false,
            write: true,
            append: false,
            create: false,
            create_new: true,
        },
        FileOpenMode::Append => OpenFlags {
            read: false,
            write: false,
            append: true,
            create: false,
            create_new: false,
        },
        FileOpenMode::Update => OpenFlags {
            read: true,
            write: true,
            append: false,
            create: false,
            create_new: false,
        },
    }
}

/// The options with which a file is opened in `mode`.
pub fn open_options(mode: FileOpenMode) -> (flags: OpenFlags)
    ensures
        flags == open_flags_of(mode),
{
    let none = OpenFlags {
        read: false,
        write: false,
        append: false,
        create: false,
        create_new: false,
    };
    match mode {
        FileOpenMode::Read => OpenFlags { read: true, ..none },
        FileOpenMode::Write => OpenFlags { write: true, create: true, ..none },
        FileOpenMode::ExclusiveWrite => OpenFlags { write: true, create_new: true, ..none },
        FileOpenMode::Append => OpenFlags { append: true, ..none },
        FileOpenMode::Update => OpenFlags { read: true, write: true, ..none },
    }
}

/// Where a seek moves the position of a file to.
#[derive(Copy, Clone, Debug, PartialEq, Eq, Structural)]
pub enum SeekTarget {
    /// So many bytes from the start of the file.
    Start(u64),
    /// So many bytes from the current position.
    Current(i64),
    /// So many bytes from the end of the file.
    End(i64),
}

/// The unsigned number with the same sixty-four bits as `offset`.
pub open spec fn offset_from_start(offset: i32) -> u64 {
    if offset >= 0 {
        offset as u64
    } else {
        (offset + 0x1_0000_0000_0000_0000) as u64
    }
}

/// The target that `offset` and `whence` stand for: `whence` is 0 for the
/// start of the file, 1 for the current position and 2 for the end. No
/// other value of `whence` stands for a target.
pub open spec fn seek_target_of(offset: i32, whence: i32) -> Option<SeekTarget> {
    if whence == 0 {
        Some(SeekTarget::Start(offset_from_start(offset)))
    } else if whence == 1 {
        Some(SeekTarget::Current(offset as i64))
    } else if whence == 2 {
        Some(SeekTarget::End(offset as i64))
    } else {
        None
    }
}

/// The target of a seek by `offset` from the place that `whence` names.
pub fn seek_target(offset: i32, whence: i32) -> (r: Result<SeekTarget, AgentError>)
    ensures
        match seek_target_of(offset, whence) {
            Some(target) => r matches Ok(found) && found == target,
            None => r matches Err(e) && e == AgentError::InvalidSeekWhence,
        },
{
    if whence == 0 {
        let wide = offset as i64;
        let from_start = wide as u64;
        assert(from_start == offset_from_start(offset)) by (bit_vector)
            requires
                wide == offset as i64,
                from_start == wide as u64,
        ;
        Ok(SeekTarget::Start(from_start))
    } else if whence == 1 {
        Ok(SeekTarget::Current(offset as i64))
    } else if whence == 2 {
        Ok(SeekTarget::End(offset as i64))
    } else {
        Err(AgentError::InvalidSeekWhence)
    }
}

/// The largest position that a tell can report.
pub const MAX_OFFSET: u64 = 0x7fff_ffff;

/// The offset that stands for the position `position` of a file, where an
/// offset can hold it.
pub open spec fn tell_offset_of(position: u64) -> Option<i32> {
    if position <= MAX_OFFSET {
        Some(position as i32)
    } else {
        None
    }
}

/// The offset that a tell reports for the position `position` of a file,
/// or an I/O error where the position is beyond what an offset can hold.
pub fn tell_offset(position: u64) -> (r: Result<i32, AgentError>)
    ensures
        match tell_offset_of(position) {
            Some(offset) => r matches Ok(found) && found == offset,
            None => {
                &&& r matches Err(AgentError::IoError(detail))
                &&& detail@ == "file position out of range"@
            },
        },
{
    if position <= MAX_OFFSET {
        Ok(position as i32)
    } else {
        Err(AgentError::IoError(String::from_str("file position out of range")))
    }
}

/// A seek from the start and a tell agree: the position that the seek asks
/// for is the offset that the tell reports for it.
pub proof fn lemma_seek_from_start_then_tell(offset: i32)
    requires
        offset >= 0,
    ensures
        seek_target_of(offset, 0) == Some(SeekTarget::Start(offset as u64)),
        tell_offset_of(offset as u64) == Some(offset),
{
}

} // verus!
