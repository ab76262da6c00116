//! Owners and metadata of files: which numeric owner a request names, and
//! what the agent reports of a file's status.

use vstd::prelude::*;
use crate::agent_error::AgentError;
use crate::types::{FileStat, RawStat, UserId};

verus! {

/// What the user or group database answered to a lookup by name: the
/// number of the entry, nothing where no entry has the name, or the error
/// number of a failed lookup.
pub type Lookup = Result<Option<u32>, i32>;

/// The numeric user that `name` stands for, given the answer `looked_up`
/// of the user database for a name. A number stands for itself and needs no
/// lookup; a name that the database does not know is a user not found.
pub open spec fn user_id_of(name: UserId, looked_up: Lookup) -> Result<u32, AgentError> {
    match name {
        UserId::Id(id) => Ok(id),
        UserId::Name(text) => match looked_up {
            Ok(Some(id)) => Ok(id),
            Ok(None) => Err(AgentError::UserNotFound(text)),
            Err(errno) => Err(AgentError::Errno(errno)),
        },
    }
}

/// The numeric group that `name` stands for, given the answer `looked_up`
/// of the group database for a name; a name that the database does not know
/// is a group not found.
pub open spec fn group_id_of(name: UserId, looked_up: Lookup) -> Result<u32, AgentError> {
    match name {
        UserId::Id(id) => Ok(id),
        UserId::Name(text) => match looked_up {
            Ok(Some(id)) => Ok(id),
            Ok(None) => Err(AgentError::GroupNotFound(text)),
            Err(errno) => Err(AgentError::Errno(errno)),
        },
    }
}

/// Resolves the user of a change of owner.
pub fn get_user_id(name: UserId, looked_up: Lookup) -> (r: Result<u32, AgentError>)
    ensures
        r == user_id_of(name, looked_up),
{
    match name {
        UserId::Id(id) => Ok(id),
        UserId::Name(text) => match looked_up {
            Ok(Some(id)) => Ok(id),
            Ok(None) => Err(AgentError::UserNotFound(text)),
            Err(errno) => Err(AgentError::Errno(errno)),
        },
    }
}

/// Resolves the group of a change of owner.
pub fn get_group_id(name: UserId, looked_up: Lookup) -> (r: Result<u32, AgentError>)
    ensures
        r == group_id_of(name, looked_up),
{
    match name {
        UserId::Id(id) => Ok(id),
        UserId::Name(text) => match looked_up {
            Ok(Some(id)) => Ok(id),
            Ok(None) => Err(AgentError::GroupNotFound(text)),
            Err(errno) => Err(AgentError::Errno(errno)),
        },
    }
}

/// The numeric owner that a change of owner hands to the operating system;
/// a side that is absent is left as it is.
#[derive(Copy, Clone, Debug, PartialEq, Eq, Structural)]
pub struct Ownership {
    pub uid: Option<u32>,
    pub gid: Option<u32>,
}

/// The owner that a change of owner to `user` and `group` asks for, given
/// the answers of the two databases. The user is resolved first, so an
/// error on the user is reported whatever the group is.
pub open spec fn chown_of(
    user: Option<UserId>,
    user_lookup: Lookup,
    group: Option<UserId>,
    group_lookup: Lookup,
) -> Result<Ownership, AgentError> {
    let uid = match user {
        Some(name) => user_id_of(name, user_lookup),
        None => Ok(0u32),
    };
    let gid = match group {
        Some(name) => group_id_of(name, group_lookup),
        None => Ok(0u32),
    };
    match (uid, gid) {
        (Err(e), _) => Err(e),
        (Ok(_), Err(e)) => Err(e),
        (Ok(u), Ok(g)) => Ok(
            Ownership {
                uid: if user is Some { Some(u) } else { None },
                gid: if group is Some { Some(g) } else { None },
            },
        ),
    }
}

/// Resolves the user and the group of a change of owner.
pub fn chown(user: Option<UserId>, user_lookup: Lookup, group: Option<UserId>, group_lookup: Lookup) -> (r:
    Result<Ownership, AgentError>)
    ensures
        r == chown_of(user, user_lookup, group, group_lookup),
{
    let uid = match user {
        Some(name) => match get_user_id(name, user_lookup) {
            Ok(id) => Some(id),
            Err(e) => {
                return Err(e);
            },
        },
        None => None,
    };
    let gid = match group {
        Some(name) => match get_group_id(name, group_lookup) {
            Ok(id) => Some(id),
            Err(e) => {
                return Err(e);
            },
        },
        None => None,
    };
    Ok(Ownership { uid, gid })
}

/// The permission bits of a file mode.
pub const PERMISSION_BITS: u32 = 0o7777;

/// The permission bits that a change of mode to `mode` sets.
pub fn chmod(mode: u32) -> (bits: u32)
    ensures
        bits == mode & PERMISSION_BITS,
{
    mode & PERMISSION_BITS
}

/// What the agent reports of the status `raw` of a file.
pub fn stat(raw: RawStat) -> (report: FileStat)
    ensures
        report == FileStat::report_of(raw),
{
    FileStat::from(raw)
}

/// The permission bits survive the report: a status whose mode word holds
/// the bits that a change of mode set is reported with the same bits.
pub proof fn lemma_stat_keeps_permission_bits(raw: RawStat, mode: u32)
    requires
        raw.st_mode & PERMISSION_BITS == mode & PERMISSION_BITS,
    ensures
        FileStat::report_of(raw).mode as u32 & PERMISSION_BITS == mode & PERMISSION_BITS,
{
    let word = raw.st_mode;
    let low = FileStat::report_of(raw).mode;
    assert(((word & 0xffff) as u16) as u32 & 0o7777 == word & 0o7777) by (bit_vector);
}

} // verus!
