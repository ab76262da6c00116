//! The flag of a descriptor that says whether its reads wait for data.
//!
//! The caller queries and sets the status flags of the descriptor; the
//! functions here compute on them. `nonblock` is the bit that the platform
//! uses for the flag.

use vstd::prelude::*;

verus! {

/// The status flags `flags` with the non-blocking bit cleared, for a
/// descriptor that is to block, or set, for one that is not.
pub open spec fn with_blocking(flags: i32, nonblock: i32, blocking: bool) -> i32 {
    if blocking {
        flags & !nonblock
    } else {
        flags | nonblock
    }
}

/// The status flags to set on a descriptor whose query returned `flags`, or
/// nothing where the query failed, which a negative value tells. The caller
/// then reports the error of the operating system.
pub fn set_blocking(flags: i32, nonblock: i32, blocking: bool) -> (r: Option<i32>)
    ensures
        r == (if flags < 0 {
            None
        } else {
            Some(with_blocking(flags, nonblock, blocking))
        }),
{
    if flags < 0 {
        return None;
    }
    if blocking {
        Some(flags & !nonblock)
    } else {
        Some(flags | nonblock)
    }
}

/// Whether a descriptor whose query returned `flags` blocks, or nothing
/// where the query failed.
pub fn is_blocking(flags: i32, nonblock: i32) -> (r: Option<bool>)
    ensures
        r == (if flags < 0 {
            None
        } else {
            Some(flags & nonblock == 0)
        }),
{
    if flags < 0 {
        None
    } else {
        Some(flags & nonblock == 0)
    }
}

/// Setting the flag and asking for it agree, and setting it touches no
/// other bit of the status flags.
pub proof fn lemma_set_then_is_blocking(flags: i32, nonblock: i32, blocking: bool)
    requires
        nonblock != 0,
    ensures
        (with_blocking(flags, nonblock, blocking) & nonblock == 0) == blocking,
        with_blocking(flags, nonblock, blocking) & !nonblock == flags & !nonblock,
{
    assert(((flags & !nonblock) & nonblock) == 0) by (bit_vector);
    assert(nonblock != 0 ==> ((flags | nonblock) & nonblock) != 0) by (bit_vector);
    assert((flags & !nonblock) & !nonblock == flags & !nonblock) by (bit_vector);
    assert((flags | nonblock) & !nonblock == flags & !nonblock) by (bit_vector);
}

} // verus!
