//! Permission normalisation on POSIX-family systems: the owner- and
//! group-executable bits are added to a file's mode, nothing else changes.
use vstd::prelude::*;

verus! {

/// Owner-executable bit of a POSIX mode.
pub const OWNER_EXEC: u32 = 0o100;

/// Group-executable bit of a POSIX mode.
pub const GROUP_EXEC: u32 = 0o010;

/// Other-executable bit of a POSIX mode.
pub const OTHER_EXEC: u32 = 0o001;

/// The executable bits selected by `user`, `group` and `other`.
pub open spec fn exec_mask(user: bool, group: bool, other: bool) -> u32 {
    ((if user { OWNER_EXEC } else { 0u32 }) + (if group { GROUP_EXEC } else { 0u32 }) + (
    if other { OTHER_EXEC } else { 0u32 })) as u32
}

/// The mode `mode` with the selected executable bits added.
pub open spec fn with_exec_bits(mode: u32, user: bool, group: bool, other: bool) -> u32 {
    mode | exec_mask(user, group, other)
}

/// The mode that a file must carry before it is launched: owner and group
/// may execute it, every other bit is as it was.
pub open spec fn executable_mode(mode: u32) -> u32 {
    mode | 0o110u32
}

/// Adds the executable bits selected by `user`, `group` and `other` to `mode`.
pub fn add_exec_permission(mode: u32, user: bool, group: bool, other: bool) -> (r: u32)
    ensures
        r == with_exec_bits(mode, user, group, other),
{
    let mut mask: u32 = 0;
    if user {
        mask = mask + OWNER_EXEC;
    }
    if group {
        mask = mask + GROUP_EXEC;
    }
    if other {
        mask = mask + OTHER_EXEC;
    }
    mode | mask
}

/// The mode to write back so that owner and group may execute the file;
/// the other-executable bit is left as it was.
pub fn ensure_executable(mode: u32) -> (r: u32)
    ensures
        r == executable_mode(mode),
        r & OWNER_EXEC == OWNER_EXEC,
        r & GROUP_EXEC == GROUP_EXEC,
        r & OTHER_EXEC == mode & OTHER_EXEC,
{
    let r = add_exec_permission(mode, true, true, false);
    proof {
        lemma_ensure_executable_sets_owner_and_group(mode);
        lemma_other_exec_bit_kept(mode);
        assert(exec_mask(true, true, false) == 0o110u32);
    }
    r
}

/// Normalising a mode twice gives the same mode as normalising it once.
pub proof fn lemma_ensure_executable_idempotent(mode: u32)
    ensures
        executable_mode(executable_mode(mode)) == executable_mode(mode),
{
    assert((mode | 0o110u32) | 0o110u32 == mode | 0o110u32) by (bit_vector);
}

/// Normalisation neither sets nor clears the other-executable bit, and it
/// keeps every bit that was already set.
pub proof fn lemma_other_exec_bit_kept(mode: u32)
    ensures
        executable_mode(mode) & 0o001u32 == mode & 0o001u32,
        executable_mode(mode) & mode == mode,
{
    assert((mode | 0o110u32) & 1u32 == mode & 1u32) by (bit_vector);
    assert((mode | 0o110u32) & mode == mode) by (bit_vector);
}

/// After normalisation the owner and the group may execute the file.
pub proof fn lemma_ensure_executable_sets_owner_and_group(mode: u32)
    ensures
        executable_mode(mode) & 0o100u32 == 0o100u32,
        executable_mode(mode) & 0o010u32 == 0o010u32,
{
    assert((mode | 0o110u32) & 0o100u32 == 0o100u32) by (bit_vector);
    assert((mode | 0o110u32) & 0o010u32 == 0o010u32) by (bit_vector);
}

} // verus!
