//! Which permission bits a credential file may carry, and what to do about a
//! file that carries more.

use vstd::prelude::*;

verus! {

/// The mode a credential file is narrowed to: read and write for the owner,
/// nothing for anyone else.
pub const OWNER_READ_WRITE: u32 = 0o600;

/// The bits that give the owning group or everyone else any access: read, write
/// or execute.
pub const GROUP_AND_OTHER: u32 = 0o077;

/// The mode lets the owning group or other users read, write or execute.
pub open spec fn grants_group_or_other(mode: u32) -> bool {
    mode & GROUP_AND_OTHER != 0
}

/// The mode a credential file must have, given the mode it has now: unchanged
/// where only the owner has access, owner read and write where anyone else has
/// any.
pub open spec fn enforced_mode(mode: u32) -> u32 {
    if grants_group_or_other(mode) {
        OWNER_READ_WRITE
    } else {
        mode
    }
}

/// Tells whether a file with these permission bits has to be narrowed.
pub fn needs_narrowing(mode: u32) -> (narrow: bool)
    ensures
        narrow == grants_group_or_other(mode),
{
    mode & GROUP_AND_OTHER != 0
}

/// The mode to leave the file with: `OWNER_READ_WRITE` where the file is open to
/// the group or to others, its present mode where it is not.
pub fn narrowed(mode: u32) -> (kept: u32)
    ensures
        kept == enforced_mode(mode),
        !grants_group_or_other(kept),
{
    proof {
        lemma_enforced_mode_is_private(mode);
    }
    if needs_narrowing(mode) {
        OWNER_READ_WRITE
    } else {
        mode
    }
}

/// Whatever mode a file had, the enforced mode gives the group and others no
/// access at all.
pub proof fn lemma_enforced_mode_is_private(mode: u32)
    ensures
        !grants_group_or_other(enforced_mode(mode)),
{
    assert(0o600u32 & 0o077u32 == 0) by (bit_vector);
}

/// Enforcing twice changes nothing more: a mode that was enforced is kept as it
/// is.
pub proof fn lemma_enforced_mode_is_stable(mode: u32)
    ensures
        enforced_mode(enforced_mode(mode)) == enforced_mode(mode),
{
    lemma_enforced_mode_is_private(mode);
}

/// Enforcement never touches a mode that is already private, so the owner's own
/// bits survive it.
pub proof fn lemma_private_mode_is_kept(mode: u32)
    requires
        !grants_group_or_other(mode),
    ensures
        enforced_mode(mode) == mode,
{
}

} // verus!
