//! What the library takes from the storage engine's own crate: the masks that
//! lay out an identifier and a record's row.

use vstd::prelude::*;

verus! {

/// The engine's `ECS_GENERATION_MASK`: the sixteen bits of an entity's
/// identifier, from bit 32 on, that count its generations.
#[verifier::external_body]
pub(crate) fn generation_mask() -> (mask: u64)
    ensures
        mask == 0x0000_FFFF_0000_0000u64,
{
    flecs_ecs_sys::ECS_GENERATION_MASK
}

/// The engine's `ECS_ROW_MASK`: the low twenty-eight bits of a record's row
/// word, which hold the row; the bits above hold flags.
#[verifier::external_body]
pub(crate) fn row_mask() -> (mask: u32)
    ensures
        mask == 0x0FFF_FFFFu32,
{
    flecs_ecs_sys::ECS_ROW_MASK
}

} // verus!
