//! The field resolver: where a block keeps the data of one of its fields.

use crate::c_types::IterT;
use vstd::prelude::*;

verus! {

/// The address of the data of the field `index` of a block; fields are
/// numbered from 1.
///
/// The data is an array with one element per entity of the block, or a single
/// element where the field is shared. The address is `NULL` where the block
/// has no data for the field, as it may be of an optional one.
pub fn ecs_field(it: &IterT, index: i32) -> (ptr: usize)
    requires
        1 <= index <= it.field_count(),
    ensures
        ptr == it.ptrs@[index - 1],
{
    it.ptrs[(index - 1) as usize]
}

/// Whether the data of the field `index` of a block is shared: whether the
/// block names a source for it; fields are numbered from 1.
pub fn ecs_field_is_ref(it: &IterT, index: i32) -> (is_ref: bool)
    requires
        it.wf(),
        1 <= index <= it.field_count(),
    ensures
        is_ref == it.is_shared(index - 1),
{
    match &it.sources {
        Some(sources) => sources[(index - 1) as usize] != 0,
        None => false,
    }
}

} // verus!
