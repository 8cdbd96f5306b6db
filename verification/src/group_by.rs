//! Grouping blocks by the target of a relationship: the key of a block is the
//! second element of the first pair of that relationship in the block's table.

use crate::c_types::{IdT, ECS_WILDCARD};
use crate::id::{
    ecs_is_pair, ecs_pair, ecs_pair_first, ecs_pair_second, lemma_pair_round_trip, spec_is_pair,
    spec_pair, spec_pair_first, spec_pair_second, MAX_HALF, MAX_PAIR_FIRST,
};
use vstd::prelude::*;

verus! {

/// Whether `id` is a pair of the relationship `rel` with some target.
pub open spec fn is_pair_of(id: IdT, rel: IdT) -> bool {
    spec_is_pair(id) && spec_pair_first(id) == rel
}

/// Whether position `i` holds the first pair of `rel` among `ids`.
pub open spec fn is_first_pair_of(ids: Seq<IdT>, rel: IdT, i: int) -> bool {
    &&& 0 <= i < ids.len()
    &&& is_pair_of(ids[i], rel)
    &&& forall|j: int| 0 <= j < i ==> !is_pair_of(ids[j], rel)
}

/// The key of the group of a table whose type is `ids`: the target of its
/// first pair of `rel`, and 0 where it has none.
pub open spec fn spec_group_key(ids: Seq<IdT>, rel: IdT) -> u64 {
    if exists|i: int| is_first_pair_of(ids, rel, i) {
        spec_pair_second(ids[choose|i: int| is_first_pair_of(ids, rel, i)])
    } else {
        0
    }
}

/// The pattern that stands for every pair of the relationship `id`: the pair
/// of `id` and the wildcard.
pub fn group_by_pattern(id: IdT) -> (pattern: IdT)
    ensures
        pattern == spec_pair(id, ECS_WILDCARD),
{
    ecs_pair(id, ECS_WILDCARD)
}

/// What a search of a table's type found: the engine's search answers with the
/// position of the match, or with -1, and hands the matching identifier out
/// beside it.
pub fn search_result(index: i32, match_id: IdT) -> (found: Option<IdT>)
    ensures
        found == if index != -1 {
            Some(match_id)
        } else {
            None
        },
{
    if index != -1 {
        Some(match_id)
    } else {
        None
    }
}

/// The key of the group of a block, from what the search for the grouping
/// relationship found in the block's table: the second element of the pair
/// that was found, and 0, the key of no group, where none was.
pub fn group_key(found: Option<IdT>) -> (key: u64)
    ensures
        key == match found {
            Some(id) => if spec_is_pair(id) {
                spec_pair_second(id)
            } else {
                0
            },
            None => 0,
        },
{
    match found {
        Some(id) => if ecs_is_pair(id) {
            ecs_pair_second(id)
        } else {
            0
        },
        None => 0,
    }
}

/// The position of the first pair of `rel` in a table's type, if the type
/// holds one.
pub fn search_relationship(ids: &[IdT], rel: IdT) -> (found: Option<usize>)
    ensures
        found matches Some(i) ==> is_first_pair_of(ids@, rel, i as int),
        found is None ==> forall|j: int| 0 <= j < ids@.len() ==> !is_pair_of(ids@[j], rel),
{
    let mut i: usize = 0;
    while i < ids.len()
        invariant
            i <= ids@.len(),
            forall|j: int| 0 <= j < i ==> !is_pair_of(ids@[j], rel),
        decreases ids@.len() - i,
    {
        let id = ids[i];
        if ecs_is_pair(id) && ecs_pair_first(id) == rel {
            return Some(i);
        }
        i += 1;
    }
    None
}

/// The key of the group of a table whose type is `ids`, for the grouping
/// relationship `id`.
pub fn callback_group_by_relationship(ids: &[IdT], id: IdT) -> (key: u64)
    ensures
        key == spec_group_key(ids@, id),
{
    match search_relationship(ids, id) {
        Some(i) => {
            proof {
                let first = choose|first: int| is_first_pair_of(ids@, id, first);
                lemma_first_pair_unique(ids@, id, i as int, first);
            }
            group_key(Some(ids[i]))
        },
        None => group_key(None),
    }
}

/// A type has at most one first pair of a relationship.
pub proof fn lemma_first_pair_unique(ids: Seq<IdT>, rel: IdT, i: int, j: int)
    requires
        is_first_pair_of(ids, rel, i),
        is_first_pair_of(ids, rel, j),
    ensures
        i == j,
{
}

/// The key of a table is the target of its first pair of the relationship.
pub proof fn lemma_group_key_is_target(ids: Seq<IdT>, rel: IdT, i: int, target: IdT)
    requires
        rel <= MAX_PAIR_FIRST,
        target <= MAX_HALF,
        0 <= i < ids.len(),
        ids[i] == spec_pair(rel, target),
        forall|j: int| 0 <= j < i ==> !is_pair_of(ids[j], rel),
    ensures
        spec_group_key(ids, rel) == target,
{
    lemma_pair_round_trip(rel, target);
    assert(is_first_pair_of(ids, rel, i));
    let first = choose|first: int| is_first_pair_of(ids, rel, first);
    lemma_first_pair_unique(ids, rel, i, first);
}

/// Two tables are in the same group exactly where the first pairs of the
/// relationship in their types have the same target, whatever else the types
/// hold.
pub proof fn lemma_same_group_same_target(
    a: Seq<IdT>,
    b: Seq<IdT>,
    rel: IdT,
    i: int,
    j: int,
    target_a: IdT,
    target_b: IdT,
)
    requires
        rel <= MAX_PAIR_FIRST,
        target_a <= MAX_HALF,
        target_b <= MAX_HALF,
        0 <= i < a.len(),
        0 <= j < b.len(),
        a[i] == spec_pair(rel, target_a),
        b[j] == spec_pair(rel, target_b),
        forall|k: int| 0 <= k < i ==> !is_pair_of(a[k], rel),
        forall|k: int| 0 <= k < j ==> !is_pair_of(b[k], rel),
    ensures
        spec_group_key(a, rel) == spec_group_key(b, rel) <==> target_a == target_b,
{
    lemma_group_key_is_target(a, rel, i, target_a);
    lemma_group_key_is_target(b, rel, j, target_b);
}

/// A table without a pair of the relationship is in no group.
pub proof fn lemma_no_pair_no_group(ids: Seq<IdT>, rel: IdT)
    requires
        forall|j: int| 0 <= j < ids.len() ==> !is_pair_of(ids[j], rel),
    ensures
        spec_group_key(ids, rel) == 0,
{
}

} // verus!
