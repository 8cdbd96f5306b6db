//! The identifier codec: how 64-bit identifiers hold two 32-bit halves,
//! relationship pairs, generation counts and flag bits.

use crate::c_types::{
    EntityT, IdT, ECS_DEPENDS_ON, ECS_PAIR, RUST_ECS_COMPONENT_MASK, RUST_ECS_ID_FLAGS_MASK,
};
use crate::sys::{generation_mask, row_mask};
use vstd::prelude::*;

verus! {

/// The largest value that fits in one half of an identifier.
pub const MAX_HALF: u64 = 0xFFFF_FFFF;

/// The largest first element that a pair holds beside its flags.
pub const MAX_PAIR_FIRST: u64 = 0x0FFF_FFFF;

/// The low half of `value`.
pub open spec fn spec_lo(value: u64) -> u64 {
    value & 0xFFFF_FFFF
}

/// The high half of `value`.
pub open spec fn spec_hi(value: u64) -> u64 {
    value >> 32
}

/// The identifier with `hi` as its high half, joined with `lo`.
pub open spec fn spec_comb(lo: u64, hi: u64) -> u64 {
    (hi << 32) | lo
}

/// The pair of `pred` and `obj`: `pred` in the high half, `obj` in the low
/// half, and the pair flag.
pub open spec fn spec_pair(pred: u64, obj: u64) -> u64 {
    0x8000_0000_0000_0000 | spec_comb(obj, pred)
}

/// Whether, of the flag bits of `entity`, the pair flag and no other is set.
pub open spec fn spec_is_pair(entity: u64) -> bool {
    entity & 0xF000_0000_0000_0000 == 0x8000_0000_0000_0000
}

/// The first element of the pair `e`: its high half without the flag bits.
pub open spec fn spec_pair_first(e: u64) -> u64 {
    spec_hi(e & 0x0FFF_FFFF_FFFF_FFFF)
}

/// The second element of the pair `e`: its low half.
pub open spec fn spec_pair_second(e: u64) -> u64 {
    spec_lo(e)
}

/// `entity` without its generation count, where it carries no flag; an
/// identifier with a flag has no generation count and stays as it is.
pub open spec fn spec_strip_generation(entity: u64) -> u64 {
    if entity & 0xF000_0000_0000_0000 == 0 {
        entity & !0x0000_FFFF_0000_0000u64
    } else {
        entity
    }
}

/// The generation count of `entity`: the sixteen bits from bit 32 on.
pub open spec fn spec_generation(entity: u64) -> u64 {
    (entity >> 32) & 0xFFFF
}

/// The row that a record's row word holds: its low twenty-eight bits.
pub open spec fn spec_record_to_row(row: u32) -> u32 {
    row & 0x0FFF_FFFF
}

/// Combines two 32-bit values into one 64-bit identifier.
///
/// `lo` becomes the low half, `hi` the high half.
pub fn ecs_entity_t_comb(lo: u64, hi: u64) -> (id: u64)
    ensures
        id == spec_comb(lo, hi),
{
    (hi << 32) | lo
}

/// The pair of `pred` and `obj`, with the pair flag set.
pub fn ecs_pair(pred: u64, obj: u64) -> (id: u64)
    ensures
        id == spec_pair(pred, obj),
{
    ECS_PAIR | ecs_entity_t_comb(obj, pred)
}

/// Whether `entity` is a pair.
pub fn ecs_is_pair(entity: EntityT) -> (is_pair: bool)
    ensures
        is_pair == spec_is_pair(entity),
{
    entity & RUST_ECS_ID_FLAGS_MASK == ECS_PAIR
}

/// The pair that says: depends on `entity`.
pub fn ecs_dependson(entity: EntityT) -> (id: EntityT)
    ensures
        id == spec_pair(ECS_DEPENDS_ON, entity),
{
    ecs_pair(ECS_DEPENDS_ON, entity)
}

/// The first element of the pair `e`. Only a pair has one.
pub fn ecs_pair_first(e: u64) -> (first: u64)
    requires
        spec_is_pair(e),
    ensures
        first == spec_pair_first(e),
{
    ecs_entity_t_hi(e & RUST_ECS_COMPONENT_MASK)
}

/// The second element of the pair `e`. Only a pair has one.
pub fn ecs_pair_second(e: u64) -> (second: u64)
    requires
        spec_is_pair(e),
    ensures
        second == spec_pair_second(e),
{
    ecs_entity_t_lo(e)
}

/// The low 32 bits of an identifier.
pub fn ecs_entity_t_lo(value: u64) -> (lo: u64)
    ensures
        lo == spec_lo(value),
{
    value & MAX_HALF
}

/// The high 32 bits of an identifier.
pub fn ecs_entity_t_hi(value: u64) -> (hi: u64)
    ensures
        hi == spec_hi(value),
{
    value >> 32
}

/// The row that a record's row word holds.
pub fn ecs_record_to_row(row: u32) -> (r: i32)
    ensures
        r == spec_record_to_row(row),
{
    let masked: u32 = row & row_mask();
    assert(row & 0x0FFF_FFFFu32 <= 0x0FFF_FFFFu32) by (bit_vector);
    masked as i32
}

/// `entity` without its generation count.
pub fn strip_generation(entity: EntityT) -> (id: IdT)
    ensures
        id == spec_strip_generation(entity),
{
    if entity & RUST_ECS_ID_FLAGS_MASK == 0 {
        entity & !generation_mask()
    } else {
        entity
    }
}

/// The generation count of `entity`.
pub fn get_generation(entity: EntityT) -> (generation: u32)
    ensures
        generation == spec_generation(entity),
{
    let shifted: u64 = (entity & generation_mask()) >> 32;
    assert((entity & 0x0000_FFFF_0000_0000u64) >> 32 == (entity >> 32) & 0xFFFF) by (bit_vector);
    assert((entity >> 32) & 0xFFFF <= 0xFFFFu64) by (bit_vector);
    shifted as u32
}

/// The halves that an identifier was combined from come out of it again.
pub proof fn lemma_comb_round_trip(a: u64, b: u64)
    requires
        a <= MAX_HALF,
        b <= MAX_HALF,
    ensures
        spec_lo(spec_comb(a, b)) == a,
        spec_hi(spec_comb(a, b)) == b,
{
    assert(a <= 0xFFFF_FFFFu64 && b <= 0xFFFF_FFFFu64 ==> ((b << 32) | a) & 0xFFFF_FFFF == a && ((b
        << 32) | a) >> 32 == b) by (bit_vector);
}

/// Combining two 32-bit halves adds the low half to the shifted high half.
pub proof fn lemma_comb_is_sum(a: u64, b: u64)
    requires
        a <= MAX_HALF,
        b <= MAX_HALF,
    ensures
        spec_comb(a, b) == b * 0x1_0000_0000 + a,
{
    assert(a <= 0xFFFF_FFFFu64 && b <= 0xFFFF_FFFFu64 ==> ((b << 32) | a) == b * 0x1_0000_0000 + a)
        by (bit_vector);
}

/// Every identifier is the combination of its two halves.
pub proof fn lemma_comb_of_halves(value: u64)
    ensures
        spec_comb(spec_lo(value), spec_hi(value)) == value,
        spec_lo(value) <= MAX_HALF,
        spec_hi(value) <= MAX_HALF,
{
    assert((((value >> 32) << 32) | (value & 0xFFFF_FFFF)) == value) by (bit_vector);
    assert(value & 0xFFFF_FFFF <= 0xFFFF_FFFFu64) by (bit_vector);
    assert(value >> 32 <= 0xFFFF_FFFFu64) by (bit_vector);
}

/// A pair of a first element that leaves the flag bits free and a 32-bit
/// second element is a pair, and both elements come out of it again.
pub proof fn lemma_pair_round_trip(p: u64, o: u64)
    requires
        p <= MAX_PAIR_FIRST,
        o <= MAX_HALF,
    ensures
        spec_is_pair(spec_pair(p, o)),
        spec_pair_first(spec_pair(p, o)) == p,
        spec_pair_second(spec_pair(p, o)) == o,
{
    assert(p <= 0x0FFF_FFFFu64 && o <= 0xFFFF_FFFFu64 ==> {
        let e = 0x8000_0000_0000_0000u64 | ((p << 32) | o);
        &&& e & 0xF000_0000_0000_0000 == 0x8000_0000_0000_0000
        &&& (e & 0x0FFF_FFFF_FFFF_FFFF) >> 32 == p
        &&& e & 0xFFFF_FFFF == o
    }) by (bit_vector);
}

/// Only such elements come out of their pair again: a first element that
/// reaches into the flag bits, or a second element of more than 32 bits, is
/// not what the pair gives back.
pub proof fn lemma_pair_round_trip_only(p: u64, o: u64)
    requires
        spec_is_pair(spec_pair(p, o)),
        spec_pair_first(spec_pair(p, o)) == p,
        spec_pair_second(spec_pair(p, o)) == o,
    ensures
        p <= MAX_PAIR_FIRST,
        o <= MAX_HALF,
{
    assert({
        let e = 0x8000_0000_0000_0000u64 | ((p << 32) | o);
        &&& (e & 0x0FFF_FFFF_FFFF_FFFF) >> 32 == p
        &&& e & 0xFFFF_FFFF == o
    } ==> p <= 0x0FFF_FFFFu64 && o <= 0xFFFF_FFFFu64) by (bit_vector);
}

/// The elements of a pair are never larger than what a pair can hold.
pub proof fn lemma_pair_elements_bounded(e: u64)
    ensures
        spec_pair_first(e) <= MAX_PAIR_FIRST,
        spec_pair_second(e) <= MAX_HALF,
{
    assert((e & 0x0FFF_FFFF_FFFF_FFFF) >> 32 <= 0x0FFF_FFFFu64) by (bit_vector);
    assert(e & 0xFFFF_FFFF <= 0xFFFF_FFFFu64) by (bit_vector);
}

/// Every pair is the pair of its two elements.
pub proof fn lemma_pair_of_elements(e: u64)
    requires
        spec_is_pair(e),
    ensures
        spec_pair(spec_pair_first(e), spec_pair_second(e)) == e,
{
    assert(e & 0xF000_0000_0000_0000 == 0x8000_0000_0000_0000 ==> (0x8000_0000_0000_0000u64 | ((((e
        & 0x0FFF_FFFF_FFFF_FFFF) >> 32) << 32) | (e & 0xFFFF_FFFF))) == e) by (bit_vector);
}

/// Stripping the generation count twice is stripping it once.
pub proof fn lemma_strip_generation_idempotent(x: u64)
    ensures
        spec_strip_generation(spec_strip_generation(x)) == spec_strip_generation(x),
{
    assert((x & !0x0000_FFFF_0000_0000u64) & !0x0000_FFFF_0000_0000u64 == x
        & !0x0000_FFFF_0000_0000u64) by (bit_vector);
    assert(x & 0xF000_0000_0000_0000 == 0 ==> (x & !0x0000_FFFF_0000_0000u64)
        & 0xF000_0000_0000_0000 == 0) by (bit_vector);
}

/// Stripping the generation count leaves the low half and the flag bits as
/// they are, and changes no bit but those of the generation count.
pub proof fn lemma_strip_generation_keeps_index(x: u64)
    ensures
        spec_lo(spec_strip_generation(x)) == spec_lo(x),
        spec_strip_generation(x) & 0xF000_0000_0000_0000 == x & 0xF000_0000_0000_0000,
        spec_strip_generation(x) & !0x0000_FFFF_0000_0000u64 == x & !0x0000_FFFF_0000_0000u64,
{
    assert((x & !0x0000_FFFF_0000_0000u64) & 0xFFFF_FFFF == x & 0xFFFF_FFFF) by (bit_vector);
    assert((x & !0x0000_FFFF_0000_0000u64) & 0xF000_0000_0000_0000 == x & 0xF000_0000_0000_0000)
        by (bit_vector);
    assert((x & !0x0000_FFFF_0000_0000u64) & !0x0000_FFFF_0000_0000u64 == x
        & !0x0000_FFFF_0000_0000u64) by (bit_vector);
}

/// An identifier without flags has, once stripped, the generation count 0;
/// a pair keeps every bit.
pub proof fn lemma_strip_generation_clears(x: u64)
    ensures
        x & 0xF000_0000_0000_0000 == 0 ==> spec_generation(spec_strip_generation(x)) == 0,
        spec_is_pair(x) ==> spec_strip_generation(x) == x,
{
    assert(((x & !0x0000_FFFF_0000_0000u64) >> 32) & 0xFFFF == 0) by (bit_vector);
    assert(x & 0xF000_0000_0000_0000 == 0x8000_0000_0000_0000 ==> x & 0xF000_0000_0000_0000 != 0)
        by (bit_vector);
}

/// The generation count does not depend on the pair flag.
pub proof fn lemma_generation_ignores_pair_flag(x: u64)
    ensures
        spec_generation(x | 0x8000_0000_0000_0000) == spec_generation(x),
        spec_generation(x & !0x8000_0000_0000_0000u64) == spec_generation(x),
{
    assert(((x | 0x8000_0000_0000_0000) >> 32) & 0xFFFF == (x >> 32) & 0xFFFF) by (bit_vector);
    assert(((x & !0x8000_0000_0000_0000u64) >> 32) & 0xFFFF == (x >> 32) & 0xFFFF)
        by (bit_vector);
}

} // verus!
