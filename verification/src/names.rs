//! What a component type is called, and whether it has any size.

use vstd::layout::size_of;
use vstd::prelude::*;
use vstd::string::StrSliceExecFns;

verus! {

/// Whether the separator `::` stands at position `k` of `s`.
pub open spec fn separator_at(s: Seq<char>, k: int) -> bool {
    0 <= k && k + 1 < s.len() && s[k] == ':' && s[k + 1] == ':'
}

/// Where the segment starts in which a scan of `s` for `::` ends: the scan
/// stands at position `i`, in a segment that starts at `start`. A `::` ends a
/// segment, and the next one starts behind it.
pub open spec fn segment_start_from(s: Seq<char>, i: int, start: int) -> int
    decreases s.len() - i,
{
    if i < 0 || i + 1 >= s.len() {
        start
    } else if s[i] == ':' && s[i + 1] == ':' {
        segment_start_from(s, i + 2, i + 2)
    } else {
        segment_start_from(s, i + 1, start)
    }
}

/// Where the last of the segments starts that the separators `::` cut `s`
/// into, taken from the left.
pub open spec fn last_segment_start(s: Seq<char>) -> int {
    segment_start_from(s, 0, 0)
}

/// The last of the segments that the separators `::` cut `s` into.
pub open spec fn spec_last_segment(s: Seq<char>) -> Seq<char> {
    s.subrange(last_segment_start(s), s.len() as int)
}

/// A segment starts inside the text, not before the scan's own segment.
pub proof fn lemma_segment_start_bounds(s: Seq<char>, i: int, start: int)
    requires
        0 <= start <= i <= s.len(),
    ensures
        start <= segment_start_from(s, i, start) <= s.len(),
    decreases s.len() - i,
{
    if i + 1 >= s.len() {
    } else if s[i] == ':' && s[i + 1] == ':' {
        lemma_segment_start_bounds(s, i + 2, i + 2);
    } else {
        lemma_segment_start_bounds(s, i + 1, start);
    }
}

/// A scan that meets no separator ends in the segment it stands in.
pub proof fn lemma_scan_without_separator(s: Seq<char>, i: int, start: int)
    requires
        0 <= i,
        forall|k: int| i <= k ==> !separator_at(s, k),
    ensures
        segment_start_from(s, i, start) == start,
    decreases s.len() - i,
{
    if i + 1 < s.len() {
        assert(!separator_at(s, i));
        lemma_scan_without_separator(s, i + 1, start);
    }
}

/// The segment that a scan ends in holds no separator, where the part of the
/// scan's own segment that lies behind it holds none.
pub proof fn lemma_scan_ends_without_separator(s: Seq<char>, i: int, start: int)
    requires
        0 <= start <= i <= s.len(),
        forall|k: int| start <= k < i ==> !separator_at(s, k),
    ensures
        forall|k: int| segment_start_from(s, i, start) <= k ==> !separator_at(s, k),
    decreases s.len() - i,
{
    if i + 1 >= s.len() {
    } else if s[i] == ':' && s[i + 1] == ':' {
        lemma_scan_ends_without_separator(s, i + 2, i + 2);
    } else {
        assert(!separator_at(s, i));
        lemma_scan_ends_without_separator(s, i + 1, start);
    }
}

/// The last segment of a name is an end of the name that holds no separator;
/// a name without a separator is its own last segment.
pub proof fn lemma_last_segment(s: Seq<char>)
    ensures
        0 <= last_segment_start(s) <= s.len(),
        forall|k: int| last_segment_start(s) <= k ==> !separator_at(s, k),
        (forall|k: int| !separator_at(s, k)) ==> spec_last_segment(s) == s,
{
    lemma_segment_start_bounds(s, 0, 0);
    lemma_scan_ends_without_separator(s, 0, 0);
    if forall|k: int| !separator_at(s, k) {
        lemma_scan_without_separator(s, 0, 0);
        assert(s.subrange(0, s.len() as int) =~= s);
    }
}

/// The name of a type without the path of the module that defines it: of the
/// name as the compiler spells it, the last of the segments that the
/// separators `::` cut it into, and all of it where it holds no separator.
pub fn get_only_type_name<'a>(name: &'a str) -> (segment: &'a str)
    ensures
        segment@ == spec_last_segment(name@),
{
    let len = name.unicode_len();
    let mut start: usize = 0;
    let mut i: usize = 0;
    while len - i > 1
        invariant
            len == name@.len(),
            start <= i <= len,
            segment_start_from(name@, i as int, start as int) == last_segment_start(name@),
        decreases len - i,
    {
        if name.get_char(i) == ':' && name.get_char(i + 1) == ':' {
            i += 2;
            start = i;
        } else {
            i += 1;
        }
    }
    name.substring_char(start, len)
}

/// Whether values of the type `T` take no space.
pub fn is_empty_type<T>() -> (empty: bool)
    ensures
        empty == (size_of::<T>() == 0),
{
    std::mem::size_of::<T>() == 0
}

} // verus!
