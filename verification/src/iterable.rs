//! The tuple binding protocol: how a tuple of component types, each required
//! or optional, is written into a query's terms, how the data of its members
//! is gathered from a matched block, and which element of that data each
//! member reads at a row.

use crate::c_types::{FilterDescT, IdT, IterT, OperKind, TermT, WorldT, NULL};
use crate::field::{ecs_field, ecs_field_is_ref};
use vstd::prelude::*;

verus! {

/// The largest number of members that a tuple may have.
pub const MAX_TUPLE_ARITY: usize = 12;

/// The term that a member leaves in a slot that held `term`: its component,
/// and the optional operator where the member is optional.
pub open spec fn member_term(term: TermT, id: IdT, optional: bool) -> TermT {
    TermT {
        id,
        oper: if optional {
            OperKind::Optional
        } else {
            term.oper
        },
    }
}

/// The terms after the first `n` members have been written into the slots from
/// `start` on, one slot per member and in the members' order.
pub open spec fn written_terms(
    terms: Seq<TermT>,
    start: int,
    ids: Seq<IdT>,
    optional: Seq<bool>,
    n: int,
) -> Seq<TermT> {
    Seq::new(
        terms.len(),
        |k: int|
            if start <= k < start + n {
                member_term(terms[k], ids[k - start], optional[k - start])
            } else {
                terms[k]
            },
    )
}

/// The element of a field's data that a member reads at a row: the element of
/// that row, or the single element where the data is shared.
pub open spec fn element_index(is_ref: bool, index: usize) -> usize {
    if is_ref {
        0
    } else {
        index
    }
}

/// Where a member of a tuple finds its value: the element `index` of the array
/// at `ptr`.
#[derive(Clone, Copy, Debug, PartialEq, Eq, Structural)]
pub struct ElementRef {
    /// The address of the field's data.
    pub ptr: usize,
    /// The position of the element in that data.
    pub index: usize,
}

/// What a member yields at a row: nothing where it is optional and the block
/// has no data for it, else the element that `element_index` names.
pub open spec fn member_element(ptr: usize, optional: bool, is_ref: bool, index: usize) -> Option<
    ElementRef,
> {
    if optional && ptr == NULL {
        None
    } else {
        Some(ElementRef { ptr, index: element_index(is_ref, index) })
    }
}

/// What the members of a tuple yield at a row, in the members' order.
pub open spec fn tuple_elements(
    ptrs: Seq<usize>,
    optional: Seq<bool>,
    is_ref: Seq<bool>,
    index: usize,
) -> Seq<Option<ElementRef>> {
    Seq::new(optional.len(), |i: int| member_element(ptrs[i], optional[i], is_ref[i], index))
}

/// What the members of a tuple yield at a row when none of them is shared.
pub open spec fn tuple_elements_owned(ptrs: Seq<usize>, optional: Seq<bool>, index: usize) -> Seq<
    Option<ElementRef>,
> {
    Seq::new(optional.len(), |i: int| member_element(ptrs[i], optional[i], false, index))
}

/// Whether the block has data for every required member.
pub open spec fn required_present(ptrs: Seq<usize>, optional: Seq<bool>) -> bool {
    forall|i: int| 0 <= i < optional.len() && !optional[i] ==> ptrs[i] != NULL
}

/// The shared flags of the first `n` fields of a block.
pub open spec fn gathered_flags(it: &IterT, n: nat) -> Seq<bool> {
    Seq::new(n, |i: int| it.is_shared(i))
}

/// Whether no component occurs twice among `ids`. Two members of one
/// component would read the same data, and could not both write to it.
pub fn components_distinct(ids: &[IdT]) -> (distinct: bool)
    ensures
        distinct == ids@.no_duplicates(),
{
    let mut i: usize = 0;
    while i < ids.len()
        invariant
            i <= ids@.len(),
            forall|a: int, b: int| 0 <= a < b < ids@.len() && a < i ==> ids@[a] != ids@[b],
        decreases ids@.len() - i,
    {
        let mut j: usize = i + 1;
        while j < ids.len()
            invariant
                i < j <= ids@.len(),
                forall|b: int| i < b < j ==> ids@[i as int] != ids@[b],
            decreases ids@.len() - j,
        {
            if ids[i] == ids[j] {
                return false;
            }
            j += 1;
        }
        i += 1;
    }
    true
}

/// Something that holds the terms of a query under construction, and a cursor
/// on the slot to write next.
pub trait Filterable: Sized {
    /// The term slots.
    spec fn terms(&self) -> Seq<TermT>;

    /// The position of the slot under the cursor.
    spec fn term_index(&self) -> nat;

    /// The world that the query is built for.
    spec fn world(&self) -> WorldT;

    /// The slot under the cursor, to be written in place.
    fn current_term(&mut self) -> (term: &mut TermT)
        requires
            old(self).term_index() < old(self).terms().len(),
        ensures
            *term == old(self).terms()[old(self).term_index() as int],
            final(self).terms() == old(self).terms().update(
                old(self).term_index() as int,
                *final(term),
            ),
            final(self).term_index() == old(self).term_index(),
            final(self).world() == old(self).world(),
    ;

    /// Moves the cursor to the next slot.
    fn next_term(&mut self)
        requires
            old(self).term_index() < old(self).terms().len(),
        ensures
            final(self).terms() == old(self).terms(),
            final(self).term_index() == old(self).term_index() + 1,
            final(self).world() == old(self).world(),
    ;

    /// The world that the query is built for.
    fn get_world(&self) -> (world: WorldT)
        ensures
            world == self.world(),
    ;
}

/// The data of one field as a block hands it out.
#[derive(Clone, Copy, Debug, PartialEq, Eq, Structural)]
pub struct ArrayElement {
    /// The address of the field's data.
    pub ptr: usize,
    /// Whether the data is a single shared element.
    pub is_ref: bool,
}

/// What a tuple gathered from a block: per member the address of its data and
/// whether that data is shared, and whether any member's is.
pub struct ComponentsData<T: Iterable> {
    /// Per member the address of its data.
    pub array_components: T::ComponentsArray,
    /// Per member whether its data is shared.
    pub is_ref_array_components: T::BoolArray,
    /// Whether the data of any member is shared.
    pub is_any_array_a_ref: bool,
}

impl<T: Iterable> ComponentsData<T> {
    /// Gathered data holds an address and a flag for each member, and knows
    /// whether any flag is set.
    pub open spec fn wf(&self) -> bool {
        &&& T::pointers(&self.array_components).len() == T::optional().len()
        &&& T::flags(&self.is_ref_array_components).len() == T::optional().len()
        &&& self.is_any_array_a_ref == T::flags(&self.is_ref_array_components).contains(true)
    }

    /// What the tuple yields at the row `index`: found by the fast path where
    /// no member's data is shared, and by the general path where some is.
    pub fn tuple_at(&self, index: usize) -> (tuple: T::TupleType)
        requires
            self.wf(),
            T::optional().len() <= MAX_TUPLE_ARITY,
            required_present(T::pointers(&self.array_components), T::optional()),
        ensures
            T::elements(&tuple) == tuple_elements(
                T::pointers(&self.array_components),
                T::optional(),
                T::flags(&self.is_ref_array_components),
                index,
            ),
    {
        if self.is_any_array_a_ref {
            T::get_tuple_with_ref(&self.array_components, &self.is_ref_array_components, index)
        } else {
            proof {
                lemma_owned_tuple_is_tuple(
                    T::pointers(&self.array_components),
                    T::optional(),
                    T::flags(&self.is_ref_array_components),
                    index,
                );
            }
            T::get_tuple(&self.array_components, index)
        }
    }
}

/// A tuple of component types, each required or optional, that can be bound to
/// the results of a query.
pub trait Iterable: Sized {
    /// What the tuple yields at a row.
    type TupleType;

    /// Per member the address of its data.
    type ComponentsArray;

    /// Per member whether its data is shared.
    type BoolArray;

    /// Per member, in the declared order, whether it is optional.
    spec fn optional() -> Seq<bool>;

    /// The addresses that a components array holds.
    spec fn pointers(array_components: &Self::ComponentsArray) -> Seq<usize>;

    /// The flags that a bool array holds.
    spec fn flags(is_ref_array_components: &Self::BoolArray) -> Seq<bool>;

    /// Per member what a yielded tuple holds for it.
    spec fn elements(tuple: &Self::TupleType) -> Seq<Option<ElementRef>>;

    /// The number of members.
    fn arity() -> (n: usize)
        ensures
            n == Self::optional().len(),
    ;

    /// Writes the members into the slots of `filter` from its cursor on: each
    /// member's component, and the optional operator where it is optional.
    /// `ids` holds the members' components, as looked up in the filter's world.
    fn populate<F: Filterable>(filter: &mut F, ids: &[IdT])
        requires
            Self::optional().len() <= MAX_TUPLE_ARITY,
            ids@.len() == Self::optional().len(),
            old(filter).term_index() + ids@.len() <= old(filter).terms().len(),
        ensures
            final(filter).terms() == written_terms(
                old(filter).terms(),
                old(filter).term_index() as int,
                ids@,
                Self::optional(),
                ids@.len() as int,
            ),
            final(filter).term_index() == old(filter).term_index() + ids@.len(),
            final(filter).world() == old(filter).world(),
    ;

    /// Writes the members into the first slots of `desc`, by position.
    /// `ids` holds the members' components, as looked up in the query's world.
    fn register_ids_descriptor(ids: &[IdT], desc: &mut FilterDescT)
        requires
            Self::optional().len() <= MAX_TUPLE_ARITY,
            ids@.len() == Self::optional().len(),
            ids@.len() <= old(desc).terms@.len(),
        ensures
            final(desc).terms@ == written_terms(
                old(desc).terms@,
                0,
                ids@,
                Self::optional(),
                ids@.len() as int,
            ),
    ;

    /// Gathers, for each member, the address of the data of the field at the
    /// member's position and whether that data is shared.
    fn get_array_ptrs_of_components(it: &IterT) -> (data: ComponentsData<Self>)
        requires
            it.wf(),
            Self::optional().len() <= MAX_TUPLE_ARITY,
            Self::optional().len() <= it.field_count(),
        ensures
            Self::pointers(&data.array_components) == it.ptrs@.take(Self::optional().len() as int),
            Self::flags(&data.is_ref_array_components) == gathered_flags(
                it,
                Self::optional().len(),
            ),
            data.is_any_array_a_ref == gathered_flags(it, Self::optional().len()).contains(true),
    ;

    /// Whether gathered addresses fit the tuple: there is one for each member,
    /// and the block has data for every required member. Only such addresses
    /// can be turned into a tuple.
    fn has_required_components(array_components: &Self::ComponentsArray) -> (complete: bool)
        requires
            Self::optional().len() <= MAX_TUPLE_ARITY,
        ensures
            complete == (Self::pointers(array_components).len() == Self::optional().len()
                && required_present(Self::pointers(array_components), Self::optional())),
    ;

    /// A second way to gather, which a tuple may offer; by default it offers
    /// none.
    fn get_array_ptrs_of_components2(it: &IterT) -> (data: Option<
        (Self::ComponentsArray, [bool; 2], bool),
    >)
        default_ensures
            data is None,
    {
        None
    }

    /// What the tuple yields at the row `index` of a block none of whose
    /// fields is shared.
    fn get_tuple(array_components: &Self::ComponentsArray, index: usize) -> (tuple: Self::TupleType)
        requires
            Self::optional().len() <= MAX_TUPLE_ARITY,
            Self::pointers(array_components).len() == Self::optional().len(),
            required_present(Self::pointers(array_components), Self::optional()),
        ensures
            Self::elements(&tuple) == tuple_elements_owned(
                Self::pointers(array_components),
                Self::optional(),
                index,
            ),
    ;

    /// What the tuple yields at the row `index` of a block: a shared member
    /// yields the single element of its data, whatever the row.
    fn get_tuple_with_ref(
        array_components: &Self::ComponentsArray,
        is_ref_array_components: &Self::BoolArray,
        index: usize,
    ) -> (tuple: Self::TupleType)
        requires
            Self::optional().len() <= MAX_TUPLE_ARITY,
            Self::pointers(array_components).len() == Self::optional().len(),
            Self::flags(is_ref_array_components).len() == Self::optional().len(),
            required_present(Self::pointers(array_components), Self::optional()),
        ensures
            Self::elements(&tuple) == tuple_elements(
                Self::pointers(array_components),
                Self::optional(),
                Self::flags(is_ref_array_components),
                index,
            ),
    ;
}

/// A query under construction: a descriptor, the cursor on its terms, and the
/// world it is built for.
pub struct FilterBuilder {
    /// The descriptor that is being filled.
    pub desc: FilterDescT,
    /// The position of the slot to write next.
    pub term_index: usize,
    /// The world that the query is built for.
    pub world: WorldT,
}

impl FilterBuilder {
    /// A builder on `desc`, with the cursor on its first slot.
    pub fn new(world: WorldT, desc: FilterDescT) -> (builder: FilterBuilder)
        ensures
            builder.desc == desc,
            builder.term_index == 0,
            builder.world == world,
    {
        FilterBuilder { desc, term_index: 0, world }
    }
}

impl Filterable for FilterBuilder {
    open spec fn terms(&self) -> Seq<TermT> {
        self.desc.terms@
    }

    open spec fn term_index(&self) -> nat {
        self.term_index as nat
    }

    open spec fn world(&self) -> WorldT {
        self.world
    }

    fn current_term(&mut self) -> (term: &mut TermT) {
        &mut self.desc.terms[self.term_index]
    }

    fn next_term(&mut self) {
        let slots = self.desc.terms.len();
        assert(self.term_index < slots);
        self.term_index = self.term_index + 1;
    }

    fn get_world(&self) -> (world: WorldT) {
        self.world
    }
}

impl Iterable for () {
    type TupleType = ();

    type ComponentsArray = [usize; 0];

    type BoolArray = [bool; 0];

    open spec fn optional() -> Seq<bool> {
        Seq::empty()
    }

    open spec fn pointers(array_components: &[usize; 0]) -> Seq<usize> {
        array_components@
    }

    open spec fn flags(is_ref_array_components: &[bool; 0]) -> Seq<bool> {
        is_ref_array_components@
    }

    open spec fn elements(tuple: &()) -> Seq<Option<ElementRef>> {
        Seq::empty()
    }

    fn arity() -> (n: usize) {
        0
    }

    fn populate<F: Filterable>(filter: &mut F, ids: &[IdT]) {
        assert(filter.terms() =~= written_terms(
            filter.terms(),
            filter.term_index() as int,
            ids@,
            Self::optional(),
            0,
        ));
    }

    fn register_ids_descriptor(ids: &[IdT], desc: &mut FilterDescT) {
        assert(desc.terms@ =~= written_terms(desc.terms@, 0, ids@, Self::optional(), 0));
    }

    fn get_array_ptrs_of_components(it: &IterT) -> (data: ComponentsData<Self>) {
        let array_components: [usize; 0] = [];
        let is_ref_array_components: [bool; 0] = [];
        assert(array_components@ =~= it.ptrs@.take(0));
        assert(is_ref_array_components@ =~= gathered_flags(it, 0));
        ComponentsData { array_components, is_ref_array_components, is_any_array_a_ref: false }
    }

    fn has_required_components(array_components: &[usize; 0]) -> (complete: bool) {
        true
    }

    fn get_tuple(array_components: &[usize; 0], index: usize) -> (tuple: ()) {
        assert(Self::elements(&()) =~= tuple_elements_owned(
            array_components@,
            Self::optional(),
            index,
        ));
    }

    fn get_tuple_with_ref(
        array_components: &[usize; 0],
        is_ref_array_components: &[bool; 0],
        index: usize,
    ) -> (tuple: ()) {
        assert(Self::elements(&()) =~= tuple_elements(
            array_components@,
            Self::optional(),
            is_ref_array_components@,
            index,
        ));
    }
}

/// Marks a member of a tuple by the type it is declared with: `Wrapper<T>` is
/// a required member of component type `T`, `Wrapper<Option<T>>` an optional
/// one.
pub struct Wrapper<T>(T);

/// The form in which a member declared as `T`, of component type `U`, appears
/// in a yielded tuple, and how it is taken from the member's data.
///
/// The data is `None` where the block has none for the member, else the
/// member's array: one element per entity, or a single one where the data is
/// shared.
pub trait TupleForm<'a, T, U> {
    /// The form of the member in a yielded tuple.
    type Tuple;

    /// Whether the member is optional.
    const IS_OPTION: bool;

    /// Whether the member is optional.
    spec fn is_option() -> bool;

    /// The value that a yielded member refers to, if it refers to one.
    spec fn value(tuple: &Self::Tuple) -> Option<U>;

    /// `IS_OPTION` says what `is_option` says.
    proof fn is_option_agrees()
        ensures
            Self::IS_OPTION == Self::is_option(),
    ;

    /// The member at the row `index` of data that is not shared.
    fn return_type_for_tuple(array: Option<&'a mut [U]>, index: usize) -> (tuple: Self::Tuple)
        requires
            !Self::is_option() ==> array is Some,
            array matches Some(data) ==> index < data@.len(),
        ensures
            Self::value(&tuple) == match array {
                Some(data) => Some(data@[index as int]),
                None => None,
            },
    ;

    /// The member at the row `index`: of shared data the single element,
    /// whatever the row.
    fn return_type_for_tuple_with_ref(array: Option<&'a mut [U]>, is_ref: bool, index: usize) -> (tuple:
        Self::Tuple)
        requires
            !Self::is_option() ==> array is Some,
            array matches Some(data) ==> element_index(is_ref, index) < data@.len(),
        ensures
            Self::value(&tuple) == match array {
                Some(data) => Some(data@[element_index(is_ref, index) as int]),
                None => None,
            },
    ;
}

impl<'a, T: 'a> TupleForm<'a, T, T> for Wrapper<T> {
    type Tuple = &'a mut T;

    const IS_OPTION: bool = false;

    open spec fn is_option() -> bool {
        false
    }

    proof fn is_option_agrees() {
    }

    open spec fn value(tuple: &&'a mut T) -> Option<T> {
        Some(**tuple)
    }

    fn return_type_for_tuple(array: Option<&'a mut [T]>, index: usize) -> (tuple: &'a mut T)
        ensures
            array matches Some(data) && final(data)@ == data@.update(index as int, *final(tuple)),
    {
        let data = array.unwrap();
        &mut data[index]
    }

    fn return_type_for_tuple_with_ref(array: Option<&'a mut [T]>, is_ref: bool, index: usize) -> (tuple:
        &'a mut T)
        ensures
            array matches Some(data) && final(data)@ == data@.update(
                element_index(is_ref, index) as int,
                *final(tuple),
            ),
    {
        let data = array.unwrap();
        if is_ref {
            &mut data[0]
        } else {
            &mut data[index]
        }
    }
}

impl<'a, T: 'a> TupleForm<'a, Option<T>, T> for Wrapper<Option<T>> {
    type Tuple = Option<&'a mut T>;

    const IS_OPTION: bool = true;

    open spec fn is_option() -> bool {
        true
    }

    proof fn is_option_agrees() {
    }

    open spec fn value(tuple: &Option<&'a mut T>) -> Option<T> {
        match *tuple {
            Some(element) => Some(*element),
            None => None,
        }
    }

    fn return_type_for_tuple(array: Option<&'a mut [T]>, index: usize) -> (tuple: Option<&'a mut T>)
        ensures
            array matches Some(data) ==> tuple matches Some(element) && final(data)@
                == data@.update(index as int, *final(element)),
    {
        match array {
            None => None,
            Some(data) => Some(&mut data[index]),
        }
    }

    fn return_type_for_tuple_with_ref(array: Option<&'a mut [T]>, is_ref: bool, index: usize) -> (tuple:
        Option<&'a mut T>)
        ensures
            array matches Some(data) ==> tuple matches Some(element) && final(data)@
                == data@.update(element_index(is_ref, index) as int, *final(element)),
    {
        match array {
            None => None,
            Some(data) => if is_ref {
                Some(&mut data[0])
            } else {
                Some(&mut data[index])
            },
        }
    }
}

/// Whether bit `i` of `mask` is set.
pub open spec fn bit_set(mask: u16, i: int) -> bool {
    0 <= i < 16 && (mask >> (i as u16)) & 1 == 1
}

/// The tuples of `N` members of which the member at position `i` is optional
/// where bit `i` of `OPTIONAL` is set, and required where it is not.
pub struct TupleShape<const N: usize, const OPTIONAL: u16>;

impl<const N: usize, const OPTIONAL: u16> TupleShape<N, OPTIONAL> {
    /// Whether the member at position `i` is optional.
    pub fn is_optional(i: usize) -> (optional: bool)
        ensures
            optional == bit_set(OPTIONAL, i as int),
    {
        i < 16 && (OPTIONAL >> (i as u16)) & 1 == 1
    }
}

impl<const N: usize, const OPTIONAL: u16> Iterable for TupleShape<N, OPTIONAL> {
    type TupleType = Vec<Option<ElementRef>>;

    type ComponentsArray = Vec<usize>;

    type BoolArray = Vec<bool>;

    open spec fn optional() -> Seq<bool> {
        Seq::new(N as nat, |i: int| bit_set(OPTIONAL, i))
    }

    open spec fn pointers(array_components: &Vec<usize>) -> Seq<usize> {
        array_components@
    }

    open spec fn flags(is_ref_array_components: &Vec<bool>) -> Seq<bool> {
        is_ref_array_components@
    }

    open spec fn elements(tuple: &Vec<Option<ElementRef>>) -> Seq<Option<ElementRef>> {
        tuple@
    }

    fn arity() -> (n: usize) {
        N
    }

    fn populate<F: Filterable>(filter: &mut F, ids: &[IdT]) {
        let ghost before = filter.terms();
        let ghost start = filter.term_index() as int;
        let ghost world = filter.world();
        assert(before =~= written_terms(before, start, ids@, Self::optional(), 0));
        let mut i: usize = 0;
        while i < N
            invariant
                i <= N,
                ids@.len() == N,
                start + N <= before.len(),
                filter.terms() == written_terms(before, start, ids@, Self::optional(), i as int),
                filter.term_index() == start + i,
                filter.world() == world,
            decreases N - i,
        {
            let optional = Self::is_optional(i);
            let id = ids[i];
            let term = filter.current_term();
            term.id = id;
            if optional {
                term.oper = OperKind::Optional;
            }
            filter.next_term();
            i += 1;
            assert(filter.terms() =~= written_terms(
                before,
                start,
                ids@,
                Self::optional(),
                i as int,
            ));
        }
    }

    fn register_ids_descriptor(ids: &[IdT], desc: &mut FilterDescT) {
        let ghost before = desc.terms@;
        assert(before =~= written_terms(before, 0, ids@, Self::optional(), 0));
        let mut term_index: usize = 0;
        while term_index < N
            invariant
                term_index <= N,
                ids@.len() == N,
                N <= before.len(),
                desc.terms@ == written_terms(
                    before,
                    0,
                    ids@,
                    Self::optional(),
                    term_index as int,
                ),
            decreases N - term_index,
        {
            let optional = Self::is_optional(term_index);
            desc.terms[term_index].id = ids[term_index];
            if optional {
                desc.terms[term_index].oper = OperKind::Optional;
            }
            term_index += 1;
            assert(desc.terms@ =~= written_terms(
                before,
                0,
                ids@,
                Self::optional(),
                term_index as int,
            ));
        }
    }

    fn get_array_ptrs_of_components(it: &IterT) -> (data: ComponentsData<Self>) {
        let mut array_components: Vec<usize> = Vec::new();
        let mut is_ref_array_components: Vec<bool> = Vec::new();
        let mut is_any_array_a_ref = false;
        let mut index: i32 = 1;
        assert(array_components@ =~= it.ptrs@.take(0));
        assert(is_ref_array_components@ =~= gathered_flags(it, 0));
        while index as usize <= N
            invariant
                it.wf(),
                1 <= index <= N + 1,
                N <= MAX_TUPLE_ARITY,
                N <= it.field_count(),
                array_components@ == it.ptrs@.take(index - 1),
                is_ref_array_components@ == gathered_flags(it, (index - 1) as nat),
                is_any_array_a_ref == is_ref_array_components@.contains(true),
            decreases N + 1 - index,
        {
            let ptr = ecs_field(it, index);
            let is_ref = ecs_field_is_ref(it, index);
            let ghost flags = is_ref_array_components@;
            array_components.push(ptr);
            is_ref_array_components.push(is_ref);
            is_any_array_a_ref = is_any_array_a_ref || is_ref;
            assert(array_components@ =~= it.ptrs@.take(index as int));
            assert(is_ref_array_components@ =~= gathered_flags(it, index as nat));
            assert(is_ref_array_components@.contains(true) == (flags.contains(true) || is_ref)) by {
                if flags.contains(true) {
                    let k = choose|k: int| 0 <= k < flags.len() && flags[k] == true;
                    assert(is_ref_array_components@[k] == true);
                }
                if is_ref {
                    assert(is_ref_array_components@[index - 1] == true);
                }
            }
            index += 1;
        }
        ComponentsData { array_components, is_ref_array_components, is_any_array_a_ref }
    }

    fn has_required_components(array_components: &Vec<usize>) -> (complete: bool) {
        if array_components.len() != N {
            return false;
        }
        let mut array_index: usize = 0;
        while array_index < N
            invariant
                array_index <= N,
                array_components@.len() == N,
                forall|i: int|
                    0 <= i < array_index && !bit_set(OPTIONAL, i) ==> array_components@[i] != NULL,
            decreases N - array_index,
        {
            if !Self::is_optional(array_index) && array_components[array_index] == NULL {
                assert(!Self::optional()[array_index as int]);
                return false;
            }
            array_index += 1;
        }
        true
    }

    fn get_tuple(array_components: &Vec<usize>, index: usize) -> (tuple: Vec<Option<ElementRef>>) {
        let mut tuple: Vec<Option<ElementRef>> = Vec::new();
        let mut array_index: usize = 0;
        while array_index < N
            invariant
                array_index <= N,
                array_components@.len() == N,
                tuple@.len() == array_index,
                forall|i: int|
                    0 <= i < array_index ==> tuple@[i] == member_element(
                        array_components@[i],
                        bit_set(OPTIONAL, i),
                        false,
                        index,
                    ),
            decreases N - array_index,
        {
            let ptr = array_components[array_index];
            let member = if Self::is_optional(array_index) && ptr == NULL {
                None
            } else {
                Some(ElementRef { ptr, index })
            };
            tuple.push(member);
            array_index += 1;
        }
        assert(tuple@ =~= tuple_elements_owned(array_components@, Self::optional(), index));
        tuple
    }

    fn get_tuple_with_ref(
        array_components: &Vec<usize>,
        is_ref_array_components: &Vec<bool>,
        index: usize,
    ) -> (tuple: Vec<Option<ElementRef>>) {
        let mut tuple: Vec<Option<ElementRef>> = Vec::new();
        let mut array_index: usize = 0;
        while array_index < N
            invariant
                array_index <= N,
                array_components@.len() == N,
                is_ref_array_components@.len() == N,
                tuple@.len() == array_index,
                forall|i: int|
                    0 <= i < array_index ==> tuple@[i] == member_element(
                        array_components@[i],
                        bit_set(OPTIONAL, i),
                        is_ref_array_components@[i],
                        index,
                    ),
            decreases N - array_index,
        {
            let ptr = array_components[array_index];
            let is_ref = is_ref_array_components[array_index];
            let member = if Self::is_optional(array_index) && ptr == NULL {
                None
            } else if is_ref {
                Some(ElementRef { ptr, index: 0 })
            } else {
                Some(ElementRef { ptr, index })
            };
            tuple.push(member);
            array_index += 1;
        }
        assert(tuple@ =~= tuple_elements(
            array_components@,
            Self::optional(),
            is_ref_array_components@,
            index,
        ));
        tuple
    }
}

/// Whether a tuple can be bound to a block: the block is well formed, has a
/// field for each member, and has data for every required member.
pub open spec fn block_binds<T: Iterable>(it: &IterT) -> bool {
    &&& it.wf()
    &&& T::optional().len() <= it.field_count()
    &&& required_present(it.ptrs@.take(T::optional().len() as int), T::optional())
}

/// What a tuple yields at the row `index` of a block.
pub open spec fn block_elements<T: Iterable>(it: &IterT, index: usize) -> Seq<Option<ElementRef>> {
    tuple_elements(
        it.ptrs@.take(T::optional().len() as int),
        T::optional(),
        gathered_flags(it, T::optional().len()),
        index,
    )
}

/// One step of an iteration: gathers the members' data from the block and
/// yields the tuple of each of its rows, in the order of the rows. Yields
/// nothing where the tuple cannot be bound to the block.
///
/// Every element that a yielded tuple names lies in the data of the field of
/// its member.
pub fn tuples_of_block<T: Iterable>(it: &IterT) -> (rows: Option<Vec<T::TupleType>>)
    requires
        T::optional().len() <= MAX_TUPLE_ARITY,
    ensures
        rows is Some <==> block_binds::<T>(it),
        rows matches Some(tuples) ==> {
            &&& tuples@.len() == it.count
            &&& forall|row: int|
                0 <= row < it.count ==> T::elements(&#[trigger] tuples@[row]) == block_elements::<T>(
                    it,
                    row as usize,
                )
            &&& forall|row: int, i: int|
                0 <= row < it.count && 0 <= i < T::optional().len() ==> (#[trigger] T::elements(
                    &tuples@[row],
                )[i] matches Some(element) ==> element.ptr == it.ptrs@[i] && element.index
                    < it.column_len(i))
        },
{
    if !it.is_wf() || T::arity() > it.ptrs.len() {
        return None;
    }
    let data = T::get_array_ptrs_of_components(it);
    if !T::has_required_components(&data.array_components) {
        return None;
    }
    let mut tuples: Vec<T::TupleType> = Vec::new();
    let mut row: usize = 0;
    while row < it.count
        invariant
            row <= it.count,
            block_binds::<T>(it),
            data.wf(),
            T::optional().len() <= MAX_TUPLE_ARITY,
            T::pointers(&data.array_components) == it.ptrs@.take(T::optional().len() as int),
            T::flags(&data.is_ref_array_components) == gathered_flags(it, T::optional().len()),
            tuples@.len() == row,
            forall|r: int|
                0 <= r < row ==> T::elements(&#[trigger] tuples@[r]) == block_elements::<T>(
                    it,
                    r as usize,
                ),
        decreases it.count - row,
    {
        let tuple = data.tuple_at(row);
        tuples.push(tuple);
        row += 1;
    }
    proof {
        assert forall|r: int, i: int| 0 <= r < it.count && 0 <= i < T::optional().len() implies (
        #[trigger] T::elements(&tuples@[r])[i] matches Some(element) ==> element.ptr == it.ptrs@[i]
            && element.index < it.column_len(i)) by {
            assert(T::elements(&tuples@[r]) == block_elements::<T>(it, r as usize));
            lemma_elements_in_bounds(it, T::optional(), r as usize, i);
        }
    }
    Some(tuples)
}

/// Where the data of no member is shared, the fast path yields what the
/// general path yields.
pub proof fn lemma_owned_tuple_is_tuple(
    ptrs: Seq<usize>,
    optional: Seq<bool>,
    is_ref: Seq<bool>,
    index: usize,
)
    requires
        is_ref.len() == optional.len(),
        !is_ref.contains(true),
    ensures
        tuple_elements(ptrs, optional, is_ref, index) == tuple_elements_owned(ptrs, optional, index),
{
    assert forall|i: int| 0 <= i < optional.len() implies member_element(
        ptrs[i],
        optional[i],
        is_ref[i],
        index,
    ) == member_element(ptrs[i], optional[i], false, index) by {
        assert(is_ref[i] != true);
    }
    assert(tuple_elements(ptrs, optional, is_ref, index) =~= tuple_elements_owned(
        ptrs,
        optional,
        index,
    ));
}

/// A member whose data is shared yields the same element at every row.
pub proof fn lemma_shared_member_ignores_row(ptr: usize, optional: bool, row: usize, other: usize)
    ensures
        member_element(ptr, optional, true, row) == member_element(ptr, optional, true, other),
{
}

/// A member yields nothing exactly where it is optional and the block has no
/// data for it, whatever the row.
pub proof fn lemma_member_absent(ptr: usize, optional: bool, is_ref: bool, index: usize)
    ensures
        member_element(ptr, optional, is_ref, index) is None <==> optional && ptr == NULL,
{
}

/// What a tuple yields at a row of a block, of data gathered from that block,
/// lies within the data: each member that yields an element yields one of its
/// field's data, at a position below the number of elements that the data
/// holds.
pub proof fn lemma_elements_in_bounds(it: &IterT, optional: Seq<bool>, index: usize, i: int)
    requires
        it.wf(),
        optional.len() <= it.field_count(),
        required_present(it.ptrs@.take(optional.len() as int), optional),
        index < it.count,
        0 <= i < optional.len(),
    ensures
        match tuple_elements(
            it.ptrs@.take(optional.len() as int),
            optional,
            gathered_flags(it, optional.len()),
            index,
        )[i] {
            Some(element) => element.ptr == it.ptrs@[i] && element.ptr != NULL && element.index
                < it.column_len(i),
            None => optional[i] && it.ptrs@[i] == NULL,
        },
{
    let ptrs = it.ptrs@.take(optional.len() as int);
    assert(ptrs[i] == it.ptrs@[i]);
    assert(gathered_flags(it, optional.len())[i] == it.is_shared(i));
    if !optional[i] {
        assert(ptrs[i] != NULL);
    }
}

} // verus!
