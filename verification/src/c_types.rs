//! The storage engine's data, as the plain values that the binding layer
//! reads and writes.

use vstd::prelude::*;

verus! {

/// An opaque 64-bit identifier.
pub type IdT = u64;

/// The identifier of an entity.
pub type EntityT = u64;

/// The address of a world, as the engine handed it out.
pub type WorldT = usize;

/// The flag that marks an identifier as a relationship pair.
pub const ECS_PAIR: u64 = 0x8000_0000_0000_0000;

/// The bits of an identifier that are reserved for flags.
pub const RUST_ECS_ID_FLAGS_MASK: u64 = 0xF000_0000_0000_0000;

/// The bits of an identifier that are not reserved for flags.
pub const RUST_ECS_COMPONENT_MASK: u64 = 0x0FFF_FFFF_FFFF_FFFF;

/// The identifiers below this one are kept for components; the engine's own
/// entities follow it.
pub const FLECS_HI_COMPONENT_ID: u64 = 256;

/// The engine's wildcard entity: as an element of a pair it matches any entity.
pub const ECS_WILDCARD: u64 = FLECS_HI_COMPONENT_ID + 14;

/// The engine's `DependsOn` relationship.
pub const ECS_DEPENDS_ON: u64 = FLECS_HI_COMPONENT_ID + 40;

/// The address that stands for "no data".
pub const NULL: usize = 0;

/// How a term takes part in a query.
#[derive(Clone, Copy, Debug, PartialEq, Eq, Structural)]
pub enum OperKind {
    /// The term must match.
    And,
    /// One of the terms of an or-chain must match.
    Or,
    /// The term must not match.
    Not,
    /// The term may match.
    Optional,
    /// All components of the term's entity must match.
    AndFrom,
    /// One of the components of the term's entity must match.
    OrFrom,
    /// None of the components of the term's entity may match.
    NotFrom,
}

impl OperKind {
    /// The number under which the engine knows this operator.
    pub open spec fn spec_code(self) -> i32 {
        match self {
            OperKind::And => 0,
            OperKind::Or => 1,
            OperKind::Not => 2,
            OperKind::Optional => 3,
            OperKind::AndFrom => 4,
            OperKind::OrFrom => 5,
            OperKind::NotFrom => 6,
        }
    }

    /// The number under which the engine knows this operator.
    pub fn code(self) -> (c: i32)
        ensures
            c == self.spec_code(),
    {
        match self {
            OperKind::And => 0,
            OperKind::Or => 1,
            OperKind::Not => 2,
            OperKind::Optional => 3,
            OperKind::AndFrom => 4,
            OperKind::OrFrom => 5,
            OperKind::NotFrom => 6,
        }
    }
}

impl OperKind {
    /// The operator that the engine knows under the number `code`, if it knows
    /// one under it.
    pub fn from_code(code: i32) -> (kind: Option<OperKind>)
        ensures
            kind is Some <==> 0 <= code <= 6,
            kind matches Some(k) ==> k.spec_code() == code,
    {
        if code == 0 {
            Some(OperKind::And)
        } else if code == 1 {
            Some(OperKind::Or)
        } else if code == 2 {
            Some(OperKind::Not)
        } else if code == 3 {
            Some(OperKind::Optional)
        } else if code == 4 {
            Some(OperKind::AndFrom)
        } else if code == 5 {
            Some(OperKind::OrFrom)
        } else if code == 6 {
            Some(OperKind::NotFrom)
        } else {
            None
        }
    }
}

/// How a term accesses the data it matches.
#[derive(Clone, Copy, Debug, PartialEq, Eq, Structural)]
pub enum InOutKind {
    /// Read and written for owned data, read for shared data.
    InOutDefault,
    /// Neither read nor written.
    InOutNone,
    /// Neither read nor written, and not part of the result.
    InOutFilter,
    /// Read and written.
    InOut,
    /// Read only.
    In,
    /// Written only.
    Out,
}

impl InOutKind {
    /// The number under which the engine knows this kind of access.
    pub open spec fn spec_code(self) -> i32 {
        match self {
            InOutKind::InOutDefault => 0,
            InOutKind::InOutNone => 1,
            InOutKind::InOutFilter => 2,
            InOutKind::InOut => 3,
            InOutKind::In => 4,
            InOutKind::Out => 5,
        }
    }

    /// The number under which the engine knows this kind of access.
    pub fn code(self) -> (c: i32)
        ensures
            c == self.spec_code(),
    {
        match self {
            InOutKind::InOutDefault => 0,
            InOutKind::InOutNone => 1,
            InOutKind::InOutFilter => 2,
            InOutKind::InOut => 3,
            InOutKind::In => 4,
            InOutKind::Out => 5,
        }
    }
}

/// One slot of a query's descriptor: the component it asks for and the
/// operator it asks with.
#[derive(Clone, Copy, Debug, PartialEq, Eq, Structural)]
pub struct TermT {
    /// The component that the term matches.
    pub id: IdT,
    /// The term's operator.
    pub oper: OperKind,
}

/// The descriptor of a query under construction: its term slots, in order.
pub struct FilterDescT {
    /// The term slots.
    pub terms: Vec<TermT>,
}

/// A view of one matched block of entities for one step of an iteration.
///
/// Fields are numbered from 1. A field's data is an array with one element per
/// entity of the block, or, where the field is shared, a single element that
/// every entity of the block reads.
pub struct IterT {
    /// The number of entities in the block.
    pub count: usize,
    /// For each field the address of its data, or `NULL` where the block has
    /// no data for it.
    pub ptrs: Vec<usize>,
    /// For each field the entity that its data belongs to, 0 where it belongs
    /// to the block's own entities; `None` where the block names no sources.
    pub sources: Option<Vec<EntityT>>,
    /// The group that the block was put in.
    pub group_id: u64,
}

impl IterT {
    /// The view of a block of `count` entities with the given fields, if the
    /// sources, where there are any, name one for each field.
    pub fn new(count: usize, ptrs: Vec<usize>, sources: Option<Vec<EntityT>>, group_id: u64) -> (it:
        Option<IterT>)
        ensures
            it is Some <==> (sources matches Some(s) ==> s@.len() == ptrs@.len()),
            it matches Some(block) ==> block.wf() && block.count == count && block.ptrs == ptrs
                && block.sources == sources && block.group_id == group_id,
    {
        let it = IterT { count, ptrs, sources, group_id };
        if it.is_wf() {
            Some(it)
        } else {
            None
        }
    }

    /// Whether the block names a source for each of its fields, or for none.
    pub fn is_wf(&self) -> (wf: bool)
        ensures
            wf == self.wf(),
    {
        match &self.sources {
            Some(sources) => sources.len() == self.ptrs.len(),
            None => true,
        }
    }

    /// The number of fields of the block.
    pub open spec fn field_count(&self) -> nat {
        self.ptrs@.len()
    }

    /// A block names a source for each of its fields, or for none.
    pub open spec fn wf(&self) -> bool {
        self.sources matches Some(s) ==> s@.len() == self.ptrs@.len()
    }

    /// Whether the data of the field at position `i` (from 0) is shared.
    pub open spec fn is_shared(&self, i: int) -> bool {
        match self.sources {
            Some(s) => s@[i] != 0,
            None => false,
        }
    }

    /// The number of elements that the data of the field at position `i`
    /// (from 0) holds.
    pub open spec fn column_len(&self, i: int) -> nat {
        if self.ptrs@[i] == NULL {
            0
        } else if self.is_shared(i) {
            1
        } else {
            self.count as nat
        }
    }
}

} // verus!
