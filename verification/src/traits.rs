//! Types that stand for a way of access or for an operator, so that a term's
//! settings can be chosen by type.

use crate::c_types::{InOutKind, OperKind};
use vstd::prelude::*;

verus! {

/// A type that stands for a kind of access.
pub trait InOutType {
    /// The kind of access that the type stands for.
    const IN_OUT: InOutKind;

    /// The kind of access that the type stands for.
    spec fn in_out() -> InOutKind;

    /// `IN_OUT` says what `in_out` says.
    proof fn in_out_agrees()
        ensures
            Self::IN_OUT == Self::in_out(),
    ;
}

/// A type that stands for an operator.
pub trait OperType {
    /// The operator that the type stands for.
    const OPER: OperKind;

    /// The operator that the type stands for.
    spec fn oper() -> OperKind;

    /// `OPER` says what `oper` says.
    proof fn oper_agrees()
        ensures
            Self::OPER == Self::oper(),
    ;
}

/// The kind of access that the type `T` stands for.
pub fn type_to_inout<T: InOutType>() -> (kind: InOutKind)
    ensures
        kind == T::in_out(),
{
    proof {
        T::in_out_agrees();
    }
    T::IN_OUT
}

/// The operator that the type `T` stands for.
pub fn type_to_oper<T: OperType>() -> (kind: OperKind)
    ensures
        kind == T::oper(),
{
    proof {
        T::oper_agrees();
    }
    T::OPER
}

/// Stands for access that the engine chooses.
pub struct InOutDefault;

/// Stands for no access.
pub struct InOutNone;

/// Stands for reading and writing.
pub struct InOut;

/// Stands for reading.
pub struct In;

/// Stands for writing.
pub struct Out;

impl InOutType for InOutDefault {
    const IN_OUT: InOutKind = InOutKind::InOutDefault;

    open spec fn in_out() -> InOutKind {
        InOutKind::InOutDefault
    }

    proof fn in_out_agrees() {
    }
}

impl InOutType for InOutNone {
    const IN_OUT: InOutKind = InOutKind::InOutNone;

    open spec fn in_out() -> InOutKind {
        InOutKind::InOutNone
    }

    proof fn in_out_agrees() {
    }
}

impl InOutType for InOut {
    const IN_OUT: InOutKind = InOutKind::InOut;

    open spec fn in_out() -> InOutKind {
        InOutKind::InOut
    }

    proof fn in_out_agrees() {
    }
}

impl InOutType for In {
    const IN_OUT: InOutKind = InOutKind::In;

    open spec fn in_out() -> InOutKind {
        InOutKind::In
    }

    proof fn in_out_agrees() {
    }
}

impl InOutType for Out {
    const IN_OUT: InOutKind = InOutKind::Out;

    open spec fn in_out() -> InOutKind {
        InOutKind::Out
    }

    proof fn in_out_agrees() {
    }
}

/// Stands for a term that must match.
pub struct And;

/// Stands for a term of an or-chain.
pub struct Or;

/// Stands for a term that must not match.
pub struct Not;

/// Stands for a term that may match.
pub struct Optional;

impl OperType for And {
    const OPER: OperKind = OperKind::And;

    open spec fn oper() -> OperKind {
        OperKind::And
    }

    proof fn oper_agrees() {
    }
}

impl OperType for Or {
    const OPER: OperKind = OperKind::Or;

    open spec fn oper() -> OperKind {
        OperKind::Or
    }

    proof fn oper_agrees() {
    }
}

impl OperType for Not {
    const OPER: OperKind = OperKind::Not;

    open spec fn oper() -> OperKind {
        OperKind::Not
    }

    proof fn oper_agrees() {
    }
}

impl OperType for Optional {
    const OPER: OperKind = OperKind::Optional;

    open spec fn oper() -> OperKind {
        OperKind::Optional
    }

    proof fn oper_agrees() {
    }
}

} // verus!
