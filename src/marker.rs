//! The marker types, which hold no state.

use crate::any::AnyType;
use crate::kind::{Type, TypeKind};
use vstd::prelude::*;
use vstd::string::StringExecFns;

verus! {

/// The type that a null array or range degenerates into: neither scalar,
/// discrete, numeric nor composite.
#[derive(Clone, Copy, Debug)]
pub struct NullType;

/// The integer type of an integer literal whose type is not yet known.
#[derive(Clone, Copy, Debug)]
pub struct UniversalIntegerType;

/// The floating-point type of a real literal whose type is not yet known.
#[derive(Clone, Copy, Debug)]
pub struct UniversalRealType;

impl NullType {
    /// The view of this marker.
    pub fn as_any(&self) -> (r: AnyType)
        ensures
            r == AnyType::Null,
    {
        AnyType::Null
    }

    /// The text `null`.
    pub fn render(&self) -> (r: String)
        ensures
            r@ == "null"@,
    {
        String::from_str("null")
    }
}

impl UniversalIntegerType {
    /// The view of this marker.
    pub fn as_any(&self) -> (r: AnyType)
        ensures
            r == AnyType::UniversalInteger,
    {
        AnyType::UniversalInteger
    }

    /// The text `{universal integer}`.
    pub fn render(&self) -> (r: String)
        ensures
            r@ == "{universal integer}"@,
    {
        String::from_str("{universal integer}")
    }
}

impl UniversalRealType {
    /// The view of this marker.
    pub fn as_any(&self) -> (r: AnyType)
        ensures
            r == AnyType::UniversalReal,
    {
        AnyType::UniversalReal
    }

    /// The text `{universal real}`.
    pub fn render(&self) -> (r: String)
        ensures
            r@ == "{universal real}"@,
    {
        String::from_str("{universal real}")
    }
}

impl Type for NullType {
    open spec fn type_kind(&self) -> TypeKind {
        TypeKind::Null
    }

    fn is_scalar(&self) -> (r: bool) {
        false
    }

    fn is_discrete(&self) -> (r: bool) {
        false
    }

    fn is_numeric(&self) -> (r: bool) {
        false
    }

    fn is_composite(&self) -> (r: bool) {
        false
    }
}

impl Type for UniversalIntegerType {
    open spec fn type_kind(&self) -> TypeKind {
        TypeKind::UniversalInteger
    }

    fn is_scalar(&self) -> (r: bool) {
        true
    }

    fn is_discrete(&self) -> (r: bool) {
        true
    }

    fn is_numeric(&self) -> (r: bool) {
        true
    }

    fn is_composite(&self) -> (r: bool) {
        false
    }
}

impl Type for UniversalRealType {
    open spec fn type_kind(&self) -> TypeKind {
        TypeKind::UniversalReal
    }

    fn is_scalar(&self) -> (r: bool) {
        true
    }

    fn is_discrete(&self) -> (r: bool) {
        false
    }

    fn is_numeric(&self) -> (r: bool) {
        true
    }

    fn is_composite(&self) -> (r: bool) {
        false
    }
}

} // verus!
