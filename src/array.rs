//! Array types.

use crate::any::AnyType;
use crate::kind::{Type, TypeKind};
use vstd::prelude::*;
use vstd::string::StringExecFns;

verus! {

/// An array type: its index subtypes, in order, and its element subtype, each
/// a view of a type in the arena.
#[derive(Debug)]
pub struct ArrayType {
    indices: Vec<AnyType>,
    element: AnyType,
}

impl ArrayType {
    /// The index subtypes.
    pub closed spec fn spec_indices(&self) -> Seq<AnyType> {
        self.indices@
    }

    /// The element subtype.
    pub closed spec fn spec_element(&self) -> AnyType {
        self.element
    }

    /// An array type of the index subtypes, in order, and the element subtype.
    pub fn new(indices: Vec<AnyType>, element: AnyType) -> (r: ArrayType)
        ensures
            r.spec_indices() == indices@,
            r.spec_element() == element,
    {
        ArrayType { indices, element }
    }

    /// The index subtypes, in order.
    pub fn indices(&self) -> (r: &[AnyType])
        ensures
            r@ == self.spec_indices(),
    {
        self.indices.as_slice()
    }

    /// The element subtype.
    pub fn element(&self) -> (r: AnyType)
        ensures
            r == self.spec_element(),
    {
        self.element
    }

    /// The text `array`.
    pub fn render(&self) -> (r: String)
        ensures
            r@ == "array"@,
    {
        String::from_str("array")
    }
}

impl Type for ArrayType {
    open spec fn type_kind(&self) -> TypeKind {
        TypeKind::Array
    }

    fn is_scalar(&self) -> (r: bool) {
        false
    }

    fn is_discrete(&self) -> (r: bool) {
        false
    }

    fn is_numeric(&self) -> (r: bool) {
        false
    }

    fn is_composite(&self) -> (r: bool) {
        true
    }
}

} // verus!
