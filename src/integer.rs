//! Integer types: base types and their subtypes.

use crate::any::IntegerTypeId;
use crate::kind::{Type, TypeKind};
use crate::range::{Range, RangeView};
use vstd::prelude::*;

verus! {

/// What every integer type offers: a range of values, the base type it
/// belongs to, and the resolution function of its signals, if any.
///
/// An integer type is scalar, discrete and numeric, and not composite: its
/// classification queries answer as `TypeKind::Integer` does.
pub trait IntegerType {
    /// The range of values.
    spec fn spec_range(&self) -> RangeView;

    /// The base type.
    spec fn spec_base(&self) -> IntegerTypeId;

    /// The resolution function, by an identifier that is carried, not read.
    spec fn spec_resolution(&self) -> Option<usize>;

    /// The range of values this integer can take.
    fn range(&self) -> (r: &Range)
        ensures
            r@ == self.spec_range();

    /// The base type: the type itself for a base type.
    fn base_type(&self) -> (r: IntegerTypeId)
        ensures
            r == self.spec_base();

    /// The resolution function associated with the type.
    fn resolution_func(&self) -> (r: Option<usize>)
        ensures
            r == self.spec_resolution();
}

/// An integer base type, which knows its own handle.
#[derive(Debug)]
pub struct IntegerBasetype {
    id: IntegerTypeId,
    range: Range,
}

impl IntegerBasetype {
    /// The base type with handle `id` and the range of values.
    pub fn new(id: IntegerTypeId, range: Range) -> (r: IntegerBasetype)
        ensures
            r.spec_base() == id,
            r.spec_range() == range@,
            r.spec_resolution() is None,
    {
        IntegerBasetype { id, range }
    }
}

impl IntegerType for IntegerBasetype {
    closed spec fn spec_range(&self) -> RangeView {
        self.range@
    }

    closed spec fn spec_base(&self) -> IntegerTypeId {
        self.id
    }

    open spec fn spec_resolution(&self) -> Option<usize> {
        None
    }

    fn range(&self) -> (r: &Range) {
        &self.range
    }

    fn base_type(&self) -> (r: IntegerTypeId) {
        self.id
    }

    fn resolution_func(&self) -> (r: Option<usize>) {
        None
    }
}

/// An integer subtype: a range of values within a base type, and perhaps a
/// resolution function.
#[derive(Debug)]
pub struct IntegerSubtype {
    base: IntegerTypeId,
    range: Range,
    resolution: Option<usize>,
}

impl IntegerSubtype {
    /// The subtype of `base` with the range of values and resolution function.
    pub fn new(base: IntegerTypeId, range: Range, resolution: Option<usize>) -> (r: IntegerSubtype)
        ensures
            r.spec_base() == base,
            r.spec_range() == range@,
            r.spec_resolution() == resolution,
    {
        IntegerSubtype { base, range, resolution }
    }
}

impl IntegerType for IntegerSubtype {
    closed spec fn spec_range(&self) -> RangeView {
        self.range@
    }

    closed spec fn spec_base(&self) -> IntegerTypeId {
        self.base
    }

    closed spec fn spec_resolution(&self) -> Option<usize> {
        self.resolution
    }

    fn range(&self) -> (r: &Range) {
        &self.range
    }

    fn base_type(&self) -> (r: IntegerTypeId) {
        self.base
    }

    fn resolution_func(&self) -> (r: Option<usize>) {
        self.resolution
    }
}

impl Type for IntegerBasetype {
    open spec fn type_kind(&self) -> TypeKind {
        TypeKind::Integer
    }

    fn is_scalar(&self) -> (r: bool) {
        TypeKind::Integer.is_scalar()
    }

    fn is_discrete(&self) -> (r: bool) {
        TypeKind::Integer.is_discrete()
    }

    fn is_numeric(&self) -> (r: bool) {
        TypeKind::Integer.is_numeric()
    }

    fn is_composite(&self) -> (r: bool) {
        TypeKind::Integer.is_composite()
    }
}

impl Type for IntegerSubtype {
    open spec fn type_kind(&self) -> TypeKind {
        TypeKind::Integer
    }

    fn is_scalar(&self) -> (r: bool) {
        TypeKind::Integer.is_scalar()
    }

    fn is_discrete(&self) -> (r: bool) {
        TypeKind::Integer.is_discrete()
    }

    fn is_numeric(&self) -> (r: bool) {
        TypeKind::Integer.is_numeric()
    }

    fn is_composite(&self) -> (r: bool) {
        TypeKind::Integer.is_composite()
    }
}

} // verus!
