//! The four classification queries and the kinds of type they are answered
//! for.

use vstd::prelude::*;

verus! {

/// The kinds of type.
#[derive(Clone, Copy, PartialEq, Eq, Structural, Debug, Hash)]
pub enum TypeKind {
    Enum,
    Integer,
    Floating,
    Physical,
    Array,
    Null,
    UniversalInteger,
    UniversalReal,
}

impl TypeKind {
    /// Enumeration, integer, floating-point, physical and universal types are
    /// scalar.
    pub open spec fn scalar(self) -> bool {
        !(self is Array || self is Null)
    }

    /// Enumeration, integer and universal integer types are discrete.
    pub open spec fn discrete(self) -> bool {
        self is Enum || self is Integer || self is UniversalInteger
    }

    /// Integer, floating-point, physical and universal types are numeric.
    pub open spec fn numeric(self) -> bool {
        self is Integer || self is Floating || self is Physical || self is UniversalInteger
            || self is UniversalReal
    }

    /// Array types are composite.
    pub open spec fn composite(self) -> bool {
        self is Array
    }

    /// Whether the kind is scalar.
    pub fn is_scalar(self) -> (r: bool)
        ensures
            r == self.scalar(),
    {
        match self {
            TypeKind::Array | TypeKind::Null => false,
            _ => true,
        }
    }

    /// Whether the kind is discrete.
    pub fn is_discrete(self) -> (r: bool)
        ensures
            r == self.discrete(),
    {
        match self {
            TypeKind::Enum | TypeKind::Integer | TypeKind::UniversalInteger => true,
            _ => false,
        }
    }

    /// Whether the kind is numeric.
    pub fn is_numeric(self) -> (r: bool)
        ensures
            r == self.numeric(),
    {
        match self {
            TypeKind::Enum | TypeKind::Array | TypeKind::Null => false,
            _ => true,
        }
    }

    /// Whether the kind is composite.
    pub fn is_composite(self) -> (r: bool)
        ensures
            r == self.composite(),
    {
        match self {
            TypeKind::Array => true,
            _ => false,
        }
    }
}

/// The classification queries that every type answers.
pub trait Type {
    /// The kind of this type.
    spec fn type_kind(&self) -> TypeKind;

    /// Whether this is a scalar type.
    fn is_scalar(&self) -> (r: bool)
        ensures
            r == self.type_kind().scalar();

    /// Whether this is a discrete type.
    fn is_discrete(&self) -> (r: bool)
        ensures
            r == self.type_kind().discrete();

    /// Whether this is a numeric type.
    fn is_numeric(&self) -> (r: bool)
        ensures
            r == self.type_kind().numeric();

    /// Whether this is a composite type.
    fn is_composite(&self) -> (r: bool)
        ensures
            r == self.type_kind().composite();
}

/// No type is both scalar and composite.
pub proof fn lemma_scalar_not_composite(k: TypeKind)
    ensures
        !(k.scalar() && k.composite()),
{
}

/// Every discrete type, and every numeric type, is scalar.
pub proof fn lemma_discrete_and_numeric_are_scalar(k: TypeKind)
    ensures
        k.discrete() ==> k.scalar(),
        k.numeric() ==> k.scalar(),
{
}

/// What the queries of any one type answer obeys both rules above.
pub proof fn lemma_type_classification<T: Type>(t: &T)
    ensures
        !(t.type_kind().scalar() && t.type_kind().composite()),
        t.type_kind().discrete() ==> t.type_kind().scalar(),
        t.type_kind().numeric() ==> t.type_kind().scalar(),
{
    lemma_scalar_not_composite(t.type_kind());
    lemma_discrete_and_numeric_are_scalar(t.type_kind());
}

} // verus!
