//! Handles to the concrete types in an arena, and the tagged view over them.

use crate::kind::{Type, TypeKind};
use vstd::prelude::*;

verus! {

/// A handle to an enumeration type in the arena.
#[derive(Clone, Copy, PartialEq, Eq, Structural, Debug, Hash)]
pub struct EnumTypeId(pub usize);

/// A handle to an integer type (a base type or a subtype) in the arena.
#[derive(Clone, Copy, PartialEq, Eq, Structural, Debug, Hash)]
pub struct IntegerTypeId(pub usize);

/// A handle to a floating-point type in the arena.
#[derive(Clone, Copy, PartialEq, Eq, Structural, Debug, Hash)]
pub struct FloatingTypeId(pub usize);

/// A handle to a physical type in the arena.
#[derive(Clone, Copy, PartialEq, Eq, Structural, Debug, Hash)]
pub struct PhysicalTypeId(pub usize);

/// A handle to an array type in the arena.
#[derive(Clone, Copy, PartialEq, Eq, Structural, Debug, Hash)]
pub struct ArrayTypeId(pub usize);

/// A type of any kind: a handle to a concrete type, tagged with its kind, or
/// one of the marker types, which hold no state.
#[derive(Clone, Copy, PartialEq, Eq, Structural, Debug, Hash)]
pub enum AnyType {
    Enum(EnumTypeId),
    Integer(IntegerTypeId),
    Floating(FloatingTypeId),
    Physical(PhysicalTypeId),
    Array(ArrayTypeId),
    Null,
    UniversalInteger,
    UniversalReal,
}

impl AnyType {
    /// The enumeration handle, if the tag is `Enum`.
    pub open spec fn enum_id(self) -> Option<EnumTypeId> {
        match self {
            AnyType::Enum(t) => Some(t),
            _ => None,
        }
    }

    /// The integer handle, if the tag is `Integer`.
    pub open spec fn integer_id(self) -> Option<IntegerTypeId> {
        match self {
            AnyType::Integer(t) => Some(t),
            _ => None,
        }
    }

    /// The floating-point handle, if the tag is `Floating`.
    pub open spec fn floating_id(self) -> Option<FloatingTypeId> {
        match self {
            AnyType::Floating(t) => Some(t),
            _ => None,
        }
    }

    /// The physical handle, if the tag is `Physical`.
    pub open spec fn physical_id(self) -> Option<PhysicalTypeId> {
        match self {
            AnyType::Physical(t) => Some(t),
            _ => None,
        }
    }

    /// The array handle, if the tag is `Array`.
    pub open spec fn array_id(self) -> Option<ArrayTypeId> {
        match self {
            AnyType::Array(t) => Some(t),
            _ => None,
        }
    }

    /// The kind of this type.
    pub fn kind(self) -> (r: TypeKind)
        ensures
            r == self.type_kind(),
    {
        match self {
            AnyType::Enum(_) => TypeKind::Enum,
            AnyType::Integer(_) => TypeKind::Integer,
            AnyType::Floating(_) => TypeKind::Floating,
            AnyType::Physical(_) => TypeKind::Physical,
            AnyType::Array(_) => TypeKind::Array,
            AnyType::Null => TypeKind::Null,
            AnyType::UniversalInteger => TypeKind::UniversalInteger,
            AnyType::UniversalReal => TypeKind::UniversalReal,
        }
    }

    /// The view itself: a view is already a view.
    pub fn as_any(&self) -> (r: AnyType)
        ensures
            r == *self,
    {
        *self
    }

    /// `Some(t)` if the type is `Enum(t)`, `None` otherwise.
    pub fn as_enum(self) -> (r: Option<EnumTypeId>)
        ensures
            r == self.enum_id(),
    {
        match self {
            AnyType::Enum(t) => Some(t),
            _ => None,
        }
    }

    /// `Some(t)` if the type is `Integer(t)`, `None` otherwise.
    pub fn as_integer(self) -> (r: Option<IntegerTypeId>)
        ensures
            r == self.integer_id(),
    {
        match self {
            AnyType::Integer(t) => Some(t),
            _ => None,
        }
    }

    /// `Some(t)` if the type is `Floating(t)`, `None` otherwise.
    pub fn as_floating(self) -> (r: Option<FloatingTypeId>)
        ensures
            r == self.floating_id(),
    {
        match self {
            AnyType::Floating(t) => Some(t),
            _ => None,
        }
    }

    /// `Some(t)` if the type is `Physical(t)`, `None` otherwise.
    pub fn as_physical(self) -> (r: Option<PhysicalTypeId>)
        ensures
            r == self.physical_id(),
    {
        match self {
            AnyType::Physical(t) => Some(t),
            _ => None,
        }
    }

    /// `Some(t)` if the type is `Array(t)`, `None` otherwise.
    pub fn as_array(self) -> (r: Option<ArrayTypeId>)
        ensures
            r == self.array_id(),
    {
        match self {
            AnyType::Array(t) => Some(t),
            _ => None,
        }
    }

    /// Whether the type is `Null`.
    pub fn is_null(self) -> (r: bool)
        ensures
            r == (self is Null),
    {
        match self {
            AnyType::Null => true,
            _ => false,
        }
    }

    /// Whether the type is `UniversalInteger`.
    pub fn is_universal_integer(self) -> (r: bool)
        ensures
            r == (self is UniversalInteger),
    {
        match self {
            AnyType::UniversalInteger => true,
            _ => false,
        }
    }

    /// Whether the type is `UniversalReal`.
    pub fn is_universal_real(self) -> (r: bool)
        ensures
            r == (self is UniversalReal),
    {
        match self {
            AnyType::UniversalReal => true,
            _ => false,
        }
    }

    /// The enumeration handle of a type known to be `Enum`.
    pub fn unwrap_enum(self) -> (r: EnumTypeId)
        requires
            self is Enum,
        ensures
            self == AnyType::Enum(r),
    {
        self.as_enum().unwrap()
    }

    /// The integer handle of a type known to be `Integer`.
    pub fn unwrap_integer(self) -> (r: IntegerTypeId)
        requires
            self is Integer,
        ensures
            self == AnyType::Integer(r),
    {
        self.as_integer().unwrap()
    }

    /// The floating-point handle of a type known to be `Floating`.
    pub fn unwrap_floating(self) -> (r: FloatingTypeId)
        requires
            self is Floating,
        ensures
            self == AnyType::Floating(r),
    {
        self.as_floating().unwrap()
    }

    /// The physical handle of a type known to be `Physical`.
    pub fn unwrap_physical(self) -> (r: PhysicalTypeId)
        requires
            self is Physical,
        ensures
            self == AnyType::Physical(r),
    {
        self.as_physical().unwrap()
    }

    /// The array handle of a type known to be `Array`.
    pub fn unwrap_array(self) -> (r: ArrayTypeId)
        requires
            self is Array,
        ensures
            self == AnyType::Array(r),
    {
        self.as_array().unwrap()
    }
}

impl Type for AnyType {
    open spec fn type_kind(&self) -> TypeKind {
        match *self {
            AnyType::Enum(_) => TypeKind::Enum,
            AnyType::Integer(_) => TypeKind::Integer,
            AnyType::Floating(_) => TypeKind::Floating,
            AnyType::Physical(_) => TypeKind::Physical,
            AnyType::Array(_) => TypeKind::Array,
            AnyType::Null => TypeKind::Null,
            AnyType::UniversalInteger => TypeKind::UniversalInteger,
            AnyType::UniversalReal => TypeKind::UniversalReal,
        }
    }

    fn is_scalar(&self) -> (r: bool) {
        self.kind().is_scalar()
    }

    fn is_discrete(&self) -> (r: bool) {
        self.kind().is_discrete()
    }

    fn is_numeric(&self) -> (r: bool) {
        self.kind().is_numeric()
    }

    fn is_composite(&self) -> (r: bool) {
        self.kind().is_composite()
    }
}

impl EnumTypeId {
    /// The view of the enumeration type behind this handle.
    pub fn as_any(&self) -> (r: AnyType)
        ensures
            r == AnyType::Enum(*self),
    {
        AnyType::Enum(*self)
    }
}

impl IntegerTypeId {
    /// The view of the integer type behind this handle.
    pub fn as_any(&self) -> (r: AnyType)
        ensures
            r == AnyType::Integer(*self),
    {
        AnyType::Integer(*self)
    }
}

impl FloatingTypeId {
    /// The view of the floating-point type behind this handle.
    pub fn as_any(&self) -> (r: AnyType)
        ensures
            r == AnyType::Floating(*self),
    {
        AnyType::Floating(*self)
    }
}

impl PhysicalTypeId {
    /// The view of the physical type behind this handle.
    pub fn as_any(&self) -> (r: AnyType)
        ensures
            r == AnyType::Physical(*self),
    {
        AnyType::Physical(*self)
    }
}

impl ArrayTypeId {
    /// The view of the array type behind this handle.
    pub fn as_any(&self) -> (r: AnyType)
        ensures
            r == AnyType::Array(*self),
    {
        AnyType::Array(*self)
    }
}

/// Taking the view of a handle, then the view of that view, and narrowing it
/// back to its kind gives the handle that was started from; the view of a
/// view is the view itself.
pub proof fn lemma_view_round_trip(
    e: EnumTypeId,
    i: IntegerTypeId,
    f: FloatingTypeId,
    p: PhysicalTypeId,
    a: ArrayTypeId,
)
    ensures
        AnyType::Enum(e).enum_id() == Some(e),
        AnyType::Integer(i).integer_id() == Some(i),
        AnyType::Floating(f).floating_id() == Some(f),
        AnyType::Physical(p).physical_id() == Some(p),
        AnyType::Array(a).array_id() == Some(a),
        AnyType::Enum(e).type_kind() == TypeKind::Enum,
        AnyType::Integer(i).type_kind() == TypeKind::Integer,
        AnyType::Floating(f).type_kind() == TypeKind::Floating,
        AnyType::Physical(p).type_kind() == TypeKind::Physical,
        AnyType::Array(a).type_kind() == TypeKind::Array,
{
}

/// Narrowing a view to a kind other than its own finds nothing: a view of an
/// enumeration is no integer, floating-point, physical or array type.
pub proof fn lemma_enum_view_narrows_to_enum_only(e: EnumTypeId)
    ensures
        AnyType::Enum(e).integer_id() is None,
        AnyType::Enum(e).floating_id() is None,
        AnyType::Enum(e).physical_id() is None,
        AnyType::Enum(e).array_id() is None,
{
}

} // verus!
