use moore_types::any::{AnyType, ArrayTypeId, EnumTypeId, FloatingTypeId, IntegerTypeId, PhysicalTypeId};
use moore_types::array::ArrayType;
use moore_types::bigint::BigInt;
use moore_types::enumeration::{EnumLiteral, EnumType};
use moore_types::integer::{IntegerBasetype, IntegerSubtype, IntegerType};
use moore_types::kind::{Type, TypeKind};
use moore_types::marker::{NullType, UniversalIntegerType, UniversalRealType};
use moore_types::physical::{PhysicalType, PhysicalUnit};
use moore_types::range::Range;

fn big(v: i64) -> BigInt {
    BigInt::from_i64(v)
}

fn classes<T: Type>(t: &T) -> [bool; 4] {
    [t.is_scalar(), t.is_discrete(), t.is_numeric(), t.is_composite()]
}

fn sample_enum() -> EnumType {
    EnumType::new(vec![
        EnumLiteral::Ident("first".to_string()),
        EnumLiteral::Ident("second".to_string()),
        EnumLiteral::Char('0'),
        EnumLiteral::Char('1'),
    ])
}

#[test]
fn enumeration_literals_and_text() {
    let ty = sample_enum();
    assert_eq!(ty.len(), 4);
    assert_eq!(ty.literal(0).render(), "first");
    assert_eq!(ty.literal(2).render(), "'0'");
    assert_eq!(ty.literals().len(), 4);
    assert_eq!(ty.render(), "(first, second, '0', '1')");
    assert_eq!(classes(&ty), [true, true, false, false]);
}

#[test]
fn empty_enumeration_text() {
    let ty = EnumType::new(vec![]);
    assert_eq!(ty.len(), 0);
    assert_eq!(ty.render(), "()");
}

#[test]
fn physical_type_text_and_units() {
    let ty = PhysicalType::new(
        Range::ascending(big(0), big(1_000_000)),
        vec![
            PhysicalUnit::primary("fs".to_string(), big(1)),
            PhysicalUnit::secondary("ps".to_string(), big(1_000), big(1000), 0),
            PhysicalUnit::secondary("ns".to_string(), big(1_000_000), big(1000), 1),
        ],
        0,
    );
    assert_eq!(ty.render(), "0 to 1000000 units (fs, ps, ns)");
    assert_eq!(ty.primary_index(), 0);
    assert_eq!(ty.units().len(), 3);
    assert_eq!(ty.units()[2].abs.render(), "1000000");
    assert_eq!(ty.range().render(), "0 to 1000000");
    assert_eq!(classes(&ty), [true, false, true, false]);
}

#[test]
fn physical_units_primary_and_secondary() {
    let p = PhysicalUnit::primary("fs".to_string(), big(1));
    assert_eq!(p.name, "fs");
    assert_eq!(p.abs.render(), "1");
    assert!(p.rel.is_none());
    let s = PhysicalUnit::secondary("ps".to_string(), big(1), big(1000), 0);
    let (scale, to) = s.rel.as_ref().unwrap();
    assert_eq!(scale.render(), "1000");
    assert_eq!(*to, 0);
}

#[test]
fn null_type_answers_no() {
    assert_eq!(classes(&NullType), [false, false, false, false]);
    assert_eq!(NullType.render(), "null");
    assert_eq!(NullType.as_any(), AnyType::Null);
}

#[test]
fn universal_integer_type_answers() {
    assert_eq!(classes(&UniversalIntegerType), [true, true, true, false]);
    assert_eq!(UniversalIntegerType.render(), "{universal integer}");
    assert_eq!(UniversalIntegerType.as_any(), AnyType::UniversalInteger);
}

#[test]
fn universal_real_type_answers() {
    assert_eq!(classes(&UniversalRealType), [true, false, true, false]);
    assert_eq!(UniversalRealType.render(), "{universal real}");
    assert_eq!(UniversalRealType.as_any(), AnyType::UniversalReal);
}

#[test]
fn array_type_is_composite_only() {
    let ty = ArrayType::new(vec![AnyType::Integer(IntegerTypeId(1))], AnyType::Enum(EnumTypeId(0)));
    assert_eq!(classes(&ty), [false, false, false, true]);
    assert_eq!(ty.render(), "array");
    assert_eq!(ty.indices(), &[AnyType::Integer(IntegerTypeId(1))]);
    assert_eq!(ty.element(), AnyType::Enum(EnumTypeId(0)));
}

#[test]
fn integer_types_share_their_classification() {
    let base = IntegerBasetype::new(IntegerTypeId(3), Range::ascending(big(-128), big(127)));
    let sub = IntegerSubtype::new(IntegerTypeId(3), Range::ascending(big(0), big(7)), Some(9));
    assert_eq!(classes(&base), [true, true, true, false]);
    assert_eq!(classes(&sub), [true, true, true, false]);
    assert_eq!(base.base_type(), IntegerTypeId(3));
    assert_eq!(sub.base_type(), IntegerTypeId(3));
    assert_eq!(base.resolution_func(), None);
    assert_eq!(sub.resolution_func(), Some(9));
    assert_eq!(base.range().render(), "-128 to 127");
    assert!(base.range().has_subrange(sub.range()));
}

#[test]
fn every_kind_obeys_the_classification_rules() {
    let views = [
        AnyType::Enum(EnumTypeId(0)),
        AnyType::Integer(IntegerTypeId(0)),
        AnyType::Floating(FloatingTypeId(0)),
        AnyType::Physical(PhysicalTypeId(0)),
        AnyType::Array(ArrayTypeId(0)),
        AnyType::Null,
        AnyType::UniversalInteger,
        AnyType::UniversalReal,
    ];
    for v in views.iter() {
        assert!(!(v.is_scalar() && v.is_composite()));
        assert!(!v.is_discrete() || v.is_scalar());
        assert!(!v.is_numeric() || v.is_scalar());
        let k = v.kind();
        assert_eq!(k.is_scalar(), v.is_scalar());
    }
    assert_eq!(AnyType::Floating(FloatingTypeId(0)).kind(), TypeKind::Floating);
    assert_eq!(classes(&AnyType::Floating(FloatingTypeId(0))), [true, false, true, false]);
    assert_eq!(classes(&AnyType::Enum(EnumTypeId(0))), [true, true, false, false]);
}

#[test]
fn views_round_trip_to_the_same_handle() {
    let e = EnumTypeId(7);
    assert_eq!(e.as_any().as_any(), AnyType::Enum(e));
    assert_eq!(e.as_any().as_any().as_enum(), Some(e));
    assert_eq!(e.as_any().unwrap_enum(), e);
    let i = IntegerTypeId(8);
    assert_eq!(i.as_any().as_any().as_integer(), Some(i));
    assert_eq!(i.as_any().unwrap_integer(), i);
    let f = FloatingTypeId(9);
    assert_eq!(f.as_any().as_any().as_floating(), Some(f));
    assert_eq!(f.as_any().unwrap_floating(), f);
    let p = PhysicalTypeId(10);
    assert_eq!(p.as_any().as_any().as_physical(), Some(p));
    assert_eq!(p.as_any().unwrap_physical(), p);
    let a = ArrayTypeId(11);
    assert_eq!(a.as_any().as_any().as_array(), Some(a));
    assert_eq!(a.as_any().unwrap_array(), a);
    assert_eq!(AnyType::Null.as_any(), AnyType::Null);
}

#[test]
fn enum_view_does_not_narrow_to_integer() {
    let v = EnumTypeId(0).as_any();
    assert_eq!(v.as_integer(), None);
    assert_eq!(v.as_floating(), None);
    assert_eq!(v.as_physical(), None);
    assert_eq!(v.as_array(), None);
    assert!(!v.is_null());
    assert!(!v.is_universal_integer());
    assert!(!v.is_universal_real());
    assert!(AnyType::Null.is_null());
    assert!(AnyType::UniversalInteger.is_universal_integer());
    assert!(AnyType::UniversalReal.is_universal_real());
}

#[test]
fn physical_primary_unit_convention() {
    let units = || {
        vec![
            PhysicalUnit::primary("fs".to_string(), big(1)),
            PhysicalUnit::secondary("ps".to_string(), big(1_000), big(1000), 0),
        ]
    };
    let good = PhysicalType::new(Range::ascending(big(0), big(10)), units(), 0);
    assert!(good.has_valid_primary());
    let secondary = PhysicalType::new(Range::ascending(big(0), big(10)), units(), 1);
    assert!(!secondary.has_valid_primary());
    let missing = PhysicalType::new(Range::ascending(big(0), big(10)), units(), 2);
    assert!(!missing.has_valid_primary());
    let scaled = PhysicalType::new(
        Range::ascending(big(0), big(10)),
        vec![PhysicalUnit::primary("fs".to_string(), big(2))],
        0,
    );
    assert!(!scaled.has_valid_primary());
}
