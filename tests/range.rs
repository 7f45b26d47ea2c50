use moore_types::bigint::BigInt;
use moore_types::range::{Range, RangeDir};

fn big(v: i64) -> BigInt {
    BigInt::from_i64(v)
}

#[test]
fn ascending_range_bounds_and_text() {
    let r = Range::ascending(big(0), big(42));
    assert_eq!(r.dir(), RangeDir::To);
    assert_eq!(r.left().render(), "0");
    assert_eq!(r.right().render(), "42");
    assert_eq!(r.lower().render(), "0");
    assert_eq!(r.upper().render(), "42");
    assert_eq!(r.len().render(), "43");
    assert!(!r.is_null());
    assert_eq!(r.render(), "0 to 42");
}

#[test]
fn descending_range_bounds_and_text() {
    let r = Range::descending(big(42), big(0));
    assert_eq!(r.dir(), RangeDir::Downto);
    assert_eq!(r.left().render(), "42");
    assert_eq!(r.right().render(), "0");
    assert_eq!(r.lower().render(), "0");
    assert_eq!(r.upper().render(), "42");
    assert_eq!(r.len().render(), "43");
    assert_eq!(r.render(), "42 downto 0");
}

#[test]
fn ascending_range_with_bounds_swapped_is_null() {
    let r = Range::ascending(big(42), big(0));
    assert!(r.is_null());
    assert_eq!(r.len().render(), "-41");
}

#[test]
fn single_value_range_is_null() {
    let r = Range::ascending(big(5), big(5));
    assert!(r.is_null());
    assert_eq!(r.len().render(), "1");
}

#[test]
fn subranges_ignore_direction() {
    let a = Range::ascending(big(0), big(42));
    let b = Range::ascending(big(4), big(16));
    let c = Range::descending(big(16), big(4));
    assert!(a.has_subrange(&b));
    assert!(a.has_subrange(&c));
    assert!(!b.has_subrange(&a));
    assert!(!c.has_subrange(&a));
    assert!(b.has_subrange(&c));
    assert!(c.has_subrange(&b));
}

#[test]
fn with_left_right_keeps_the_sides() {
    let a = Range::with_left_right(RangeDir::To, big(0), big(42));
    let b = Range::with_left_right(RangeDir::Downto, big(42), big(0));
    assert_eq!(a.render(), "0 to 42");
    assert_eq!(b.render(), "42 downto 0");
}

#[test]
fn with_lower_upper_swaps_a_descending_range() {
    let a = Range::with_lower_upper(RangeDir::To, big(0), big(42));
    let b = Range::with_lower_upper(RangeDir::Downto, big(0), big(42));
    assert_eq!(a.render(), "0 to 42");
    assert_eq!(b.render(), "42 downto 0");
    assert_eq!(b.left().render(), "42");
    assert_eq!(b.lower().render(), "0");
}

#[test]
fn negative_bounds_render_with_a_sign() {
    let r = Range::descending(big(-3), big(-10));
    assert_eq!(r.render(), "-3 downto -10");
    assert_eq!(r.len().render(), "8");
}

#[test]
fn big_integers_beyond_a_machine_word() {
    let max = big(i64::MAX);
    let sum = max.add(&max);
    assert_eq!(sum.render(), "18446744073709551614");
    let back = sum.sub(&max);
    assert_eq!(back.render(), "9223372036854775807");
    let min = big(i64::MIN);
    assert_eq!(min.sub(&big(1)).render(), "-9223372036854775809");
    assert!(min.le(&max));
    assert!(!sum.le(&max));
    assert!(max.le(&max));
}

#[test]
fn direction_keywords() {
    assert_eq!(RangeDir::To.render(), "to");
    assert_eq!(RangeDir::Downto.render(), "downto");
}
