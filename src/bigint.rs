//! Arbitrary-precision integers, held as two's-complement bytes.

use vstd::arithmetic::power::pow;
use vstd::prelude::*;

verus! {

/// The value of little-endian bytes read as an unsigned number.
pub open spec fn unsigned_value(b: Seq<u8>) -> int
    decreases b.len(),
{
    if b.len() == 0 {
        0
    } else {
        b[0] as int + 256 * unsigned_value(b.drop_first())
    }
}

/// The value of little-endian bytes read in two's complement.
/// No bytes at all stand for zero.
pub open spec fn signed_value(b: Seq<u8>) -> int {
    if b.len() == 0 {
        0
    } else if b.last() >= 128 {
        unsigned_value(b) - pow(256, b.len())
    } else {
        unsigned_value(b)
    }
}

/// The character of a decimal digit.
pub open spec fn digit_char(d: nat) -> char {
    if d == 0 { '0' }
    else if d == 1 { '1' }
    else if d == 2 { '2' }
    else if d == 3 { '3' }
    else if d == 4 { '4' }
    else if d == 5 { '5' }
    else if d == 6 { '6' }
    else if d == 7 { '7' }
    else if d == 8 { '8' }
    else { '9' }
}

/// The decimal digits of a natural number, most significant first, with no
/// leading zeros.
pub open spec fn decimal_digits(n: nat) -> Seq<char>
    decreases n,
{
    if n < 10 {
        seq![digit_char(n)]
    } else {
        decimal_digits(n / 10).push(digit_char(n % 10))
    }
}

/// The decimal text of an integer: its digits, after a `-` when negative.
pub open spec fn decimal_text(i: int) -> Seq<char> {
    if i < 0 {
        seq!['-'] + decimal_digits((-i) as nat)
    } else {
        decimal_digits(i as nat)
    }
}

/// An integer of any size.
#[derive(Debug)]
pub struct BigInt {
    bytes: Vec<u8>,
}

impl View for BigInt {
    type V = int;

    closed spec fn view(&self) -> int {
        signed_value(self.bytes@)
    }
}

/// Relies on num's `BigInt::from(i64)`, read back with `to_signed_bytes_le`.
#[verifier::external_body]
fn num_from_i64(v: i64) -> (r: Vec<u8>)
    ensures
        signed_value(r@) == v as int,
{
    num::BigInt::from(v).to_signed_bytes_le()
}

/// Relies on num's ordering of `BigInt`, each side built with
/// `from_signed_bytes_le`.
#[verifier::external_body]
fn num_le(a: &Vec<u8>, b: &Vec<u8>) -> (r: bool)
    ensures
        r == (signed_value(a@) <= signed_value(b@)),
{
    num::BigInt::from_signed_bytes_le(a) <= num::BigInt::from_signed_bytes_le(b)
}

/// Relies on num's addition of two `BigInt`s.
#[verifier::external_body]
fn num_add(a: &Vec<u8>, b: &Vec<u8>) -> (r: Vec<u8>)
    ensures
        signed_value(r@) == signed_value(a@) + signed_value(b@),
{
    (num::BigInt::from_signed_bytes_le(a) + num::BigInt::from_signed_bytes_le(b)).to_signed_bytes_le()
}

/// Relies on num's subtraction of two `BigInt`s.
#[verifier::external_body]
fn num_sub(a: &Vec<u8>, b: &Vec<u8>) -> (r: Vec<u8>)
    ensures
        signed_value(r@) == signed_value(a@) - signed_value(b@),
{
    (num::BigInt::from_signed_bytes_le(a) - num::BigInt::from_signed_bytes_le(b)).to_signed_bytes_le()
}

/// Relies on num's `Display` for `BigInt`: decimal digits, with a leading `-`
/// for a negative value.
#[verifier::external_body]
fn num_decimal(a: &Vec<u8>) -> (r: String)
    ensures
        r@ == decimal_text(signed_value(a@)),
{
    num::BigInt::from_signed_bytes_le(a).to_string()
}

impl BigInt {
    /// The integer of a machine word.
    pub fn from_i64(v: i64) -> (r: BigInt)
        ensures
            r@ == v as int,
    {
        BigInt { bytes: num_from_i64(v) }
    }

    /// Whether `self` is at most `other`.
    pub fn le(&self, other: &BigInt) -> (r: bool)
        ensures
            r == (self@ <= other@),
    {
        num_le(&self.bytes, &other.bytes)
    }

    /// The sum `self + other`.
    pub fn add(&self, other: &BigInt) -> (r: BigInt)
        ensures
            r@ == self@ + other@,
    {
        BigInt { bytes: num_add(&self.bytes, &other.bytes) }
    }

    /// The difference `self - other`.
    pub fn sub(&self, other: &BigInt) -> (r: BigInt)
        ensures
            r@ == self@ - other@,
    {
        BigInt { bytes: num_sub(&self.bytes, &other.bytes) }
    }

    /// The decimal text of the value.
    pub fn render(&self) -> (r: String)
        ensures
            r@ == decimal_text(self@),
    {
        num_decimal(&self.bytes)
    }
}

} // verus!
