//! Physical types: integer multiples of a primary unit.

use crate::bigint::BigInt;
use crate::kind::{Type, TypeKind};
use crate::range::{Range, RangeView};
use crate::text::{joined, lemma_joined_push};
use vstd::prelude::*;
use vstd::string::StringExecFns;

verus! {

/// A unit of a physical type.
#[derive(Debug)]
pub struct PhysicalUnit {
    /// The name of the unit.
    pub name: String,
    /// The scale of the unit with respect to the type's primary unit.
    pub abs: BigInt,
    /// The scale of the unit with respect to another unit of the same type,
    /// and that unit's position; none for the primary unit.
    pub rel: Option<(BigInt, usize)>,
}

impl PhysicalUnit {
    /// A primary unit: no link to another unit.
    pub fn primary(name: String, abs: BigInt) -> (r: PhysicalUnit)
        ensures
            r.name@ == name@,
            r.abs@ == abs@,
            r.rel is None,
    {
        PhysicalUnit { name, abs, rel: None }
    }

    /// A secondary unit: `rel` times the unit at position `rel_to`, and `abs`
    /// times the primary unit.
    pub fn secondary(name: String, abs: BigInt, rel: BigInt, rel_to: usize) -> (r: PhysicalUnit)
        ensures
            r.name@ == name@,
            r.abs@ == abs@,
            r.rel matches Some((scale, to)) && scale@ == rel@ && to == rel_to,
    {
        PhysicalUnit { name, abs, rel: Some((rel, rel_to)) }
    }
}

/// The names of units.
pub open spec fn unit_names(units: Seq<PhysicalUnit>) -> Seq<Seq<char>> {
    units.map_values(|u: PhysicalUnit| u.name@)
}

/// A physical type: a range of multiples of its primary unit, and its units.
#[derive(Debug)]
pub struct PhysicalType {
    range: Range,
    units: Vec<PhysicalUnit>,
    primary: usize,
}

impl PhysicalType {
    /// The range of multiples of the primary unit.
    pub closed spec fn spec_range(&self) -> RangeView {
        self.range@
    }

    /// The units, in order.
    pub closed spec fn spec_units(&self) -> Seq<PhysicalUnit> {
        self.units@
    }

    /// The position of the primary unit.
    pub closed spec fn spec_primary(&self) -> usize {
        self.primary
    }

    /// `{range} units ({u1, u2, ...})`.
    pub open spec fn text(&self) -> Seq<char> {
        self.spec_range().text() + " units ("@ + joined(unit_names(self.spec_units())) + ")"@
    }

    /// A physical type of the range, the units in order, and the position of
    /// the primary unit.
    pub fn new(range: Range, units: Vec<PhysicalUnit>, primary: usize) -> (r: PhysicalType)
        ensures
            r.spec_range() == range@,
            r.spec_units() == units@,
            r.spec_primary() == primary,
    {
        PhysicalType { range, units, primary }
    }

    /// The range of multiples of the primary unit.
    pub fn range(&self) -> (r: &Range)
        ensures
            r@ == self.spec_range(),
    {
        &self.range
    }

    /// The units, in order.
    pub fn units(&self) -> (r: &[PhysicalUnit])
        ensures
            r@ == self.spec_units(),
    {
        self.units.as_slice()
    }

    /// The position of the primary unit.
    pub fn primary_index(&self) -> (r: usize)
        ensures
            r == self.spec_primary(),
    {
        self.primary
    }

    /// The unit at the primary position exists, has scale one and no link to
    /// another unit.
    pub open spec fn primary_is_unit(&self) -> bool {
        let p = self.spec_primary() as int;
        p < self.spec_units().len() && self.spec_units()[p].abs@ == 1
            && self.spec_units()[p].rel is None
    }

    /// Whether the primary unit is as a physical type asks: present, of scale
    /// one, and linked to no other unit. The constructor leaves this to its
    /// caller.
    pub fn has_valid_primary(&self) -> (r: bool)
        ensures
            r == self.primary_is_unit(),
    {
        if self.primary >= self.units.len() {
            return false;
        }
        let unit = &self.units[self.primary];
        let one = BigInt::from_i64(1);
        unit.abs.le(&one) && one.le(&unit.abs) && unit.rel.is_none()
    }

    /// The text `{range} units ({u1, u2, ...})`.
    pub fn render(&self) -> (r: String)
        ensures
            r@ == self.text(),
    {
        let mut s = self.range.render();
        s.append(" units (");
        let ghost head = s@;
        let mut i: usize = 0;
        while i < self.units.len()
            invariant
                i <= self.spec_units().len(),
                head == self.spec_range().text() + " units ("@,
                s@ == head + joined(unit_names(self.spec_units().take(i as int))),
            decreases self.spec_units().len() - i,
        {
            if i > 0 {
                s.append(", ");
            }
            s.append(self.units[i].name.as_str());
            proof {
                let us = self.spec_units();
                let prev = unit_names(us.take(i as int));
                assert(unit_names(us.take(i + 1)) =~= prev.push(us[i as int].name@));
                lemma_joined_push(prev, us[i as int].name@);
                assert(s@ =~= head + joined(unit_names(us.take(i + 1))));
            }
            i = i + 1;
        }
        s.append(")");
        assert(self.spec_units().take(self.spec_units().len() as int) =~= self.spec_units());
        s
    }
}

impl Type for PhysicalType {
    open spec fn type_kind(&self) -> TypeKind {
        TypeKind::Physical
    }

    fn is_scalar(&self) -> (r: bool) {
        true
    }

    fn is_discrete(&self) -> (r: bool) {
        false
    }

    fn is_numeric(&self) -> (r: bool) {
        true
    }

    fn is_composite(&self) -> (r: bool) {
        false
    }
}

} // verus!
