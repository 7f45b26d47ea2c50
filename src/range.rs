//! Directed ranges of integers.

use crate::bigint::{decimal_text, BigInt};
use vstd::prelude::*;
use vstd::string::StringExecFns;

verus! {

/// The direction of a range.
#[derive(Clone, Copy, PartialEq, Eq, Structural, Debug, Hash)]
pub enum RangeDir {
    /// An ascending range.
    To,
    /// A descending range.
    Downto,
}

impl RangeDir {
    /// The keyword of the direction.
    pub open spec fn text(self) -> Seq<char> {
        match self {
            RangeDir::To => "to"@,
            RangeDir::Downto => "downto"@,
        }
    }

    /// The keyword of the direction, `to` or `downto`.
    pub fn render(self) -> (r: String)
        ensures
            r@ == self.text(),
    {
        match self {
            RangeDir::To => String::from_str("to"),
            RangeDir::Downto => String::from_str("downto"),
        }
    }
}

/// The mathematical content of a range: a direction and two bounds.
pub ghost struct RangeView {
    pub dir: RangeDir,
    pub left: int,
    pub right: int,
}

impl RangeView {
    /// The smaller bound, whatever the direction.
    pub open spec fn lower(self) -> int {
        match self.dir {
            RangeDir::To => self.left,
            RangeDir::Downto => self.right,
        }
    }

    /// The larger bound, whatever the direction.
    pub open spec fn upper(self) -> int {
        match self.dir {
            RangeDir::To => self.right,
            RangeDir::Downto => self.left,
        }
    }

    /// A null range holds at most one value: its lower bound is not below its
    /// upper bound.
    pub open spec fn is_null(self) -> bool {
        self.lower() >= self.upper()
    }

    /// The number of values, `upper - lower + 1`; at most zero for an empty
    /// range.
    pub open spec fn len(self) -> int {
        self.upper() + 1 - self.lower()
    }

    /// Whether `sub` lies within these bounds, whatever the two directions.
    pub open spec fn has_subrange(self, sub: RangeView) -> bool {
        self.lower() <= sub.lower() && self.upper() >= sub.upper()
    }

    /// `{left} {to|downto} {right}`.
    pub open spec fn text(self) -> Seq<char> {
        decimal_text(self.left) + " "@ + self.dir.text() + " "@ + decimal_text(self.right)
    }
}

/// A directed range of integers.
///
/// No order is asked of the bounds: a lower bound above the upper one makes a
/// null range.
#[derive(Debug)]
pub struct Range {
    dir: RangeDir,
    left: BigInt,
    right: BigInt,
}

impl View for Range {
    type V = RangeView;

    closed spec fn view(&self) -> RangeView {
        RangeView { dir: self.dir, left: self.left@, right: self.right@ }
    }
}

impl Range {
    /// A range from its direction and its left and right bounds.
    pub fn with_left_right(dir: RangeDir, left: BigInt, right: BigInt) -> (r: Range)
        ensures
            r@ == (RangeView { dir, left: left@, right: right@ }),
    {
        Range { dir, left, right }
    }

    /// A range from its direction and its lower and upper bounds; a descending
    /// range has its upper bound on the left.
    pub fn with_lower_upper(dir: RangeDir, lower: BigInt, upper: BigInt) -> (r: Range)
        ensures
            r@.dir == dir,
            r@.lower() == lower@,
            r@.upper() == upper@,
    {
        match dir {
            RangeDir::To => Range { dir, left: lower, right: upper },
            RangeDir::Downto => Range { dir, left: upper, right: lower },
        }
    }

    /// The ascending range `left to right`.
    pub fn ascending(left: BigInt, right: BigInt) -> (r: Range)
        ensures
            r@ == (RangeView { dir: RangeDir::To, left: left@, right: right@ }),
    {
        Range { dir: RangeDir::To, left, right }
    }

    /// The descending range `left downto right`.
    pub fn descending(left: BigInt, right: BigInt) -> (r: Range)
        ensures
            r@ == (RangeView { dir: RangeDir::Downto, left: left@, right: right@ }),
    {
        Range { dir: RangeDir::Downto, left, right }
    }

    /// The direction.
    pub fn dir(&self) -> (r: RangeDir)
        ensures
            r == self@.dir,
    {
        self.dir
    }

    /// The left bound.
    pub fn left(&self) -> (r: &BigInt)
        ensures
            r@ == self@.left,
    {
        &self.left
    }

    /// The right bound.
    pub fn right(&self) -> (r: &BigInt)
        ensures
            r@ == self@.right,
    {
        &self.right
    }

    /// The lower bound: the left one of an ascending range, the right one of a
    /// descending range.
    pub fn lower(&self) -> (r: &BigInt)
        ensures
            r@ == self@.lower(),
    {
        match self.dir {
            RangeDir::To => &self.left,
            RangeDir::Downto => &self.right,
        }
    }

    /// The upper bound: the right one of an ascending range, the left one of a
    /// descending range.
    pub fn upper(&self) -> (r: &BigInt)
        ensures
            r@ == self@.upper(),
    {
        match self.dir {
            RangeDir::To => &self.right,
            RangeDir::Downto => &self.left,
        }
    }

    /// Whether this is a null range.
    pub fn is_null(&self) -> (r: bool)
        ensures
            r == self@.is_null(),
    {
        self.upper().le(self.lower())
    }

    /// The length `upper - lower + 1`, which is negative or zero for a null
    /// range that holds no value.
    pub fn len(&self) -> (r: BigInt)
        ensures
            r@ == self@.len(),
    {
        let one = BigInt::from_i64(1);
        self.upper().add(&one).sub(self.lower())
    }

    /// Whether `subrange` lies within this range: its lower bound is not
    /// below ours, its upper bound not above ours.
    pub fn has_subrange(&self, subrange: &Range) -> (r: bool)
        ensures
            r == self@.has_subrange(subrange@),
    {
        self.lower().le(subrange.lower()) && subrange.upper().le(self.upper())
    }

    /// The text `{left} {to|downto} {right}`.
    pub fn render(&self) -> (r: String)
        ensures
            r@ == self@.text(),
    {
        let mut s = self.left.render();
        s.append(" ");
        let d = self.dir.render();
        s.append(d.as_str());
        s.append(" ");
        let right = self.right.render();
        s.append(right.as_str());
        s
    }
}

} // verus!
