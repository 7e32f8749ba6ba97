//! Sizes and the limits that a parent sets on a child's size, in whole
//! display units.

use vstd::prelude::*;

verus! {

/// A length along one axis: a number of units, or no bound at all.
#[derive(Clone, Copy, Debug, PartialEq, Eq)]
pub enum Extent {
    Units(u32),
    Unbounded,
}

impl Extent {
    /// The place of the length in the order of all lengths: its units, and
    /// for the unbounded one a number above every `u32`.
    pub open spec fn rank(self) -> int {
        match self {
            Extent::Units(n) => n as int,
            Extent::Unbounded => u32::MAX + 1,
        }
    }

    /// The length clamped to lie between `low` and `high`: raised to `low`
    /// first, then cut to `high`, so that `high` wins where the two cross.
    pub open spec fn spec_clamp(self, low: Extent, high: Extent) -> Extent {
        let raised = if self.rank() < low.rank() {
            low
        } else {
            self
        };
        if high.rank() < raised.rank() {
            high
        } else {
            raised
        }
    }

    /// Whether the length is at most `other`.
    pub fn le(self, other: Extent) -> (le: bool)
        ensures
            le == (self.rank() <= other.rank()),
    {
        match (self, other) {
            (Extent::Units(a), Extent::Units(b)) => a <= b,
            (_, Extent::Unbounded) => true,
            (Extent::Unbounded, Extent::Units(_)) => false,
        }
    }

    /// The length clamped to lie between `low` and `high`.
    pub fn clamp(self, low: Extent, high: Extent) -> (clamped: Extent)
        ensures
            clamped == self.spec_clamp(low, high),
            low.rank() <= high.rank() ==> low.rank() <= clamped.rank() <= high.rank(),
    {
        let raised = if low.le(self) {
            self
        } else {
            low
        };
        if raised.le(high) {
            raised
        } else {
            high
        }
    }
}

/// A width and a height.
#[derive(Clone, Copy, Debug, PartialEq, Eq)]
pub struct Size {
    pub width: Extent,
    pub height: Extent,
}

impl Size {
    /// The size of `width` by `height` units.
    pub fn new(width: u32, height: u32) -> (size: Size)
        ensures
            size == (Size { width: Extent::Units(width), height: Extent::Units(height) }),
    {
        Size { width: Extent::Units(width), height: Extent::Units(height) }
    }

    /// The size of nothing: zero by zero.
    pub open spec fn spec_zero() -> Size {
        Size { width: Extent::Units(0), height: Extent::Units(0) }
    }

    /// The size of nothing: zero by zero.
    pub fn zero() -> (size: Size)
        ensures
            size == Self::spec_zero(),
    {
        Size::new(0, 0)
    }
}

/// The smallest and the largest size that a parent allows a child.
#[derive(Clone, Copy, Debug, PartialEq, Eq)]
pub struct BoxConstraints {
    pub min: Size,
    pub max: Size,
}

impl BoxConstraints {
    /// The limits from `min` to `max`.
    pub fn new(min: Size, max: Size) -> (bc: BoxConstraints)
        ensures
            bc == (BoxConstraints { min, max }),
    {
        BoxConstraints { min, max }
    }

    /// `size` brought within the limits, each axis by itself.
    pub open spec fn spec_constrain(self, size: Size) -> Size {
        Size {
            width: size.width.spec_clamp(self.min.width, self.max.width),
            height: size.height.spec_clamp(self.min.height, self.max.height),
        }
    }

    /// `size` brought within the limits, each axis by itself.
    pub fn constrain(&self, size: Size) -> (fitted: Size)
        ensures
            fitted == self.spec_constrain(size),
    {
        Size {
            width: size.width.clamp(self.min.width, self.max.width),
            height: size.height.clamp(self.min.height, self.max.height),
        }
    }
}

} // verus!
