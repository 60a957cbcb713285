//! Two-dimensional vectors over exact rationals: pointer positions, drag
//! deltas and pan offsets.

use vstd::prelude::*;

use crate::rat::{Rat, SpecRat};

verus! {

/// Ghost 2-D vector over unbounded rationals.
pub struct SpecVec2D {
    pub x: SpecRat,
    pub y: SpecRat,
}

impl SpecVec2D {
    pub open spec fn wf(self) -> bool {
        self.x.wf() && self.y.wf()
    }

    /// Both components fit in `i64`, so the executable operation succeeds.
    pub open spec fn fits(self) -> bool {
        self.x.fits() && self.y.fits()
    }

    pub open spec fn zero() -> SpecVec2D {
        SpecVec2D { x: SpecRat::from_int(0), y: SpecRat::from_int(0) }
    }

    pub open spec fn plus(self, other: SpecVec2D) -> SpecVec2D {
        SpecVec2D { x: self.x.plus(other.x), y: self.y.plus(other.y) }
    }

    pub open spec fn minus(self, other: SpecVec2D) -> SpecVec2D {
        SpecVec2D { x: self.x.minus(other.x), y: self.y.minus(other.y) }
    }

    /// Both components divided by the same scalar.
    pub open spec fn scaled_down(self, s: SpecRat) -> SpecVec2D {
        SpecVec2D { x: self.x.over(s), y: self.y.over(s) }
    }
}

/// A 2-D vector with exact rational components.
#[derive(Clone, Copy, Debug)]
pub struct Vec2D {
    pub x: Rat,
    pub y: Rat,
}

/// The zero vector, as an exact value.
pub open spec fn vec_zero() -> Vec2D {
    Vec2D { x: Rat { num: 0, den: 1 }, y: Rat { num: 0, den: 1 } }
}

/// A vector of two integers, as an exact value.
pub open spec fn vec_of_ints(x: i64, y: i64) -> Vec2D {
    Vec2D { x: Rat { num: x, den: 1 }, y: Rat { num: y, den: 1 } }
}

impl Vec2D {
    pub open spec fn wf(self) -> bool {
        self.x.wf() && self.y.wf()
    }

    /// The exact pair of rational values.
    pub open spec fn sv(self) -> SpecVec2D {
        SpecVec2D { x: self.x.srat(), y: self.y.srat() }
    }

    /// The exact componentwise sum as a `Vec2D` value.
    pub open spec fn add_exact(self, other: Vec2D) -> Vec2D {
        Vec2D { x: self.x.add_exact(other.x), y: self.y.add_exact(other.y) }
    }

    /// The exact componentwise difference as a `Vec2D` value.
    pub open spec fn sub_exact(self, other: Vec2D) -> Vec2D {
        Vec2D { x: self.x.sub_exact(other.x), y: self.y.sub_exact(other.y) }
    }

    /// The exact componentwise quotient by a scalar, as a `Vec2D` value.
    pub open spec fn scale_down_exact(self, s: Rat) -> Vec2D {
        Vec2D { x: self.x.div_exact(s), y: self.y.div_exact(s) }
    }

    pub fn new(x: Rat, y: Rat) -> (r: Vec2D)
        ensures
            r.x == x,
            r.y == y,
    {
        Vec2D { x, y }
    }

    /// A vector of two integers, the form in which pointer positions arrive.
    pub fn from_ints(x: i64, y: i64) -> (r: Vec2D)
        ensures
            r.wf(),
            r == vec_of_ints(x, y),
            r.sv() == (SpecVec2D { x: SpecRat::from_int(x as int), y: SpecRat::from_int(y as int) }),
    {
        Vec2D { x: Rat::from_int(x), y: Rat::from_int(y) }
    }

    pub fn zero() -> (r: Vec2D)
        ensures
            r.wf(),
            r == vec_zero(),
            r.sv() == SpecVec2D::zero(),
    {
        Vec2D { x: Rat::zero(), y: Rat::zero() }
    }

    /// Exact componentwise sum; `None` exactly when a component overflows.
    pub fn checked_add(self, other: Vec2D) -> (r: Option<Vec2D>)
        requires
            self.wf(),
            other.wf(),
        ensures
            r is Some <==> self.sv().plus(other.sv()).fits(),
            r is Some ==> r->0.wf() && r->0.sv() == self.sv().plus(other.sv()) && r->0
                == self.add_exact(other),
    {
        match (self.x.checked_add(other.x), self.y.checked_add(other.y)) {
            (Some(x), Some(y)) => Some(Vec2D { x, y }),
            _ => None,
        }
    }

    /// Exact componentwise difference; `None` exactly when a component
    /// overflows.
    pub fn checked_sub(self, other: Vec2D) -> (r: Option<Vec2D>)
        requires
            self.wf(),
            other.wf(),
        ensures
            r is Some <==> self.sv().minus(other.sv()).fits(),
            r is Some ==> r->0.wf() && r->0.sv() == self.sv().minus(other.sv()) && r->0
                == self.sub_exact(other),
    {
        match (self.x.checked_sub(other.x), self.y.checked_sub(other.y)) {
            (Some(x), Some(y)) => Some(Vec2D { x, y }),
            _ => None,
        }
    }

    /// Both components divided by the same nonzero scalar; `None` exactly
    /// when a component overflows.
    pub fn checked_scale_down(self, s: Rat) -> (r: Option<Vec2D>)
        requires
            self.wf(),
            s.wf(),
            s.is_pos(),
        ensures
            r is Some <==> self.sv().scaled_down(s.srat()).fits(),
            r is Some ==> r->0.wf() && r->0.sv() == self.sv().scaled_down(s.srat()) && r->0
                == self.scale_down_exact(s),
    {
        match (self.x.checked_div(s), self.y.checked_div(s)) {
            (Some(x), Some(y)) => Some(Vec2D { x, y }),
            _ => None,
        }
    }
}

} // verus!
