//! The coordinate transform between viewport (screen) space and image space.
//!
//! The transform keeps a multiplicative zoom scale, a persisted pan offset,
//! and a pending offset accumulated during the current drag.  Discrete events
//! (click, release, drag begin) map through `absolute_to_image`, which
//! subtracts the pan offsets and divides by the scale; drag deltas map
//! through `relative_to_image`, which only divides by the scale, so panning
//! mid-drag does not distort the delta.

use vstd::prelude::*;

use crate::math::{vec_zero, SpecVec2D, Vec2D};
use crate::rat::{gcd_u128, spec_gcd, Rat, SpecRat};

verus! {

#[derive(Clone, Copy, Debug)]
pub struct Transform {
    /// Zoom scale; always positive.
    pub scale: Rat,
    /// Pan offset persisted across drags.
    pub offset: Vec2D,
    /// Pan offset accumulated during the current drag, committed into
    /// `offset` by `store_last_offset`.
    pub pending: Vec2D,
}

impl Transform {
    pub open spec fn wf(self) -> bool {
        self.scale.wf() && self.scale.is_pos() && self.offset.wf() && self.pending.wf()
    }

    /// The exact image-space point, as a `Vec2D` value; meaningful when the
    /// mapping fits.
    pub open spec fn abs_exact(self, p: Vec2D) -> Vec2D {
        p.sub_exact(self.offset).sub_exact(self.pending).scale_down_exact(self.scale)
    }

    /// The exact image-space delta, as a `Vec2D` value; meaningful when the
    /// mapping fits.
    pub open spec fn rel_exact(self, d: Vec2D) -> Vec2D {
        d.scale_down_exact(self.scale)
    }

    /// The exact image-space point of a viewport point: subtract both pan
    /// offsets, then divide by the zoom scale.
    pub open spec fn abs_spec(self, p: Vec2D) -> SpecVec2D {
        p.sv().minus(self.offset.sv()).minus(self.pending.sv()).scaled_down(self.scale.srat())
    }

    /// Every intermediate of `abs_spec` fits in `i64`, so the executable
    /// mapping succeeds.
    pub open spec fn abs_fits(self, p: Vec2D) -> bool {
        p.sv().minus(self.offset.sv()).fits() && p.sv().minus(self.offset.sv()).minus(
            self.pending.sv(),
        ).fits() && self.abs_spec(p).fits()
    }

    /// The exact image-space delta of a viewport delta: divide by the zoom
    /// scale only.
    pub open spec fn rel_spec(self, d: Vec2D) -> SpecVec2D {
        d.sv().scaled_down(self.scale.srat())
    }

    pub open spec fn rel_fits(self, d: Vec2D) -> bool {
        self.rel_spec(d).fits()
    }

    /// The identity transform: scale one, no pan.
    pub fn new() -> (r: Transform)
        ensures
            r.wf(),
            r.scale.srat() == SpecRat::from_int(1),
            r.offset.sv() == SpecVec2D::zero(),
            r.pending.sv() == SpecVec2D::zero(),
    {
        Transform { scale: Rat::one(), offset: Vec2D::zero(), pending: Vec2D::zero() }
    }

    /// Map a viewport point to image space.  `None` exactly when an
    /// intermediate value overflows; the caller then ignores the event.
    pub fn absolute_to_image(&self, p: Vec2D) -> (r: Option<Vec2D>)
        requires
            self.wf(),
            p.wf(),
        ensures
            r is Some <==> self.abs_fits(p),
            r is Some ==> r->0.wf() && r->0.sv() == self.abs_spec(p) && r->0 == self.abs_exact(p),
    {
        match p.checked_sub(self.offset) {
            Some(d1) => match d1.checked_sub(self.pending) {
                Some(d2) => d2.checked_scale_down(self.scale),
                None => None,
            },
            None => None,
        }
    }

    /// Map a viewport delta to an image-space delta.  `None` exactly when a
    /// component overflows.
    pub fn relative_to_image(&self, d: Vec2D) -> (r: Option<Vec2D>)
        requires
            self.wf(),
            d.wf(),
        ensures
            r is Some <==> self.rel_fits(d),
            r is Some ==> r->0.wf() && r->0.sv() == self.rel_spec(d) && r->0 == self.rel_exact(d),
    {
        d.checked_scale_down(self.scale)
    }

    /// Multiply the zoom scale by a positive factor.  The exact product is
    /// normalised by the gcd of its parts, so alternating zooms never grow
    /// the components; when even the normalised product does not fit in
    /// `i64` the scale is left unchanged.  The pan offsets are never
    /// touched.
    pub fn set_zoom(&mut self, factor: Rat)
        requires
            old(self).wf(),
            factor.wf(),
            factor.is_pos(),
        ensures
            final(self).wf(),
            zoom_reducible(old(self).scale, factor) ==> final(self).scale == zoomed_scale(
                old(self).scale,
                factor,
            ) && final(self).scale.srat().eqv(old(self).scale.srat().times(factor.srat())),
            !zoom_reducible(old(self).scale, factor) ==> final(self).scale == old(self).scale,
            final(self).offset == old(self).offset,
            final(self).pending == old(self).pending,
    {
        proof {
            lemma_pos_times_pos(self.scale.num as int, factor.num as int);
            lemma_pos_times_pos(self.scale.den as int, factor.den as int);
            lemma_prod_in_i128(self.scale.num as int, factor.num as int);
            lemma_prod_in_i128(self.scale.den as int, factor.den as int);
        }
        let pn: i128 = (self.scale.num as i128) * (factor.num as i128);
        let pd: i128 = (self.scale.den as i128) * (factor.den as i128);
        let g: u128 = gcd_u128(pn as u128, pd as u128);
        if g >= 1 {
            let qn: u128 = (pn as u128) / g;
            let qd: u128 = (pd as u128) / g;
            proof {
                lemma_quot_bound(pn as int, g as int);
                lemma_quot_bound(pd as int, g as int);
            }
            if qn * g == (pn as u128) && qd * g == (pd as u128) && 1 <= qn && qn <= (i64::MAX
                as u128) && 1 <= qd && qd <= (i64::MAX as u128) {
                proof {
                    lemma_reduced_value(
                        pn as int,
                        pd as int,
                        g as int,
                        qn as int,
                        qd as int,
                    );
                }
                self.scale = Rat { num: qn as i64, den: qd as i64 };
            }
        }
    }

    /// Add a delta to the pending pan offset.  On overflow the offset is
    /// left unchanged.
    pub fn set_pan(&mut self, delta: Vec2D)
        requires
            old(self).wf(),
            delta.wf(),
        ensures
            final(self).wf(),
            old(self).pending.sv().plus(delta.sv()).fits() ==> final(self).pending == old(
                self,
            ).pending.add_exact(delta),
            !old(self).pending.sv().plus(delta.sv()).fits() ==> final(self).pending == old(
                self,
            ).pending,
            final(self).offset == old(self).offset,
            final(self).scale == old(self).scale,
    {
        match self.pending.checked_add(delta) {
            Some(p) => {
                self.pending = p;
            },
            None => {},
        }
    }

    /// Replace the pending pan offset with the given drag offset: a drag
    /// reports its total offset from the drag start, so each update sets the
    /// pending state rather than adding to it.
    pub fn set_drag_offset(&mut self, v: Vec2D)
        requires
            old(self).wf(),
            v.wf(),
        ensures
            final(self).wf(),
            final(self).pending == v,
            final(self).offset == old(self).offset,
            final(self).scale == old(self).scale,
    {
        self.pending = v;
    }

    /// Commit the pending offset into the persisted pan state, so the next
    /// drag starts from a zero delta.  On overflow both parts are left
    /// unchanged.
    pub fn store_last_offset(&mut self)
        requires
            old(self).wf(),
        ensures
            final(self).wf(),
            old(self).offset.sv().plus(old(self).pending.sv()).fits() ==> final(self).offset
                == old(self).offset.add_exact(old(self).pending) && final(self).pending
                == vec_zero(),
            !old(self).offset.sv().plus(old(self).pending.sv()).fits() ==> final(self).offset
                == old(self).offset && final(self).pending == old(self).pending,
            final(self).scale == old(self).scale,
    {
        match self.offset.checked_add(self.pending) {
            Some(o) => {
                self.offset = o;
                self.pending = Vec2D::zero();
            },
            None => {},
        }
    }

    /// Reset the zoom scale: to one when `to_original_scale` holds, else to
    /// the auto-fit scale for the given viewport and image sizes.  The pan
    /// offsets are cleared either way.
    pub fn reset(&mut self, to_original_scale: bool, vw: u32, vh: u32, iw: u32, ih: u32)
        requires
            old(self).wf(),
        ensures
            final(self).wf(),
            to_original_scale ==> final(self).scale == (Rat { num: 1, den: 1 }),
            !to_original_scale ==> final(self).scale == fit_rat(vw, vh, iw, ih)
                && final(self).scale.srat() == fit_scale_spec(
                vw as int,
                vh as int,
                iw as int,
                ih as int,
            ),
            final(self).offset == vec_zero(),
            final(self).pending == vec_zero(),
    {
        self.offset = Vec2D::zero();
        self.pending = Vec2D::zero();
        if to_original_scale {
            self.scale = Rat::one();
        } else {
            self.scale = fit_scale(vw, vh, iw, ih);
        }
    }
}

/// The smaller of two rationals, preferring the first on a tie.
pub open spec fn spec_min_rat(a: SpecRat, b: SpecRat) -> SpecRat {
    if a.lte(b) {
        a
    } else {
        b
    }
}

/// The auto-fit scale: shrink the image to fit within 80% of the viewport,
/// preserving the aspect ratio, and never upscale beyond one.  Degenerate
/// sizes (a zero width or height) fit at scale one.
pub open spec fn fit_scale_spec(vw: int, vh: int, iw: int, ih: int) -> SpecRat {
    if vw <= 0 || vh <= 0 || iw <= 0 || ih <= 0 {
        SpecRat::from_int(1)
    } else {
        spec_min_rat(
            spec_min_rat(
                SpecRat { n: 4 * vw, d: 5 * iw },
                SpecRat { n: 4 * vh, d: 5 * ih },
            ),
            SpecRat::from_int(1),
        )
    }
}

/// The auto-fit scale, as an exact `Rat` value.
pub open spec fn fit_rat(vw: u32, vh: u32, iw: u32, ih: u32) -> Rat {
    if vw == 0 || vh == 0 || iw == 0 || ih == 0 {
        Rat { num: 1, den: 1 }
    } else {
        let a = Rat { num: (4 * vw) as i64, den: (5 * iw) as i64 };
        let b = Rat { num: (4 * vh) as i64, den: (5 * ih) as i64 };
        let ab = if a.le_rat(b) {
            a
        } else {
            b
        };
        if ab.le_rat(Rat { num: 1, den: 1 }) {
            ab
        } else {
            Rat { num: 1, den: 1 }
        }
    }
}

/// Compute the auto-fit scale exactly.
pub fn fit_scale(vw: u32, vh: u32, iw: u32, ih: u32) -> (r: Rat)
    ensures
        r.wf(),
        r.is_pos() || r.num == 0,
        r == fit_rat(vw, vh, iw, ih),
        r.srat() == fit_scale_spec(vw as int, vh as int, iw as int, ih as int),
        vw > 0 && vh > 0 ==> r.is_pos(),
{
    if vw == 0 || vh == 0 || iw == 0 || ih == 0 {
        Rat::one()
    } else {
        let a = Rat { num: 4 * (vw as i64), den: 5 * (iw as i64) };
        let b = Rat { num: 4 * (vh as i64), den: 5 * (ih as i64) };
        let ab = if a.le(b) {
            a
        } else {
            b
        };
        let one = Rat::one();
        if ab.le(one) {
            ab
        } else {
            one
        }
    }
}

/// The product of two positive integers is positive: multiplying two
/// positive zoom scales keeps the scale positive.
proof fn lemma_pos_times_pos(a: int, b: int)
    by (nonlinear_arith)
    requires
        a >= 1,
        b >= 1,
    ensures
        a * b >= 1,
{
}

/// The product of two `i64` values fits in `i128`.
proof fn lemma_prod_in_i128(a: int, b: int)
    by (nonlinear_arith)
    requires
        -0x8000_0000_0000_0000 <= a <= 0x7fff_ffff_ffff_ffff,
        -0x8000_0000_0000_0000 <= b <= 0x7fff_ffff_ffff_ffff,
    ensures
        -0x8000_0000_0000_0000 * 0x8000_0000_0000_0000 <= a * b
            <= 0x8000_0000_0000_0000 * 0x8000_0000_0000_0000,
{
}

/// A quotient of nonnegative values, scaled back up, stays at or below the
/// dividend.
proof fn lemma_quot_bound(p: int, g: int)
    by (nonlinear_arith)
    requires
        p >= 0,
        g >= 1,
    ensures
        0 <= p / g <= p,
        0 <= (p / g) * g <= p,
        ((p / g) * g == p) <==> (p % g == 0),
{
}

/// A reduction that exactly divides both parts keeps the rational value:
/// the re-multiplication checks supply the divisibility.
proof fn lemma_reduced_value(pn: int, pd: int, g: int, qn: int, qd: int)
    by (nonlinear_arith)
    requires
        qn * g == pn,
        qd * g == pd,
    ensures
        qn * pd == pn * qd,
{
}

/// The exact numerator and denominator of a zoom step, before reduction.
pub open spec fn zoom_num(s: Rat, f: Rat) -> int {
    s.num * f.num
}

pub open spec fn zoom_den(s: Rat, f: Rat) -> int {
    s.den * f.den
}

/// The gcd of the zoom product's parts.
pub open spec fn zoom_gcd(s: Rat, f: Rat) -> int {
    spec_gcd(zoom_num(s, f) as nat, zoom_den(s, f) as nat) as int
}

/// The normalised zoom product fits: the gcd is positive and exactly
/// divides both parts (always true of a gcd; the division is re-checked at
/// run time rather than proved of it), and the quotients fit in `i64`.
pub open spec fn zoom_reducible(s: Rat, f: Rat) -> bool {
    let g = zoom_gcd(s, f);
    g >= 1 && zoom_num(s, f) % g == 0 && zoom_den(s, f) % g == 0 && 1 <= zoom_num(s, f) / g
        <= 0x7fff_ffff_ffff_ffff && 1 <= zoom_den(s, f) / g <= 0x7fff_ffff_ffff_ffff
}

/// The zoom product, normalised by the gcd of its parts.
pub open spec fn zoomed_scale(s: Rat, f: Rat) -> Rat {
    Rat {
        num: (zoom_num(s, f) / zoom_gcd(s, f)) as i64,
        den: (zoom_den(s, f) / zoom_gcd(s, f)) as i64,
    }
}

/// Mapping through the identity transform (scale one, no pan) is the
/// identity: both `absolute_to_image` and `relative_to_image` return the
/// input point exactly, and always succeed.
pub proof fn lemma_identity_transform(t: Transform, p: Vec2D)
    requires
        t.wf(),
        p.wf(),
        t.scale.srat() == SpecRat::from_int(1),
        t.offset.sv() == SpecVec2D::zero(),
        t.pending.sv() == SpecVec2D::zero(),
    ensures
        t.abs_spec(p) == p.sv(),
        t.rel_spec(p) == p.sv(),
        t.abs_fits(p),
        t.rel_fits(p),
{
    assert(t.abs_spec(p).x == p.sv().x);
    assert(t.abs_spec(p).y == p.sv().y);
    assert(t.rel_spec(p).x == p.sv().x);
    assert(t.rel_spec(p).y == p.sv().y);
}

/// Zoom is multiplicative: scaling by a positive factor and then by its
/// reciprocal restores the original scale value exactly.
pub proof fn lemma_zoom_round_trip(s: SpecRat, f: SpecRat)
    by (nonlinear_arith)
    requires
        s.wf(),
        f.wf(),
        f.n > 0,
    ensures
        s.times(f).times(f.inv()).eqv(s),
{
}

/// Zoom is order-independent in net effect: applying two factors in either
/// order yields the same scale.
pub proof fn lemma_zoom_order_independent(s: SpecRat, f: SpecRat, g: SpecRat)
    by (nonlinear_arith)
    ensures
        s.times(f).times(g) == s.times(g).times(f),
{
}

} // verus!
