//! Exact rational numbers with a positive denominator.
//!
//! Zoom scale, pan offsets and pointer positions are carried as rationals so
//! that the coordinate transforms stay exact: zooming in and back out by the
//! same factor restores the original scale precisely.

use vstd::prelude::*;

verus! {

/// Largest `i64` value, as a spec-level integer.
pub open spec fn i64_max() -> int {
    0x7fff_ffff_ffff_ffff
}

/// Smallest `i64` value, as a spec-level integer.
pub open spec fn i64_min() -> int {
    -0x8000_0000_0000_0000
}

/// Whether a mathematical integer fits in `i64`.
pub open spec fn in_i64(x: int) -> bool {
    i64_min() <= x <= i64_max()
}

/// A ghost rational number over unbounded integers: the exact value that the
/// executable `Rat` operations compute when nothing overflows.
pub struct SpecRat {
    pub n: int,
    pub d: int,
}

impl SpecRat {
    /// Well-formed: the denominator is positive.
    pub open spec fn wf(self) -> bool {
        self.d >= 1
    }

    /// Both components fit in `i64`, so the executable operation succeeds.
    pub open spec fn fits(self) -> bool {
        in_i64(self.n) && in_i64(self.d)
    }

    /// The two rationals denote the same value (cross-multiplication).
    pub open spec fn eqv(self, other: SpecRat) -> bool {
        self.n * other.d == other.n * self.d
    }

    /// `self <= other` as rational values; sound when both are well-formed.
    pub open spec fn lte(self, other: SpecRat) -> bool {
        self.n * other.d <= other.n * self.d
    }

    pub open spec fn from_int(i: int) -> SpecRat {
        SpecRat { n: i, d: 1 }
    }

    pub open spec fn plus(self, other: SpecRat) -> SpecRat {
        SpecRat { n: self.n * other.d + other.n * self.d, d: self.d * other.d }
    }

    pub open spec fn minus(self, other: SpecRat) -> SpecRat {
        SpecRat { n: self.n * other.d - other.n * self.d, d: self.d * other.d }
    }

    pub open spec fn times(self, other: SpecRat) -> SpecRat {
        SpecRat { n: self.n * other.n, d: self.d * other.d }
    }

    /// Exact quotient, sign-normalised so the denominator stays positive
    /// whenever the divisor is nonzero.
    pub open spec fn over(self, other: SpecRat) -> SpecRat {
        if other.n >= 0 {
            SpecRat { n: self.n * other.d, d: self.d * other.n }
        } else {
            SpecRat { n: -(self.n * other.d), d: -(self.d * other.n) }
        }
    }

    /// Exact negation.
    pub open spec fn neg(self) -> SpecRat {
        SpecRat { n: -self.n, d: self.d }
    }

    /// Exact reciprocal, sign-normalised.
    pub open spec fn inv(self) -> SpecRat {
        if self.n >= 0 {
            SpecRat { n: self.d, d: self.n }
        } else {
            SpecRat { n: -self.d, d: -self.n }
        }
    }
}

/// A rational number `num / den` with `den >= 1`.
#[derive(Clone, Copy, Debug)]
pub struct Rat {
    pub num: i64,
    pub den: i64,
}

/// The product of an `i64` and a positive `i64` stays strictly inside
/// half of the `i128` range, so two such products can be added in `i128`.
proof fn lemma_mul_pos_den_bounds(n: int, d: int)
    by (nonlinear_arith)
    requires
        -0x8000_0000_0000_0000 <= n <= 0x7fff_ffff_ffff_ffff,
        1 <= d <= 0x7fff_ffff_ffff_ffff,
    ensures
        -0x8000_0000_0000_0000 * 0x7fff_ffff_ffff_ffff <= n * d
            <= 0x7fff_ffff_ffff_ffff * 0x7fff_ffff_ffff_ffff,
{
}

/// The product of any two `i64` values fits in `i128`.
proof fn lemma_i64_mul_in_i128(a: int, b: int)
    by (nonlinear_arith)
    requires
        -0x8000_0000_0000_0000 <= a <= 0x7fff_ffff_ffff_ffff,
        -0x8000_0000_0000_0000 <= b <= 0x7fff_ffff_ffff_ffff,
    ensures
        -0x8000_0000_0000_0000 * 0x8000_0000_0000_0000 <= a * b
            <= 0x8000_0000_0000_0000 * 0x8000_0000_0000_0000,
{
}

/// The product of two positive integers is positive.
proof fn lemma_pos_mul_pos(a: int, b: int)
    by (nonlinear_arith)
    requires
        a >= 1,
        b >= 1,
    ensures
        a * b >= 1,
{
}

/// The product of a positive and a negative integer is negative.
proof fn lemma_pos_mul_neg(a: int, b: int)
    by (nonlinear_arith)
    requires
        a >= 1,
        b <= -1,
    ensures
        a * b <= -1,
{
}

/// Division by a positive integer: the floor bounds, and the quotient stays
/// between zero and the dividend.
proof fn lemma_floor_props(n: int, d: int)
    by (nonlinear_arith)
    requires
        d >= 1,
    ensures
        d * (n / d) <= n < d * (n / d + 1),
        n >= 0 ==> 0 <= n / d <= n,
        n < 0 ==> n <= n / d <= 0,
{
}

impl Rat {
    /// Well-formed: the denominator is positive.
    pub open spec fn wf(self) -> bool {
        self.den >= 1
    }

    /// The exact rational value, over unbounded integers.
    pub open spec fn srat(self) -> SpecRat {
        SpecRat { n: self.num as int, d: self.den as int }
    }

    /// `self <= other` as rational values; sound when both are well-formed.
    pub open spec fn le_rat(self, other: Rat) -> bool {
        self.srat().lte(other.srat())
    }

    pub open spec fn is_pos(self) -> bool {
        self.num > 0
    }

    /// The exact sum as a `Rat` value; meaningful when it fits.
    pub open spec fn add_exact(self, other: Rat) -> Rat {
        Rat {
            num: (self.num * other.den + other.num * self.den) as i64,
            den: (self.den * other.den) as i64,
        }
    }

    /// The exact difference as a `Rat` value; meaningful when it fits.
    pub open spec fn sub_exact(self, other: Rat) -> Rat {
        Rat {
            num: (self.num * other.den - other.num * self.den) as i64,
            den: (self.den * other.den) as i64,
        }
    }

    /// The exact product as a `Rat` value; meaningful when it fits.
    pub open spec fn mul_exact(self, other: Rat) -> Rat {
        Rat { num: (self.num * other.num) as i64, den: (self.den * other.den) as i64 }
    }

    /// The exact quotient as a `Rat` value; meaningful when it fits and the
    /// divisor is nonzero.
    pub open spec fn div_exact(self, other: Rat) -> Rat {
        Rat {
            num: self.srat().over(other.srat()).n as i64,
            den: self.srat().over(other.srat()).d as i64,
        }
    }

    /// The exact reciprocal as a `Rat` value; meaningful when `self` is
    /// nonzero and the negation fits.
    pub open spec fn recip_exact(self) -> Rat {
        if self.num >= 0 {
            Rat { num: self.den, den: self.num }
        } else {
            Rat { num: (-self.den) as i64, den: (-self.num) as i64 }
        }
    }

    pub fn from_int(i: i64) -> (r: Rat)
        ensures
            r.wf(),
            r == (Rat { num: i, den: 1 }),
            r.srat() == SpecRat::from_int(i as int),
    {
        Rat { num: i, den: 1 }
    }

    pub fn zero() -> (r: Rat)
        ensures
            r.wf(),
            r == (Rat { num: 0, den: 1 }),
            r.srat() == SpecRat::from_int(0),
    {
        Rat { num: 0, den: 1 }
    }

    pub fn one() -> (r: Rat)
        ensures
            r.wf(),
            r == (Rat { num: 1, den: 1 }),
            r.srat() == SpecRat::from_int(1),
    {
        Rat { num: 1, den: 1 }
    }

    /// Exact sum; `None` exactly when a component of the exact result does
    /// not fit in `i64`.
    pub fn checked_add(self, other: Rat) -> (r: Option<Rat>)
        requires
            self.wf(),
            other.wf(),
        ensures
            r is Some <==> self.srat().plus(other.srat()).fits(),
            r is Some ==> r->0.wf() && r->0.srat() == self.srat().plus(other.srat()) && r->0
                == self.add_exact(other),
    {
        proof {
            lemma_mul_pos_den_bounds(self.num as int, other.den as int);
            lemma_mul_pos_den_bounds(other.num as int, self.den as int);
            lemma_mul_pos_den_bounds(self.den as int, other.den as int);
            lemma_pos_mul_pos(self.den as int, other.den as int);
        }
        let n: i128 = (self.num as i128) * (other.den as i128) + (other.num as i128) * (self.den
            as i128);
        let d: i128 = (self.den as i128) * (other.den as i128);
        if n >= i64::MIN as i128 && n <= i64::MAX as i128 && d <= i64::MAX as i128 {
            Some(Rat { num: n as i64, den: d as i64 })
        } else {
            None
        }
    }

    /// Exact difference; `None` exactly when the exact result does not fit.
    pub fn checked_sub(self, other: Rat) -> (r: Option<Rat>)
        requires
            self.wf(),
            other.wf(),
        ensures
            r is Some <==> self.srat().minus(other.srat()).fits(),
            r is Some ==> r->0.wf() && r->0.srat() == self.srat().minus(other.srat()) && r->0
                == self.sub_exact(other),
    {
        proof {
            lemma_mul_pos_den_bounds(self.num as int, other.den as int);
            lemma_mul_pos_den_bounds(other.num as int, self.den as int);
            lemma_mul_pos_den_bounds(self.den as int, other.den as int);
            lemma_pos_mul_pos(self.den as int, other.den as int);
        }
        let n: i128 = (self.num as i128) * (other.den as i128) - (other.num as i128) * (self.den
            as i128);
        let d: i128 = (self.den as i128) * (other.den as i128);
        if n >= i64::MIN as i128 && n <= i64::MAX as i128 && d <= i64::MAX as i128 {
            Some(Rat { num: n as i64, den: d as i64 })
        } else {
            None
        }
    }

    /// Exact product; `None` exactly when the exact result does not fit.
    pub fn checked_mul(self, other: Rat) -> (r: Option<Rat>)
        requires
            self.wf(),
            other.wf(),
        ensures
            r is Some <==> self.srat().times(other.srat()).fits(),
            r is Some ==> r->0.wf() && r->0.srat() == self.srat().times(other.srat()) && r->0
                == self.mul_exact(other),
    {
        proof {
            lemma_i64_mul_in_i128(self.num as int, other.num as int);
            lemma_mul_pos_den_bounds(self.den as int, other.den as int);
            lemma_pos_mul_pos(self.den as int, other.den as int);
        }
        let n: i128 = (self.num as i128) * (other.num as i128);
        let d: i128 = (self.den as i128) * (other.den as i128);
        if n >= i64::MIN as i128 && n <= i64::MAX as i128 && d <= i64::MAX as i128 {
            Some(Rat { num: n as i64, den: d as i64 })
        } else {
            None
        }
    }

    /// Exact quotient with a sign-normalised (positive) denominator; `None`
    /// exactly when the divisor is zero or the exact result does not fit.
    pub fn checked_div(self, other: Rat) -> (r: Option<Rat>)
        requires
            self.wf(),
            other.wf(),
        ensures
            r is Some <==> other.num != 0 && self.srat().over(other.srat()).fits(),
            r is Some ==> r->0.wf() && r->0.srat() == self.srat().over(other.srat()) && r->0
                == self.div_exact(other),
    {
        proof {
            lemma_mul_pos_den_bounds(self.num as int, other.den as int);
            lemma_i64_mul_in_i128(self.den as int, other.num as int);
            if other.num >= 1 {
                lemma_pos_mul_pos(self.den as int, other.num as int);
            }
            if other.num <= -1 {
                lemma_pos_mul_neg(self.den as int, other.num as int);
            }
        }
        if other.num == 0 {
            return None;
        }
        let n0: i128 = (self.num as i128) * (other.den as i128);
        let d0: i128 = (self.den as i128) * (other.num as i128);
        let (n, d): (i128, i128) = if other.num > 0 {
            (n0, d0)
        } else {
            (-n0, -d0)
        };
        if n >= i64::MIN as i128 && n <= i64::MAX as i128 && d <= i64::MAX as i128 {
            Some(Rat { num: n as i64, den: d as i64 })
        } else {
            None
        }
    }

    /// Exact reciprocal; `None` exactly when `self` is zero or its negated
    /// numerator does not fit (the numerator is `i64::MIN`).
    pub fn recip(self) -> (r: Option<Rat>)
        requires
            self.wf(),
        ensures
            r is Some <==> self.num != 0 && in_i64(-(self.num as int)),
            r is Some ==> r->0.wf() && r->0.srat() == self.srat().inv() && r->0
                == self.recip_exact(),
    {
        if self.num > 0 {
            Some(Rat { num: self.den, den: self.num })
        } else if self.num < 0 && self.num > i64::MIN {
            Some(Rat { num: -self.den, den: -self.num })
        } else {
            None
        }
    }

    /// Exact negation; `None` exactly when the numerator is `i64::MIN`.
    pub fn checked_neg(self) -> (r: Option<Rat>)
        requires
            self.wf(),
        ensures
            r is Some <==> in_i64(-(self.num as int)),
            r is Some ==> r->0.wf() && r->0.srat() == self.srat().neg() && r->0 == (Rat {
                num: (-self.num) as i64,
                den: self.den,
            }),
    {
        if self.num > i64::MIN {
            Some(Rat { num: -self.num, den: self.den })
        } else {
            None
        }
    }

    /// Exact comparison of the rational values.
    pub fn le(self, other: Rat) -> (r: bool)
        requires
            self.wf(),
            other.wf(),
        ensures
            r == self.le_rat(other),
    {
        proof {
            lemma_mul_pos_den_bounds(self.num as int, other.den as int);
            lemma_mul_pos_den_bounds(other.num as int, self.den as int);
        }
        (self.num as i128) * (other.den as i128) <= (other.num as i128) * (self.den as i128)
    }

    /// Floor of the rational value: `num / den` rounded towards negative
    /// infinity.
    pub fn floor(self) -> (r: i64)
        requires
            self.wf(),
        ensures
            r == self.num as int / self.den as int,
            self.den * r <= self.num < self.den * (r + 1),
    {
        proof {
            lemma_floor_props(self.num as int, self.den as int);
        }
        match self.num.checked_div_euclid(self.den) {
            Some(q) => q,
            None => 0,
        }
    }
}

/// Greatest common divisor, by Euclid's algorithm.
pub open spec fn spec_gcd(a: nat, b: nat) -> nat
    decreases b,
{
    if b == 0 {
        a
    } else {
        spec_gcd(b, a % b)
    }
}

/// Euclid's algorithm, executably.
pub fn gcd_u128(a: u128, b: u128) -> (g: u128)
    ensures
        g == spec_gcd(a as nat, b as nat),
{
    let mut x = a;
    let mut y = b;
    while y != 0
        invariant
            spec_gcd(x as nat, y as nat) == spec_gcd(a as nat, b as nat),
        decreases y,
    {
        let r = x % y;
        x = y;
        y = r;
    }
    x
}

} // verus!
