//! Exact rational scalars.
//!
//! A `Scalar` holds a numerator and a positive denominator, both `i64`.
//! Nothing is ever reduced: every operation states the exact numerator and
//! denominator it produces, and equality compares the denoted values by
//! cross-multiplication.

use vstd::prelude::*;

verus! {

/// The specification-level form of a scalar: a numerator over a denominator,
/// as unbounded integers.
pub ghost struct Rat {
    pub n: int,
    pub d: int,
}

/// Keeps a stored numerator or denominator at most `2^62` in magnitude, a
/// factor of two inside the `i64` limit, so that the product of two stored
/// values is at most `2^124` and a sum of up to four such products stays
/// within `i128` while an operation computes.
pub open spec fn in_range(x: int) -> bool {
    -0x4000_0000_0000_0000 <= x <= 0x4000_0000_0000_0000
}

/// Well-formed scalar: positive denominator, both parts within storage range.
pub open spec fn rat_wf(r: Rat) -> bool {
    &&& 1 <= r.d
    &&& in_range(r.n)
    &&& in_range(r.d)
}

/// Both parts of `r` fit the storage range.
pub open spec fn rat_in_range(r: Rat) -> bool {
    in_range(r.n) && in_range(r.d)
}

/// The integer `i` as a rational.
pub open spec fn rat_from_int(i: int) -> Rat {
    Rat { n: i, d: 1 }
}

/// Exact sum: `a/b + c/d == (a*d + c*b) / (b*d)`.
pub open spec fn rat_add(a: Rat, b: Rat) -> Rat {
    Rat { n: a.n * b.d + b.n * a.d, d: a.d * b.d }
}

/// Exact difference: `a/b - c/d == (a*d - c*b) / (b*d)`.
pub open spec fn rat_sub(a: Rat, b: Rat) -> Rat {
    Rat { n: a.n * b.d - b.n * a.d, d: a.d * b.d }
}

/// Exact product: `(a/b) * (c/d) == (a*c) / (b*d)`.
pub open spec fn rat_mul(a: Rat, b: Rat) -> Rat {
    Rat { n: a.n * b.n, d: a.d * b.d }
}

/// Exact negation.
pub open spec fn rat_neg(a: Rat) -> Rat {
    Rat { n: -a.n, d: a.d }
}

/// Exact reciprocal, with the sign moved so the denominator stays positive.
/// Meaningful only for a nonzero numerator.
pub open spec fn rat_recip(a: Rat) -> Rat {
    if a.n >= 0 {
        Rat { n: a.d, d: a.n }
    } else {
        Rat { n: -a.d, d: -a.n }
    }
}

/// Exact quotient: `a / b == a * (1/b)`.
pub open spec fn rat_div(a: Rat, b: Rat) -> Rat {
    rat_mul(a, rat_recip(b))
}

/// The two representations denote the same rational value
/// (cross-multiplication; an equivalence wherever denominators are nonzero).
pub open spec fn rat_sim(a: Rat, b: Rat) -> bool {
    a.n * b.d == b.n * a.d
}

/// A nonzero rational and its reciprocal cancel crosswise: the products of
/// numerator with numerator and denominator with denominator agree.
pub proof fn lemma_recip_cross(r: Rat)
    requires
        r.n != 0,
    ensures
        r.n * rat_recip(r).n == r.d * rat_recip(r).d,
{
    if r.n >= 0 {
        assert(r.n * r.d == r.d * r.n) by (nonlinear_arith);
    } else {
        assert(r.n * -r.d == r.d * -r.n) by (nonlinear_arith);
    }
}

/// A product of two positive integers is positive.
pub proof fn lemma_pos_mul(a: int, b: int)
    by (nonlinear_arith)
    requires
        1 <= a,
        1 <= b,
    ensures
        1 <= a * b,
{
}

/// Widening product of two stored values; the result is known to fit `i128`
/// with room for sums of four such products.
pub(crate) fn mul_wide(a: i64, b: i64) -> (r: i128)
    requires
        in_range(a as int),
        in_range(b as int),
    ensures
        r == a as int * b as int,
        -0x1000_0000_0000_0000_0000_0000_0000_0000 <= r
            <= 0x1000_0000_0000_0000_0000_0000_0000_0000,
{
    proof {
        assert(-0x1000_0000_0000_0000_0000_0000_0000_0000 <= (a as int) * (b as int)
            <= 0x1000_0000_0000_0000_0000_0000_0000_0000) by (nonlinear_arith)
            requires
                in_range(a as int),
                in_range(b as int),
        ;
    }
    (a as i128) * (b as i128)
}

/// An exact rational scalar: the value `n / d`, never reduced.
#[derive(Clone, Copy, Debug)]
pub struct Scalar {
    pub n: i64,
    pub d: i64,
}

impl View for Scalar {
    type V = Rat;

    open spec fn view(&self) -> Rat {
        Rat { n: self.n as int, d: self.d as int }
    }
}

impl PartialEq for Scalar {
    fn eq(&self, other: &Scalar) -> (r: bool) {
        proof {
            assert(i128::MIN <= (self.n as int) * (other.d as int) <= i128::MAX)
                by (nonlinear_arith);
            assert(i128::MIN <= (other.n as int) * (self.d as int) <= i128::MAX)
                by (nonlinear_arith);
        }
        (self.n as i128) * (other.d as i128) == (other.n as i128) * (self.d as i128)
    }
}

impl vstd::std_specs::cmp::PartialEqSpecImpl for Scalar {
    open spec fn obeys_eq_spec() -> bool {
        true
    }

    open spec fn eq_spec(&self, other: &Scalar) -> bool {
        rat_sim(self@, other@)
    }
}

impl Scalar {
    /// The integer `i` as a scalar.
    pub fn from_int(i: i64) -> (r: Scalar)
        requires
            in_range(i as int),
        ensures
            r@ == rat_from_int(i as int),
            rat_wf(r@),
    {
        Scalar { n: i, d: 1 }
    }

    /// The fraction `n / d`, with the sign moved to the numerator.
    pub fn new(n: i64, d: i64) -> (r: Scalar)
        requires
            d != 0,
            in_range(n as int),
            in_range(d as int),
        ensures
            rat_wf(r@),
            rat_sim(r@, Rat { n: n as int, d: d as int }),
            r@ == (if d > 0 {
                Rat { n: n as int, d: d as int }
            } else {
                Rat { n: -(n as int), d: -(d as int) }
            }),
    {
        let r = if d > 0 {
            Scalar { n, d }
        } else {
            Scalar { n: -n, d: -d }
        };
        proof {
            assert(rat_sim(r@, Rat { n: n as int, d: d as int })) by (nonlinear_arith)
                requires
                    d != 0,
                    r@ == (if d > 0 {
                        Rat { n: n as int, d: d as int }
                    } else {
                        Rat { n: -(n as int), d: -(d as int) }
                    }),
            ;
        }
        r
    }

    /// Exact sum of two scalars.
    pub fn add_scalar_and_scalar(a: &Scalar, b: &Scalar) -> (r: Scalar)
        requires
            rat_wf(a@),
            rat_wf(b@),
            rat_in_range(rat_add(a@, b@)),
        ensures
            r@ == rat_add(a@, b@),
            rat_wf(r@),
    {
        let n = mul_wide(a.n, b.d) + mul_wide(b.n, a.d);
        let d = mul_wide(a.d, b.d);
        proof {
            lemma_pos_mul(a@.d, b@.d);
        }
        Scalar { n: n as i64, d: d as i64 }
    }

    /// Exact difference of two scalars.
    pub fn sub_scalar_and_scalar(a: &Scalar, b: &Scalar) -> (r: Scalar)
        requires
            rat_wf(a@),
            rat_wf(b@),
            rat_in_range(rat_sub(a@, b@)),
        ensures
            r@ == rat_sub(a@, b@),
            rat_wf(r@),
    {
        let n = mul_wide(a.n, b.d) - mul_wide(b.n, a.d);
        let d = mul_wide(a.d, b.d);
        proof {
            lemma_pos_mul(a@.d, b@.d);
        }
        Scalar { n: n as i64, d: d as i64 }
    }

    /// Exact product of two scalars.
    pub fn mul_scalar_and_scalar(a: &Scalar, b: &Scalar) -> (r: Scalar)
        requires
            rat_wf(a@),
            rat_wf(b@),
            rat_in_range(rat_mul(a@, b@)),
        ensures
            r@ == rat_mul(a@, b@),
            rat_wf(r@),
    {
        let n = mul_wide(a.n, b.n);
        let d = mul_wide(a.d, b.d);
        proof {
            lemma_pos_mul(a@.d, b@.d);
        }
        Scalar { n: n as i64, d: d as i64 }
    }

    /// Exact negation.
    pub fn neg(a: &Scalar) -> (r: Scalar)
        requires
            rat_wf(a@),
        ensures
            r@ == rat_neg(a@),
            rat_wf(r@),
    {
        Scalar { n: -a.n, d: a.d }
    }

    /// Exact reciprocal of a nonzero scalar.
    pub fn recip(a: &Scalar) -> (r: Scalar)
        requires
            rat_wf(a@),
            a@.n != 0,
        ensures
            r@ == rat_recip(a@),
            rat_wf(r@),
    {
        if a.n >= 0 {
            Scalar { n: a.d, d: a.n }
        } else {
            Scalar { n: -a.d, d: -a.n }
        }
    }

    /// Exact quotient of two scalars; the divisor must be nonzero.
    pub fn div_scalar_and_scalar(a: &Scalar, b: &Scalar) -> (r: Scalar)
        requires
            rat_wf(a@),
            rat_wf(b@),
            b@.n != 0,
            rat_in_range(rat_div(a@, b@)),
        ensures
            r@ == rat_div(a@, b@),
            rat_wf(r@),
    {
        let inv = Scalar::recip(b);
        Scalar::mul_scalar_and_scalar(a, &inv)
    }
}

} // verus!
