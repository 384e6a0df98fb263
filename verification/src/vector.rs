//! Fixed-size vectors of exact rational components.
//!
//! A vector stores one integer numerator per component over a single positive
//! denominator. Operations state the exact representation they produce;
//! equality compares denoted values componentwise.

use crate::scalar::Rat;
use crate::scalar::Scalar;
use crate::scalar::in_range;
use crate::scalar::lemma_pos_mul;
use crate::scalar::mul_wide;
use crate::scalar::rat_in_range;
use crate::scalar::rat_mul;
use crate::scalar::rat_recip;
use crate::scalar::rat_sim;
use crate::scalar::rat_wf;
use vstd::prelude::*;

verus! {

/// Whether `s` is the square of an integer.
pub open spec fn is_square(s: int) -> bool {
    exists|k: int| 0 <= k && #[trigger] (k * k) == s
}

/// The nonnegative integer square root of a perfect square `s`.
pub open spec fn sqrt_of(s: int) -> int {
    choose|k: int| 0 <= k && #[trigger] (k * k) == s
}

/// Two nonnegative integers with the same square are equal.
pub proof fn lemma_sqrt_unique(j: int, k: int, s: int)
    by (nonlinear_arith)
    requires
        0 <= j,
        0 <= k,
        j * j == s,
        k * k <= s < (k + 1) * (k + 1),
    ensures
        j == k,
{
}

/// Integer square root by binary search: the greatest `r` with `r * r <= s`.
pub(crate) fn isqrt(s: i64) -> (r: i64)
    requires
        0 <= s,
    ensures
        0 <= r <= 3037000500,
        r * r <= s < (r + 1) * (r + 1),
{
    let mut lo: i64 = 0;
    let mut hi: i64 = 3037000500;
    proof {
        assert(s < 3037000500 * 3037000500);
    }
    while lo + 1 < hi
        invariant
            0 <= lo < hi <= 3037000500,
            lo * lo <= s,
            s < hi * hi,
        decreases hi - lo,
    {
        let mid = lo + (hi - lo) / 2;
        let sq = mul_wide(mid, mid);
        if sq <= s as i128 {
            lo = mid;
        } else {
            hi = mid;
        }
    }
    lo
}

/// The specification-level form of a two-component vector: integer numerators
/// over one denominator.
pub ghost struct V2 {
    pub x: int,
    pub y: int,
    pub d: int,
}

/// Well-formed vector: positive denominator, all parts within storage range.
pub open spec fn v2_wf(v: V2) -> bool {
    &&& 1 <= v.d
    &&& in_range(v.x)
    &&& in_range(v.y)
    &&& in_range(v.d)
}

/// All parts of `v` fit the storage range.
pub open spec fn v2_in_range(v: V2) -> bool {
    in_range(v.x) && in_range(v.y) && in_range(v.d)
}

/// The vector with components `x` and `y`, brought to a common denominator
/// (kept as is when the denominators already agree).
pub open spec fn v2_new(x: Rat, y: Rat) -> V2 {
    if x.d == y.d {
        V2 { x: x.n, y: y.n, d: x.d }
    } else {
        V2 { x: x.n * y.d, y: y.n * x.d, d: x.d * y.d }
    }
}

/// Componentwise exact sum.
pub open spec fn v2_add(a: V2, b: V2) -> V2 {
    V2 { x: a.x * b.d + b.x * a.d, y: a.y * b.d + b.y * a.d, d: a.d * b.d }
}

/// Componentwise exact difference.
pub open spec fn v2_sub(a: V2, b: V2) -> V2 {
    V2 { x: a.x * b.d - b.x * a.d, y: a.y * b.d - b.y * a.d, d: a.d * b.d }
}

/// Exact scaling of every component by the scalar `s`.
pub open spec fn v2_scale(a: V2, s: Rat) -> V2 {
    V2 { x: a.x * s.n, y: a.y * s.n, d: a.d * s.d }
}

/// Exact dot product.
pub open spec fn v2_dot(a: V2, b: V2) -> Rat {
    Rat { n: a.x * b.x + a.y * b.y, d: a.d * b.d }
}

/// The two representations denote the same vector, componentwise.
pub open spec fn v2_sim(a: V2, b: V2) -> bool {
    &&& a.x * b.d == b.x * a.d
    &&& a.y * b.d == b.y * a.d
}

/// The exact length of `a`, where it is rational: the square root of
/// `dot(a, a)`, which exists exactly when the numerator of `dot(a, a)` is a
/// perfect square.
pub open spec fn v2_length(a: V2) -> Option<Rat> {
    if is_square(v2_dot(a, a).n) {
        Some(Rat { n: sqrt_of(v2_dot(a, a).n), d: a.d })
    } else {
        None
    }
}

/// The unit vector with the direction of `a`: `a` scaled by the reciprocal of
/// its length, defined exactly when the length is rational and nonzero.
pub open spec fn v2_normalize(a: V2) -> Option<V2> {
    match v2_length(a) {
        Some(len) => if len.n == 0 {
            None
        } else {
            Some(v2_scale(a, rat_recip(len)))
        },
        None => None,
    }
}

/// A two-component vector of exact rational values.
#[derive(Clone, Copy, Debug)]
pub struct Vector2 {
    pub x: i64,
    pub y: i64,
    pub d: i64,
}

impl View for Vector2 {
    type V = V2;

    open spec fn view(&self) -> V2 {
        V2 { x: self.x as int, y: self.y as int, d: self.d as int }
    }
}

impl PartialEq for Vector2 {
    fn eq(&self, other: &Vector2) -> (r: bool) {
        sim_part(self.x, self.d, other.x, other.d) && sim_part(self.y, self.d, other.y, other.d)
    }
}

impl vstd::std_specs::cmp::PartialEqSpecImpl for Vector2 {
    open spec fn obeys_eq_spec() -> bool {
        true
    }

    open spec fn eq_spec(&self, other: &Vector2) -> bool {
        v2_sim(self@, other@)
    }
}

/// Whether `an / ad` and `bn / bd` cross-multiply equal, for one component.
pub(crate) fn sim_part(an: i64, ad: i64, bn: i64, bd: i64) -> (r: bool)
    ensures
        r == (an as int * bd as int == bn as int * ad as int),
{
    proof {
        assert(i128::MIN <= (an as int) * (bd as int) <= i128::MAX) by (nonlinear_arith);
        assert(i128::MIN <= (bn as int) * (ad as int) <= i128::MAX) by (nonlinear_arith);
    }
    (an as i128) * (bd as i128) == (bn as i128) * (ad as i128)
}

impl Vector2 {
    /// The vector with the given components.
    pub fn new(x: Scalar, y: Scalar) -> (r: Vector2)
        requires
            rat_wf(x@),
            rat_wf(y@),
            v2_in_range(v2_new(x@, y@)),
        ensures
            r@ == v2_new(x@, y@),
            v2_wf(r@),
    {
        if x.d == y.d {
            Vector2 { x: x.n, y: y.n, d: x.d }
        } else {
            proof {
                lemma_pos_mul(x@.d, y@.d);
            }
            Vector2 {
                x: mul_wide(x.n, y.d) as i64,
                y: mul_wide(y.n, x.d) as i64,
                d: mul_wide(x.d, y.d) as i64,
            }
        }
    }

    /// The first component as a scalar.
    pub fn part_x(&self) -> (r: Scalar)
        ensures
            r@ == (Rat { n: self@.x, d: self@.d }),
            v2_wf(self@) ==> rat_wf(r@),
    {
        Scalar { n: self.x, d: self.d }
    }

    /// The second component as a scalar.
    pub fn part_y(&self) -> (r: Scalar)
        ensures
            r@ == (Rat { n: self@.y, d: self@.d }),
            v2_wf(self@) ==> rat_wf(r@),
    {
        Scalar { n: self.y, d: self.d }
    }

    /// Componentwise exact sum.
    pub fn add_vector_and_vector(a: &Vector2, b: &Vector2) -> (r: Vector2)
        requires
            v2_wf(a@),
            v2_wf(b@),
            v2_in_range(v2_add(a@, b@)),
        ensures
            r@ == v2_add(a@, b@),
            v2_wf(r@),
    {
        proof {
            lemma_pos_mul(a@.d, b@.d);
        }
        Vector2 {
            x: (mul_wide(a.x, b.d) + mul_wide(b.x, a.d)) as i64,
            y: (mul_wide(a.y, b.d) + mul_wide(b.y, a.d)) as i64,
            d: mul_wide(a.d, b.d) as i64,
        }
    }

    /// Componentwise exact difference.
    pub fn sub_vector_and_vector(a: &Vector2, b: &Vector2) -> (r: Vector2)
        requires
            v2_wf(a@),
            v2_wf(b@),
            v2_in_range(v2_sub(a@, b@)),
        ensures
            r@ == v2_sub(a@, b@),
            v2_wf(r@),
    {
        proof {
            lemma_pos_mul(a@.d, b@.d);
        }
        Vector2 {
            x: (mul_wide(a.x, b.d) - mul_wide(b.x, a.d)) as i64,
            y: (mul_wide(a.y, b.d) - mul_wide(b.y, a.d)) as i64,
            d: mul_wide(a.d, b.d) as i64,
        }
    }

    /// Every component scaled by the scalar `b`.
    pub fn mul_vector_and_scalar(a: &Vector2, b: &Scalar) -> (r: Vector2)
        requires
            v2_wf(a@),
            rat_wf(b@),
            v2_in_range(v2_scale(a@, b@)),
        ensures
            r@ == v2_scale(a@, b@),
            v2_wf(r@),
    {
        proof {
            lemma_pos_mul(a@.d, b@.d);
        }
        Vector2 {
            x: mul_wide(a.x, b.n) as i64,
            y: mul_wide(a.y, b.n) as i64,
            d: mul_wide(a.d, b.d) as i64,
        }
    }

    /// Exact dot product.
    pub fn dot(a: &Vector2, b: &Vector2) -> (r: Scalar)
        requires
            v2_wf(a@),
            v2_wf(b@),
            rat_in_range(v2_dot(a@, b@)),
        ensures
            r@ == v2_dot(a@, b@),
            rat_wf(r@),
    {
        proof {
            lemma_pos_mul(a@.d, b@.d);
        }
        Scalar {
            n: (mul_wide(a.x, b.x) + mul_wide(a.y, b.y)) as i64,
            d: mul_wide(a.d, b.d) as i64,
        }
    }

    /// The exact length of `v`, where it is rational: `None` exactly when the
    /// numerator of `dot(v, v)` is not a perfect square.
    pub fn length(v: &Vector2) -> (r: Option<Scalar>)
        requires
            v2_wf(v@),
            rat_in_range(v2_dot(v@, v@)),
        ensures
            (r is Some) == is_square(v2_dot(v@, v@).n),
            r matches Some(s) ==> v2_length(v@) == Some(s@) && rat_wf(s@) && rat_sim(
                rat_mul(s@, s@),
                v2_dot(v@, v@),
            ),
    {
        proof {
            assert(0 <= v@.x * v@.x + v@.y * v@.y) by (nonlinear_arith);
        }
        let sum = (mul_wide(v.x, v.x) + mul_wide(v.y, v.y)) as i64;
        let k = isqrt(sum);
        proof {
            assert(sum == v2_dot(v@, v@).n);
        }
        if mul_wide(k, k) == sum as i128 {
            let s = Scalar { n: k, d: v.d };
            proof {
                assert((k as int) * (k as int) == sum as int);
                assert(is_square(v2_dot(v@, v@).n));
                assert(0 <= sqrt_of(sum as int) && sqrt_of(sum as int) * sqrt_of(sum as int)
                    == sum as int);
                lemma_sqrt_unique(sqrt_of(sum as int), k as int, sum as int);
                assert(rat_sim(rat_mul(s@, s@), v2_dot(v@, v@))) by (nonlinear_arith)
                    requires
                        s@.n * s@.n == v2_dot(v@, v@).n,
                        s@.d == v@.d,
                        v2_dot(v@, v@).d == v@.d * v@.d,
                ;
            }
            Some(s)
        } else {
            proof {
                if is_square(sum as int) {
                    let j = choose|j: int| 0 <= j && #[trigger] (j * j) == sum as int;
                    lemma_sqrt_unique(j, k as int, sum as int);
                }
            }
            None
        }
    }

    /// The unit vector with the direction of `v`: `None` exactly when the
    /// length of `v` is irrational or zero.
    pub fn normalize(v: &Vector2) -> (r: Option<Vector2>)
        requires
            v2_wf(v@),
            rat_in_range(v2_dot(v@, v@)),
            v2_normalize(v@) matches Some(u) ==> v2_in_range(u),
        ensures
            (r is Some) == (v2_normalize(v@) is Some),
            r matches Some(u) ==> v2_normalize(v@) == Some(u@) && v2_wf(u@),
    {
        match Vector2::length(v) {
            Some(len) => {
                if len.n == 0 {
                    None
                } else {
                    let inv = Scalar::recip(&len);
                    Some(Vector2::mul_vector_and_scalar(v, &inv))
                }
            },
            None => None,
        }
    }

    /// Replaces `self` with `self + rhs`.
    pub fn add_assign(&mut self, rhs: &Vector2)
        requires
            v2_wf(old(self)@),
            v2_wf(rhs@),
            v2_in_range(v2_add(old(self)@, rhs@)),
        ensures
            final(self)@ == v2_add(old(self)@, rhs@),
            v2_wf(final(self)@),
    {
        let a = *self;
        *self = Vector2::add_vector_and_vector(&a, rhs);
    }

    /// Replaces `self` with `self - rhs`.
    pub fn sub_assign(&mut self, rhs: &Vector2)
        requires
            v2_wf(old(self)@),
            v2_wf(rhs@),
            v2_in_range(v2_sub(old(self)@, rhs@)),
        ensures
            final(self)@ == v2_sub(old(self)@, rhs@),
            v2_wf(final(self)@),
    {
        let a = *self;
        *self = Vector2::sub_vector_and_vector(&a, rhs);
    }

    /// Replaces `self` with `self` scaled by `rhs`.
    pub fn mul_assign(&mut self, rhs: &Scalar)
        requires
            v2_wf(old(self)@),
            rat_wf(rhs@),
            v2_in_range(v2_scale(old(self)@, rhs@)),
        ensures
            final(self)@ == v2_scale(old(self)@, rhs@),
            v2_wf(final(self)@),
    {
        let a = *self;
        *self = Vector2::mul_vector_and_scalar(&a, rhs);
    }
}


/// A magnitude within range stays within range after a positive factor of the
/// product is dropped.
pub proof fn lemma_partial_bound(a: int, b: int)
    by (nonlinear_arith)
    requires
        1 <= b,
        in_range(a * b),
    ensures
        in_range(a),
{
}

/// The specification-level form of a three-component vector: integer
/// numerators over one denominator.
pub ghost struct V3 {
    pub x: int,
    pub y: int,
    pub z: int,
    pub d: int,
}

/// Well-formed vector: positive denominator, all parts within storage range.
pub open spec fn v3_wf(v: V3) -> bool {
    &&& 1 <= v.d
    &&& in_range(v.x)
    &&& in_range(v.y)
    &&& in_range(v.z)
    &&& in_range(v.d)
}

/// All parts of `v` fit the storage range.
pub open spec fn v3_in_range(v: V3) -> bool {
    in_range(v.x) && in_range(v.y) && in_range(v.z) && in_range(v.d)
}

/// The vector with the given components, brought to a common denominator
/// (kept as is when the denominators already agree).
pub open spec fn v3_new(x: Rat, y: Rat, z: Rat) -> V3 {
    if x.d == y.d && x.d == z.d {
        V3 { x: x.n, y: y.n, z: z.n, d: x.d }
    } else {
        V3 { x: x.n * y.d * z.d, y: y.n * x.d * z.d, z: z.n * x.d * y.d, d: x.d * y.d * z.d }
    }
}

/// Componentwise exact sum.
pub open spec fn v3_add(a: V3, b: V3) -> V3 {
    V3 { x: a.x * b.d + b.x * a.d, y: a.y * b.d + b.y * a.d, z: a.z * b.d + b.z * a.d, d: a.d * b.d }
}

/// Componentwise exact difference.
pub open spec fn v3_sub(a: V3, b: V3) -> V3 {
    V3 { x: a.x * b.d - b.x * a.d, y: a.y * b.d - b.y * a.d, z: a.z * b.d - b.z * a.d, d: a.d * b.d }
}

/// Exact scaling of every component by the scalar `s`.
pub open spec fn v3_scale(a: V3, s: Rat) -> V3 {
    V3 { x: a.x * s.n, y: a.y * s.n, z: a.z * s.n, d: a.d * s.d }
}

/// Exact dot product.
pub open spec fn v3_dot(a: V3, b: V3) -> Rat {
    Rat { n: a.x * b.x + a.y * b.y + a.z * b.z, d: a.d * b.d }
}

/// The two representations denote the same vector, componentwise.
pub open spec fn v3_sim(a: V3, b: V3) -> bool {
    &&& a.x * b.d == b.x * a.d
    &&& a.y * b.d == b.y * a.d
    &&& a.z * b.d == b.z * a.d
}

/// The exact length of `a`, where it is rational: the square root of
/// `dot(a, a)`, which exists exactly when the numerator of `dot(a, a)` is a
/// perfect square.
pub open spec fn v3_length(a: V3) -> Option<Rat> {
    if is_square(v3_dot(a, a).n) {
        Some(Rat { n: sqrt_of(v3_dot(a, a).n), d: a.d })
    } else {
        None
    }
}

/// The unit vector with the direction of `a`: `a` scaled by the reciprocal of
/// its length, defined exactly when the length is rational and nonzero.
pub open spec fn v3_normalize(a: V3) -> Option<V3> {
    match v3_length(a) {
        Some(len) => if len.n == 0 {
            None
        } else {
            Some(v3_scale(a, rat_recip(len)))
        },
        None => None,
    }
}

/// A three-component vector of exact rational values.
#[derive(Clone, Copy, Debug)]
pub struct Vector3 {
    pub x: i64,
    pub y: i64,
    pub z: i64,
    pub d: i64,
}

impl View for Vector3 {
    type V = V3;

    open spec fn view(&self) -> V3 {
        V3 { x: self.x as int, y: self.y as int, z: self.z as int, d: self.d as int }
    }
}

impl PartialEq for Vector3 {
    fn eq(&self, other: &Vector3) -> (r: bool) {
        sim_part(self.x, self.d, other.x, other.d)
            && sim_part(self.y, self.d, other.y, other.d)
            && sim_part(self.z, self.d, other.z, other.d)
    }
}

impl vstd::std_specs::cmp::PartialEqSpecImpl for Vector3 {
    open spec fn obeys_eq_spec() -> bool {
        true
    }

    open spec fn eq_spec(&self, other: &Vector3) -> bool {
        v3_sim(self@, other@)
    }
}

impl Vector3 {
    /// The vector with the given components.
    pub fn new(x: Scalar, y: Scalar, z: Scalar) -> (r: Vector3)
        requires
            rat_wf(x@),
            rat_wf(y@),
            rat_wf(z@),
            v3_in_range(v3_new(x@, y@, z@)),
        ensures
            r@ == v3_new(x@, y@, z@),
            v3_wf(r@),
    {
        if x.d == y.d && x.d == z.d {
            Vector3 { x: x.n, y: y.n, z: z.n, d: x.d }
        } else {
            proof {
                lemma_partial_bound(x@.n * y@.d, z@.d);
                lemma_partial_bound(y@.n * x@.d, z@.d);
                lemma_partial_bound(z@.n * x@.d, y@.d);
                lemma_partial_bound(x@.d * y@.d, z@.d);
                lemma_pos_mul(x@.d, y@.d);
                lemma_pos_mul(x@.d * y@.d, z@.d);
            }
            let mut nx: i64 = x.n;
            nx = mul_wide(nx, y.d) as i64;
            nx = mul_wide(nx, z.d) as i64;
            let mut ny: i64 = y.n;
            ny = mul_wide(ny, x.d) as i64;
            ny = mul_wide(ny, z.d) as i64;
            let mut nz: i64 = z.n;
            nz = mul_wide(nz, x.d) as i64;
            nz = mul_wide(nz, y.d) as i64;
            let mut dd: i64 = x.d;
            dd = mul_wide(dd, y.d) as i64;
            dd = mul_wide(dd, z.d) as i64;
            Vector3 { x: nx, y: ny, z: nz, d: dd }
        }
    }

    /// The `x` component as a scalar.
    pub fn part_x(&self) -> (r: Scalar)
        ensures
            r@ == (Rat { n: self@.x, d: self@.d }),
            v3_wf(self@) ==> rat_wf(r@),
    {
        Scalar { n: self.x, d: self.d }
    }

    /// The `y` component as a scalar.
    pub fn part_y(&self) -> (r: Scalar)
        ensures
            r@ == (Rat { n: self@.y, d: self@.d }),
            v3_wf(self@) ==> rat_wf(r@),
    {
        Scalar { n: self.y, d: self.d }
    }

    /// The `z` component as a scalar.
    pub fn part_z(&self) -> (r: Scalar)
        ensures
            r@ == (Rat { n: self@.z, d: self@.d }),
            v3_wf(self@) ==> rat_wf(r@),
    {
        Scalar { n: self.z, d: self.d }
    }

    /// Componentwise exact sum.
    pub fn add_vector_and_vector(a: &Vector3, b: &Vector3) -> (r: Vector3)
        requires
            v3_wf(a@),
            v3_wf(b@),
            v3_in_range(v3_add(a@, b@)),
        ensures
            r@ == v3_add(a@, b@),
            v3_wf(r@),
    {
        proof {
            lemma_pos_mul(a@.d, b@.d);
        }
        Vector3 {
            x: (mul_wide(a.x, b.d) + mul_wide(b.x, a.d)) as i64,
            y: (mul_wide(a.y, b.d) + mul_wide(b.y, a.d)) as i64,
            z: (mul_wide(a.z, b.d) + mul_wide(b.z, a.d)) as i64,
            d: mul_wide(a.d, b.d) as i64,
        }
    }

    /// Componentwise exact difference.
    pub fn sub_vector_and_vector(a: &Vector3, b: &Vector3) -> (r: Vector3)
        requires
            v3_wf(a@),
            v3_wf(b@),
            v3_in_range(v3_sub(a@, b@)),
        ensures
            r@ == v3_sub(a@, b@),
            v3_wf(r@),
    {
        proof {
            lemma_pos_mul(a@.d, b@.d);
        }
        Vector3 {
            x: (mul_wide(a.x, b.d) - mul_wide(b.x, a.d)) as i64,
            y: (mul_wide(a.y, b.d) - mul_wide(b.y, a.d)) as i64,
            z: (mul_wide(a.z, b.d) - mul_wide(b.z, a.d)) as i64,
            d: mul_wide(a.d, b.d) as i64,
        }
    }

    /// Every component scaled by the scalar `b`.
    pub fn mul_vector_and_scalar(a: &Vector3, b: &Scalar) -> (r: Vector3)
        requires
            v3_wf(a@),
            rat_wf(b@),
            v3_in_range(v3_scale(a@, b@)),
        ensures
            r@ == v3_scale(a@, b@),
            v3_wf(r@),
    {
        proof {
            lemma_pos_mul(a@.d, b@.d);
        }
        Vector3 {
            x: mul_wide(a.x, b.n) as i64,
            y: mul_wide(a.y, b.n) as i64,
            z: mul_wide(a.z, b.n) as i64,
            d: mul_wide(a.d, b.d) as i64,
        }
    }

    /// Exact dot product.
    pub fn dot(a: &Vector3, b: &Vector3) -> (r: Scalar)
        requires
            v3_wf(a@),
            v3_wf(b@),
            rat_in_range(v3_dot(a@, b@)),
        ensures
            r@ == v3_dot(a@, b@),
            rat_wf(r@),
    {
        proof {
            lemma_pos_mul(a@.d, b@.d);
        }
        Scalar {
            n: (mul_wide(a.x, b.x) + mul_wide(a.y, b.y) + mul_wide(a.z, b.z)) as i64,
            d: mul_wide(a.d, b.d) as i64,
        }
    }

    /// The exact length of `v`, where it is rational: `None` exactly when the
    /// numerator of `dot(v, v)` is not a perfect square.
    pub fn length(v: &Vector3) -> (r: Option<Scalar>)
        requires
            v3_wf(v@),
            rat_in_range(v3_dot(v@, v@)),
        ensures
            (r is Some) == is_square(v3_dot(v@, v@).n),
            r matches Some(s) ==> v3_length(v@) == Some(s@) && rat_wf(s@) && rat_sim(
                rat_mul(s@, s@),
                v3_dot(v@, v@),
            ),
    {
        proof {
            assert(0 <= v@.x * v@.x + v@.y * v@.y + v@.z * v@.z) by (nonlinear_arith);
        }
        let sum = (mul_wide(v.x, v.x) + mul_wide(v.y, v.y) + mul_wide(v.z, v.z)) as i64;
        let k = isqrt(sum);
        proof {
            assert(sum == v3_dot(v@, v@).n);
        }
        if mul_wide(k, k) == sum as i128 {
            let s = Scalar { n: k, d: v.d };
            proof {
                assert((k as int) * (k as int) == sum as int);
                assert(is_square(v3_dot(v@, v@).n));
                assert(0 <= sqrt_of(sum as int) && sqrt_of(sum as int) * sqrt_of(sum as int)
                    == sum as int);
                lemma_sqrt_unique(sqrt_of(sum as int), k as int, sum as int);
                assert(rat_sim(rat_mul(s@, s@), v3_dot(v@, v@))) by (nonlinear_arith)
                    requires
                        s@.n * s@.n == v3_dot(v@, v@).n,
                        s@.d == v@.d,
                        v3_dot(v@, v@).d == v@.d * v@.d,
                ;
            }
            Some(s)
        } else {
            proof {
                if is_square(sum as int) {
                    let j = choose|j: int| 0 <= j && #[trigger] (j * j) == sum as int;
                    lemma_sqrt_unique(j, k as int, sum as int);
                }
            }
            None
        }
    }

    /// The unit vector with the direction of `v`: `None` exactly when the
    /// length of `v` is irrational or zero.
    pub fn normalize(v: &Vector3) -> (r: Option<Vector3>)
        requires
            v3_wf(v@),
            rat_in_range(v3_dot(v@, v@)),
            v3_normalize(v@) matches Some(u) ==> v3_in_range(u),
        ensures
            (r is Some) == (v3_normalize(v@) is Some),
            r matches Some(u) ==> v3_normalize(v@) == Some(u@) && v3_wf(u@),
    {
        match Vector3::length(v) {
            Some(len) => {
                if len.n == 0 {
                    None
                } else {
                    let inv = Scalar::recip(&len);
                    Some(Vector3::mul_vector_and_scalar(v, &inv))
                }
            },
            None => None,
        }
    }

    /// Replaces `self` with `self + rhs`.
    pub fn add_assign(&mut self, rhs: &Vector3)
        requires
            v3_wf(old(self)@),
            v3_wf(rhs@),
            v3_in_range(v3_add(old(self)@, rhs@)),
        ensures
            final(self)@ == v3_add(old(self)@, rhs@),
            v3_wf(final(self)@),
    {
        let a = *self;
        *self = Vector3::add_vector_and_vector(&a, rhs);
    }

    /// Replaces `self` with `self - rhs`.
    pub fn sub_assign(&mut self, rhs: &Vector3)
        requires
            v3_wf(old(self)@),
            v3_wf(rhs@),
            v3_in_range(v3_sub(old(self)@, rhs@)),
        ensures
            final(self)@ == v3_sub(old(self)@, rhs@),
            v3_wf(final(self)@),
    {
        let a = *self;
        *self = Vector3::sub_vector_and_vector(&a, rhs);
    }

    /// Replaces `self` with `self` scaled by `rhs`.
    pub fn mul_assign(&mut self, rhs: &Scalar)
        requires
            v3_wf(old(self)@),
            rat_wf(rhs@),
            v3_in_range(v3_scale(old(self)@, rhs@)),
        ensures
            final(self)@ == v3_scale(old(self)@, rhs@),
            v3_wf(final(self)@),
    {
        let a = *self;
        *self = Vector3::mul_vector_and_scalar(&a, rhs);
    }
}

/// Exact cross product of two three-component vectors.
pub open spec fn v3_cross(a: V3, b: V3) -> V3 {
    V3 {
        x: a.y * b.z - a.z * b.y,
        y: a.z * b.x - a.x * b.z,
        z: a.x * b.y - a.y * b.x,
        d: a.d * b.d,
    }
}

impl Vector3 {
    /// Exact cross product.
    pub fn cross(a: &Vector3, b: &Vector3) -> (r: Vector3)
        requires
            v3_wf(a@),
            v3_wf(b@),
            v3_in_range(v3_cross(a@, b@)),
        ensures
            r@ == v3_cross(a@, b@),
            v3_wf(r@),
    {
        proof {
            lemma_pos_mul(a@.d, b@.d);
        }
        Vector3 {
            x: (mul_wide(a.y, b.z) - mul_wide(a.z, b.y)) as i64,
            y: (mul_wide(a.z, b.x) - mul_wide(a.x, b.z)) as i64,
            z: (mul_wide(a.x, b.y) - mul_wide(a.y, b.x)) as i64,
            d: mul_wide(a.d, b.d) as i64,
        }
    }
}

/// The specification-level form of a four-component vector: integer
/// numerators over one denominator.
pub ghost struct V4 {
    pub x: int,
    pub y: int,
    pub z: int,
    pub w: int,
    pub d: int,
}

/// Well-formed vector: positive denominator, all parts within storage range.
pub open spec fn v4_wf(v: V4) -> bool {
    &&& 1 <= v.d
    &&& in_range(v.x)
    &&& in_range(v.y)
    &&& in_range(v.z)
    &&& in_range(v.w)
    &&& in_range(v.d)
}

/// All parts of `v` fit the storage range.
pub open spec fn v4_in_range(v: V4) -> bool {
    in_range(v.x) && in_range(v.y) && in_range(v.z) && in_range(v.w) && in_range(v.d)
}

/// The vector with the given components, brought to a common denominator
/// (kept as is when the denominators already agree).
pub open spec fn v4_new(x: Rat, y: Rat, z: Rat, w: Rat) -> V4 {
    if x.d == y.d && x.d == z.d && x.d == w.d {
        V4 { x: x.n, y: y.n, z: z.n, w: w.n, d: x.d }
    } else {
        V4 { x: x.n * y.d * z.d * w.d, y: y.n * x.d * z.d * w.d, z: z.n * x.d * y.d * w.d, w: w.n * x.d * y.d * z.d, d: x.d * y.d * z.d * w.d }
    }
}

/// Componentwise exact sum.
pub open spec fn v4_add(a: V4, b: V4) -> V4 {
    V4 { x: a.x * b.d + b.x * a.d, y: a.y * b.d + b.y * a.d, z: a.z * b.d + b.z * a.d, w: a.w * b.d + b.w * a.d, d: a.d * b.d }
}

/// Componentwise exact difference.
pub open spec fn v4_sub(a: V4, b: V4) -> V4 {
    V4 { x: a.x * b.d - b.x * a.d, y: a.y * b.d - b.y * a.d, z: a.z * b.d - b.z * a.d, w: a.w * b.d - b.w * a.d, d: a.d * b.d }
}

/// Exact scaling of every component by the scalar `s`.
pub open spec fn v4_scale(a: V4, s: Rat) -> V4 {
    V4 { x: a.x * s.n, y: a.y * s.n, z: a.z * s.n, w: a.w * s.n, d: a.d * s.d }
}

/// Exact dot product.
pub open spec fn v4_dot(a: V4, b: V4) -> Rat {
    Rat { n: a.x * b.x + a.y * b.y + a.z * b.z + a.w * b.w, d: a.d * b.d }
}

/// The two representations denote the same vector, componentwise.
pub open spec fn v4_sim(a: V4, b: V4) -> bool {
    &&& a.x * b.d == b.x * a.d
    &&& a.y * b.d == b.y * a.d
    &&& a.z * b.d == b.z * a.d
    &&& a.w * b.d == b.w * a.d
}

/// The exact length of `a`, where it is rational: the square root of
/// `dot(a, a)`, which exists exactly when the numerator of `dot(a, a)` is a
/// perfect square.
pub open spec fn v4_length(a: V4) -> Option<Rat> {
    if is_square(v4_dot(a, a).n) {
        Some(Rat { n: sqrt_of(v4_dot(a, a).n), d: a.d })
    } else {
        None
    }
}

/// The unit vector with the direction of `a`: `a` scaled by the reciprocal of
/// its length, defined exactly when the length is rational and nonzero.
pub open spec fn v4_normalize(a: V4) -> Option<V4> {
    match v4_length(a) {
        Some(len) => if len.n == 0 {
            None
        } else {
            Some(v4_scale(a, rat_recip(len)))
        },
        None => None,
    }
}

/// A four-component vector of exact rational values.
#[derive(Clone, Copy, Debug)]
pub struct Vector4 {
    pub x: i64,
    pub y: i64,
    pub z: i64,
    pub w: i64,
    pub d: i64,
}

impl View for Vector4 {
    type V = V4;

    open spec fn view(&self) -> V4 {
        V4 { x: self.x as int, y: self.y as int, z: self.z as int, w: self.w as int, d: self.d as int }
    }
}

impl PartialEq for Vector4 {
    fn eq(&self, other: &Vector4) -> (r: bool) {
        sim_part(self.x, self.d, other.x, other.d)
            && sim_part(self.y, self.d, other.y, other.d)
            && sim_part(self.z, self.d, other.z, other.d)
            && sim_part(self.w, self.d, other.w, other.d)
    }
}

impl vstd::std_specs::cmp::PartialEqSpecImpl for Vector4 {
    open spec fn obeys_eq_spec() -> bool {
        true
    }

    open spec fn eq_spec(&self, other: &Vector4) -> bool {
        v4_sim(self@, other@)
    }
}

impl Vector4 {
    /// The vector with the given components.
    pub fn new(x: Scalar, y: Scalar, z: Scalar, w: Scalar) -> (r: Vector4)
        requires
            rat_wf(x@),
            rat_wf(y@),
            rat_wf(z@),
            rat_wf(w@),
            v4_in_range(v4_new(x@, y@, z@, w@)),
        ensures
            r@ == v4_new(x@, y@, z@, w@),
            v4_wf(r@),
    {
        if x.d == y.d && x.d == z.d && x.d == w.d {
            Vector4 { x: x.n, y: y.n, z: z.n, w: w.n, d: x.d }
        } else {
            proof {
                lemma_partial_bound(x@.n * y@.d * z@.d, w@.d);
                lemma_partial_bound(x@.n * y@.d, z@.d);
                lemma_partial_bound(y@.n * x@.d * z@.d, w@.d);
                lemma_partial_bound(y@.n * x@.d, z@.d);
                lemma_partial_bound(z@.n * x@.d * y@.d, w@.d);
                lemma_partial_bound(z@.n * x@.d, y@.d);
                lemma_partial_bound(w@.n * x@.d * y@.d, z@.d);
                lemma_partial_bound(w@.n * x@.d, y@.d);
                lemma_partial_bound(x@.d * y@.d * z@.d, w@.d);
                lemma_partial_bound(x@.d * y@.d, z@.d);
                lemma_pos_mul(x@.d, y@.d);
                lemma_pos_mul(x@.d * y@.d, z@.d);
                lemma_pos_mul(x@.d * y@.d * z@.d, w@.d);
            }
            let mut nx: i64 = x.n;
            nx = mul_wide(nx, y.d) as i64;
            nx = mul_wide(nx, z.d) as i64;
            nx = mul_wide(nx, w.d) as i64;
            let mut ny: i64 = y.n;
            ny = mul_wide(ny, x.d) as i64;
            ny = mul_wide(ny, z.d) as i64;
            ny = mul_wide(ny, w.d) as i64;
            let mut nz: i64 = z.n;
            nz = mul_wide(nz, x.d) as i64;
            nz = mul_wide(nz, y.d) as i64;
            nz = mul_wide(nz, w.d) as i64;
            let mut nw: i64 = w.n;
            nw = mul_wide(nw, x.d) as i64;
            nw = mul_wide(nw, y.d) as i64;
            nw = mul_wide(nw, z.d) as i64;
            let mut dd: i64 = x.d;
            dd = mul_wide(dd, y.d) as i64;
            dd = mul_wide(dd, z.d) as i64;
            dd = mul_wide(dd, w.d) as i64;
            Vector4 { x: nx, y: ny, z: nz, w: nw, d: dd }
        }
    }

    /// The `x` component as a scalar.
    pub fn part_x(&self) -> (r: Scalar)
        ensures
            r@ == (Rat { n: self@.x, d: self@.d }),
            v4_wf(self@) ==> rat_wf(r@),
    {
        Scalar { n: self.x, d: self.d }
    }

    /// The `y` component as a scalar.
    pub fn part_y(&self) -> (r: Scalar)
        ensures
            r@ == (Rat { n: self@.y, d: self@.d }),
            v4_wf(self@) ==> rat_wf(r@),
    {
        Scalar { n: self.y, d: self.d }
    }

    /// The `z` component as a scalar.
    pub fn part_z(&self) -> (r: Scalar)
        ensures
            r@ == (Rat { n: self@.z, d: self@.d }),
            v4_wf(self@) ==> rat_wf(r@),
    {
        Scalar { n: self.z, d: self.d }
    }

    /// The `w` component as a scalar.
    pub fn part_w(&self) -> (r: Scalar)
        ensures
            r@ == (Rat { n: self@.w, d: self@.d }),
            v4_wf(self@) ==> rat_wf(r@),
    {
        Scalar { n: self.w, d: self.d }
    }

    /// Componentwise exact sum.
    pub fn add_vector_and_vector(a: &Vector4, b: &Vector4) -> (r: Vector4)
        requires
            v4_wf(a@),
            v4_wf(b@),
            v4_in_range(v4_add(a@, b@)),
        ensures
            r@ == v4_add(a@, b@),
            v4_wf(r@),
    {
        proof {
            lemma_pos_mul(a@.d, b@.d);
        }
        Vector4 {
            x: (mul_wide(a.x, b.d) + mul_wide(b.x, a.d)) as i64,
            y: (mul_wide(a.y, b.d) + mul_wide(b.y, a.d)) as i64,
            z: (mul_wide(a.z, b.d) + mul_wide(b.z, a.d)) as i64,
            w: (mul_wide(a.w, b.d) + mul_wide(b.w, a.d)) as i64,
            d: mul_wide(a.d, b.d) as i64,
        }
    }

    /// Componentwise exact difference.
    pub fn sub_vector_and_vector(a: &Vector4, b: &Vector4) -> (r: Vector4)
        requires
            v4_wf(a@),
            v4_wf(b@),
            v4_in_range(v4_sub(a@, b@)),
        ensures
            r@ == v4_sub(a@, b@),
            v4_wf(r@),
    {
        proof {
            lemma_pos_mul(a@.d, b@.d);
        }
        Vector4 {
            x: (mul_wide(a.x, b.d) - mul_wide(b.x, a.d)) as i64,
            y: (mul_wide(a.y, b.d) - mul_wide(b.y, a.d)) as i64,
            z: (mul_wide(a.z, b.d) - mul_wide(b.z, a.d)) as i64,
            w: (mul_wide(a.w, b.d) - mul_wide(b.w, a.d)) as i64,
            d: mul_wide(a.d, b.d) as i64,
        }
    }

    /// Every component scaled by the scalar `b`.
    pub fn mul_vector_and_scalar(a: &Vector4, b: &Scalar) -> (r: Vector4)
        requires
            v4_wf(a@),
            rat_wf(b@),
            v4_in_range(v4_scale(a@, b@)),
        ensures
            r@ == v4_scale(a@, b@),
            v4_wf(r@),
    {
        proof {
            lemma_pos_mul(a@.d, b@.d);
        }
        Vector4 {
            x: mul_wide(a.x, b.n) as i64,
            y: mul_wide(a.y, b.n) as i64,
            z: mul_wide(a.z, b.n) as i64,
            w: mul_wide(a.w, b.n) as i64,
            d: mul_wide(a.d, b.d) as i64,
        }
    }

    /// Exact dot product.
    pub fn dot(a: &Vector4, b: &Vector4) -> (r: Scalar)
        requires
            v4_wf(a@),
            v4_wf(b@),
            rat_in_range(v4_dot(a@, b@)),
        ensures
            r@ == v4_dot(a@, b@),
            rat_wf(r@),
    {
        proof {
            lemma_pos_mul(a@.d, b@.d);
        }
        Scalar {
            n: (mul_wide(a.x, b.x) + mul_wide(a.y, b.y) + mul_wide(a.z, b.z) + mul_wide(a.w, b.w)) as i64,
            d: mul_wide(a.d, b.d) as i64,
        }
    }

    /// The exact length of `v`, where it is rational: `None` exactly when the
    /// numerator of `dot(v, v)` is not a perfect square.
    pub fn length(v: &Vector4) -> (r: Option<Scalar>)
        requires
            v4_wf(v@),
            rat_in_range(v4_dot(v@, v@)),
        ensures
            (r is Some) == is_square(v4_dot(v@, v@).n),
            r matches Some(s) ==> v4_length(v@) == Some(s@) && rat_wf(s@) && rat_sim(
                rat_mul(s@, s@),
                v4_dot(v@, v@),
            ),
    {
        proof {
            assert(0 <= v@.x * v@.x + v@.y * v@.y + v@.z * v@.z + v@.w * v@.w) by (nonlinear_arith);
        }
        let sum = (mul_wide(v.x, v.x) + mul_wide(v.y, v.y) + mul_wide(v.z, v.z) + mul_wide(v.w, v.w)) as i64;
        let k = isqrt(sum);
        proof {
            assert(sum == v4_dot(v@, v@).n);
        }
        if mul_wide(k, k) == sum as i128 {
            let s = Scalar { n: k, d: v.d };
            proof {
                assert((k as int) * (k as int) == sum as int);
                assert(is_square(v4_dot(v@, v@).n));
                assert(0 <= sqrt_of(sum as int) && sqrt_of(sum as int) * sqrt_of(sum as int)
                    == sum as int);
                lemma_sqrt_unique(sqrt_of(sum as int), k as int, sum as int);
                assert(rat_sim(rat_mul(s@, s@), v4_dot(v@, v@))) by (nonlinear_arith)
                    requires
                        s@.n * s@.n == v4_dot(v@, v@).n,
                        s@.d == v@.d,
                        v4_dot(v@, v@).d == v@.d * v@.d,
                ;
            }
            Some(s)
        } else {
            proof {
                if is_square(sum as int) {
                    let j = choose|j: int| 0 <= j && #[trigger] (j * j) == sum as int;
                    lemma_sqrt_unique(j, k as int, sum as int);
                }
            }
            None
        }
    }

    /// The unit vector with the direction of `v`: `None` exactly when the
    /// length of `v` is irrational or zero.
    pub fn normalize(v: &Vector4) -> (r: Option<Vector4>)
        requires
            v4_wf(v@),
            rat_in_range(v4_dot(v@, v@)),
            v4_normalize(v@) matches Some(u) ==> v4_in_range(u),
        ensures
            (r is Some) == (v4_normalize(v@) is Some),
            r matches Some(u) ==> v4_normalize(v@) == Some(u@) && v4_wf(u@),
    {
        match Vector4::length(v) {
            Some(len) => {
                if len.n == 0 {
                    None
                } else {
                    let inv = Scalar::recip(&len);
                    Some(Vector4::mul_vector_and_scalar(v, &inv))
                }
            },
            None => None,
        }
    }

    /// Replaces `self` with `self + rhs`.
    pub fn add_assign(&mut self, rhs: &Vector4)
        requires
            v4_wf(old(self)@),
            v4_wf(rhs@),
            v4_in_range(v4_add(old(self)@, rhs@)),
        ensures
            final(self)@ == v4_add(old(self)@, rhs@),
            v4_wf(final(self)@),
    {
        let a = *self;
        *self = Vector4::add_vector_and_vector(&a, rhs);
    }

    /// Replaces `self` with `self - rhs`.
    pub fn sub_assign(&mut self, rhs: &Vector4)
        requires
            v4_wf(old(self)@),
            v4_wf(rhs@),
            v4_in_range(v4_sub(old(self)@, rhs@)),
        ensures
            final(self)@ == v4_sub(old(self)@, rhs@),
            v4_wf(final(self)@),
    {
        let a = *self;
        *self = Vector4::sub_vector_and_vector(&a, rhs);
    }

    /// Replaces `self` with `self` scaled by `rhs`.
    pub fn mul_assign(&mut self, rhs: &Scalar)
        requires
            v4_wf(old(self)@),
            rat_wf(rhs@),
            v4_in_range(v4_scale(old(self)@, rhs@)),
        ensures
            final(self)@ == v4_scale(old(self)@, rhs@),
            v4_wf(final(self)@),
    {
        let a = *self;
        *self = Vector4::mul_vector_and_scalar(&a, rhs);
    }
}

} // verus!
