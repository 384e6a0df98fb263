//! 2x2 matrices of exact rational entries.
//!
//! A matrix holds its columns as vectors; the well-formedness invariant keeps
//! every column on the same denominator, so transposing is a pure
//! rearrangement of numerators.

use crate::scalar::Rat;
use crate::scalar::Scalar;
use crate::scalar::in_range;
use crate::scalar::lemma_pos_mul;
use crate::scalar::mul_wide;
use crate::scalar::rat_in_range;
use crate::scalar::rat_recip;
use crate::scalar::rat_wf;
use crate::vector::V2;
use crate::vector::Vector2;
use crate::vector::v2_add;
use crate::vector::v2_dot;
use crate::vector::v2_in_range;
use crate::vector::v2_scale;
use crate::vector::v2_sim;
use crate::vector::v2_sub;
use crate::vector::v2_wf;
use vstd::prelude::*;

verus! {

/// The specification-level form of a 2x2 matrix: two columns on one shared
/// denominator.
pub ghost struct M2 {
    pub x: V2,
    pub y: V2,
}

/// Well-formed matrix: well-formed columns that share one denominator.
pub open spec fn m2_wf(m: M2) -> bool {
    &&& v2_wf(m.x)
    &&& v2_wf(m.y)
    &&& m.x.d == m.y.d
}

/// All parts of `m` fit the storage range.
pub open spec fn m2_in_range(m: M2) -> bool {
    v2_in_range(m.x) && v2_in_range(m.y)
}

/// A column with every numerator and the denominator multiplied by `k`: the
/// same column value on a coarser denominator.
pub open spec fn v2_times(v: V2, k: int) -> V2 {
    V2 { x: v.x * k, y: v.y * k, d: v.d * k }
}

/// The matrix with the given columns, brought to one shared denominator
/// (kept as is when the denominators already agree).
pub open spec fn m2_new(x: V2, y: V2) -> M2 {
    if x.d == y.d {
        M2 { x, y }
    } else {
        M2 { x: v2_times(x, y.d), y: v2_times(y, x.d) }
    }
}

/// The identity matrix.
pub open spec fn m2_identity() -> M2 {
    M2 { x: V2 { x: 1, y: 0, d: 1 }, y: V2 { x: 0, y: 1, d: 1 } }
}

/// Exact transpose: column `i` of the result is row `i` of `m`.
pub open spec fn m2_transpose(m: M2) -> M2 {
    M2 {
        x: V2 { x: m.x.x, y: m.y.x, d: m.x.d },
        y: V2 { x: m.x.y, y: m.y.y, d: m.y.d },
    }
}

/// Componentwise exact sum.
pub open spec fn m2_add(a: M2, b: M2) -> M2 {
    M2 { x: v2_add(a.x, b.x), y: v2_add(a.y, b.y) }
}

/// Componentwise exact difference.
pub open spec fn m2_sub(a: M2, b: M2) -> M2 {
    M2 { x: v2_sub(a.x, b.x), y: v2_sub(a.y, b.y) }
}

/// Every entry scaled by the scalar `s`.
pub open spec fn m2_scalar_mul(m: M2, s: Rat) -> M2 {
    M2 { x: v2_scale(m.x, s), y: v2_scale(m.y, s) }
}

/// Exact matrix-times-column-vector product.
pub open spec fn m2_vec_mul(m: M2, v: V2) -> V2 {
    V2 {
        x: m.x.x * v.x + m.y.x * v.y,
        y: m.x.y * v.x + m.y.y * v.y,
        d: m.x.d * v.d,
    }
}

/// Exact matrix product: column `j` of the result is `a` times column `j`
/// of `b`.
pub open spec fn m2_mul(a: M2, b: M2) -> M2 {
    M2 { x: m2_vec_mul(a, b.x), y: m2_vec_mul(a, b.y) }
}

/// Exact determinant.
pub open spec fn m2_det(m: M2) -> Rat {
    Rat { n: m.x.x * m.y.y - m.x.y * m.y.x, d: m.x.d * m.y.d }
}

/// Exact adjugate: the diagonal swapped, the off-diagonal negated.
pub open spec fn m2_adjugate(m: M2) -> M2 {
    M2 {
        x: V2 { x: m.y.y, y: -m.x.y, d: m.x.d },
        y: V2 { x: -m.y.x, y: m.x.x, d: m.y.d },
    }
}

/// Exact inverse: the adjugate scaled by the reciprocal determinant, absent
/// exactly when the determinant is zero.
pub open spec fn m2_inverse(m: M2) -> Option<M2> {
    if m2_det(m).n == 0 {
        None
    } else {
        Some(m2_scalar_mul(m2_adjugate(m), rat_recip(m2_det(m))))
    }
}

/// The two representations denote the same matrix, columnwise.
pub open spec fn m2_sim(a: M2, b: M2) -> bool {
    v2_sim(a.x, b.x) && v2_sim(a.y, b.y)
}

/// A 2x2 matrix of exact rational entries; the fields are the columns.
#[derive(Clone, Copy, Debug)]
pub struct Matrix2 {
    pub x: Vector2,
    pub y: Vector2,
}

impl View for Matrix2 {
    type V = M2;

    open spec fn view(&self) -> M2 {
        M2 { x: self.x@, y: self.y@ }
    }
}

impl PartialEq for Matrix2 {
    fn eq(&self, other: &Matrix2) -> (r: bool) {
        self.x == other.x && self.y == other.y
    }
}

impl vstd::std_specs::cmp::PartialEqSpecImpl for Matrix2 {
    open spec fn obeys_eq_spec() -> bool {
        true
    }

    open spec fn eq_spec(&self, other: &Matrix2) -> bool {
        m2_sim(self@, other@)
    }
}

/// The column `v` with numerators and denominator multiplied by `k`.
pub(crate) fn col2_times(v: &Vector2, k: i64) -> (r: Vector2)
    requires
        v2_wf(v@),
        1 <= k,
        v2_in_range(v2_times(v@, k as int)),
    ensures
        r@ == v2_times(v@, k as int),
        v2_wf(r@),
{
    proof {
        lemma_pos_mul(v@.d, k as int);
        assert(in_range(k as int)) by (nonlinear_arith)
            requires
                1 <= v@.d,
                in_range(v@.d * (k as int)),
        ;
    }
    Vector2 {
        x: mul_wide(v.x, k) as i64,
        y: mul_wide(v.y, k) as i64,
        d: mul_wide(v.d, k) as i64,
    }
}

impl Matrix2 {
    /// The matrix with the given columns.
    pub fn new(x: Vector2, y: Vector2) -> (r: Matrix2)
        requires
            v2_wf(x@),
            v2_wf(y@),
            m2_in_range(m2_new(x@, y@)),
        ensures
            r@ == m2_new(x@, y@),
            m2_wf(r@),
    {
        if x.d == y.d {
            Matrix2 { x, y }
        } else {
            Matrix2 { x: col2_times(&x, y.d), y: col2_times(&y, x.d) }
        }
    }

    /// The identity matrix.
    pub fn identity() -> (r: Matrix2)
        ensures
            r@ == m2_identity(),
            m2_wf(r@),
    {
        Matrix2 {
            x: Vector2 { x: 1, y: 0, d: 1 },
            y: Vector2 { x: 0, y: 1, d: 1 },
        }
    }

    /// The transpose: column `i` of the result is row `i` of `m`.
    pub fn transpose(m: &Matrix2) -> (r: Matrix2)
        requires
            m2_wf(m@),
        ensures
            r@ == m2_transpose(m@),
            m2_wf(r@),
    {
        Matrix2 {
            x: Vector2 { x: m.x.x, y: m.y.x, d: m.x.d },
            y: Vector2 { x: m.x.y, y: m.y.y, d: m.y.d },
        }
    }

    /// Componentwise exact sum.
    pub fn add_matrix_and_matrix(a: &Matrix2, b: &Matrix2) -> (r: Matrix2)
        requires
            m2_wf(a@),
            m2_wf(b@),
            m2_in_range(m2_add(a@, b@)),
        ensures
            r@ == m2_add(a@, b@),
            m2_wf(r@),
    {
        Matrix2 {
            x: Vector2::add_vector_and_vector(&a.x, &b.x),
            y: Vector2::add_vector_and_vector(&a.y, &b.y),
        }
    }

    /// Componentwise exact difference.
    pub fn sub_matrix_and_matrix(a: &Matrix2, b: &Matrix2) -> (r: Matrix2)
        requires
            m2_wf(a@),
            m2_wf(b@),
            m2_in_range(m2_sub(a@, b@)),
        ensures
            r@ == m2_sub(a@, b@),
            m2_wf(r@),
    {
        Matrix2 {
            x: Vector2::sub_vector_and_vector(&a.x, &b.x),
            y: Vector2::sub_vector_and_vector(&a.y, &b.y),
        }
    }

    /// Every entry scaled by the scalar `b`.
    pub fn mul_matrix_and_scalar(a: &Matrix2, b: &Scalar) -> (r: Matrix2)
        requires
            m2_wf(a@),
            rat_wf(b@),
            m2_in_range(m2_scalar_mul(a@, b@)),
        ensures
            r@ == m2_scalar_mul(a@, b@),
            m2_wf(r@),
    {
        Matrix2 {
            x: Vector2::mul_vector_and_scalar(&a.x, b),
            y: Vector2::mul_vector_and_scalar(&a.y, b),
        }
    }

    /// The matrix applied to a column vector, by dotting the rows of `a`
    /// (the columns of its transpose) with `b`.
    pub fn mul_matrix_and_vector(a: &Matrix2, b: &Vector2) -> (r: Vector2)
        requires
            m2_wf(a@),
            v2_wf(b@),
            v2_in_range(m2_vec_mul(a@, b@)),
        ensures
            r@ == m2_vec_mul(a@, b@),
            v2_wf(r@),
    {
        let t = Matrix2::transpose(a);
        let sx = Vector2::dot(&t.x, b);
        let sy = Vector2::dot(&t.y, b);
        Vector2 { x: sx.n, y: sy.n, d: sx.d }
    }

    /// The matrix product, column by column of `b`.
    pub fn mul_matrix_and_matrix(a: &Matrix2, b: &Matrix2) -> (r: Matrix2)
        requires
            m2_wf(a@),
            m2_wf(b@),
            m2_in_range(m2_mul(a@, b@)),
        ensures
            r@ == m2_mul(a@, b@),
            m2_wf(r@),
    {
        Matrix2 {
            x: Matrix2::mul_matrix_and_vector(a, &b.x),
            y: Matrix2::mul_matrix_and_vector(a, &b.y),
        }
    }

    /// Exact determinant, by the direct 2x2 formula.
    pub fn determinant(m: &Matrix2) -> (r: Scalar)
        requires
            m2_wf(m@),
            rat_in_range(m2_det(m@)),
        ensures
            r@ == m2_det(m@),
            rat_wf(r@),
    {
        proof {
            lemma_pos_mul(m@.x.d, m@.y.d);
        }
        Scalar {
            n: (mul_wide(m.x.x, m.y.y) - mul_wide(m.x.y, m.y.x)) as i64,
            d: mul_wide(m.x.d, m.y.d) as i64,
        }
    }

    /// Exact adjugate: the diagonal swapped, the off-diagonal negated.
    pub fn adjugate(m: &Matrix2) -> (r: Matrix2)
        requires
            m2_wf(m@),
        ensures
            r@ == m2_adjugate(m@),
            m2_wf(r@),
    {
        Matrix2 {
            x: Vector2 { x: m.y.y, y: -m.x.y, d: m.x.d },
            y: Vector2 { x: -m.y.x, y: m.x.x, d: m.y.d },
        }
    }

    /// The inverse, absent exactly when the determinant is zero: the adjugate
    /// scaled by the reciprocal determinant.
    pub fn inverse(m: &Matrix2) -> (r: Option<Matrix2>)
        requires
            m2_wf(m@),
            rat_in_range(m2_det(m@)),
            m2_det(m@).n != 0 ==> m2_in_range(
                m2_scalar_mul(m2_adjugate(m@), rat_recip(m2_det(m@))),
            ),
        ensures
            (r is Some) == (m2_det(m@).n != 0),
            r matches Some(inv) ==> m2_inverse(m@) == Some(inv@) && m2_wf(inv@),
    {
        let det = Matrix2::determinant(m);
        if det.n == 0 {
            None
        } else {
            let invdet = Scalar::recip(&det);
            let adj = Matrix2::adjugate(m);
            Some(Matrix2::mul_matrix_and_scalar(&adj, &invdet))
        }
    }

    /// Replaces `self` with `self + rhs`.
    pub fn add_assign(&mut self, rhs: &Matrix2)
        requires
            m2_wf(old(self)@),
            m2_wf(rhs@),
            m2_in_range(m2_add(old(self)@, rhs@)),
        ensures
            final(self)@ == m2_add(old(self)@, rhs@),
            m2_wf(final(self)@),
    {
        let a = *self;
        *self = Matrix2::add_matrix_and_matrix(&a, rhs);
    }

    /// Replaces `self` with `self - rhs`.
    pub fn sub_assign(&mut self, rhs: &Matrix2)
        requires
            m2_wf(old(self)@),
            m2_wf(rhs@),
            m2_in_range(m2_sub(old(self)@, rhs@)),
        ensures
            final(self)@ == m2_sub(old(self)@, rhs@),
            m2_wf(final(self)@),
    {
        let a = *self;
        *self = Matrix2::sub_matrix_and_matrix(&a, rhs);
    }
}

} // verus!
