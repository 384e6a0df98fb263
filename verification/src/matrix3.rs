//! 3x3 matrices of exact rational entries.
//!
//! A matrix holds its columns as vectors on one shared denominator. The
//! determinant is the scalar triple product of the rows; the adjugate columns
//! are cross products of rows, which computes the cofactor transpose.

use crate::scalar::Rat;
use crate::scalar::Scalar;
use crate::scalar::in_range;
use crate::scalar::lemma_pos_mul;
use crate::scalar::mul_wide;
use crate::scalar::rat_from_int;
use crate::scalar::rat_div;
use crate::scalar::rat_in_range;
use crate::scalar::rat_neg;
use crate::scalar::rat_recip;
use crate::scalar::rat_sub;
use crate::scalar::rat_wf;
use crate::vector::V2;
use crate::vector::V3;
use crate::vector::Vector2;
use crate::vector::Vector3;
use crate::vector::v2_wf;
use crate::vector::v3_add;
use crate::vector::v3_cross;
use crate::vector::v3_dot;
use crate::vector::v3_in_range;
use crate::vector::v3_new;
use crate::vector::v3_scale;
use crate::vector::v3_sim;
use crate::vector::v3_sub;
use crate::vector::v3_wf;
use vstd::prelude::*;

verus! {

/// The specification-level form of a 3x3 matrix: three columns on one shared
/// denominator.
pub ghost struct M3 {
    pub x: V3,
    pub y: V3,
    pub z: V3,
}

/// Well-formed matrix: well-formed columns that share one denominator.
pub open spec fn m3_wf(m: M3) -> bool {
    &&& v3_wf(m.x)
    &&& v3_wf(m.y)
    &&& v3_wf(m.z)
    &&& m.x.d == m.y.d
    &&& m.x.d == m.z.d
}

/// All parts of `m` fit the storage range.
pub open spec fn m3_in_range(m: M3) -> bool {
    v3_in_range(m.x) && v3_in_range(m.y) && v3_in_range(m.z)
}

/// A column with every numerator and the denominator multiplied by `k`: the
/// same column value on a coarser denominator.
pub open spec fn v3_times(v: V3, k: int) -> V3 {
    V3 { x: v.x * k, y: v.y * k, z: v.z * k, d: v.d * k }
}

/// The matrix with the given columns, brought to one shared denominator
/// (kept as is when the denominators already agree).
pub open spec fn m3_new(x: V3, y: V3, z: V3) -> M3 {
    if x.d == y.d && x.d == z.d {
        M3 { x, y, z }
    } else {
        M3 {
            x: v3_times(x, y.d * z.d),
            y: v3_times(y, x.d * z.d),
            z: v3_times(z, x.d * y.d),
        }
    }
}

/// The identity matrix.
pub open spec fn m3_identity() -> M3 {
    M3 {
        x: V3 { x: 1, y: 0, z: 0, d: 1 },
        y: V3 { x: 0, y: 1, z: 0, d: 1 },
        z: V3 { x: 0, y: 0, z: 1, d: 1 },
    }
}

/// Exact transpose: column `i` of the result is row `i` of `m`.
pub open spec fn m3_transpose(m: M3) -> M3 {
    M3 {
        x: V3 { x: m.x.x, y: m.y.x, z: m.z.x, d: m.x.d },
        y: V3 { x: m.x.y, y: m.y.y, z: m.z.y, d: m.y.d },
        z: V3 { x: m.x.z, y: m.y.z, z: m.z.z, d: m.z.d },
    }
}

/// Componentwise exact sum.
pub open spec fn m3_add(a: M3, b: M3) -> M3 {
    M3 { x: v3_add(a.x, b.x), y: v3_add(a.y, b.y), z: v3_add(a.z, b.z) }
}

/// Componentwise exact difference.
pub open spec fn m3_sub(a: M3, b: M3) -> M3 {
    M3 { x: v3_sub(a.x, b.x), y: v3_sub(a.y, b.y), z: v3_sub(a.z, b.z) }
}

/// Every entry scaled by the scalar `s`.
pub open spec fn m3_scalar_mul(m: M3, s: Rat) -> M3 {
    M3 { x: v3_scale(m.x, s), y: v3_scale(m.y, s), z: v3_scale(m.z, s) }
}

/// Exact matrix-times-column-vector product.
pub open spec fn m3_vec_mul(m: M3, v: V3) -> V3 {
    V3 {
        x: m.x.x * v.x + m.y.x * v.y + m.z.x * v.z,
        y: m.x.y * v.x + m.y.y * v.y + m.z.y * v.z,
        z: m.x.z * v.x + m.y.z * v.y + m.z.z * v.z,
        d: m.x.d * v.d,
    }
}

/// Exact matrix product: column `j` of the result is `a` times column `j`
/// of `b`.
pub open spec fn m3_mul(a: M3, b: M3) -> M3 {
    M3 { x: m3_vec_mul(a, b.x), y: m3_vec_mul(a, b.y), z: m3_vec_mul(a, b.z) }
}

/// Exact determinant: the scalar triple product of the rows, equivalent to
/// cofactor expansion along the first column.
pub open spec fn m3_det(m: M3) -> Rat {
    v3_dot(v3_cross(m3_transpose(m).x, m3_transpose(m).y), m3_transpose(m).z)
}

/// Exact adjugate (the cofactor transpose): each column is the cross product
/// of two rows of `m`.
pub open spec fn m3_adjugate(m: M3) -> M3 {
    M3 {
        x: v3_cross(m3_transpose(m).y, m3_transpose(m).z),
        y: v3_cross(m3_transpose(m).z, m3_transpose(m).x),
        z: v3_cross(m3_transpose(m).x, m3_transpose(m).y),
    }
}

/// Exact inverse: the adjugate scaled by the reciprocal determinant, absent
/// exactly when the determinant is zero.
pub open spec fn m3_inverse(m: M3) -> Option<M3> {
    if m3_det(m).n == 0 {
        None
    } else {
        Some(m3_scalar_mul(m3_adjugate(m), rat_recip(m3_det(m))))
    }
}

/// Everything the determinant computes on its way stays within the storage
/// range.
pub open spec fn m3_det_fits(m: M3) -> bool {
    &&& v3_in_range(v3_cross(m3_transpose(m).x, m3_transpose(m).y))
    &&& rat_in_range(m3_det(m))
}

/// The two representations denote the same matrix, columnwise.
pub open spec fn m3_sim(a: M3, b: M3) -> bool {
    v3_sim(a.x, b.x) && v3_sim(a.y, b.y) && v3_sim(a.z, b.z)
}

/// The 2D translation by `v` in homogeneous coordinates: the identity with
/// `v` in the last column.
pub open spec fn m3_translate(v: V2) -> M3 {
    M3 {
        x: V3 { x: v.d, y: 0, z: 0, d: v.d },
        y: V3 { x: 0, y: v.d, z: 0, d: v.d },
        z: V3 { x: v.x, y: v.y, z: v.d, d: v.d },
    }
}

/// The 2D rotation whose sine and cosine are `s` and `c`, in homogeneous
/// coordinates.
pub open spec fn m3_rotate(s: Rat, c: Rat) -> M3 {
    M3 {
        x: V3 { x: c.n * s.d, y: s.n * c.d, z: 0, d: c.d * s.d },
        y: V3 { x: -(s.n * c.d), y: c.n * s.d, z: 0, d: c.d * s.d },
        z: V3 { x: 0, y: 0, z: c.d * s.d, d: c.d * s.d },
    }
}

/// The 2D scaling by the components of `v`, in homogeneous coordinates.
pub open spec fn m3_scale(v: V2) -> M3 {
    M3 {
        x: V3 { x: v.x, y: 0, z: 0, d: v.d },
        y: V3 { x: 0, y: v.y, z: 0, d: v.d },
        z: V3 { x: 0, y: 0, z: v.d, d: v.d },
    }
}

/// The 2D orthographic projection of the box `[left, right] x [bottom, top]`
/// onto the unit square, in homogeneous coordinates.
pub open spec fn m3_ortho(left: Rat, right: Rat, bottom: Rat, top: Rat) -> M3 {
    m3_new(
        v3_new(rat_div(rat_from_int(2), rat_sub(right, left)), rat_from_int(0), rat_from_int(0)),
        v3_new(rat_from_int(0), rat_div(rat_from_int(2), rat_sub(top, bottom)), rat_from_int(0)),
        v3_new(rat_from_int(0), rat_from_int(0), rat_neg(rat_from_int(1))),
    )
}

/// Everything the orthographic construction stores on its way stays within
/// the storage range.
pub open spec fn m3_ortho_fits(left: Rat, right: Rat, bottom: Rat, top: Rat) -> bool {
    &&& rat_in_range(rat_sub(right, left))
    &&& rat_in_range(rat_sub(top, bottom))
    &&& rat_in_range(rat_div(rat_from_int(2), rat_sub(right, left)))
    &&& rat_in_range(rat_div(rat_from_int(2), rat_sub(top, bottom)))
    &&& v3_in_range(
        v3_new(rat_div(rat_from_int(2), rat_sub(right, left)), rat_from_int(0), rat_from_int(0)),
    )
    &&& v3_in_range(
        v3_new(rat_from_int(0), rat_div(rat_from_int(2), rat_sub(top, bottom)), rat_from_int(0)),
    )
    &&& m3_in_range(m3_ortho(left, right, bottom, top))
}

/// A 3x3 matrix of exact rational entries; the fields are the columns.
#[derive(Clone, Copy, Debug)]
pub struct Matrix3 {
    pub x: Vector3,
    pub y: Vector3,
    pub z: Vector3,
}

impl View for Matrix3 {
    type V = M3;

    open spec fn view(&self) -> M3 {
        M3 { x: self.x@, y: self.y@, z: self.z@ }
    }
}

impl PartialEq for Matrix3 {
    fn eq(&self, other: &Matrix3) -> (r: bool) {
        self.x == other.x && self.y == other.y && self.z == other.z
    }
}

impl vstd::std_specs::cmp::PartialEqSpecImpl for Matrix3 {
    open spec fn obeys_eq_spec() -> bool {
        true
    }

    open spec fn eq_spec(&self, other: &Matrix3) -> bool {
        m3_sim(self@, other@)
    }
}

/// The column `v` with numerators and denominator multiplied by `k`.
pub(crate) fn col3_times(v: &Vector3, k: i64) -> (r: Vector3)
    requires
        v3_wf(v@),
        1 <= k,
        v3_in_range(v3_times(v@, k as int)),
    ensures
        r@ == v3_times(v@, k as int),
        v3_wf(r@),
{
    proof {
        lemma_pos_mul(v@.d, k as int);
        assert(in_range(k as int)) by (nonlinear_arith)
            requires
                1 <= v@.d,
                in_range(v@.d * (k as int)),
        ;
    }
    Vector3 {
        x: mul_wide(v.x, k) as i64,
        y: mul_wide(v.y, k) as i64,
        z: mul_wide(v.z, k) as i64,
        d: mul_wide(v.d, k) as i64,
    }
}

impl Matrix3 {
    /// The matrix with the given columns.
    pub fn new(x: Vector3, y: Vector3, z: Vector3) -> (r: Matrix3)
        requires
            v3_wf(x@),
            v3_wf(y@),
            v3_wf(z@),
            m3_in_range(m3_new(x@, y@, z@)),
        ensures
            r@ == m3_new(x@, y@, z@),
            m3_wf(r@),
    {
        if x.d == y.d && x.d == z.d {
            Matrix3 { x, y, z }
        } else {
            proof {
                lemma_pos_mul(y@.d, z@.d);
                lemma_pos_mul(x@.d, z@.d);
                lemma_pos_mul(x@.d, y@.d);
                assert(in_range(y@.d * z@.d) && in_range(x@.d * z@.d) && in_range(x@.d * y@.d))
                    by (nonlinear_arith)
                    requires
                        1 <= x@.d,
                        1 <= y@.d,
                        1 <= z@.d,
                        in_range(x@.d * (y@.d * z@.d)),
                        in_range(y@.d * (x@.d * z@.d)),
                        in_range(z@.d * (x@.d * y@.d)),
                ;
            }
            let r = Matrix3 {
                x: col3_times(&x, mul_wide(y.d, z.d) as i64),
                y: col3_times(&y, mul_wide(x.d, z.d) as i64),
                z: col3_times(&z, mul_wide(x.d, y.d) as i64),
            };
            proof {
                assert(x@.d * (y@.d * z@.d) == y@.d * (x@.d * z@.d) && x@.d * (y@.d * z@.d)
                    == z@.d * (x@.d * y@.d)) by (nonlinear_arith);
            }
            r
        }
    }

    /// The identity matrix.
    pub fn identity() -> (r: Matrix3)
        ensures
            r@ == m3_identity(),
            m3_wf(r@),
    {
        Matrix3 {
            x: Vector3 { x: 1, y: 0, z: 0, d: 1 },
            y: Vector3 { x: 0, y: 1, z: 0, d: 1 },
            z: Vector3 { x: 0, y: 0, z: 1, d: 1 },
        }
    }

    /// The transpose: column `i` of the result is row `i` of `m`.
    pub fn transpose(m: &Matrix3) -> (r: Matrix3)
        requires
            m3_wf(m@),
        ensures
            r@ == m3_transpose(m@),
            m3_wf(r@),
    {
        Matrix3 {
            x: Vector3 { x: m.x.x, y: m.y.x, z: m.z.x, d: m.x.d },
            y: Vector3 { x: m.x.y, y: m.y.y, z: m.z.y, d: m.y.d },
            z: Vector3 { x: m.x.z, y: m.y.z, z: m.z.z, d: m.z.d },
        }
    }

    /// Componentwise exact sum.
    pub fn add_matrix_and_matrix(a: &Matrix3, b: &Matrix3) -> (r: Matrix3)
        requires
            m3_wf(a@),
            m3_wf(b@),
            m3_in_range(m3_add(a@, b@)),
        ensures
            r@ == m3_add(a@, b@),
            m3_wf(r@),
    {
        Matrix3 {
            x: Vector3::add_vector_and_vector(&a.x, &b.x),
            y: Vector3::add_vector_and_vector(&a.y, &b.y),
            z: Vector3::add_vector_and_vector(&a.z, &b.z),
        }
    }

    /// Componentwise exact difference.
    pub fn sub_matrix_and_matrix(a: &Matrix3, b: &Matrix3) -> (r: Matrix3)
        requires
            m3_wf(a@),
            m3_wf(b@),
            m3_in_range(m3_sub(a@, b@)),
        ensures
            r@ == m3_sub(a@, b@),
            m3_wf(r@),
    {
        Matrix3 {
            x: Vector3::sub_vector_and_vector(&a.x, &b.x),
            y: Vector3::sub_vector_and_vector(&a.y, &b.y),
            z: Vector3::sub_vector_and_vector(&a.z, &b.z),
        }
    }

    /// Every entry scaled by the scalar `b`.
    pub fn mul_matrix_and_scalar(a: &Matrix3, b: &Scalar) -> (r: Matrix3)
        requires
            m3_wf(a@),
            rat_wf(b@),
            m3_in_range(m3_scalar_mul(a@, b@)),
        ensures
            r@ == m3_scalar_mul(a@, b@),
            m3_wf(r@),
    {
        Matrix3 {
            x: Vector3::mul_vector_and_scalar(&a.x, b),
            y: Vector3::mul_vector_and_scalar(&a.y, b),
            z: Vector3::mul_vector_and_scalar(&a.z, b),
        }
    }

    /// The matrix applied to a column vector, by dotting the rows of `a`
    /// (the columns of its transpose) with `b`.
    pub fn mul_matrix_and_vector(a: &Matrix3, b: &Vector3) -> (r: Vector3)
        requires
            m3_wf(a@),
            v3_wf(b@),
            v3_in_range(m3_vec_mul(a@, b@)),
        ensures
            r@ == m3_vec_mul(a@, b@),
            v3_wf(r@),
    {
        let t = Matrix3::transpose(a);
        let sx = Vector3::dot(&t.x, b);
        let sy = Vector3::dot(&t.y, b);
        let sz = Vector3::dot(&t.z, b);
        Vector3 { x: sx.n, y: sy.n, z: sz.n, d: sx.d }
    }

    /// The matrix product, column by column of `b`.
    pub fn mul_matrix_and_matrix(a: &Matrix3, b: &Matrix3) -> (r: Matrix3)
        requires
            m3_wf(a@),
            m3_wf(b@),
            m3_in_range(m3_mul(a@, b@)),
        ensures
            r@ == m3_mul(a@, b@),
            m3_wf(r@),
    {
        Matrix3 {
            x: Matrix3::mul_matrix_and_vector(a, &b.x),
            y: Matrix3::mul_matrix_and_vector(a, &b.y),
            z: Matrix3::mul_matrix_and_vector(a, &b.z),
        }
    }

    /// Exact determinant, as the scalar triple product of the rows.
    pub fn determinant(m: &Matrix3) -> (r: Scalar)
        requires
            m3_wf(m@),
            m3_det_fits(m@),
        ensures
            r@ == m3_det(m@),
            rat_wf(r@),
    {
        let t = Matrix3::transpose(m);
        let c = Vector3::cross(&t.x, &t.y);
        Vector3::dot(&c, &t.z)
    }

    /// Exact adjugate: each column a cross product of two rows, which builds
    /// the cofactor transpose.
    pub fn adjugate(m: &Matrix3) -> (r: Matrix3)
        requires
            m3_wf(m@),
            m3_in_range(m3_adjugate(m@)),
        ensures
            r@ == m3_adjugate(m@),
            m3_wf(r@),
    {
        let t = Matrix3::transpose(m);
        Matrix3 {
            x: Vector3::cross(&t.y, &t.z),
            y: Vector3::cross(&t.z, &t.x),
            z: Vector3::cross(&t.x, &t.y),
        }
    }

    /// The inverse, absent exactly when the determinant is zero: the adjugate
    /// scaled by the reciprocal determinant.
    pub fn inverse(m: &Matrix3) -> (r: Option<Matrix3>)
        requires
            m3_wf(m@),
            m3_det_fits(m@),
            m3_in_range(m3_adjugate(m@)),
            m3_det(m@).n != 0 ==> m3_in_range(
                m3_scalar_mul(m3_adjugate(m@), rat_recip(m3_det(m@))),
            ),
        ensures
            (r is Some) == (m3_det(m@).n != 0),
            r matches Some(inv) ==> m3_inverse(m@) == Some(inv@) && m3_wf(inv@),
    {
        let det = Matrix3::determinant(m);
        if det.n == 0 {
            None
        } else {
            let invdet = Scalar::recip(&det);
            let adj = Matrix3::adjugate(m);
            Some(Matrix3::mul_matrix_and_scalar(&adj, &invdet))
        }
    }

    /// The 2D translation by `v` in homogeneous coordinates.
    pub fn translate(v: &Vector2) -> (r: Matrix3)
        requires
            v2_wf(v@),
        ensures
            r@ == m3_translate(v@),
            m3_wf(r@),
    {
        Matrix3 {
            x: Vector3 { x: v.d, y: 0, z: 0, d: v.d },
            y: Vector3 { x: 0, y: v.d, z: 0, d: v.d },
            z: Vector3 { x: v.x, y: v.y, z: v.d, d: v.d },
        }
    }

    /// The 2D rotation whose sine and cosine are `s` and `c`, in homogeneous
    /// coordinates. A caller models the rotation by an angle by handing in
    /// that angle's exact sine and cosine.
    pub fn rotate(s: &Scalar, c: &Scalar) -> (r: Matrix3)
        requires
            rat_wf(s@),
            rat_wf(c@),
            m3_in_range(m3_rotate(s@, c@)),
        ensures
            r@ == m3_rotate(s@, c@),
            m3_wf(r@),
    {
        proof {
            lemma_pos_mul(c@.d, s@.d);
        }
        let cs = mul_wide(c.n, s.d) as i64;
        let sc = mul_wide(s.n, c.d) as i64;
        let dd = mul_wide(c.d, s.d) as i64;
        Matrix3 {
            x: Vector3 { x: cs, y: sc, z: 0, d: dd },
            y: Vector3 { x: -sc, y: cs, z: 0, d: dd },
            z: Vector3 { x: 0, y: 0, z: dd, d: dd },
        }
    }

    /// The 2D scaling by the components of `v`, in homogeneous coordinates.
    pub fn scale(v: &Vector2) -> (r: Matrix3)
        requires
            v2_wf(v@),
        ensures
            r@ == m3_scale(v@),
            m3_wf(r@),
    {
        Matrix3 {
            x: Vector3 { x: v.x, y: 0, z: 0, d: v.d },
            y: Vector3 { x: 0, y: v.y, z: 0, d: v.d },
            z: Vector3 { x: 0, y: 0, z: v.d, d: v.d },
        }
    }

    /// The 2D orthographic projection of the box `[left, right] x
    /// [bottom, top]` onto the unit square, in homogeneous coordinates. The
    /// box must not be flat: `left != right` and `bottom != top`.
    pub fn ortho(left: &Scalar, right: &Scalar, bottom: &Scalar, top: &Scalar) -> (r: Matrix3)
        requires
            rat_wf(left@),
            rat_wf(right@),
            rat_wf(bottom@),
            rat_wf(top@),
            rat_sub(right@, left@).n != 0,
            rat_sub(top@, bottom@).n != 0,
            m3_ortho_fits(left@, right@, bottom@, top@),
        ensures
            r@ == m3_ortho(left@, right@, bottom@, top@),
            m3_wf(r@),
    {
        let two = Scalar::from_int(2);
        let zero = Scalar::from_int(0);
        let rl = Scalar::sub_scalar_and_scalar(right, left);
        let tb = Scalar::sub_scalar_and_scalar(top, bottom);
        let sx = Scalar::div_scalar_and_scalar(&two, &rl);
        let sy = Scalar::div_scalar_and_scalar(&two, &tb);
        let neg_one = Scalar::from_int(-1);
        Matrix3::new(
            Vector3::new(sx, zero, zero),
            Vector3::new(zero, sy, zero),
            Vector3::new(zero, zero, neg_one),
        )
    }

    /// Replaces `self` with `self + rhs`.
    pub fn add_assign(&mut self, rhs: &Matrix3)
        requires
            m3_wf(old(self)@),
            m3_wf(rhs@),
            m3_in_range(m3_add(old(self)@, rhs@)),
        ensures
            final(self)@ == m3_add(old(self)@, rhs@),
            m3_wf(final(self)@),
    {
        let a = *self;
        *self = Matrix3::add_matrix_and_matrix(&a, rhs);
    }

    /// Replaces `self` with `self - rhs`.
    pub fn sub_assign(&mut self, rhs: &Matrix3)
        requires
            m3_wf(old(self)@),
            m3_wf(rhs@),
            m3_in_range(m3_sub(old(self)@, rhs@)),
        ensures
            final(self)@ == m3_sub(old(self)@, rhs@),
            m3_wf(final(self)@),
    {
        let a = *self;
        *self = Matrix3::sub_matrix_and_matrix(&a, rhs);
    }
}

} // verus!
