//! The algebra laws of the 2x2 matrices, proved over the specification
//! model: the adjugate identity and the inverse law, singularity on repeated
//! columns, transpose involution, associativity of the matrix product, and
//! multiplicativity of the determinant.

use crate::matrix2::M2;
use crate::matrix2::m2_adjugate;
use crate::matrix2::m2_det;
use crate::matrix2::m2_identity;
use crate::matrix2::m2_inverse;
use crate::matrix2::m2_mul;
use crate::matrix2::m2_scalar_mul;
use crate::matrix2::m2_sim;
use crate::matrix2::m2_transpose;
use crate::matrix2::m2_vec_mul;
use crate::matrix2::m2_wf;
use crate::scalar::lemma_recip_cross;
use crate::scalar::rat_from_int;
use crate::scalar::rat_mul;
use crate::scalar::rat_recip;
use crate::scalar::rat_sim;
use crate::vector::v2_sim;
use vstd::prelude::*;

verus! {

proof fn adj2_col_x(m: M2)
    ensures
        m2_vec_mul(m, m2_adjugate(m).x).x == m2_det(m).n,
        m2_vec_mul(m, m2_adjugate(m).x).y == 0,
{
    let g0: int = m.x.x * m.y.y - m.x.y * m.y.x;
    assert((m.y.x) * ((0 - m.x.y)) == (0 - m.x.y * m.y.x)
        && (m.y.y) * ((0 - m.x.y)) == (0 - m.x.y * m.y.y)
    ) by (nonlinear_arith);
    assert((m.x.x) * (m.y.y) == m.x.x * m.y.y);
    assert(-(m.x.y) == (0 - m.x.y));
    assert((m.y.x) * ((0 - m.x.y)) == (0 - m.x.y * m.y.x));
    assert((m.x.x * m.y.y) + ((0 - m.x.y * m.y.x)) == g0);
    assert((m.x.y) * (m.y.y) == m.x.y * m.y.y);
    assert(-(m.x.y) == (0 - m.x.y));
    assert((m.y.y) * ((0 - m.x.y)) == (0 - m.x.y * m.y.y));
    assert((m.x.y * m.y.y) + ((0 - m.x.y * m.y.y)) == 0);
    assert((m.x.x) * (m.y.y) == m.x.x * m.y.y);
    assert((m.x.y) * (m.y.x) == m.x.y * m.y.x);
    assert((m.x.x * m.y.y) - (m.x.y * m.y.x) == g0);
}

proof fn adj2_col_y(m: M2)
    ensures
        m2_vec_mul(m, m2_adjugate(m).y).x == 0,
        m2_vec_mul(m, m2_adjugate(m).y).y == m2_det(m).n,
{
    let g0: int = m.x.x * m.y.y - m.x.y * m.y.x;
    assert((m.x.x) * ((0 - m.y.x)) == (0 - m.x.x * m.y.x)
        && m.y.x * m.x.x == m.x.x * m.y.x
        && (m.x.y) * ((0 - m.y.x)) == (0 - m.x.y * m.y.x)
        && m.y.y * m.x.x == m.x.x * m.y.y
    ) by (nonlinear_arith);
    assert(-(m.y.x) == (0 - m.y.x));
    assert((m.x.x) * ((0 - m.y.x)) == (0 - m.x.x * m.y.x));
    assert((m.y.x) * (m.x.x) == m.x.x * m.y.x);
    assert(((0 - m.x.x * m.y.x)) + (m.x.x * m.y.x) == 0);
    assert(-(m.y.x) == (0 - m.y.x));
    assert((m.x.y) * ((0 - m.y.x)) == (0 - m.x.y * m.y.x));
    assert((m.y.y) * (m.x.x) == m.x.x * m.y.y);
    assert(((0 - m.x.y * m.y.x)) + (m.x.x * m.y.y) == g0);
    assert((m.x.x) * (m.y.y) == m.x.x * m.y.y);
    assert((m.x.y) * (m.y.x) == m.x.y * m.y.x);
    assert((m.x.x * m.y.y) - (m.x.y * m.y.x) == g0);
}

/// The adjugate identity: `m * adjugate(m)` denotes the same matrix as
/// `determinant(m) * identity`.
pub proof fn lemma_mul_adjugate_2(m: M2)
    requires
        m2_wf(m),
    ensures
        m2_sim(m2_mul(m, m2_adjugate(m)), m2_scalar_mul(m2_identity(), m2_det(m))),
{
    adj2_col_x(m);
    adj2_col_y(m);
    assert((m.x.d * m.y.d) * 1 == 1 * (m.x.d * (m.x.d))) by (nonlinear_arith)
        requires
            m.x.d == m.y.d,

    ;
    assert((m.x.d * m.y.d) * 1 == 1 * (m.x.d * (m.y.d))) by (nonlinear_arith)
        requires
            m.x.d == m.y.d,

    ;
}

proof fn inv2_factor_x_x(m: M2, rn: int)
    ensures
        m.x.x * (m.y.y * rn) + m.y.x * ((-m.x.y) * rn) == (m.x.x * m.y.y + m.y.x * (-m.x.y)) * rn,
{
    let e0: int = m.y.y;
    let e1: int = -m.x.y;
    assert(m.x.x * (e0 * rn) == m.x.x * e0 * rn
        && m.y.x * (e1 * rn) == m.y.x * e1 * rn
        && (m.x.x * e0 + m.y.x * e1) * rn == (m.x.x * e0) * rn + (m.y.x * e1) * rn
    ) by (nonlinear_arith);
}

proof fn inv2_factor_x_y(m: M2, rn: int)
    ensures
        m.x.y * (m.y.y * rn) + m.y.y * ((-m.x.y) * rn) == (m.x.y * m.y.y + m.y.y * (-m.x.y)) * rn,
{
    let e0: int = m.y.y;
    let e1: int = -m.x.y;
    assert(m.x.y * (e0 * rn) == m.x.y * e0 * rn
        && m.y.y * (e1 * rn) == m.y.y * e1 * rn
        && (m.x.y * e0 + m.y.y * e1) * rn == (m.x.y * e0) * rn + (m.y.y * e1) * rn
    ) by (nonlinear_arith);
}

proof fn inv2_factor_y_x(m: M2, rn: int)
    ensures
        m.x.x * ((-m.y.x) * rn) + m.y.x * (m.x.x * rn) == (m.x.x * (-m.y.x) + m.y.x * m.x.x) * rn,
{
    let e0: int = -m.y.x;
    let e1: int = m.x.x;
    assert(m.x.x * (e0 * rn) == m.x.x * e0 * rn
        && m.y.x * (e1 * rn) == m.y.x * e1 * rn
        && (m.x.x * e0 + m.y.x * e1) * rn == (m.x.x * e0) * rn + (m.y.x * e1) * rn
    ) by (nonlinear_arith);
}

proof fn inv2_factor_y_y(m: M2, rn: int)
    ensures
        m.x.y * ((-m.y.x) * rn) + m.y.y * (m.x.x * rn) == (m.x.y * (-m.y.x) + m.y.y * m.x.x) * rn,
{
    let e0: int = -m.y.x;
    let e1: int = m.x.x;
    assert(m.x.y * (e0 * rn) == m.x.y * e0 * rn
        && m.y.y * (e1 * rn) == m.y.y * e1 * rn
        && (m.x.y * e0 + m.y.y * e1) * rn == (m.x.y * e0) * rn + (m.y.y * e1) * rn
    ) by (nonlinear_arith);
}

/// The inverse law: an invertible matrix times its inverse denotes the
/// identity.
#[verifier::rlimit(50)]
pub proof fn lemma_mul_inverse_identity_2(m: M2)
    requires
        m2_wf(m),
        m2_det(m).n != 0,
    ensures
        m2_inverse(m) matches Some(inv) && m2_sim(m2_mul(m, inv), m2_identity()),
{
    let rn: int = rat_recip(m2_det(m)).n;
    let rd: int = rat_recip(m2_det(m)).d;
    lemma_recip_cross(m2_det(m));
    adj2_col_x(m);
    inv2_factor_x_x(m, rn);
    inv2_factor_x_y(m, rn);
    adj2_col_y(m);
    inv2_factor_y_x(m, rn);
    inv2_factor_y_y(m, rn);
    assert((m.x.d * m.y.d) * rd == m.x.d * ((m.x.d) * rd)) by (nonlinear_arith)
        requires
            m.x.d == m.y.d,
    ;
    assert((m.x.d * m.y.d) * rd == m.x.d * ((m.y.d) * rd)) by (nonlinear_arith)
        requires
            m.x.d == m.y.d,
    ;
    let inv = m2_scalar_mul(m2_adjugate(m), rat_recip(m2_det(m)));
    assert(m2_det(m).n * rn == m2_det(m).d * rd);
    assert(m2_mul(m, inv).x.x == m.x.x * (m.y.y * rn) + m.y.x * ((-m.x.y) * rn));
    assert(m2_mul(m, inv).x.x == m2_det(m).n * rn);
    assert(m2_mul(m, inv).x.y == m.x.y * (m.y.y * rn) + m.y.y * ((-m.x.y) * rn));
    assert(m2_vec_mul(m, m2_adjugate(m).x).y == 0);
    assert(m2_mul(m, inv).x.y == 0);
    assert(m2_mul(m, inv).x.y * 1 == 0 * m2_mul(m, inv).x.d);
    assert(m2_mul(m, inv).x.d == m.x.d * ((m.x.d) * rd));
    assert(m2_det(m).d * rd == m2_mul(m, inv).x.d);
    assert(m2_mul(m, inv).x.x * 1 == 1 * m2_mul(m, inv).x.d);
    assert(v2_sim(m2_mul(m, inv).x, m2_identity().x));
    assert(m2_mul(m, inv).y.x == m.x.x * ((-m.y.x) * rn) + m.y.x * (m.x.x * rn));
    assert(m2_vec_mul(m, m2_adjugate(m).y).x == 0);
    assert(m2_mul(m, inv).y.x == 0);
    assert(m2_mul(m, inv).y.x * 1 == 0 * m2_mul(m, inv).y.d);
    assert(m2_mul(m, inv).y.y == m.x.y * ((-m.y.x) * rn) + m.y.y * (m.x.x * rn));
    assert(m2_mul(m, inv).y.y == m2_det(m).n * rn);
    assert(m2_mul(m, inv).y.d == m.x.d * ((m.y.d) * rd));
    assert(m2_det(m).d * rd == m2_mul(m, inv).y.d);
    assert(m2_mul(m, inv).y.y * 1 == 1 * m2_mul(m, inv).y.d);
    assert(v2_sim(m2_mul(m, inv).y, m2_identity().y));
    assert(m2_sim(m2_mul(m, inv), m2_identity()));
    assert(m2_inverse(m) == Some(inv));
}

/// Transposing twice gives back the matrix.
pub proof fn lemma_transpose_involution_2(m: M2)
    ensures
        m2_transpose(m2_transpose(m)) == m,
{
}

proof fn singular2_case_x_y(m: M2)
    requires
        m.x == m.y,
    ensures
        m2_det(m).n == 0,
{
    assert(m.x.y * m.x.x == m.x.x * m.x.y) by (nonlinear_arith);
    assert(m.x.x * m.y.y - m.x.y * m.y.x == m.x.x * m.x.y - m.x.y * m.x.x);
    assert((m.x.x) * (m.x.y) == m.x.x * m.x.y);
    assert((m.x.y) * (m.x.x) == m.x.x * m.x.y);
    assert((m.x.x * m.x.y) - (m.x.x * m.x.y) == 0);
}

/// A matrix with two equal columns is singular: its determinant denotes
/// zero and it has no inverse.
pub proof fn lemma_equal_columns_singular_2(m: M2)
    requires
        m.x == m.y,
    ensures
        m2_det(m).n == 0,
        rat_sim(m2_det(m), rat_from_int(0)),
        m2_inverse(m) is None,
{
    if m.x == m.y {
        singular2_case_x_y(m);
    }
}

proof fn assoc2_part_x_x(a: M2, b: M2, c: M2)
    ensures
        m2_mul(m2_mul(a, b), c).x.x == m2_mul(a, m2_mul(b, c)).x.x,
{
    let g0: int = a.x.x * b.x.x + a.y.x * b.x.y;
    let g1: int = a.x.x * b.x.x * c.x.x + a.y.x * b.x.y * c.x.x;
    let g2: int = a.x.x * b.y.x + a.y.x * b.y.y;
    let g3: int = a.x.x * b.y.x * c.x.y + a.y.x * b.y.y * c.x.y;
    let g4: int = a.x.x * b.x.x * c.x.x + a.x.x * b.y.x * c.x.y;
    let g5: int = g4 + a.y.x * b.x.y * c.x.x;
    let g6: int = g5 + a.y.x * b.y.y * c.x.y;
    let g7: int = b.x.x * c.x.x + b.y.x * c.x.y;
    let g8: int = b.x.y * c.x.x + b.y.y * c.x.y;
    let g9: int = a.y.x * b.x.y * c.x.x + a.y.x * b.y.y * c.x.y;
    assert((a.x.x * b.x.x + a.y.x * b.x.y) * (c.x.x) == a.x.x * b.x.x * (c.x.x) + (a.y.x * b.x.y) * (c.x.x)
        && (a.x.x * b.y.x + a.y.x * b.y.y) * (c.x.y) == a.x.x * b.y.x * (c.x.y) + (a.y.x * b.y.y) * (c.x.y)
    ) by (nonlinear_arith);
    assert((a.x.x) * (b.x.x * c.x.x + b.y.x * c.x.y) == (a.x.x) * (b.x.x * c.x.x) + (a.x.x) * (b.y.x * c.x.y)
        && a.x.x * (b.x.x * c.x.x) == a.x.x * b.x.x * c.x.x
        && a.x.x * (b.y.x * c.x.y) == a.x.x * b.y.x * c.x.y
    ) by (nonlinear_arith);
    assert((a.y.x) * (b.x.y * c.x.x + b.y.y * c.x.y) == (a.y.x) * (b.x.y * c.x.x) + (a.y.x) * (b.y.y * c.x.y)
        && a.y.x * (b.x.y * c.x.x) == a.y.x * b.x.y * c.x.x
        && a.y.x * (b.y.y * c.x.y) == a.y.x * b.y.y * c.x.y
    ) by (nonlinear_arith);
    assert((a.x.x) * (b.x.x) == a.x.x * b.x.x);
    assert((a.y.x) * (b.x.y) == a.y.x * b.x.y);
    assert((a.x.x * b.x.x) + (a.y.x * b.x.y) == g0);
    assert((g0) * (c.x.x) == g1);
    assert((g0) * (c.x.x) == g1);
    assert((a.x.x) * (b.y.x) == a.x.x * b.y.x);
    assert((a.y.x) * (b.y.y) == a.y.x * b.y.y);
    assert((a.x.x * b.y.x) + (a.y.x * b.y.y) == g2);
    assert((g2) * (c.x.y) == g3);
    assert((g2) * (c.x.y) == g3);
    assert((g1) + (g3) == g6);
    assert((b.x.x) * (c.x.x) == b.x.x * c.x.x);
    assert((b.y.x) * (c.x.y) == b.y.x * c.x.y);
    assert((b.x.x * c.x.x) + (b.y.x * c.x.y) == g7);
    assert((a.x.x) * (g7) == g4);
    assert((a.x.x) * (g7) == g4);
    assert((b.x.y) * (c.x.x) == b.x.y * c.x.x);
    assert((b.y.y) * (c.x.y) == b.y.y * c.x.y);
    assert((b.x.y * c.x.x) + (b.y.y * c.x.y) == g8);
    assert((a.y.x) * (g8) == g9);
    assert((a.y.x) * (g8) == g9);
    assert((g4) + (g9) == g6);
}

proof fn assoc2_part_x_y(a: M2, b: M2, c: M2)
    ensures
        m2_mul(m2_mul(a, b), c).x.y == m2_mul(a, m2_mul(b, c)).x.y,
{
    let g0: int = a.x.y * b.x.x + a.y.y * b.x.y;
    let g1: int = a.x.y * b.x.x * c.x.x + a.y.y * b.x.y * c.x.x;
    let g2: int = a.x.y * b.y.x + a.y.y * b.y.y;
    let g3: int = a.x.y * b.y.x * c.x.y + a.y.y * b.y.y * c.x.y;
    let g4: int = a.x.y * b.x.x * c.x.x + a.x.y * b.y.x * c.x.y;
    let g5: int = g4 + a.y.y * b.x.y * c.x.x;
    let g6: int = g5 + a.y.y * b.y.y * c.x.y;
    let g7: int = b.x.x * c.x.x + b.y.x * c.x.y;
    let g8: int = b.x.y * c.x.x + b.y.y * c.x.y;
    let g9: int = a.y.y * b.x.y * c.x.x + a.y.y * b.y.y * c.x.y;
    assert((a.x.y * b.x.x + a.y.y * b.x.y) * (c.x.x) == a.x.y * b.x.x * (c.x.x) + (a.y.y * b.x.y) * (c.x.x)
        && (a.x.y * b.y.x + a.y.y * b.y.y) * (c.x.y) == a.x.y * b.y.x * (c.x.y) + (a.y.y * b.y.y) * (c.x.y)
    ) by (nonlinear_arith);
    assert((a.x.y) * (b.x.x * c.x.x + b.y.x * c.x.y) == (a.x.y) * (b.x.x * c.x.x) + (a.x.y) * (b.y.x * c.x.y)
        && a.x.y * (b.x.x * c.x.x) == a.x.y * b.x.x * c.x.x
        && a.x.y * (b.y.x * c.x.y) == a.x.y * b.y.x * c.x.y
    ) by (nonlinear_arith);
    assert((a.y.y) * (b.x.y * c.x.x + b.y.y * c.x.y) == (a.y.y) * (b.x.y * c.x.x) + (a.y.y) * (b.y.y * c.x.y)
        && a.y.y * (b.x.y * c.x.x) == a.y.y * b.x.y * c.x.x
        && a.y.y * (b.y.y * c.x.y) == a.y.y * b.y.y * c.x.y
    ) by (nonlinear_arith);
    assert((a.x.y) * (b.x.x) == a.x.y * b.x.x);
    assert((a.y.y) * (b.x.y) == a.y.y * b.x.y);
    assert((a.x.y * b.x.x) + (a.y.y * b.x.y) == g0);
    assert((g0) * (c.x.x) == g1);
    assert((g0) * (c.x.x) == g1);
    assert((a.x.y) * (b.y.x) == a.x.y * b.y.x);
    assert((a.y.y) * (b.y.y) == a.y.y * b.y.y);
    assert((a.x.y * b.y.x) + (a.y.y * b.y.y) == g2);
    assert((g2) * (c.x.y) == g3);
    assert((g2) * (c.x.y) == g3);
    assert((g1) + (g3) == g6);
    assert((b.x.x) * (c.x.x) == b.x.x * c.x.x);
    assert((b.y.x) * (c.x.y) == b.y.x * c.x.y);
    assert((b.x.x * c.x.x) + (b.y.x * c.x.y) == g7);
    assert((a.x.y) * (g7) == g4);
    assert((a.x.y) * (g7) == g4);
    assert((b.x.y) * (c.x.x) == b.x.y * c.x.x);
    assert((b.y.y) * (c.x.y) == b.y.y * c.x.y);
    assert((b.x.y * c.x.x) + (b.y.y * c.x.y) == g8);
    assert((a.y.y) * (g8) == g9);
    assert((a.y.y) * (g8) == g9);
    assert((g4) + (g9) == g6);
}

proof fn assoc2_part_x_d(a: M2, b: M2, c: M2)
    ensures
        m2_mul(m2_mul(a, b), c).x.d == m2_mul(a, m2_mul(b, c)).x.d,
{
    assert(a.x.d * (b.x.d * c.x.d) == a.x.d * b.x.d * c.x.d) by (nonlinear_arith);
    assert((a.x.d) * (b.x.d) == a.x.d * b.x.d);
    assert((a.x.d * b.x.d) * (c.x.d) == a.x.d * b.x.d * c.x.d);
    assert((b.x.d) * (c.x.d) == b.x.d * c.x.d);
    assert((a.x.d) * (b.x.d * c.x.d) == a.x.d * b.x.d * c.x.d);
}

proof fn assoc2_part_y_x(a: M2, b: M2, c: M2)
    ensures
        m2_mul(m2_mul(a, b), c).y.x == m2_mul(a, m2_mul(b, c)).y.x,
{
    let g0: int = a.x.x * b.x.x + a.y.x * b.x.y;
    let g1: int = a.x.x * b.x.x * c.y.x + a.y.x * b.x.y * c.y.x;
    let g2: int = a.x.x * b.y.x + a.y.x * b.y.y;
    let g3: int = a.x.x * b.y.x * c.y.y + a.y.x * b.y.y * c.y.y;
    let g4: int = a.x.x * b.x.x * c.y.x + a.x.x * b.y.x * c.y.y;
    let g5: int = g4 + a.y.x * b.x.y * c.y.x;
    let g6: int = g5 + a.y.x * b.y.y * c.y.y;
    let g7: int = b.x.x * c.y.x + b.y.x * c.y.y;
    let g8: int = b.x.y * c.y.x + b.y.y * c.y.y;
    let g9: int = a.y.x * b.x.y * c.y.x + a.y.x * b.y.y * c.y.y;
    assert((a.x.x * b.x.x + a.y.x * b.x.y) * (c.y.x) == a.x.x * b.x.x * (c.y.x) + (a.y.x * b.x.y) * (c.y.x)
        && (a.x.x * b.y.x + a.y.x * b.y.y) * (c.y.y) == a.x.x * b.y.x * (c.y.y) + (a.y.x * b.y.y) * (c.y.y)
    ) by (nonlinear_arith);
    assert((a.x.x) * (b.x.x * c.y.x + b.y.x * c.y.y) == (a.x.x) * (b.x.x * c.y.x) + (a.x.x) * (b.y.x * c.y.y)
        && a.x.x * (b.x.x * c.y.x) == a.x.x * b.x.x * c.y.x
        && a.x.x * (b.y.x * c.y.y) == a.x.x * b.y.x * c.y.y
    ) by (nonlinear_arith);
    assert((a.y.x) * (b.x.y * c.y.x + b.y.y * c.y.y) == (a.y.x) * (b.x.y * c.y.x) + (a.y.x) * (b.y.y * c.y.y)
        && a.y.x * (b.x.y * c.y.x) == a.y.x * b.x.y * c.y.x
        && a.y.x * (b.y.y * c.y.y) == a.y.x * b.y.y * c.y.y
    ) by (nonlinear_arith);
    assert((a.x.x) * (b.x.x) == a.x.x * b.x.x);
    assert((a.y.x) * (b.x.y) == a.y.x * b.x.y);
    assert((a.x.x * b.x.x) + (a.y.x * b.x.y) == g0);
    assert((g0) * (c.y.x) == g1);
    assert((g0) * (c.y.x) == g1);
    assert((a.x.x) * (b.y.x) == a.x.x * b.y.x);
    assert((a.y.x) * (b.y.y) == a.y.x * b.y.y);
    assert((a.x.x * b.y.x) + (a.y.x * b.y.y) == g2);
    assert((g2) * (c.y.y) == g3);
    assert((g2) * (c.y.y) == g3);
    assert((g1) + (g3) == g6);
    assert((b.x.x) * (c.y.x) == b.x.x * c.y.x);
    assert((b.y.x) * (c.y.y) == b.y.x * c.y.y);
    assert((b.x.x * c.y.x) + (b.y.x * c.y.y) == g7);
    assert((a.x.x) * (g7) == g4);
    assert((a.x.x) * (g7) == g4);
    assert((b.x.y) * (c.y.x) == b.x.y * c.y.x);
    assert((b.y.y) * (c.y.y) == b.y.y * c.y.y);
    assert((b.x.y * c.y.x) + (b.y.y * c.y.y) == g8);
    assert((a.y.x) * (g8) == g9);
    assert((a.y.x) * (g8) == g9);
    assert((g4) + (g9) == g6);
}

proof fn assoc2_part_y_y(a: M2, b: M2, c: M2)
    ensures
        m2_mul(m2_mul(a, b), c).y.y == m2_mul(a, m2_mul(b, c)).y.y,
{
    let g0: int = a.x.y * b.x.x + a.y.y * b.x.y;
    let g1: int = a.x.y * b.x.x * c.y.x + a.y.y * b.x.y * c.y.x;
    let g2: int = a.x.y * b.y.x + a.y.y * b.y.y;
    let g3: int = a.x.y * b.y.x * c.y.y + a.y.y * b.y.y * c.y.y;
    let g4: int = a.x.y * b.x.x * c.y.x + a.x.y * b.y.x * c.y.y;
    let g5: int = g4 + a.y.y * b.x.y * c.y.x;
    let g6: int = g5 + a.y.y * b.y.y * c.y.y;
    let g7: int = b.x.x * c.y.x + b.y.x * c.y.y;
    let g8: int = b.x.y * c.y.x + b.y.y * c.y.y;
    let g9: int = a.y.y * b.x.y * c.y.x + a.y.y * b.y.y * c.y.y;
    assert((a.x.y * b.x.x + a.y.y * b.x.y) * (c.y.x) == a.x.y * b.x.x * (c.y.x) + (a.y.y * b.x.y) * (c.y.x)
        && (a.x.y * b.y.x + a.y.y * b.y.y) * (c.y.y) == a.x.y * b.y.x * (c.y.y) + (a.y.y * b.y.y) * (c.y.y)
    ) by (nonlinear_arith);
    assert((a.x.y) * (b.x.x * c.y.x + b.y.x * c.y.y) == (a.x.y) * (b.x.x * c.y.x) + (a.x.y) * (b.y.x * c.y.y)
        && a.x.y * (b.x.x * c.y.x) == a.x.y * b.x.x * c.y.x
        && a.x.y * (b.y.x * c.y.y) == a.x.y * b.y.x * c.y.y
    ) by (nonlinear_arith);
    assert((a.y.y) * (b.x.y * c.y.x + b.y.y * c.y.y) == (a.y.y) * (b.x.y * c.y.x) + (a.y.y) * (b.y.y * c.y.y)
        && a.y.y * (b.x.y * c.y.x) == a.y.y * b.x.y * c.y.x
        && a.y.y * (b.y.y * c.y.y) == a.y.y * b.y.y * c.y.y
    ) by (nonlinear_arith);
    assert((a.x.y) * (b.x.x) == a.x.y * b.x.x);
    assert((a.y.y) * (b.x.y) == a.y.y * b.x.y);
    assert((a.x.y * b.x.x) + (a.y.y * b.x.y) == g0);
    assert((g0) * (c.y.x) == g1);
    assert((g0) * (c.y.x) == g1);
    assert((a.x.y) * (b.y.x) == a.x.y * b.y.x);
    assert((a.y.y) * (b.y.y) == a.y.y * b.y.y);
    assert((a.x.y * b.y.x) + (a.y.y * b.y.y) == g2);
    assert((g2) * (c.y.y) == g3);
    assert((g2) * (c.y.y) == g3);
    assert((g1) + (g3) == g6);
    assert((b.x.x) * (c.y.x) == b.x.x * c.y.x);
    assert((b.y.x) * (c.y.y) == b.y.x * c.y.y);
    assert((b.x.x * c.y.x) + (b.y.x * c.y.y) == g7);
    assert((a.x.y) * (g7) == g4);
    assert((a.x.y) * (g7) == g4);
    assert((b.x.y) * (c.y.x) == b.x.y * c.y.x);
    assert((b.y.y) * (c.y.y) == b.y.y * c.y.y);
    assert((b.x.y * c.y.x) + (b.y.y * c.y.y) == g8);
    assert((a.y.y) * (g8) == g9);
    assert((a.y.y) * (g8) == g9);
    assert((g4) + (g9) == g6);
}

proof fn assoc2_part_y_d(a: M2, b: M2, c: M2)
    ensures
        m2_mul(m2_mul(a, b), c).y.d == m2_mul(a, m2_mul(b, c)).y.d,
{
    assert(a.x.d * (b.x.d * c.y.d) == a.x.d * b.x.d * c.y.d) by (nonlinear_arith);
    assert((a.x.d) * (b.x.d) == a.x.d * b.x.d);
    assert((a.x.d * b.x.d) * (c.y.d) == a.x.d * b.x.d * c.y.d);
    assert((b.x.d) * (c.y.d) == b.x.d * c.y.d);
    assert((a.x.d) * (b.x.d * c.y.d) == a.x.d * b.x.d * c.y.d);
}

/// The matrix product is associative, entry for entry.
pub proof fn lemma_mul_associative_2(a: M2, b: M2, c: M2)
    ensures
        m2_mul(m2_mul(a, b), c) == m2_mul(a, m2_mul(b, c)),
{
    assoc2_part_x_x(a, b, c);
    assoc2_part_x_y(a, b, c);
    assoc2_part_x_d(a, b, c);
    assoc2_part_y_x(a, b, c);
    assoc2_part_y_y(a, b, c);
    assoc2_part_y_d(a, b, c);
}

/// The determinant is multiplicative over the matrix product.
pub proof fn lemma_det_multiplicative_2(a: M2, b: M2)
    requires
        m2_wf(a),
    ensures
        m2_det(m2_mul(a, b)) == rat_mul(m2_det(a), m2_det(b)),
{
    let g0: int = a.x.x * b.x.x + a.y.x * b.x.y;
    let g1: int = a.x.y * b.y.x + a.y.y * b.y.y;
    let g2: int = a.x.x * a.x.y * b.x.x * b.y.x + a.x.x * a.y.y * b.x.x * b.y.y;
    let g3: int = a.x.y * a.y.x * b.x.y * b.y.x + a.y.x * a.y.y * b.x.y * b.y.y;
    let g4: int = g2 + a.x.y * a.y.x * b.x.y * b.y.x;
    let g5: int = g4 + a.y.x * a.y.y * b.x.y * b.y.y;
    let g6: int = a.x.y * b.x.x + a.y.y * b.x.y;
    let g7: int = a.x.x * b.y.x + a.y.x * b.y.y;
    let g8: int = a.x.x * a.x.y * b.x.x * b.y.x + a.x.y * a.y.x * b.x.x * b.y.y;
    let g9: int = a.x.x * a.y.y * b.x.y * b.y.x + a.y.x * a.y.y * b.x.y * b.y.y;
    let g10: int = a.x.x * a.x.y * b.x.x * b.y.x + a.x.x * a.y.y * b.x.y * b.y.x;
    let g11: int = g10 + a.x.y * a.y.x * b.x.x * b.y.y;
    let g12: int = g11 + a.y.x * a.y.y * b.x.y * b.y.y;
    let g13: int = a.x.x * a.y.y * b.x.x * b.y.y - a.x.x * a.y.y * b.x.y * b.y.x;
    let g14: int = g13 - a.x.y * a.y.x * b.x.x * b.y.y;
    let g15: int = g14 + a.x.y * a.y.x * b.x.y * b.y.x;
    let g16: int = a.x.x * a.y.y - a.x.y * a.y.x;
    let g17: int = b.x.x * b.y.y - b.x.y * b.y.x;
    let g18: int = a.x.y * a.y.x * b.x.x * b.y.y - a.x.y * a.y.x * b.x.y * b.y.x;
    assert((a.x.x * b.x.x + a.y.x * b.x.y) * (g1) == a.x.x * b.x.x * (g1) + (a.y.x * b.x.y) * (g1)
        && (a.x.x * b.x.x) * (a.x.y * b.y.x + a.y.y * b.y.y) == (a.x.x * b.x.x) * (a.x.y * b.y.x) + (a.x.x * b.x.x) * (a.y.y * b.y.y)
    ) by (nonlinear_arith);
    assert((a.x.x * b.x.x) * (a.x.y * b.y.x) == a.x.x * a.x.y * b.x.x * b.y.x
        && (a.x.x * b.x.x) * (a.y.y * b.y.y) == a.x.x * a.y.y * b.x.x * b.y.y
    ) by (nonlinear_arith);
    assert((a.y.x * b.x.y) * (a.x.y * b.y.x + a.y.y * b.y.y) == (a.y.x * b.x.y) * (a.x.y * b.y.x) + (a.y.x * b.x.y) * (a.y.y * b.y.y)
        && (a.y.x * b.x.y) * (a.x.y * b.y.x) == a.x.y * a.y.x * b.x.y * b.y.x
    ) by (nonlinear_arith);
    assert((a.y.x * b.x.y) * (a.y.y * b.y.y) == a.y.x * a.y.y * b.x.y * b.y.y
        && (a.x.y * b.x.x + a.y.y * b.x.y) * (g7) == a.x.y * b.x.x * (g7) + (a.y.y * b.x.y) * (g7)
    ) by (nonlinear_arith);
    assert((a.x.y * b.x.x) * (a.x.x * b.y.x + a.y.x * b.y.y) == (a.x.y * b.x.x) * (a.x.x * b.y.x) + (a.x.y * b.x.x) * (a.y.x * b.y.y)
        && (a.x.y * b.x.x) * (a.x.x * b.y.x) == a.x.x * a.x.y * b.x.x * b.y.x
    ) by (nonlinear_arith);
    assert((a.x.y * b.x.x) * (a.y.x * b.y.y) == a.x.y * a.y.x * b.x.x * b.y.y
        && (a.y.y * b.x.y) * (a.x.x * b.y.x + a.y.x * b.y.y) == (a.y.y * b.x.y) * (a.x.x * b.y.x) + (a.y.y * b.x.y) * (a.y.x * b.y.y)
    ) by (nonlinear_arith);
    assert((a.y.y * b.x.y) * (a.x.x * b.y.x) == a.x.x * a.y.y * b.x.y * b.y.x
        && (a.y.y * b.x.y) * (a.y.x * b.y.y) == a.y.x * a.y.y * b.x.y * b.y.y
    ) by (nonlinear_arith);
    assert((a.x.x * a.y.y - a.x.y * a.y.x) * (g17) == a.x.x * a.y.y * (g17) - (a.x.y * a.y.x) * (g17)
        && (a.x.x * a.y.y) * (b.x.x * b.y.y - b.x.y * b.y.x) == (a.x.x * a.y.y) * (b.x.x * b.y.y) - (a.x.x * a.y.y) * (b.x.y * b.y.x)
    ) by (nonlinear_arith);
    assert((a.x.x * a.y.y) * (b.x.x * b.y.y) == a.x.x * a.y.y * b.x.x * b.y.y
        && (a.x.x * a.y.y) * (b.x.y * b.y.x) == a.x.x * a.y.y * b.x.y * b.y.x
    ) by (nonlinear_arith);
    assert((a.x.y * a.y.x) * (b.x.x * b.y.y - b.x.y * b.y.x) == (a.x.y * a.y.x) * (b.x.x * b.y.y) - (a.x.y * a.y.x) * (b.x.y * b.y.x)
        && (a.x.y * a.y.x) * (b.x.x * b.y.y) == a.x.y * a.y.x * b.x.x * b.y.y
    ) by (nonlinear_arith);
    assert((a.x.y * a.y.x) * (b.x.y * b.y.x) == a.x.y * a.y.x * b.x.y * b.y.x
        && (a.x.d * b.x.d) * (a.x.d * b.y.d) == a.x.d * a.x.d * b.x.d * b.y.d
        && (a.x.d * a.y.d) * (b.x.d * b.y.d) == a.x.d * a.y.d * b.x.d * b.y.d
    ) by (nonlinear_arith);
    assert((a.x.x) * (b.x.x) == a.x.x * b.x.x);
    assert((a.y.x) * (b.x.y) == a.y.x * b.x.y);
    assert((a.x.x * b.x.x) + (a.y.x * b.x.y) == g0);
    assert((a.x.y) * (b.y.x) == a.x.y * b.y.x);
    assert((a.y.y) * (b.y.y) == a.y.y * b.y.y);
    assert((a.x.y * b.y.x) + (a.y.y * b.y.y) == g1);
    assert((a.x.x * b.x.x) * (g1) == g2);
    assert((a.y.x * b.x.y) * (g1) == g3);
    assert((g0) * (g1) == g5);
    assert((g0) * (g1) == g5);
    assert((a.x.y) * (b.x.x) == a.x.y * b.x.x);
    assert((a.y.y) * (b.x.y) == a.y.y * b.x.y);
    assert((a.x.y * b.x.x) + (a.y.y * b.x.y) == g6);
    assert((a.x.x) * (b.y.x) == a.x.x * b.y.x);
    assert((a.y.x) * (b.y.y) == a.y.x * b.y.y);
    assert((a.x.x * b.y.x) + (a.y.x * b.y.y) == g7);
    assert((a.x.y * b.x.x) * (g7) == g8);
    assert((a.y.y * b.x.y) * (g7) == g9);
    assert((g6) * (g7) == g12);
    assert((g6) * (g7) == g12);
    assert((g5) - (g12) == g15);
    assert((a.x.x) * (a.y.y) == a.x.x * a.y.y);
    assert((a.x.y) * (a.y.x) == a.x.y * a.y.x);
    assert((a.x.x * a.y.y) - (a.x.y * a.y.x) == g16);
    assert((b.x.x) * (b.y.y) == b.x.x * b.y.y);
    assert((b.x.y) * (b.y.x) == b.x.y * b.y.x);
    assert((b.x.x * b.y.y) - (b.x.y * b.y.x) == g17);
    assert((a.x.x * a.y.y) * (g17) == g13);
    assert((a.x.y * a.y.x) * (g17) == g18);
    assert((g16) * (g17) == g15);
    assert((g16) * (g17) == g15);
    assert((a.x.d) * (b.x.d) == a.x.d * b.x.d);
    assert((a.x.d) * (b.y.d) == a.x.d * b.y.d);
    assert((a.x.d * b.x.d) * (a.x.d * b.y.d) == a.x.d * a.x.d * b.x.d * b.y.d);
    assert((a.x.d) * (a.y.d) == a.x.d * a.y.d);
    assert((b.x.d) * (b.y.d) == b.x.d * b.y.d);
    assert((a.x.d * a.y.d) * (b.x.d * b.y.d) == a.x.d * a.y.d * b.x.d * b.y.d);
    assert(a.x.d * a.x.d * b.x.d * b.y.d == a.x.d * a.y.d * b.x.d * b.y.d) by (nonlinear_arith)
        requires
            a.x.d == a.y.d,
    ;
}

} // verus!
