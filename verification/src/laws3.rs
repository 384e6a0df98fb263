//! The algebra laws of the 3x3 matrices, proved over the specification
//! model: the adjugate identity and the inverse law, singularity on repeated
//! columns, transpose involution, associativity of the matrix product, and
//! multiplicativity of the determinant.

use crate::matrix3::M3;
use crate::matrix3::m3_adjugate;
use crate::matrix3::m3_det;
use crate::matrix3::m3_identity;
use crate::matrix3::m3_inverse;
use crate::matrix3::m3_mul;
use crate::matrix3::m3_scalar_mul;
use crate::matrix3::m3_sim;
use crate::matrix3::m3_transpose;
use crate::matrix3::m3_vec_mul;
use crate::matrix3::m3_wf;
use crate::scalar::lemma_recip_cross;
use crate::scalar::rat_from_int;
use crate::scalar::rat_mul;
use crate::scalar::rat_recip;
use crate::scalar::rat_sim;
use crate::vector::v3_sim;
use vstd::prelude::*;

verus! {

proof fn adj3_col_x(m: M3)
    ensures
        m3_vec_mul(m, m3_adjugate(m).x).x == m3_det(m).n,
        m3_vec_mul(m, m3_adjugate(m).x).y == 0,
        m3_vec_mul(m, m3_adjugate(m).x).z == 0,
{
    let g0: int = m.y.y * m.z.z - m.y.z * m.z.y;
    let g1: int = m.x.x * m.y.y * m.z.z - m.x.x * m.y.z * m.z.y;
    let g2: int = (0 - m.x.y * m.z.z) + m.x.z * m.z.y;
    let g3: int = (0 - m.x.y * m.y.x * m.z.z) + m.x.z * m.y.x * m.z.y;
    let g4: int = g1 - m.x.y * m.y.x * m.z.z;
    let g5: int = g4 + m.x.z * m.y.x * m.z.y;
    let g6: int = m.x.y * m.y.z - m.x.z * m.y.y;
    let g7: int = m.x.y * m.y.z * m.z.x - m.x.z * m.y.y * m.z.x;
    let g8: int = g4 + m.x.y * m.y.z * m.z.x;
    let g9: int = g8 + m.x.z * m.y.x * m.z.y;
    let g10: int = g9 - m.x.z * m.y.y * m.z.x;
    let g11: int = m.x.y * m.y.y * m.z.z - m.x.y * m.y.z * m.z.y;
    let g12: int = (0 - m.x.y * m.y.y * m.z.z) + m.x.z * m.y.y * m.z.y;
    let g13: int = (0 - m.x.y * m.y.z * m.z.y) + m.x.z * m.y.y * m.z.y;
    let g14: int = m.x.y * m.y.z * m.z.y - m.x.z * m.y.y * m.z.y;
    let g15: int = m.x.z * m.y.y * m.z.z - m.x.z * m.y.z * m.z.y;
    let g16: int = (0 - m.x.y * m.y.z * m.z.z) + m.x.z * m.y.z * m.z.y;
    let g17: int = (0 - m.x.y * m.y.z * m.z.z) + m.x.z * m.y.y * m.z.z;
    let g18: int = m.x.y * m.y.z * m.z.z - m.x.z * m.y.y * m.z.z;
    let g19: int = m.y.x * m.z.y - m.y.y * m.z.x;
    let g20: int = m.x.z * m.y.x * m.z.y - m.x.z * m.y.y * m.z.x;
    let g21: int = (0 - m.x.x * m.z.y) + m.x.y * m.z.x;
    let g22: int = (0 - m.x.x * m.y.z * m.z.y) + m.x.y * m.y.z * m.z.x;
    let g23: int = g22 + m.x.z * m.y.x * m.z.y;
    let g24: int = g23 - m.x.z * m.y.y * m.z.x;
    let g25: int = m.x.x * m.y.y - m.x.y * m.y.x;
    let g26: int = m.x.x * m.y.y * m.z.z - m.x.y * m.y.x * m.z.z;
    assert(m.z.y * m.y.z == m.y.z * m.z.y
        && (m.x.x) * (m.y.y * m.z.z - m.y.z * m.z.y) == (m.x.x) * (m.y.y * m.z.z) - (m.x.x) * (m.y.z * m.z.y)
        && m.x.x * (m.y.y * m.z.z) == m.x.x * m.y.y * m.z.z
        && m.x.x * (m.y.z * m.z.y) == m.x.x * m.y.z * m.z.y
    ) by (nonlinear_arith);
    assert(m.z.y * m.x.z == m.x.z * m.z.y
        && (m.y.x) * ((0 - m.x.y * m.z.z) + m.x.z * m.z.y) == (m.y.x) * ((0 - m.x.y * m.z.z)) + (m.y.x) * (m.x.z * m.z.y)
        && (m.y.x) * ((0 - m.x.y * m.z.z)) == (0 - m.x.y * m.y.x * m.z.z)
        && m.y.x * (m.x.z * m.z.y) == m.x.z * m.y.x * m.z.y
    ) by (nonlinear_arith);
    assert(m.y.y * m.x.z == m.x.z * m.y.y
        && (m.z.x) * (m.x.y * m.y.z - m.x.z * m.y.y) == (m.z.x) * (m.x.y * m.y.z) - (m.z.x) * (m.x.z * m.y.y)
        && m.z.x * (m.x.y * m.y.z) == m.x.y * m.y.z * m.z.x
        && m.z.x * (m.x.z * m.y.y) == m.x.z * m.y.y * m.z.x
    ) by (nonlinear_arith);
    assert((m.x.y) * (m.y.y * m.z.z - m.y.z * m.z.y) == (m.x.y) * (m.y.y * m.z.z) - (m.x.y) * (m.y.z * m.z.y)
        && m.x.y * (m.y.y * m.z.z) == m.x.y * m.y.y * m.z.z
        && m.x.y * (m.y.z * m.z.y) == m.x.y * m.y.z * m.z.y
    ) by (nonlinear_arith);
    assert((m.y.y) * ((0 - m.x.y * m.z.z) + m.x.z * m.z.y) == (m.y.y) * ((0 - m.x.y * m.z.z)) + (m.y.y) * (m.x.z * m.z.y)
        && (m.y.y) * ((0 - m.x.y * m.z.z)) == (0 - m.x.y * m.y.y * m.z.z)
        && m.y.y * (m.x.z * m.z.y) == m.x.z * m.y.y * m.z.y
    ) by (nonlinear_arith);
    assert((m.z.y) * (m.x.y * m.y.z - m.x.z * m.y.y) == (m.z.y) * (m.x.y * m.y.z) - (m.z.y) * (m.x.z * m.y.y)
        && m.z.y * (m.x.y * m.y.z) == m.x.y * m.y.z * m.z.y
        && m.z.y * (m.x.z * m.y.y) == m.x.z * m.y.y * m.z.y
    ) by (nonlinear_arith);
    assert((m.x.z) * (m.y.y * m.z.z - m.y.z * m.z.y) == (m.x.z) * (m.y.y * m.z.z) - (m.x.z) * (m.y.z * m.z.y)
        && m.x.z * (m.y.y * m.z.z) == m.x.z * m.y.y * m.z.z
        && m.x.z * (m.y.z * m.z.y) == m.x.z * m.y.z * m.z.y
    ) by (nonlinear_arith);
    assert((m.y.z) * ((0 - m.x.y * m.z.z) + m.x.z * m.z.y) == (m.y.z) * ((0 - m.x.y * m.z.z)) + (m.y.z) * (m.x.z * m.z.y)
        && (m.y.z) * ((0 - m.x.y * m.z.z)) == (0 - m.x.y * m.y.z * m.z.z)
        && m.y.z * (m.x.z * m.z.y) == m.x.z * m.y.z * m.z.y
    ) by (nonlinear_arith);
    assert((m.z.z) * (m.x.y * m.y.z - m.x.z * m.y.y) == (m.z.z) * (m.x.y * m.y.z) - (m.z.z) * (m.x.z * m.y.y)
        && m.z.z * (m.x.y * m.y.z) == m.x.y * m.y.z * m.z.z
        && m.z.z * (m.x.z * m.y.y) == m.x.z * m.y.y * m.z.z
        && m.z.x * m.y.y == m.y.y * m.z.x
    ) by (nonlinear_arith);
    assert((m.y.x * m.z.y - m.y.y * m.z.x) * (m.x.z) == m.y.x * m.z.y * (m.x.z) - (m.y.y * m.z.x) * (m.x.z)
        && (m.y.x * m.z.y) * m.x.z == m.x.z * m.y.x * m.z.y
        && (m.y.y * m.z.x) * m.x.z == m.x.z * m.y.y * m.z.x
        && m.z.x * m.x.y == m.x.y * m.z.x
    ) by (nonlinear_arith);
    assert(((0 - m.x.x * m.z.y) + m.x.y * m.z.x) * (m.y.z) == (0 - m.x.x * m.z.y) * (m.y.z) + (m.x.y * m.z.x) * (m.y.z)
        && ((0 - m.x.x * m.z.y)) * (m.y.z) == (0 - m.x.x * m.y.z * m.z.y)
        && (m.x.y * m.z.x) * m.y.z == m.x.y * m.y.z * m.z.x
        && m.y.x * m.x.y == m.x.y * m.y.x
    ) by (nonlinear_arith);
    assert((m.x.x * m.y.y - m.x.y * m.y.x) * (m.z.z) == m.x.x * m.y.y * (m.z.z) - (m.x.y * m.y.x) * (m.z.z)) by (nonlinear_arith);
    assert((m.y.y) * (m.z.z) == m.y.y * m.z.z);
    assert((m.z.y) * (m.y.z) == m.y.z * m.z.y);
    assert((m.y.y * m.z.z) - (m.y.z * m.z.y) == g0);
    assert((m.x.x) * (g0) == g1);
    assert((m.x.x) * (g0) == g1);
    assert((m.z.y) * (m.x.z) == m.x.z * m.z.y);
    assert((m.x.y) * (m.z.z) == m.x.y * m.z.z);
    assert((m.x.z * m.z.y) - (m.x.y * m.z.z) == g2);
    assert((m.y.x) * (g2) == g3);
    assert((m.y.x) * (g2) == g3);
    assert((g1) + (g3) == g5);
    assert((m.x.y) * (m.y.z) == m.x.y * m.y.z);
    assert((m.y.y) * (m.x.z) == m.x.z * m.y.y);
    assert((m.x.y * m.y.z) - (m.x.z * m.y.y) == g6);
    assert((m.z.x) * (g6) == g7);
    assert((m.z.x) * (g6) == g7);
    assert((g5) + (g7) == g10);
    assert((m.y.y) * (m.z.z) == m.y.y * m.z.z);
    assert((m.z.y) * (m.y.z) == m.y.z * m.z.y);
    assert((m.y.y * m.z.z) - (m.y.z * m.z.y) == g0);
    assert((m.x.y) * (g0) == g11);
    assert((m.x.y) * (g0) == g11);
    assert((m.z.y) * (m.x.z) == m.x.z * m.z.y);
    assert((m.x.y) * (m.z.z) == m.x.y * m.z.z);
    assert((m.x.z * m.z.y) - (m.x.y * m.z.z) == g2);
    assert((m.y.y) * (g2) == g12);
    assert((m.y.y) * (g2) == g12);
    assert((g11) + (g12) == g13);
    assert((m.x.y) * (m.y.z) == m.x.y * m.y.z);
    assert((m.y.y) * (m.x.z) == m.x.z * m.y.y);
    assert((m.x.y * m.y.z) - (m.x.z * m.y.y) == g6);
    assert((m.z.y) * (g6) == g14);
    assert((m.z.y) * (g6) == g14);
    assert((g13) + (g14) == 0);
    assert((m.y.y) * (m.z.z) == m.y.y * m.z.z);
    assert((m.z.y) * (m.y.z) == m.y.z * m.z.y);
    assert((m.y.y * m.z.z) - (m.y.z * m.z.y) == g0);
    assert((m.x.z) * (g0) == g15);
    assert((m.x.z) * (g0) == g15);
    assert((m.z.y) * (m.x.z) == m.x.z * m.z.y);
    assert((m.x.y) * (m.z.z) == m.x.y * m.z.z);
    assert((m.x.z * m.z.y) - (m.x.y * m.z.z) == g2);
    assert((m.y.z) * (g2) == g16);
    assert((m.y.z) * (g2) == g16);
    assert((g15) + (g16) == g17);
    assert((m.x.y) * (m.y.z) == m.x.y * m.y.z);
    assert((m.y.y) * (m.x.z) == m.x.z * m.y.y);
    assert((m.x.y * m.y.z) - (m.x.z * m.y.y) == g6);
    assert((m.z.z) * (g6) == g18);
    assert((m.z.z) * (g6) == g18);
    assert((g17) + (g18) == 0);
    assert((m.y.x) * (m.z.y) == m.y.x * m.z.y);
    assert((m.z.x) * (m.y.y) == m.y.y * m.z.x);
    assert((m.y.x * m.z.y) - (m.y.y * m.z.x) == g19);
    assert((g19) * (m.x.z) == g20);
    assert((g19) * (m.x.z) == g20);
    assert((m.z.x) * (m.x.y) == m.x.y * m.z.x);
    assert((m.x.x) * (m.z.y) == m.x.x * m.z.y);
    assert((m.x.y * m.z.x) - (m.x.x * m.z.y) == g21);
    assert((g21) * (m.y.z) == g22);
    assert((g21) * (m.y.z) == g22);
    assert((g20) + (g22) == g24);
    assert((m.x.x) * (m.y.y) == m.x.x * m.y.y);
    assert((m.y.x) * (m.x.y) == m.x.y * m.y.x);
    assert((m.x.x * m.y.y) - (m.x.y * m.y.x) == g25);
    assert((g25) * (m.z.z) == g26);
    assert((g25) * (m.z.z) == g26);
    assert((g24) + (g26) == g10);
}

proof fn adj3_col_y(m: M3)
    ensures
        m3_vec_mul(m, m3_adjugate(m).y).x == 0,
        m3_vec_mul(m, m3_adjugate(m).y).y == m3_det(m).n,
        m3_vec_mul(m, m3_adjugate(m).y).z == 0,
{
    let g0: int = (0 - m.y.x * m.z.z) + m.y.z * m.z.x;
    let g1: int = (0 - m.x.x * m.y.x * m.z.z) + m.x.x * m.y.z * m.z.x;
    let g2: int = m.x.x * m.z.z - m.x.z * m.z.x;
    let g3: int = m.x.x * m.y.x * m.z.z - m.x.z * m.y.x * m.z.x;
    let g4: int = m.x.x * m.y.z * m.z.x - m.x.z * m.y.x * m.z.x;
    let g5: int = (0 - m.x.x * m.y.z) + m.x.z * m.y.x;
    let g6: int = (0 - m.x.x * m.y.z * m.z.x) + m.x.z * m.y.x * m.z.x;
    let g7: int = (0 - m.x.y * m.y.x * m.z.z) + m.x.y * m.y.z * m.z.x;
    let g8: int = m.x.x * m.y.y * m.z.z - m.x.z * m.y.y * m.z.x;
    let g9: int = m.x.x * m.y.y * m.z.z - m.x.y * m.y.x * m.z.z;
    let g10: int = g9 + m.x.y * m.y.z * m.z.x;
    let g11: int = g10 - m.x.z * m.y.y * m.z.x;
    let g12: int = (0 - m.x.x * m.y.z * m.z.y) + m.x.z * m.y.x * m.z.y;
    let g13: int = m.x.x * m.y.y * m.z.z - m.x.x * m.y.z * m.z.y;
    let g14: int = g13 - m.x.y * m.y.x * m.z.z;
    let g15: int = g14 + m.x.y * m.y.z * m.z.x;
    let g16: int = g15 + m.x.z * m.y.x * m.z.y;
    let g17: int = g16 - m.x.z * m.y.y * m.z.x;
    let g18: int = (0 - m.x.z * m.y.x * m.z.z) + m.x.z * m.y.z * m.z.x;
    let g19: int = m.x.x * m.y.z * m.z.z - m.x.z * m.y.z * m.z.x;
    let g20: int = m.x.x * m.y.z * m.z.z - m.x.z * m.y.x * m.z.z;
    let g21: int = (0 - m.x.x * m.y.z * m.z.z) + m.x.z * m.y.x * m.z.z;
    let g22: int = m.y.x * m.z.y - m.y.y * m.z.x;
    let g23: int = m.x.z * m.y.x * m.z.y - m.x.z * m.y.y * m.z.x;
    let g24: int = (0 - m.x.x * m.z.y) + m.x.y * m.z.x;
    let g25: int = (0 - m.x.x * m.y.z * m.z.y) + m.x.y * m.y.z * m.z.x;
    let g26: int = g25 + m.x.z * m.y.x * m.z.y;
    let g27: int = g26 - m.x.z * m.y.y * m.z.x;
    let g28: int = m.x.x * m.y.y - m.x.y * m.y.x;
    assert(m.z.z * m.y.x == m.y.x * m.z.z
        && (m.x.x) * ((0 - m.y.x * m.z.z) + m.y.z * m.z.x) == (m.x.x) * ((0 - m.y.x * m.z.z)) + (m.x.x) * (m.y.z * m.z.x)
        && (m.x.x) * ((0 - m.y.x * m.z.z)) == (0 - m.x.x * m.y.x * m.z.z)
        && m.x.x * (m.y.z * m.z.x) == m.x.x * m.y.z * m.z.x
    ) by (nonlinear_arith);
    assert(m.z.z * m.x.x == m.x.x * m.z.z
        && (m.y.x) * (m.x.x * m.z.z - m.x.z * m.z.x) == (m.y.x) * (m.x.x * m.z.z) - (m.y.x) * (m.x.z * m.z.x)
        && m.y.x * (m.x.x * m.z.z) == m.x.x * m.y.x * m.z.z
        && m.y.x * (m.x.z * m.z.x) == m.x.z * m.y.x * m.z.x
    ) by (nonlinear_arith);
    assert(m.y.z * m.x.x == m.x.x * m.y.z
        && (m.z.x) * ((0 - m.x.x * m.y.z) + m.x.z * m.y.x) == (m.z.x) * ((0 - m.x.x * m.y.z)) + (m.z.x) * (m.x.z * m.y.x)
        && (m.z.x) * ((0 - m.x.x * m.y.z)) == (0 - m.x.x * m.y.z * m.z.x)
        && m.z.x * (m.x.z * m.y.x) == m.x.z * m.y.x * m.z.x
    ) by (nonlinear_arith);
    assert((m.x.y) * ((0 - m.y.x * m.z.z) + m.y.z * m.z.x) == (m.x.y) * ((0 - m.y.x * m.z.z)) + (m.x.y) * (m.y.z * m.z.x)
        && (m.x.y) * ((0 - m.y.x * m.z.z)) == (0 - m.x.y * m.y.x * m.z.z)
        && m.x.y * (m.y.z * m.z.x) == m.x.y * m.y.z * m.z.x
    ) by (nonlinear_arith);
    assert((m.y.y) * (m.x.x * m.z.z - m.x.z * m.z.x) == (m.y.y) * (m.x.x * m.z.z) - (m.y.y) * (m.x.z * m.z.x)
        && m.y.y * (m.x.x * m.z.z) == m.x.x * m.y.y * m.z.z
        && m.y.y * (m.x.z * m.z.x) == m.x.z * m.y.y * m.z.x
    ) by (nonlinear_arith);
    assert((m.z.y) * ((0 - m.x.x * m.y.z) + m.x.z * m.y.x) == (m.z.y) * ((0 - m.x.x * m.y.z)) + (m.z.y) * (m.x.z * m.y.x)
        && (m.z.y) * ((0 - m.x.x * m.y.z)) == (0 - m.x.x * m.y.z * m.z.y)
        && m.z.y * (m.x.z * m.y.x) == m.x.z * m.y.x * m.z.y
    ) by (nonlinear_arith);
    assert((m.x.z) * ((0 - m.y.x * m.z.z) + m.y.z * m.z.x) == (m.x.z) * ((0 - m.y.x * m.z.z)) + (m.x.z) * (m.y.z * m.z.x)
        && (m.x.z) * ((0 - m.y.x * m.z.z)) == (0 - m.x.z * m.y.x * m.z.z)
        && m.x.z * (m.y.z * m.z.x) == m.x.z * m.y.z * m.z.x
    ) by (nonlinear_arith);
    assert((m.y.z) * (m.x.x * m.z.z - m.x.z * m.z.x) == (m.y.z) * (m.x.x * m.z.z) - (m.y.z) * (m.x.z * m.z.x)
        && m.y.z * (m.x.x * m.z.z) == m.x.x * m.y.z * m.z.z
        && m.y.z * (m.x.z * m.z.x) == m.x.z * m.y.z * m.z.x
    ) by (nonlinear_arith);
    assert((m.z.z) * ((0 - m.x.x * m.y.z) + m.x.z * m.y.x) == (m.z.z) * ((0 - m.x.x * m.y.z)) + (m.z.z) * (m.x.z * m.y.x)
        && (m.z.z) * ((0 - m.x.x * m.y.z)) == (0 - m.x.x * m.y.z * m.z.z)
        && m.z.z * (m.x.z * m.y.x) == m.x.z * m.y.x * m.z.z
        && m.z.x * m.y.y == m.y.y * m.z.x
    ) by (nonlinear_arith);
    assert((m.y.x * m.z.y - m.y.y * m.z.x) * (m.x.z) == m.y.x * m.z.y * (m.x.z) - (m.y.y * m.z.x) * (m.x.z)
        && (m.y.x * m.z.y) * m.x.z == m.x.z * m.y.x * m.z.y
        && (m.y.y * m.z.x) * m.x.z == m.x.z * m.y.y * m.z.x
        && m.z.x * m.x.y == m.x.y * m.z.x
    ) by (nonlinear_arith);
    assert(((0 - m.x.x * m.z.y) + m.x.y * m.z.x) * (m.y.z) == (0 - m.x.x * m.z.y) * (m.y.z) + (m.x.y * m.z.x) * (m.y.z)
        && ((0 - m.x.x * m.z.y)) * (m.y.z) == (0 - m.x.x * m.y.z * m.z.y)
        && (m.x.y * m.z.x) * m.y.z == m.x.y * m.y.z * m.z.x
        && m.y.x * m.x.y == m.x.y * m.y.x
    ) by (nonlinear_arith);
    assert((m.x.x * m.y.y - m.x.y * m.y.x) * (m.z.z) == m.x.x * m.y.y * (m.z.z) - (m.x.y * m.y.x) * (m.z.z)) by (nonlinear_arith);
    assert((m.y.z) * (m.z.x) == m.y.z * m.z.x);
    assert((m.z.z) * (m.y.x) == m.y.x * m.z.z);
    assert((m.y.z * m.z.x) - (m.y.x * m.z.z) == g0);
    assert((m.x.x) * (g0) == g1);
    assert((m.x.x) * (g0) == g1);
    assert((m.z.z) * (m.x.x) == m.x.x * m.z.z);
    assert((m.x.z) * (m.z.x) == m.x.z * m.z.x);
    assert((m.x.x * m.z.z) - (m.x.z * m.z.x) == g2);
    assert((m.y.x) * (g2) == g3);
    assert((m.y.x) * (g2) == g3);
    assert((g1) + (g3) == g4);
    assert((m.x.z) * (m.y.x) == m.x.z * m.y.x);
    assert((m.y.z) * (m.x.x) == m.x.x * m.y.z);
    assert((m.x.z * m.y.x) - (m.x.x * m.y.z) == g5);
    assert((m.z.x) * (g5) == g6);
    assert((m.z.x) * (g5) == g6);
    assert((g4) + (g6) == 0);
    assert((m.y.z) * (m.z.x) == m.y.z * m.z.x);
    assert((m.z.z) * (m.y.x) == m.y.x * m.z.z);
    assert((m.y.z * m.z.x) - (m.y.x * m.z.z) == g0);
    assert((m.x.y) * (g0) == g7);
    assert((m.x.y) * (g0) == g7);
    assert((m.z.z) * (m.x.x) == m.x.x * m.z.z);
    assert((m.x.z) * (m.z.x) == m.x.z * m.z.x);
    assert((m.x.x * m.z.z) - (m.x.z * m.z.x) == g2);
    assert((m.y.y) * (g2) == g8);
    assert((m.y.y) * (g2) == g8);
    assert((g7) + (g8) == g11);
    assert((m.x.z) * (m.y.x) == m.x.z * m.y.x);
    assert((m.y.z) * (m.x.x) == m.x.x * m.y.z);
    assert((m.x.z * m.y.x) - (m.x.x * m.y.z) == g5);
    assert((m.z.y) * (g5) == g12);
    assert((m.z.y) * (g5) == g12);
    assert((g11) + (g12) == g17);
    assert((m.y.z) * (m.z.x) == m.y.z * m.z.x);
    assert((m.z.z) * (m.y.x) == m.y.x * m.z.z);
    assert((m.y.z * m.z.x) - (m.y.x * m.z.z) == g0);
    assert((m.x.z) * (g0) == g18);
    assert((m.x.z) * (g0) == g18);
    assert((m.z.z) * (m.x.x) == m.x.x * m.z.z);
    assert((m.x.z) * (m.z.x) == m.x.z * m.z.x);
    assert((m.x.x * m.z.z) - (m.x.z * m.z.x) == g2);
    assert((m.y.z) * (g2) == g19);
    assert((m.y.z) * (g2) == g19);
    assert((g18) + (g19) == g20);
    assert((m.x.z) * (m.y.x) == m.x.z * m.y.x);
    assert((m.y.z) * (m.x.x) == m.x.x * m.y.z);
    assert((m.x.z * m.y.x) - (m.x.x * m.y.z) == g5);
    assert((m.z.z) * (g5) == g21);
    assert((m.z.z) * (g5) == g21);
    assert((g20) + (g21) == 0);
    assert((m.y.x) * (m.z.y) == m.y.x * m.z.y);
    assert((m.z.x) * (m.y.y) == m.y.y * m.z.x);
    assert((m.y.x * m.z.y) - (m.y.y * m.z.x) == g22);
    assert((g22) * (m.x.z) == g23);
    assert((g22) * (m.x.z) == g23);
    assert((m.z.x) * (m.x.y) == m.x.y * m.z.x);
    assert((m.x.x) * (m.z.y) == m.x.x * m.z.y);
    assert((m.x.y * m.z.x) - (m.x.x * m.z.y) == g24);
    assert((g24) * (m.y.z) == g25);
    assert((g24) * (m.y.z) == g25);
    assert((g23) + (g25) == g27);
    assert((m.x.x) * (m.y.y) == m.x.x * m.y.y);
    assert((m.y.x) * (m.x.y) == m.x.y * m.y.x);
    assert((m.x.x * m.y.y) - (m.x.y * m.y.x) == g28);
    assert((g28) * (m.z.z) == g9);
    assert((g28) * (m.z.z) == g9);
    assert((g27) + (g9) == g17);
}

proof fn adj3_col_z(m: M3)
    ensures
        m3_vec_mul(m, m3_adjugate(m).z).x == 0,
        m3_vec_mul(m, m3_adjugate(m).z).y == 0,
        m3_vec_mul(m, m3_adjugate(m).z).z == m3_det(m).n,
{
    let g0: int = m.y.x * m.z.y - m.y.y * m.z.x;
    let g1: int = m.x.x * m.y.x * m.z.y - m.x.x * m.y.y * m.z.x;
    let g2: int = (0 - m.x.x * m.z.y) + m.x.y * m.z.x;
    let g3: int = (0 - m.x.x * m.y.x * m.z.y) + m.x.y * m.y.x * m.z.x;
    let g4: int = (0 - m.x.x * m.y.y * m.z.x) + m.x.y * m.y.x * m.z.x;
    let g5: int = m.x.x * m.y.y - m.x.y * m.y.x;
    let g6: int = m.x.x * m.y.y * m.z.x - m.x.y * m.y.x * m.z.x;
    let g7: int = m.x.y * m.y.x * m.z.y - m.x.y * m.y.y * m.z.x;
    let g8: int = (0 - m.x.x * m.y.y * m.z.y) + m.x.y * m.y.y * m.z.x;
    let g9: int = (0 - m.x.x * m.y.y * m.z.y) + m.x.y * m.y.x * m.z.y;
    let g10: int = m.x.x * m.y.y * m.z.y - m.x.y * m.y.x * m.z.y;
    let g11: int = m.x.z * m.y.x * m.z.y - m.x.z * m.y.y * m.z.x;
    let g12: int = (0 - m.x.x * m.y.z * m.z.y) + m.x.y * m.y.z * m.z.x;
    let g13: int = g12 + m.x.z * m.y.x * m.z.y;
    let g14: int = g13 - m.x.z * m.y.y * m.z.x;
    let g15: int = m.x.x * m.y.y * m.z.z - m.x.y * m.y.x * m.z.z;
    let g16: int = m.x.x * m.y.y * m.z.z - m.x.x * m.y.z * m.z.y;
    let g17: int = g16 - m.x.y * m.y.x * m.z.z;
    let g18: int = g17 + m.x.y * m.y.z * m.z.x;
    let g19: int = g18 + m.x.z * m.y.x * m.z.y;
    let g20: int = g19 - m.x.z * m.y.y * m.z.x;
    assert(m.z.x * m.y.y == m.y.y * m.z.x
        && (m.x.x) * (m.y.x * m.z.y - m.y.y * m.z.x) == (m.x.x) * (m.y.x * m.z.y) - (m.x.x) * (m.y.y * m.z.x)
        && m.x.x * (m.y.x * m.z.y) == m.x.x * m.y.x * m.z.y
        && m.x.x * (m.y.y * m.z.x) == m.x.x * m.y.y * m.z.x
    ) by (nonlinear_arith);
    assert(m.z.x * m.x.y == m.x.y * m.z.x
        && (m.y.x) * ((0 - m.x.x * m.z.y) + m.x.y * m.z.x) == (m.y.x) * ((0 - m.x.x * m.z.y)) + (m.y.x) * (m.x.y * m.z.x)
        && (m.y.x) * ((0 - m.x.x * m.z.y)) == (0 - m.x.x * m.y.x * m.z.y)
        && m.y.x * (m.x.y * m.z.x) == m.x.y * m.y.x * m.z.x
    ) by (nonlinear_arith);
    assert(m.y.x * m.x.y == m.x.y * m.y.x
        && (m.z.x) * (m.x.x * m.y.y - m.x.y * m.y.x) == (m.z.x) * (m.x.x * m.y.y) - (m.z.x) * (m.x.y * m.y.x)
        && m.z.x * (m.x.x * m.y.y) == m.x.x * m.y.y * m.z.x
        && m.z.x * (m.x.y * m.y.x) == m.x.y * m.y.x * m.z.x
    ) by (nonlinear_arith);
    assert((m.x.y) * (m.y.x * m.z.y - m.y.y * m.z.x) == (m.x.y) * (m.y.x * m.z.y) - (m.x.y) * (m.y.y * m.z.x)
        && m.x.y * (m.y.x * m.z.y) == m.x.y * m.y.x * m.z.y
        && m.x.y * (m.y.y * m.z.x) == m.x.y * m.y.y * m.z.x
    ) by (nonlinear_arith);
    assert((m.y.y) * ((0 - m.x.x * m.z.y) + m.x.y * m.z.x) == (m.y.y) * ((0 - m.x.x * m.z.y)) + (m.y.y) * (m.x.y * m.z.x)
        && (m.y.y) * ((0 - m.x.x * m.z.y)) == (0 - m.x.x * m.y.y * m.z.y)
        && m.y.y * (m.x.y * m.z.x) == m.x.y * m.y.y * m.z.x
    ) by (nonlinear_arith);
    assert((m.z.y) * (m.x.x * m.y.y - m.x.y * m.y.x) == (m.z.y) * (m.x.x * m.y.y) - (m.z.y) * (m.x.y * m.y.x)
        && m.z.y * (m.x.x * m.y.y) == m.x.x * m.y.y * m.z.y
        && m.z.y * (m.x.y * m.y.x) == m.x.y * m.y.x * m.z.y
    ) by (nonlinear_arith);
    assert((m.x.z) * (m.y.x * m.z.y - m.y.y * m.z.x) == (m.x.z) * (m.y.x * m.z.y) - (m.x.z) * (m.y.y * m.z.x)
        && m.x.z * (m.y.x * m.z.y) == m.x.z * m.y.x * m.z.y
        && m.x.z * (m.y.y * m.z.x) == m.x.z * m.y.y * m.z.x
    ) by (nonlinear_arith);
    assert((m.y.z) * ((0 - m.x.x * m.z.y) + m.x.y * m.z.x) == (m.y.z) * ((0 - m.x.x * m.z.y)) + (m.y.z) * (m.x.y * m.z.x)
        && (m.y.z) * ((0 - m.x.x * m.z.y)) == (0 - m.x.x * m.y.z * m.z.y)
        && m.y.z * (m.x.y * m.z.x) == m.x.y * m.y.z * m.z.x
    ) by (nonlinear_arith);
    assert((m.z.z) * (m.x.x * m.y.y - m.x.y * m.y.x) == (m.z.z) * (m.x.x * m.y.y) - (m.z.z) * (m.x.y * m.y.x)
        && m.z.z * (m.x.x * m.y.y) == m.x.x * m.y.y * m.z.z
        && m.z.z * (m.x.y * m.y.x) == m.x.y * m.y.x * m.z.z
    ) by (nonlinear_arith);
    assert((m.y.x * m.z.y - m.y.y * m.z.x) * (m.x.z) == m.y.x * m.z.y * (m.x.z) - (m.y.y * m.z.x) * (m.x.z)
        && (m.y.x * m.z.y) * m.x.z == m.x.z * m.y.x * m.z.y
        && (m.y.y * m.z.x) * m.x.z == m.x.z * m.y.y * m.z.x
    ) by (nonlinear_arith);
    assert(((0 - m.x.x * m.z.y) + m.x.y * m.z.x) * (m.y.z) == (0 - m.x.x * m.z.y) * (m.y.z) + (m.x.y * m.z.x) * (m.y.z)
        && ((0 - m.x.x * m.z.y)) * (m.y.z) == (0 - m.x.x * m.y.z * m.z.y)
        && (m.x.y * m.z.x) * m.y.z == m.x.y * m.y.z * m.z.x
    ) by (nonlinear_arith);
    assert((m.x.x * m.y.y - m.x.y * m.y.x) * (m.z.z) == m.x.x * m.y.y * (m.z.z) - (m.x.y * m.y.x) * (m.z.z)) by (nonlinear_arith);
    assert((m.y.x) * (m.z.y) == m.y.x * m.z.y);
    assert((m.z.x) * (m.y.y) == m.y.y * m.z.x);
    assert((m.y.x * m.z.y) - (m.y.y * m.z.x) == g0);
    assert((m.x.x) * (g0) == g1);
    assert((m.x.x) * (g0) == g1);
    assert((m.z.x) * (m.x.y) == m.x.y * m.z.x);
    assert((m.x.x) * (m.z.y) == m.x.x * m.z.y);
    assert((m.x.y * m.z.x) - (m.x.x * m.z.y) == g2);
    assert((m.y.x) * (g2) == g3);
    assert((m.y.x) * (g2) == g3);
    assert((g1) + (g3) == g4);
    assert((m.x.x) * (m.y.y) == m.x.x * m.y.y);
    assert((m.y.x) * (m.x.y) == m.x.y * m.y.x);
    assert((m.x.x * m.y.y) - (m.x.y * m.y.x) == g5);
    assert((m.z.x) * (g5) == g6);
    assert((m.z.x) * (g5) == g6);
    assert((g4) + (g6) == 0);
    assert((m.y.x) * (m.z.y) == m.y.x * m.z.y);
    assert((m.z.x) * (m.y.y) == m.y.y * m.z.x);
    assert((m.y.x * m.z.y) - (m.y.y * m.z.x) == g0);
    assert((m.x.y) * (g0) == g7);
    assert((m.x.y) * (g0) == g7);
    assert((m.z.x) * (m.x.y) == m.x.y * m.z.x);
    assert((m.x.x) * (m.z.y) == m.x.x * m.z.y);
    assert((m.x.y * m.z.x) - (m.x.x * m.z.y) == g2);
    assert((m.y.y) * (g2) == g8);
    assert((m.y.y) * (g2) == g8);
    assert((g7) + (g8) == g9);
    assert((m.x.x) * (m.y.y) == m.x.x * m.y.y);
    assert((m.y.x) * (m.x.y) == m.x.y * m.y.x);
    assert((m.x.x * m.y.y) - (m.x.y * m.y.x) == g5);
    assert((m.z.y) * (g5) == g10);
    assert((m.z.y) * (g5) == g10);
    assert((g9) + (g10) == 0);
    assert((m.y.x) * (m.z.y) == m.y.x * m.z.y);
    assert((m.z.x) * (m.y.y) == m.y.y * m.z.x);
    assert((m.y.x * m.z.y) - (m.y.y * m.z.x) == g0);
    assert((m.x.z) * (g0) == g11);
    assert((m.x.z) * (g0) == g11);
    assert((m.z.x) * (m.x.y) == m.x.y * m.z.x);
    assert((m.x.x) * (m.z.y) == m.x.x * m.z.y);
    assert((m.x.y * m.z.x) - (m.x.x * m.z.y) == g2);
    assert((m.y.z) * (g2) == g12);
    assert((m.y.z) * (g2) == g12);
    assert((g11) + (g12) == g14);
    assert((m.x.x) * (m.y.y) == m.x.x * m.y.y);
    assert((m.y.x) * (m.x.y) == m.x.y * m.y.x);
    assert((m.x.x * m.y.y) - (m.x.y * m.y.x) == g5);
    assert((m.z.z) * (g5) == g15);
    assert((m.z.z) * (g5) == g15);
    assert((g14) + (g15) == g20);
    assert((m.y.x) * (m.z.y) == m.y.x * m.z.y);
    assert((m.z.x) * (m.y.y) == m.y.y * m.z.x);
    assert((m.y.x * m.z.y) - (m.y.y * m.z.x) == g0);
    assert((g0) * (m.x.z) == g11);
    assert((g0) * (m.x.z) == g11);
    assert((m.z.x) * (m.x.y) == m.x.y * m.z.x);
    assert((m.x.x) * (m.z.y) == m.x.x * m.z.y);
    assert((m.x.y * m.z.x) - (m.x.x * m.z.y) == g2);
    assert((g2) * (m.y.z) == g12);
    assert((g2) * (m.y.z) == g12);
    assert((g11) + (g12) == g14);
    assert((m.x.x) * (m.y.y) == m.x.x * m.y.y);
    assert((m.y.x) * (m.x.y) == m.x.y * m.y.x);
    assert((m.x.x * m.y.y) - (m.x.y * m.y.x) == g5);
    assert((g5) * (m.z.z) == g15);
    assert((g5) * (m.z.z) == g15);
    assert((g14) + (g15) == g20);
}

/// The adjugate identity: `m * adjugate(m)` denotes the same matrix as
/// `determinant(m) * identity`.
pub proof fn lemma_mul_adjugate_3(m: M3)
    requires
        m3_wf(m),
    ensures
        m3_sim(m3_mul(m, m3_adjugate(m)), m3_scalar_mul(m3_identity(), m3_det(m))),
{
    adj3_col_x(m);
    adj3_col_y(m);
    adj3_col_z(m);
    assert((m.x.d * m.y.d * m.z.d) * 1 == 1 * (m.x.d * (m.y.d * m.z.d))) by (nonlinear_arith)
        requires
            m.x.d == m.y.d,
            m.x.d == m.z.d,

    ;
    assert((m.x.d * m.y.d * m.z.d) * 1 == 1 * (m.x.d * (m.z.d * m.x.d))) by (nonlinear_arith)
        requires
            m.x.d == m.y.d,
            m.x.d == m.z.d,

    ;
    assert((m.x.d * m.y.d * m.z.d) * 1 == 1 * (m.x.d * (m.x.d * m.y.d))) by (nonlinear_arith)
        requires
            m.x.d == m.y.d,
            m.x.d == m.z.d,

    ;
}

proof fn inv3_factor_x_x(m: M3, rn: int)
    ensures
        m.x.x * ((m.y.y * m.z.z - m.z.y * m.y.z) * rn) + m.y.x * ((m.z.y * m.x.z - m.x.y * m.z.z) * rn) + m.z.x * ((m.x.y * m.y.z - m.y.y * m.x.z) * rn) == (m.x.x * (m.y.y * m.z.z - m.z.y * m.y.z) + m.y.x * (m.z.y * m.x.z - m.x.y * m.z.z) + m.z.x * (m.x.y * m.y.z - m.y.y * m.x.z)) * rn,
{
    let e0: int = m.y.y * m.z.z - m.z.y * m.y.z;
    let e1: int = m.z.y * m.x.z - m.x.y * m.z.z;
    let e2: int = m.x.y * m.y.z - m.y.y * m.x.z;
    assert(m.x.x * (e0 * rn) == m.x.x * e0 * rn
        && m.y.x * (e1 * rn) == m.y.x * e1 * rn
        && m.z.x * (e2 * rn) == m.z.x * e2 * rn
        && (m.x.x * e0 + m.y.x * e1) * rn == (m.x.x * e0) * rn + (m.y.x * e1) * rn
        && (m.x.x * e0 + m.y.x * e1 + m.z.x * e2) * rn == (m.x.x * e0 + m.y.x * e1) * rn + (m.z.x * e2) * rn
    ) by (nonlinear_arith);
}

proof fn inv3_factor_x_y(m: M3, rn: int)
    ensures
        m.x.y * ((m.y.y * m.z.z - m.z.y * m.y.z) * rn) + m.y.y * ((m.z.y * m.x.z - m.x.y * m.z.z) * rn) + m.z.y * ((m.x.y * m.y.z - m.y.y * m.x.z) * rn) == (m.x.y * (m.y.y * m.z.z - m.z.y * m.y.z) + m.y.y * (m.z.y * m.x.z - m.x.y * m.z.z) + m.z.y * (m.x.y * m.y.z - m.y.y * m.x.z)) * rn,
{
    let e0: int = m.y.y * m.z.z - m.z.y * m.y.z;
    let e1: int = m.z.y * m.x.z - m.x.y * m.z.z;
    let e2: int = m.x.y * m.y.z - m.y.y * m.x.z;
    assert(m.x.y * (e0 * rn) == m.x.y * e0 * rn
        && m.y.y * (e1 * rn) == m.y.y * e1 * rn
        && m.z.y * (e2 * rn) == m.z.y * e2 * rn
        && (m.x.y * e0 + m.y.y * e1) * rn == (m.x.y * e0) * rn + (m.y.y * e1) * rn
        && (m.x.y * e0 + m.y.y * e1 + m.z.y * e2) * rn == (m.x.y * e0 + m.y.y * e1) * rn + (m.z.y * e2) * rn
    ) by (nonlinear_arith);
}

proof fn inv3_factor_x_z(m: M3, rn: int)
    ensures
        m.x.z * ((m.y.y * m.z.z - m.z.y * m.y.z) * rn) + m.y.z * ((m.z.y * m.x.z - m.x.y * m.z.z) * rn) + m.z.z * ((m.x.y * m.y.z - m.y.y * m.x.z) * rn) == (m.x.z * (m.y.y * m.z.z - m.z.y * m.y.z) + m.y.z * (m.z.y * m.x.z - m.x.y * m.z.z) + m.z.z * (m.x.y * m.y.z - m.y.y * m.x.z)) * rn,
{
    let e0: int = m.y.y * m.z.z - m.z.y * m.y.z;
    let e1: int = m.z.y * m.x.z - m.x.y * m.z.z;
    let e2: int = m.x.y * m.y.z - m.y.y * m.x.z;
    assert(m.x.z * (e0 * rn) == m.x.z * e0 * rn
        && m.y.z * (e1 * rn) == m.y.z * e1 * rn
        && m.z.z * (e2 * rn) == m.z.z * e2 * rn
        && (m.x.z * e0 + m.y.z * e1) * rn == (m.x.z * e0) * rn + (m.y.z * e1) * rn
        && (m.x.z * e0 + m.y.z * e1 + m.z.z * e2) * rn == (m.x.z * e0 + m.y.z * e1) * rn + (m.z.z * e2) * rn
    ) by (nonlinear_arith);
}

proof fn inv3_factor_y_x(m: M3, rn: int)
    ensures
        m.x.x * ((m.y.z * m.z.x - m.z.z * m.y.x) * rn) + m.y.x * ((m.z.z * m.x.x - m.x.z * m.z.x) * rn) + m.z.x * ((m.x.z * m.y.x - m.y.z * m.x.x) * rn) == (m.x.x * (m.y.z * m.z.x - m.z.z * m.y.x) + m.y.x * (m.z.z * m.x.x - m.x.z * m.z.x) + m.z.x * (m.x.z * m.y.x - m.y.z * m.x.x)) * rn,
{
    let e0: int = m.y.z * m.z.x - m.z.z * m.y.x;
    let e1: int = m.z.z * m.x.x - m.x.z * m.z.x;
    let e2: int = m.x.z * m.y.x - m.y.z * m.x.x;
    assert(m.x.x * (e0 * rn) == m.x.x * e0 * rn
        && m.y.x * (e1 * rn) == m.y.x * e1 * rn
        && m.z.x * (e2 * rn) == m.z.x * e2 * rn
        && (m.x.x * e0 + m.y.x * e1) * rn == (m.x.x * e0) * rn + (m.y.x * e1) * rn
        && (m.x.x * e0 + m.y.x * e1 + m.z.x * e2) * rn == (m.x.x * e0 + m.y.x * e1) * rn + (m.z.x * e2) * rn
    ) by (nonlinear_arith);
}

proof fn inv3_factor_y_y(m: M3, rn: int)
    ensures
        m.x.y * ((m.y.z * m.z.x - m.z.z * m.y.x) * rn) + m.y.y * ((m.z.z * m.x.x - m.x.z * m.z.x) * rn) + m.z.y * ((m.x.z * m.y.x - m.y.z * m.x.x) * rn) == (m.x.y * (m.y.z * m.z.x - m.z.z * m.y.x) + m.y.y * (m.z.z * m.x.x - m.x.z * m.z.x) + m.z.y * (m.x.z * m.y.x - m.y.z * m.x.x)) * rn,
{
    let e0: int = m.y.z * m.z.x - m.z.z * m.y.x;
    let e1: int = m.z.z * m.x.x - m.x.z * m.z.x;
    let e2: int = m.x.z * m.y.x - m.y.z * m.x.x;
    assert(m.x.y * (e0 * rn) == m.x.y * e0 * rn
        && m.y.y * (e1 * rn) == m.y.y * e1 * rn
        && m.z.y * (e2 * rn) == m.z.y * e2 * rn
        && (m.x.y * e0 + m.y.y * e1) * rn == (m.x.y * e0) * rn + (m.y.y * e1) * rn
        && (m.x.y * e0 + m.y.y * e1 + m.z.y * e2) * rn == (m.x.y * e0 + m.y.y * e1) * rn + (m.z.y * e2) * rn
    ) by (nonlinear_arith);
}

proof fn inv3_factor_y_z(m: M3, rn: int)
    ensures
        m.x.z * ((m.y.z * m.z.x - m.z.z * m.y.x) * rn) + m.y.z * ((m.z.z * m.x.x - m.x.z * m.z.x) * rn) + m.z.z * ((m.x.z * m.y.x - m.y.z * m.x.x) * rn) == (m.x.z * (m.y.z * m.z.x - m.z.z * m.y.x) + m.y.z * (m.z.z * m.x.x - m.x.z * m.z.x) + m.z.z * (m.x.z * m.y.x - m.y.z * m.x.x)) * rn,
{
    let e0: int = m.y.z * m.z.x - m.z.z * m.y.x;
    let e1: int = m.z.z * m.x.x - m.x.z * m.z.x;
    let e2: int = m.x.z * m.y.x - m.y.z * m.x.x;
    assert(m.x.z * (e0 * rn) == m.x.z * e0 * rn
        && m.y.z * (e1 * rn) == m.y.z * e1 * rn
        && m.z.z * (e2 * rn) == m.z.z * e2 * rn
        && (m.x.z * e0 + m.y.z * e1) * rn == (m.x.z * e0) * rn + (m.y.z * e1) * rn
        && (m.x.z * e0 + m.y.z * e1 + m.z.z * e2) * rn == (m.x.z * e0 + m.y.z * e1) * rn + (m.z.z * e2) * rn
    ) by (nonlinear_arith);
}

proof fn inv3_factor_z_x(m: M3, rn: int)
    ensures
        m.x.x * ((m.y.x * m.z.y - m.z.x * m.y.y) * rn) + m.y.x * ((m.z.x * m.x.y - m.x.x * m.z.y) * rn) + m.z.x * ((m.x.x * m.y.y - m.y.x * m.x.y) * rn) == (m.x.x * (m.y.x * m.z.y - m.z.x * m.y.y) + m.y.x * (m.z.x * m.x.y - m.x.x * m.z.y) + m.z.x * (m.x.x * m.y.y - m.y.x * m.x.y)) * rn,
{
    let e0: int = m.y.x * m.z.y - m.z.x * m.y.y;
    let e1: int = m.z.x * m.x.y - m.x.x * m.z.y;
    let e2: int = m.x.x * m.y.y - m.y.x * m.x.y;
    assert(m.x.x * (e0 * rn) == m.x.x * e0 * rn
        && m.y.x * (e1 * rn) == m.y.x * e1 * rn
        && m.z.x * (e2 * rn) == m.z.x * e2 * rn
        && (m.x.x * e0 + m.y.x * e1) * rn == (m.x.x * e0) * rn + (m.y.x * e1) * rn
        && (m.x.x * e0 + m.y.x * e1 + m.z.x * e2) * rn == (m.x.x * e0 + m.y.x * e1) * rn + (m.z.x * e2) * rn
    ) by (nonlinear_arith);
}

proof fn inv3_factor_z_y(m: M3, rn: int)
    ensures
        m.x.y * ((m.y.x * m.z.y - m.z.x * m.y.y) * rn) + m.y.y * ((m.z.x * m.x.y - m.x.x * m.z.y) * rn) + m.z.y * ((m.x.x * m.y.y - m.y.x * m.x.y) * rn) == (m.x.y * (m.y.x * m.z.y - m.z.x * m.y.y) + m.y.y * (m.z.x * m.x.y - m.x.x * m.z.y) + m.z.y * (m.x.x * m.y.y - m.y.x * m.x.y)) * rn,
{
    let e0: int = m.y.x * m.z.y - m.z.x * m.y.y;
    let e1: int = m.z.x * m.x.y - m.x.x * m.z.y;
    let e2: int = m.x.x * m.y.y - m.y.x * m.x.y;
    assert(m.x.y * (e0 * rn) == m.x.y * e0 * rn
        && m.y.y * (e1 * rn) == m.y.y * e1 * rn
        && m.z.y * (e2 * rn) == m.z.y * e2 * rn
        && (m.x.y * e0 + m.y.y * e1) * rn == (m.x.y * e0) * rn + (m.y.y * e1) * rn
        && (m.x.y * e0 + m.y.y * e1 + m.z.y * e2) * rn == (m.x.y * e0 + m.y.y * e1) * rn + (m.z.y * e2) * rn
    ) by (nonlinear_arith);
}

proof fn inv3_factor_z_z(m: M3, rn: int)
    ensures
        m.x.z * ((m.y.x * m.z.y - m.z.x * m.y.y) * rn) + m.y.z * ((m.z.x * m.x.y - m.x.x * m.z.y) * rn) + m.z.z * ((m.x.x * m.y.y - m.y.x * m.x.y) * rn) == (m.x.z * (m.y.x * m.z.y - m.z.x * m.y.y) + m.y.z * (m.z.x * m.x.y - m.x.x * m.z.y) + m.z.z * (m.x.x * m.y.y - m.y.x * m.x.y)) * rn,
{
    let e0: int = m.y.x * m.z.y - m.z.x * m.y.y;
    let e1: int = m.z.x * m.x.y - m.x.x * m.z.y;
    let e2: int = m.x.x * m.y.y - m.y.x * m.x.y;
    assert(m.x.z * (e0 * rn) == m.x.z * e0 * rn
        && m.y.z * (e1 * rn) == m.y.z * e1 * rn
        && m.z.z * (e2 * rn) == m.z.z * e2 * rn
        && (m.x.z * e0 + m.y.z * e1) * rn == (m.x.z * e0) * rn + (m.y.z * e1) * rn
        && (m.x.z * e0 + m.y.z * e1 + m.z.z * e2) * rn == (m.x.z * e0 + m.y.z * e1) * rn + (m.z.z * e2) * rn
    ) by (nonlinear_arith);
}

/// The inverse law: an invertible matrix times its inverse denotes the
/// identity.
#[verifier::rlimit(50)]
pub proof fn lemma_mul_inverse_identity_3(m: M3)
    requires
        m3_wf(m),
        m3_det(m).n != 0,
    ensures
        m3_inverse(m) matches Some(inv) && m3_sim(m3_mul(m, inv), m3_identity()),
{
    let rn: int = rat_recip(m3_det(m)).n;
    let rd: int = rat_recip(m3_det(m)).d;
    lemma_recip_cross(m3_det(m));
    adj3_col_x(m);
    inv3_factor_x_x(m, rn);
    inv3_factor_x_y(m, rn);
    inv3_factor_x_z(m, rn);
    adj3_col_y(m);
    inv3_factor_y_x(m, rn);
    inv3_factor_y_y(m, rn);
    inv3_factor_y_z(m, rn);
    adj3_col_z(m);
    inv3_factor_z_x(m, rn);
    inv3_factor_z_y(m, rn);
    inv3_factor_z_z(m, rn);
    assert((m.x.d * m.y.d * m.z.d) * rd == m.x.d * ((m.y.d * m.z.d) * rd)) by (nonlinear_arith)
        requires
            m.x.d == m.y.d,
            m.x.d == m.z.d,
    ;
    assert((m.x.d * m.y.d * m.z.d) * rd == m.x.d * ((m.z.d * m.x.d) * rd)) by (nonlinear_arith)
        requires
            m.x.d == m.y.d,
            m.x.d == m.z.d,
    ;
    assert((m.x.d * m.y.d * m.z.d) * rd == m.x.d * ((m.x.d * m.y.d) * rd)) by (nonlinear_arith)
        requires
            m.x.d == m.y.d,
            m.x.d == m.z.d,
    ;
    let inv = m3_scalar_mul(m3_adjugate(m), rat_recip(m3_det(m)));
    assert(m3_det(m).n * rn == m3_det(m).d * rd);
    assert(m3_mul(m, inv).x.x == m.x.x * ((m.y.y * m.z.z - m.z.y * m.y.z) * rn) + m.y.x * ((m.z.y * m.x.z - m.x.y * m.z.z) * rn) + m.z.x * ((m.x.y * m.y.z - m.y.y * m.x.z) * rn));
    assert(m3_mul(m, inv).x.x == m3_det(m).n * rn);
    assert(m3_mul(m, inv).x.y == m.x.y * ((m.y.y * m.z.z - m.z.y * m.y.z) * rn) + m.y.y * ((m.z.y * m.x.z - m.x.y * m.z.z) * rn) + m.z.y * ((m.x.y * m.y.z - m.y.y * m.x.z) * rn));
    assert(m3_vec_mul(m, m3_adjugate(m).x).y == 0);
    assert(m3_mul(m, inv).x.y == 0);
    assert(m3_mul(m, inv).x.y * 1 == 0 * m3_mul(m, inv).x.d);
    assert(m3_mul(m, inv).x.z == m.x.z * ((m.y.y * m.z.z - m.z.y * m.y.z) * rn) + m.y.z * ((m.z.y * m.x.z - m.x.y * m.z.z) * rn) + m.z.z * ((m.x.y * m.y.z - m.y.y * m.x.z) * rn));
    assert(m3_vec_mul(m, m3_adjugate(m).x).z == 0);
    assert(m3_mul(m, inv).x.z == 0);
    assert(m3_mul(m, inv).x.z * 1 == 0 * m3_mul(m, inv).x.d);
    assert(m3_mul(m, inv).x.d == m.x.d * ((m.y.d * m.z.d) * rd));
    assert(m3_det(m).d * rd == m3_mul(m, inv).x.d);
    assert(m3_mul(m, inv).x.x * 1 == 1 * m3_mul(m, inv).x.d);
    assert(v3_sim(m3_mul(m, inv).x, m3_identity().x));
    assert(m3_mul(m, inv).y.x == m.x.x * ((m.y.z * m.z.x - m.z.z * m.y.x) * rn) + m.y.x * ((m.z.z * m.x.x - m.x.z * m.z.x) * rn) + m.z.x * ((m.x.z * m.y.x - m.y.z * m.x.x) * rn));
    assert(m3_vec_mul(m, m3_adjugate(m).y).x == 0);
    assert(m3_mul(m, inv).y.x == 0);
    assert(m3_mul(m, inv).y.x * 1 == 0 * m3_mul(m, inv).y.d);
    assert(m3_mul(m, inv).y.y == m.x.y * ((m.y.z * m.z.x - m.z.z * m.y.x) * rn) + m.y.y * ((m.z.z * m.x.x - m.x.z * m.z.x) * rn) + m.z.y * ((m.x.z * m.y.x - m.y.z * m.x.x) * rn));
    assert(m3_mul(m, inv).y.y == m3_det(m).n * rn);
    assert(m3_mul(m, inv).y.z == m.x.z * ((m.y.z * m.z.x - m.z.z * m.y.x) * rn) + m.y.z * ((m.z.z * m.x.x - m.x.z * m.z.x) * rn) + m.z.z * ((m.x.z * m.y.x - m.y.z * m.x.x) * rn));
    assert(m3_vec_mul(m, m3_adjugate(m).y).z == 0);
    assert(m3_mul(m, inv).y.z == 0);
    assert(m3_mul(m, inv).y.z * 1 == 0 * m3_mul(m, inv).y.d);
    assert(m3_mul(m, inv).y.d == m.x.d * ((m.z.d * m.x.d) * rd));
    assert(m3_det(m).d * rd == m3_mul(m, inv).y.d);
    assert(m3_mul(m, inv).y.y * 1 == 1 * m3_mul(m, inv).y.d);
    assert(v3_sim(m3_mul(m, inv).y, m3_identity().y));
    assert(m3_mul(m, inv).z.x == m.x.x * ((m.y.x * m.z.y - m.z.x * m.y.y) * rn) + m.y.x * ((m.z.x * m.x.y - m.x.x * m.z.y) * rn) + m.z.x * ((m.x.x * m.y.y - m.y.x * m.x.y) * rn));
    assert(m3_vec_mul(m, m3_adjugate(m).z).x == 0);
    assert(m3_mul(m, inv).z.x == 0);
    assert(m3_mul(m, inv).z.x * 1 == 0 * m3_mul(m, inv).z.d);
    assert(m3_mul(m, inv).z.y == m.x.y * ((m.y.x * m.z.y - m.z.x * m.y.y) * rn) + m.y.y * ((m.z.x * m.x.y - m.x.x * m.z.y) * rn) + m.z.y * ((m.x.x * m.y.y - m.y.x * m.x.y) * rn));
    assert(m3_vec_mul(m, m3_adjugate(m).z).y == 0);
    assert(m3_mul(m, inv).z.y == 0);
    assert(m3_mul(m, inv).z.y * 1 == 0 * m3_mul(m, inv).z.d);
    assert(m3_mul(m, inv).z.z == m.x.z * ((m.y.x * m.z.y - m.z.x * m.y.y) * rn) + m.y.z * ((m.z.x * m.x.y - m.x.x * m.z.y) * rn) + m.z.z * ((m.x.x * m.y.y - m.y.x * m.x.y) * rn));
    assert(m3_mul(m, inv).z.z == m3_det(m).n * rn);
    assert(m3_mul(m, inv).z.d == m.x.d * ((m.x.d * m.y.d) * rd));
    assert(m3_det(m).d * rd == m3_mul(m, inv).z.d);
    assert(m3_mul(m, inv).z.z * 1 == 1 * m3_mul(m, inv).z.d);
    assert(v3_sim(m3_mul(m, inv).z, m3_identity().z));
    assert(m3_sim(m3_mul(m, inv), m3_identity()));
    assert(m3_inverse(m) == Some(inv));
}

/// Transposing twice gives back the matrix.
pub proof fn lemma_transpose_involution_3(m: M3)
    ensures
        m3_transpose(m3_transpose(m)) == m,
{
}

proof fn singular3_case_x_y(m: M3)
    requires
        m.x == m.y,
    ensures
        m3_det(m).n == 0,
{
    let g0: int = m.x.x * m.z.y - m.x.y * m.z.x;
    let g1: int = m.x.x * m.x.z * m.z.y - m.x.y * m.x.z * m.z.x;
    let g2: int = (0 - m.x.x * m.z.y) + m.x.y * m.z.x;
    let g3: int = (0 - m.x.x * m.x.z * m.z.y) + m.x.y * m.x.z * m.z.x;
    assert(m.z.x * m.x.y == m.x.y * m.z.x
        && (m.x.x * m.z.y - m.x.y * m.z.x) * (m.x.z) == m.x.x * m.z.y * (m.x.z) - (m.x.y * m.z.x) * (m.x.z)
        && (m.x.x * m.z.y) * m.x.z == m.x.x * m.x.z * m.z.y
        && (m.x.y * m.z.x) * m.x.z == m.x.y * m.x.z * m.z.x
    ) by (nonlinear_arith);
    assert(((0 - m.x.x * m.z.y) + m.x.y * m.z.x) * (m.x.z) == (0 - m.x.x * m.z.y) * (m.x.z) + (m.x.y * m.z.x) * (m.x.z)
        && ((0 - m.x.x * m.z.y)) * (m.x.z) == (0 - m.x.x * m.x.z * m.z.y)
    ) by (nonlinear_arith);
    assert((m.y.x * m.z.y - m.z.x * m.y.y) * m.x.z + (m.z.x * m.x.y - m.x.x * m.z.y) * m.y.z + (m.x.x * m.y.y - m.y.x * m.x.y) * m.z.z == (m.x.x * m.z.y - m.z.x * m.x.y) * m.x.z + (m.z.x * m.x.y - m.x.x * m.z.y) * m.x.z + (m.x.x * m.x.y - m.x.x * m.x.y) * m.z.z);
    assert((m.x.x) * (m.z.y) == m.x.x * m.z.y);
    assert((m.z.x) * (m.x.y) == m.x.y * m.z.x);
    assert((m.x.x * m.z.y) - (m.x.y * m.z.x) == g0);
    assert((g0) * (m.x.z) == g1);
    assert((g0) * (m.x.z) == g1);
    assert((m.z.x) * (m.x.y) == m.x.y * m.z.x);
    assert((m.x.x) * (m.z.y) == m.x.x * m.z.y);
    assert((m.x.y * m.z.x) - (m.x.x * m.z.y) == g2);
    assert((g2) * (m.x.z) == g3);
    assert((g2) * (m.x.z) == g3);
    assert((g1) + (g3) == 0);
    assert((m.x.x) * (m.x.y) == m.x.x * m.x.y);
    assert((m.x.x) * (m.x.y) == m.x.x * m.x.y);
    assert((m.x.x * m.x.y) - (m.x.x * m.x.y) == 0);
    assert((0) * (m.z.z) == 0);
    assert((0) + (0) == 0);
}

proof fn singular3_case_x_z(m: M3)
    requires
        m.x == m.z,
    ensures
        m3_det(m).n == 0,
{
    let g0: int = (0 - m.x.x * m.y.y) + m.x.y * m.y.x;
    let g1: int = (0 - m.x.x * m.x.z * m.y.y) + m.x.y * m.x.z * m.y.x;
    let g2: int = m.x.x * m.y.y - m.x.y * m.y.x;
    let g3: int = m.x.x * m.x.z * m.y.y - m.x.y * m.x.z * m.y.x;
    assert(m.y.x * m.x.y == m.x.y * m.y.x
        && ((0 - m.x.x * m.y.y) + m.x.y * m.y.x) * (m.x.z) == (0 - m.x.x * m.y.y) * (m.x.z) + (m.x.y * m.y.x) * (m.x.z)
        && ((0 - m.x.x * m.y.y)) * (m.x.z) == (0 - m.x.x * m.x.z * m.y.y)
        && (m.x.y * m.y.x) * m.x.z == m.x.y * m.x.z * m.y.x
    ) by (nonlinear_arith);
    assert((m.x.x * m.y.y - m.x.y * m.y.x) * (m.x.z) == m.x.x * m.y.y * (m.x.z) - (m.x.y * m.y.x) * (m.x.z)
        && (m.x.x * m.y.y) * m.x.z == m.x.x * m.x.z * m.y.y
    ) by (nonlinear_arith);
    assert((m.y.x * m.z.y - m.z.x * m.y.y) * m.x.z + (m.z.x * m.x.y - m.x.x * m.z.y) * m.y.z + (m.x.x * m.y.y - m.y.x * m.x.y) * m.z.z == (m.y.x * m.x.y - m.x.x * m.y.y) * m.x.z + (m.x.x * m.x.y - m.x.x * m.x.y) * m.y.z + (m.x.x * m.y.y - m.y.x * m.x.y) * m.x.z);
    assert((m.y.x) * (m.x.y) == m.x.y * m.y.x);
    assert((m.x.x) * (m.y.y) == m.x.x * m.y.y);
    assert((m.x.y * m.y.x) - (m.x.x * m.y.y) == g0);
    assert((g0) * (m.x.z) == g1);
    assert((g0) * (m.x.z) == g1);
    assert((m.x.x) * (m.x.y) == m.x.x * m.x.y);
    assert((m.x.x) * (m.x.y) == m.x.x * m.x.y);
    assert((m.x.x * m.x.y) - (m.x.x * m.x.y) == 0);
    assert((0) * (m.y.z) == 0);
    assert((g1) + (0) == g1);
    assert((m.x.x) * (m.y.y) == m.x.x * m.y.y);
    assert((m.y.x) * (m.x.y) == m.x.y * m.y.x);
    assert((m.x.x * m.y.y) - (m.x.y * m.y.x) == g2);
    assert((g2) * (m.x.z) == g3);
    assert((g2) * (m.x.z) == g3);
    assert((g1) + (g3) == 0);
}

proof fn singular3_case_y_z(m: M3)
    requires
        m.y == m.z,
    ensures
        m3_det(m).n == 0,
{
    let g0: int = (0 - m.x.x * m.y.y) + m.x.y * m.y.x;
    let g1: int = (0 - m.x.x * m.y.y * m.y.z) + m.x.y * m.y.x * m.y.z;
    let g2: int = m.x.x * m.y.y - m.x.y * m.y.x;
    let g3: int = m.x.x * m.y.y * m.y.z - m.x.y * m.y.x * m.y.z;
    assert(m.y.x * m.x.y == m.x.y * m.y.x
        && ((0 - m.x.x * m.y.y) + m.x.y * m.y.x) * (m.y.z) == (0 - m.x.x * m.y.y) * (m.y.z) + (m.x.y * m.y.x) * (m.y.z)
        && ((0 - m.x.x * m.y.y)) * (m.y.z) == (0 - m.x.x * m.y.y * m.y.z)
    ) by (nonlinear_arith);
    assert((m.x.x * m.y.y - m.x.y * m.y.x) * (m.y.z) == m.x.x * m.y.y * (m.y.z) - (m.x.y * m.y.x) * (m.y.z)) by (nonlinear_arith);
    assert((m.y.x * m.z.y - m.z.x * m.y.y) * m.x.z + (m.z.x * m.x.y - m.x.x * m.z.y) * m.y.z + (m.x.x * m.y.y - m.y.x * m.x.y) * m.z.z == (m.y.x * m.y.y - m.y.x * m.y.y) * m.x.z + (m.y.x * m.x.y - m.x.x * m.y.y) * m.y.z + (m.x.x * m.y.y - m.y.x * m.x.y) * m.y.z);
    assert((m.y.x) * (m.y.y) == m.y.x * m.y.y);
    assert((m.y.x) * (m.y.y) == m.y.x * m.y.y);
    assert((m.y.x * m.y.y) - (m.y.x * m.y.y) == 0);
    assert((0) * (m.x.z) == 0);
    assert((m.y.x) * (m.x.y) == m.x.y * m.y.x);
    assert((m.x.x) * (m.y.y) == m.x.x * m.y.y);
    assert((m.x.y * m.y.x) - (m.x.x * m.y.y) == g0);
    assert((g0) * (m.y.z) == g1);
    assert((g0) * (m.y.z) == g1);
    assert((0) + (g1) == g1);
    assert((m.x.x) * (m.y.y) == m.x.x * m.y.y);
    assert((m.y.x) * (m.x.y) == m.x.y * m.y.x);
    assert((m.x.x * m.y.y) - (m.x.y * m.y.x) == g2);
    assert((g2) * (m.y.z) == g3);
    assert((g2) * (m.y.z) == g3);
    assert((g1) + (g3) == 0);
}

/// A matrix with two equal columns is singular: its determinant denotes
/// zero and it has no inverse.
pub proof fn lemma_equal_columns_singular_3(m: M3)
    requires
        m.x == m.y || m.x == m.z || m.y == m.z,
    ensures
        m3_det(m).n == 0,
        rat_sim(m3_det(m), rat_from_int(0)),
        m3_inverse(m) is None,
{
    if m.x == m.y {
        singular3_case_x_y(m);
    } else if m.x == m.z {
        singular3_case_x_z(m);
    } else if m.y == m.z {
        singular3_case_y_z(m);
    }
}

proof fn assoc3_part_x_x(a: M3, b: M3, c: M3)
    ensures
        m3_mul(m3_mul(a, b), c).x.x == m3_mul(a, m3_mul(b, c)).x.x,
{
    let g0: int = a.x.x * b.x.x + a.y.x * b.x.y;
    let g1: int = g0 + a.z.x * b.x.z;
    let g2: int = a.x.x * b.x.x * c.x.x + a.y.x * b.x.y * c.x.x;
    let g3: int = g2 + a.z.x * b.x.z * c.x.x;
    let g4: int = a.x.x * b.y.x + a.y.x * b.y.y;
    let g5: int = g4 + a.z.x * b.y.z;
    let g6: int = a.x.x * b.y.x * c.x.y + a.y.x * b.y.y * c.x.y;
    let g7: int = g6 + a.z.x * b.y.z * c.x.y;
    let g8: int = a.x.x * b.x.x * c.x.x + a.x.x * b.y.x * c.x.y;
    let g9: int = g8 + a.y.x * b.x.y * c.x.x;
    let g10: int = g9 + a.y.x * b.y.y * c.x.y;
    let g11: int = g10 + a.z.x * b.x.z * c.x.x;
    let g12: int = g11 + a.z.x * b.y.z * c.x.y;
    let g13: int = a.x.x * b.z.x + a.y.x * b.z.y;
    let g14: int = g13 + a.z.x * b.z.z;
    let g15: int = a.x.x * b.z.x * c.x.z + a.y.x * b.z.y * c.x.z;
    let g16: int = g15 + a.z.x * b.z.z * c.x.z;
    let g17: int = g8 + a.x.x * b.z.x * c.x.z;
    let g18: int = g17 + a.y.x * b.x.y * c.x.x;
    let g19: int = g18 + a.y.x * b.y.y * c.x.y;
    let g20: int = g19 + a.y.x * b.z.y * c.x.z;
    let g21: int = g20 + a.z.x * b.x.z * c.x.x;
    let g22: int = g21 + a.z.x * b.y.z * c.x.y;
    let g23: int = g22 + a.z.x * b.z.z * c.x.z;
    let g24: int = b.x.x * c.x.x + b.y.x * c.x.y;
    let g25: int = g24 + b.z.x * c.x.z;
    let g26: int = b.x.y * c.x.x + b.y.y * c.x.y;
    let g27: int = g26 + b.z.y * c.x.z;
    let g28: int = a.y.x * b.x.y * c.x.x + a.y.x * b.y.y * c.x.y;
    let g29: int = g28 + a.y.x * b.z.y * c.x.z;
    let g30: int = b.x.z * c.x.x + b.y.z * c.x.y;
    let g31: int = g30 + b.z.z * c.x.z;
    let g32: int = a.z.x * b.x.z * c.x.x + a.z.x * b.y.z * c.x.y;
    let g33: int = g32 + a.z.x * b.z.z * c.x.z;
    assert((g0 + a.z.x * b.x.z) * (c.x.x) == g0 * (c.x.x) + (a.z.x * b.x.z) * (c.x.x)
        && (a.x.x * b.x.x + a.y.x * b.x.y) * (c.x.x) == a.x.x * b.x.x * (c.x.x) + (a.y.x * b.x.y) * (c.x.x)
        && (g4 + a.z.x * b.y.z) * (c.x.y) == g4 * (c.x.y) + (a.z.x * b.y.z) * (c.x.y)
    ) by (nonlinear_arith);
    assert((a.x.x * b.y.x + a.y.x * b.y.y) * (c.x.y) == a.x.x * b.y.x * (c.x.y) + (a.y.x * b.y.y) * (c.x.y)
        && (g13 + a.z.x * b.z.z) * (c.x.z) == g13 * (c.x.z) + (a.z.x * b.z.z) * (c.x.z)
    ) by (nonlinear_arith);
    assert((a.x.x * b.z.x + a.y.x * b.z.y) * (c.x.z) == a.x.x * b.z.x * (c.x.z) + (a.y.x * b.z.y) * (c.x.z)
        && (a.x.x) * (g24 + b.z.x * c.x.z) == (a.x.x) * (g24) + (a.x.x) * (b.z.x * c.x.z)
    ) by (nonlinear_arith);
    assert((a.x.x) * (b.x.x * c.x.x + b.y.x * c.x.y) == (a.x.x) * (b.x.x * c.x.x) + (a.x.x) * (b.y.x * c.x.y)
        && a.x.x * (b.x.x * c.x.x) == a.x.x * b.x.x * c.x.x
        && a.x.x * (b.y.x * c.x.y) == a.x.x * b.y.x * c.x.y
    ) by (nonlinear_arith);
    assert(a.x.x * (b.z.x * c.x.z) == a.x.x * b.z.x * c.x.z
        && (a.y.x) * (g26 + b.z.y * c.x.z) == (a.y.x) * (g26) + (a.y.x) * (b.z.y * c.x.z)
        && (a.y.x) * (b.x.y * c.x.x + b.y.y * c.x.y) == (a.y.x) * (b.x.y * c.x.x) + (a.y.x) * (b.y.y * c.x.y)
    ) by (nonlinear_arith);
    assert(a.y.x * (b.x.y * c.x.x) == a.y.x * b.x.y * c.x.x
        && a.y.x * (b.y.y * c.x.y) == a.y.x * b.y.y * c.x.y
        && a.y.x * (b.z.y * c.x.z) == a.y.x * b.z.y * c.x.z
        && (a.z.x) * (g30 + b.z.z * c.x.z) == (a.z.x) * (g30) + (a.z.x) * (b.z.z * c.x.z)
    ) by (nonlinear_arith);
    assert((a.z.x) * (b.x.z * c.x.x + b.y.z * c.x.y) == (a.z.x) * (b.x.z * c.x.x) + (a.z.x) * (b.y.z * c.x.y)
        && a.z.x * (b.x.z * c.x.x) == a.z.x * b.x.z * c.x.x
        && a.z.x * (b.y.z * c.x.y) == a.z.x * b.y.z * c.x.y
    ) by (nonlinear_arith);
    assert(a.z.x * (b.z.z * c.x.z) == a.z.x * b.z.z * c.x.z) by (nonlinear_arith);
    assert((a.x.x) * (b.x.x) == a.x.x * b.x.x);
    assert((a.y.x) * (b.x.y) == a.y.x * b.x.y);
    assert((a.x.x * b.x.x) + (a.y.x * b.x.y) == g0);
    assert((a.z.x) * (b.x.z) == a.z.x * b.x.z);
    assert((g0) + (a.z.x * b.x.z) == g1);
    assert((g0) * (c.x.x) == g2);
    assert((g1) * (c.x.x) == g3);
    assert((g1) * (c.x.x) == g3);
    assert((a.x.x) * (b.y.x) == a.x.x * b.y.x);
    assert((a.y.x) * (b.y.y) == a.y.x * b.y.y);
    assert((a.x.x * b.y.x) + (a.y.x * b.y.y) == g4);
    assert((a.z.x) * (b.y.z) == a.z.x * b.y.z);
    assert((g4) + (a.z.x * b.y.z) == g5);
    assert((g4) * (c.x.y) == g6);
    assert((g5) * (c.x.y) == g7);
    assert((g5) * (c.x.y) == g7);
    assert((g3) + (g7) == g12);
    assert((a.x.x) * (b.z.x) == a.x.x * b.z.x);
    assert((a.y.x) * (b.z.y) == a.y.x * b.z.y);
    assert((a.x.x * b.z.x) + (a.y.x * b.z.y) == g13);
    assert((a.z.x) * (b.z.z) == a.z.x * b.z.z);
    assert((g13) + (a.z.x * b.z.z) == g14);
    assert((g13) * (c.x.z) == g15);
    assert((g14) * (c.x.z) == g16);
    assert((g14) * (c.x.z) == g16);
    assert((g12) + (g16) == g23);
    assert((b.x.x) * (c.x.x) == b.x.x * c.x.x);
    assert((b.y.x) * (c.x.y) == b.y.x * c.x.y);
    assert((b.x.x * c.x.x) + (b.y.x * c.x.y) == g24);
    assert((b.z.x) * (c.x.z) == b.z.x * c.x.z);
    assert((g24) + (b.z.x * c.x.z) == g25);
    assert((a.x.x) * (g24) == g8);
    assert((a.x.x) * (g25) == g17);
    assert((a.x.x) * (g25) == g17);
    assert((b.x.y) * (c.x.x) == b.x.y * c.x.x);
    assert((b.y.y) * (c.x.y) == b.y.y * c.x.y);
    assert((b.x.y * c.x.x) + (b.y.y * c.x.y) == g26);
    assert((b.z.y) * (c.x.z) == b.z.y * c.x.z);
    assert((g26) + (b.z.y * c.x.z) == g27);
    assert((a.y.x) * (g26) == g28);
    assert((a.y.x) * (g27) == g29);
    assert((a.y.x) * (g27) == g29);
    assert((g17) + (g29) == g20);
    assert((b.x.z) * (c.x.x) == b.x.z * c.x.x);
    assert((b.y.z) * (c.x.y) == b.y.z * c.x.y);
    assert((b.x.z * c.x.x) + (b.y.z * c.x.y) == g30);
    assert((b.z.z) * (c.x.z) == b.z.z * c.x.z);
    assert((g30) + (b.z.z * c.x.z) == g31);
    assert((a.z.x) * (g30) == g32);
    assert((a.z.x) * (g31) == g33);
    assert((a.z.x) * (g31) == g33);
    assert((g20) + (g33) == g23);
}

proof fn assoc3_part_x_y(a: M3, b: M3, c: M3)
    ensures
        m3_mul(m3_mul(a, b), c).x.y == m3_mul(a, m3_mul(b, c)).x.y,
{
    let g0: int = a.x.y * b.x.x + a.y.y * b.x.y;
    let g1: int = g0 + a.z.y * b.x.z;
    let g2: int = a.x.y * b.x.x * c.x.x + a.y.y * b.x.y * c.x.x;
    let g3: int = g2 + a.z.y * b.x.z * c.x.x;
    let g4: int = a.x.y * b.y.x + a.y.y * b.y.y;
    let g5: int = g4 + a.z.y * b.y.z;
    let g6: int = a.x.y * b.y.x * c.x.y + a.y.y * b.y.y * c.x.y;
    let g7: int = g6 + a.z.y * b.y.z * c.x.y;
    let g8: int = a.x.y * b.x.x * c.x.x + a.x.y * b.y.x * c.x.y;
    let g9: int = g8 + a.y.y * b.x.y * c.x.x;
    let g10: int = g9 + a.y.y * b.y.y * c.x.y;
    let g11: int = g10 + a.z.y * b.x.z * c.x.x;
    let g12: int = g11 + a.z.y * b.y.z * c.x.y;
    let g13: int = a.x.y * b.z.x + a.y.y * b.z.y;
    let g14: int = g13 + a.z.y * b.z.z;
    let g15: int = a.x.y * b.z.x * c.x.z + a.y.y * b.z.y * c.x.z;
    let g16: int = g15 + a.z.y * b.z.z * c.x.z;
    let g17: int = g8 + a.x.y * b.z.x * c.x.z;
    let g18: int = g17 + a.y.y * b.x.y * c.x.x;
    let g19: int = g18 + a.y.y * b.y.y * c.x.y;
    let g20: int = g19 + a.y.y * b.z.y * c.x.z;
    let g21: int = g20 + a.z.y * b.x.z * c.x.x;
    let g22: int = g21 + a.z.y * b.y.z * c.x.y;
    let g23: int = g22 + a.z.y * b.z.z * c.x.z;
    let g24: int = b.x.x * c.x.x + b.y.x * c.x.y;
    let g25: int = g24 + b.z.x * c.x.z;
    let g26: int = b.x.y * c.x.x + b.y.y * c.x.y;
    let g27: int = g26 + b.z.y * c.x.z;
    let g28: int = a.y.y * b.x.y * c.x.x + a.y.y * b.y.y * c.x.y;
    let g29: int = g28 + a.y.y * b.z.y * c.x.z;
    let g30: int = b.x.z * c.x.x + b.y.z * c.x.y;
    let g31: int = g30 + b.z.z * c.x.z;
    let g32: int = a.z.y * b.x.z * c.x.x + a.z.y * b.y.z * c.x.y;
    let g33: int = g32 + a.z.y * b.z.z * c.x.z;
    assert((g0 + a.z.y * b.x.z) * (c.x.x) == g0 * (c.x.x) + (a.z.y * b.x.z) * (c.x.x)
        && (a.x.y * b.x.x + a.y.y * b.x.y) * (c.x.x) == a.x.y * b.x.x * (c.x.x) + (a.y.y * b.x.y) * (c.x.x)
        && (g4 + a.z.y * b.y.z) * (c.x.y) == g4 * (c.x.y) + (a.z.y * b.y.z) * (c.x.y)
    ) by (nonlinear_arith);
    assert((a.x.y * b.y.x + a.y.y * b.y.y) * (c.x.y) == a.x.y * b.y.x * (c.x.y) + (a.y.y * b.y.y) * (c.x.y)
        && (g13 + a.z.y * b.z.z) * (c.x.z) == g13 * (c.x.z) + (a.z.y * b.z.z) * (c.x.z)
    ) by (nonlinear_arith);
    assert((a.x.y * b.z.x + a.y.y * b.z.y) * (c.x.z) == a.x.y * b.z.x * (c.x.z) + (a.y.y * b.z.y) * (c.x.z)
        && (a.x.y) * (g24 + b.z.x * c.x.z) == (a.x.y) * (g24) + (a.x.y) * (b.z.x * c.x.z)
    ) by (nonlinear_arith);
    assert((a.x.y) * (b.x.x * c.x.x + b.y.x * c.x.y) == (a.x.y) * (b.x.x * c.x.x) + (a.x.y) * (b.y.x * c.x.y)
        && a.x.y * (b.x.x * c.x.x) == a.x.y * b.x.x * c.x.x
        && a.x.y * (b.y.x * c.x.y) == a.x.y * b.y.x * c.x.y
    ) by (nonlinear_arith);
    assert(a.x.y * (b.z.x * c.x.z) == a.x.y * b.z.x * c.x.z
        && (a.y.y) * (g26 + b.z.y * c.x.z) == (a.y.y) * (g26) + (a.y.y) * (b.z.y * c.x.z)
        && (a.y.y) * (b.x.y * c.x.x + b.y.y * c.x.y) == (a.y.y) * (b.x.y * c.x.x) + (a.y.y) * (b.y.y * c.x.y)
    ) by (nonlinear_arith);
    assert(a.y.y * (b.x.y * c.x.x) == a.y.y * b.x.y * c.x.x
        && a.y.y * (b.y.y * c.x.y) == a.y.y * b.y.y * c.x.y
        && a.y.y * (b.z.y * c.x.z) == a.y.y * b.z.y * c.x.z
        && (a.z.y) * (g30 + b.z.z * c.x.z) == (a.z.y) * (g30) + (a.z.y) * (b.z.z * c.x.z)
    ) by (nonlinear_arith);
    assert((a.z.y) * (b.x.z * c.x.x + b.y.z * c.x.y) == (a.z.y) * (b.x.z * c.x.x) + (a.z.y) * (b.y.z * c.x.y)
        && a.z.y * (b.x.z * c.x.x) == a.z.y * b.x.z * c.x.x
        && a.z.y * (b.y.z * c.x.y) == a.z.y * b.y.z * c.x.y
    ) by (nonlinear_arith);
    assert(a.z.y * (b.z.z * c.x.z) == a.z.y * b.z.z * c.x.z) by (nonlinear_arith);
    assert((a.x.y) * (b.x.x) == a.x.y * b.x.x);
    assert((a.y.y) * (b.x.y) == a.y.y * b.x.y);
    assert((a.x.y * b.x.x) + (a.y.y * b.x.y) == g0);
    assert((a.z.y) * (b.x.z) == a.z.y * b.x.z);
    assert((g0) + (a.z.y * b.x.z) == g1);
    assert((g0) * (c.x.x) == g2);
    assert((g1) * (c.x.x) == g3);
    assert((g1) * (c.x.x) == g3);
    assert((a.x.y) * (b.y.x) == a.x.y * b.y.x);
    assert((a.y.y) * (b.y.y) == a.y.y * b.y.y);
    assert((a.x.y * b.y.x) + (a.y.y * b.y.y) == g4);
    assert((a.z.y) * (b.y.z) == a.z.y * b.y.z);
    assert((g4) + (a.z.y * b.y.z) == g5);
    assert((g4) * (c.x.y) == g6);
    assert((g5) * (c.x.y) == g7);
    assert((g5) * (c.x.y) == g7);
    assert((g3) + (g7) == g12);
    assert((a.x.y) * (b.z.x) == a.x.y * b.z.x);
    assert((a.y.y) * (b.z.y) == a.y.y * b.z.y);
    assert((a.x.y * b.z.x) + (a.y.y * b.z.y) == g13);
    assert((a.z.y) * (b.z.z) == a.z.y * b.z.z);
    assert((g13) + (a.z.y * b.z.z) == g14);
    assert((g13) * (c.x.z) == g15);
    assert((g14) * (c.x.z) == g16);
    assert((g14) * (c.x.z) == g16);
    assert((g12) + (g16) == g23);
    assert((b.x.x) * (c.x.x) == b.x.x * c.x.x);
    assert((b.y.x) * (c.x.y) == b.y.x * c.x.y);
    assert((b.x.x * c.x.x) + (b.y.x * c.x.y) == g24);
    assert((b.z.x) * (c.x.z) == b.z.x * c.x.z);
    assert((g24) + (b.z.x * c.x.z) == g25);
    assert((a.x.y) * (g24) == g8);
    assert((a.x.y) * (g25) == g17);
    assert((a.x.y) * (g25) == g17);
    assert((b.x.y) * (c.x.x) == b.x.y * c.x.x);
    assert((b.y.y) * (c.x.y) == b.y.y * c.x.y);
    assert((b.x.y * c.x.x) + (b.y.y * c.x.y) == g26);
    assert((b.z.y) * (c.x.z) == b.z.y * c.x.z);
    assert((g26) + (b.z.y * c.x.z) == g27);
    assert((a.y.y) * (g26) == g28);
    assert((a.y.y) * (g27) == g29);
    assert((a.y.y) * (g27) == g29);
    assert((g17) + (g29) == g20);
    assert((b.x.z) * (c.x.x) == b.x.z * c.x.x);
    assert((b.y.z) * (c.x.y) == b.y.z * c.x.y);
    assert((b.x.z * c.x.x) + (b.y.z * c.x.y) == g30);
    assert((b.z.z) * (c.x.z) == b.z.z * c.x.z);
    assert((g30) + (b.z.z * c.x.z) == g31);
    assert((a.z.y) * (g30) == g32);
    assert((a.z.y) * (g31) == g33);
    assert((a.z.y) * (g31) == g33);
    assert((g20) + (g33) == g23);
}

proof fn assoc3_part_x_z(a: M3, b: M3, c: M3)
    ensures
        m3_mul(m3_mul(a, b), c).x.z == m3_mul(a, m3_mul(b, c)).x.z,
{
    let g0: int = a.x.z * b.x.x + a.y.z * b.x.y;
    let g1: int = g0 + a.z.z * b.x.z;
    let g2: int = a.x.z * b.x.x * c.x.x + a.y.z * b.x.y * c.x.x;
    let g3: int = g2 + a.z.z * b.x.z * c.x.x;
    let g4: int = a.x.z * b.y.x + a.y.z * b.y.y;
    let g5: int = g4 + a.z.z * b.y.z;
    let g6: int = a.x.z * b.y.x * c.x.y + a.y.z * b.y.y * c.x.y;
    let g7: int = g6 + a.z.z * b.y.z * c.x.y;
    let g8: int = a.x.z * b.x.x * c.x.x + a.x.z * b.y.x * c.x.y;
    let g9: int = g8 + a.y.z * b.x.y * c.x.x;
    let g10: int = g9 + a.y.z * b.y.y * c.x.y;
    let g11: int = g10 + a.z.z * b.x.z * c.x.x;
    let g12: int = g11 + a.z.z * b.y.z * c.x.y;
    let g13: int = a.x.z * b.z.x + a.y.z * b.z.y;
    let g14: int = g13 + a.z.z * b.z.z;
    let g15: int = a.x.z * b.z.x * c.x.z + a.y.z * b.z.y * c.x.z;
    let g16: int = g15 + a.z.z * b.z.z * c.x.z;
    let g17: int = g8 + a.x.z * b.z.x * c.x.z;
    let g18: int = g17 + a.y.z * b.x.y * c.x.x;
    let g19: int = g18 + a.y.z * b.y.y * c.x.y;
    let g20: int = g19 + a.y.z * b.z.y * c.x.z;
    let g21: int = g20 + a.z.z * b.x.z * c.x.x;
    let g22: int = g21 + a.z.z * b.y.z * c.x.y;
    let g23: int = g22 + a.z.z * b.z.z * c.x.z;
    let g24: int = b.x.x * c.x.x + b.y.x * c.x.y;
    let g25: int = g24 + b.z.x * c.x.z;
    let g26: int = b.x.y * c.x.x + b.y.y * c.x.y;
    let g27: int = g26 + b.z.y * c.x.z;
    let g28: int = a.y.z * b.x.y * c.x.x + a.y.z * b.y.y * c.x.y;
    let g29: int = g28 + a.y.z * b.z.y * c.x.z;
    let g30: int = b.x.z * c.x.x + b.y.z * c.x.y;
    let g31: int = g30 + b.z.z * c.x.z;
    let g32: int = a.z.z * b.x.z * c.x.x + a.z.z * b.y.z * c.x.y;
    let g33: int = g32 + a.z.z * b.z.z * c.x.z;
    assert((g0 + a.z.z * b.x.z) * (c.x.x) == g0 * (c.x.x) + (a.z.z * b.x.z) * (c.x.x)
        && (a.x.z * b.x.x + a.y.z * b.x.y) * (c.x.x) == a.x.z * b.x.x * (c.x.x) + (a.y.z * b.x.y) * (c.x.x)
        && (g4 + a.z.z * b.y.z) * (c.x.y) == g4 * (c.x.y) + (a.z.z * b.y.z) * (c.x.y)
    ) by (nonlinear_arith);
    assert((a.x.z * b.y.x + a.y.z * b.y.y) * (c.x.y) == a.x.z * b.y.x * (c.x.y) + (a.y.z * b.y.y) * (c.x.y)
        && (g13 + a.z.z * b.z.z) * (c.x.z) == g13 * (c.x.z) + (a.z.z * b.z.z) * (c.x.z)
    ) by (nonlinear_arith);
    assert((a.x.z * b.z.x + a.y.z * b.z.y) * (c.x.z) == a.x.z * b.z.x * (c.x.z) + (a.y.z * b.z.y) * (c.x.z)
        && (a.x.z) * (g24 + b.z.x * c.x.z) == (a.x.z) * (g24) + (a.x.z) * (b.z.x * c.x.z)
    ) by (nonlinear_arith);
    assert((a.x.z) * (b.x.x * c.x.x + b.y.x * c.x.y) == (a.x.z) * (b.x.x * c.x.x) + (a.x.z) * (b.y.x * c.x.y)
        && a.x.z * (b.x.x * c.x.x) == a.x.z * b.x.x * c.x.x
        && a.x.z * (b.y.x * c.x.y) == a.x.z * b.y.x * c.x.y
    ) by (nonlinear_arith);
    assert(a.x.z * (b.z.x * c.x.z) == a.x.z * b.z.x * c.x.z
        && (a.y.z) * (g26 + b.z.y * c.x.z) == (a.y.z) * (g26) + (a.y.z) * (b.z.y * c.x.z)
        && (a.y.z) * (b.x.y * c.x.x + b.y.y * c.x.y) == (a.y.z) * (b.x.y * c.x.x) + (a.y.z) * (b.y.y * c.x.y)
    ) by (nonlinear_arith);
    assert(a.y.z * (b.x.y * c.x.x) == a.y.z * b.x.y * c.x.x
        && a.y.z * (b.y.y * c.x.y) == a.y.z * b.y.y * c.x.y
        && a.y.z * (b.z.y * c.x.z) == a.y.z * b.z.y * c.x.z
        && (a.z.z) * (g30 + b.z.z * c.x.z) == (a.z.z) * (g30) + (a.z.z) * (b.z.z * c.x.z)
    ) by (nonlinear_arith);
    assert((a.z.z) * (b.x.z * c.x.x + b.y.z * c.x.y) == (a.z.z) * (b.x.z * c.x.x) + (a.z.z) * (b.y.z * c.x.y)
        && a.z.z * (b.x.z * c.x.x) == a.z.z * b.x.z * c.x.x
        && a.z.z * (b.y.z * c.x.y) == a.z.z * b.y.z * c.x.y
    ) by (nonlinear_arith);
    assert(a.z.z * (b.z.z * c.x.z) == a.z.z * b.z.z * c.x.z) by (nonlinear_arith);
    assert((a.x.z) * (b.x.x) == a.x.z * b.x.x);
    assert((a.y.z) * (b.x.y) == a.y.z * b.x.y);
    assert((a.x.z * b.x.x) + (a.y.z * b.x.y) == g0);
    assert((a.z.z) * (b.x.z) == a.z.z * b.x.z);
    assert((g0) + (a.z.z * b.x.z) == g1);
    assert((g0) * (c.x.x) == g2);
    assert((g1) * (c.x.x) == g3);
    assert((g1) * (c.x.x) == g3);
    assert((a.x.z) * (b.y.x) == a.x.z * b.y.x);
    assert((a.y.z) * (b.y.y) == a.y.z * b.y.y);
    assert((a.x.z * b.y.x) + (a.y.z * b.y.y) == g4);
    assert((a.z.z) * (b.y.z) == a.z.z * b.y.z);
    assert((g4) + (a.z.z * b.y.z) == g5);
    assert((g4) * (c.x.y) == g6);
    assert((g5) * (c.x.y) == g7);
    assert((g5) * (c.x.y) == g7);
    assert((g3) + (g7) == g12);
    assert((a.x.z) * (b.z.x) == a.x.z * b.z.x);
    assert((a.y.z) * (b.z.y) == a.y.z * b.z.y);
    assert((a.x.z * b.z.x) + (a.y.z * b.z.y) == g13);
    assert((a.z.z) * (b.z.z) == a.z.z * b.z.z);
    assert((g13) + (a.z.z * b.z.z) == g14);
    assert((g13) * (c.x.z) == g15);
    assert((g14) * (c.x.z) == g16);
    assert((g14) * (c.x.z) == g16);
    assert((g12) + (g16) == g23);
    assert((b.x.x) * (c.x.x) == b.x.x * c.x.x);
    assert((b.y.x) * (c.x.y) == b.y.x * c.x.y);
    assert((b.x.x * c.x.x) + (b.y.x * c.x.y) == g24);
    assert((b.z.x) * (c.x.z) == b.z.x * c.x.z);
    assert((g24) + (b.z.x * c.x.z) == g25);
    assert((a.x.z) * (g24) == g8);
    assert((a.x.z) * (g25) == g17);
    assert((a.x.z) * (g25) == g17);
    assert((b.x.y) * (c.x.x) == b.x.y * c.x.x);
    assert((b.y.y) * (c.x.y) == b.y.y * c.x.y);
    assert((b.x.y * c.x.x) + (b.y.y * c.x.y) == g26);
    assert((b.z.y) * (c.x.z) == b.z.y * c.x.z);
    assert((g26) + (b.z.y * c.x.z) == g27);
    assert((a.y.z) * (g26) == g28);
    assert((a.y.z) * (g27) == g29);
    assert((a.y.z) * (g27) == g29);
    assert((g17) + (g29) == g20);
    assert((b.x.z) * (c.x.x) == b.x.z * c.x.x);
    assert((b.y.z) * (c.x.y) == b.y.z * c.x.y);
    assert((b.x.z * c.x.x) + (b.y.z * c.x.y) == g30);
    assert((b.z.z) * (c.x.z) == b.z.z * c.x.z);
    assert((g30) + (b.z.z * c.x.z) == g31);
    assert((a.z.z) * (g30) == g32);
    assert((a.z.z) * (g31) == g33);
    assert((a.z.z) * (g31) == g33);
    assert((g20) + (g33) == g23);
}

proof fn assoc3_part_x_d(a: M3, b: M3, c: M3)
    ensures
        m3_mul(m3_mul(a, b), c).x.d == m3_mul(a, m3_mul(b, c)).x.d,
{
    assert(a.x.d * (b.x.d * c.x.d) == a.x.d * b.x.d * c.x.d) by (nonlinear_arith);
    assert((a.x.d) * (b.x.d) == a.x.d * b.x.d);
    assert((a.x.d * b.x.d) * (c.x.d) == a.x.d * b.x.d * c.x.d);
    assert((b.x.d) * (c.x.d) == b.x.d * c.x.d);
    assert((a.x.d) * (b.x.d * c.x.d) == a.x.d * b.x.d * c.x.d);
}

proof fn assoc3_part_y_x(a: M3, b: M3, c: M3)
    ensures
        m3_mul(m3_mul(a, b), c).y.x == m3_mul(a, m3_mul(b, c)).y.x,
{
    let g0: int = a.x.x * b.x.x + a.y.x * b.x.y;
    let g1: int = g0 + a.z.x * b.x.z;
    let g2: int = a.x.x * b.x.x * c.y.x + a.y.x * b.x.y * c.y.x;
    let g3: int = g2 + a.z.x * b.x.z * c.y.x;
    let g4: int = a.x.x * b.y.x + a.y.x * b.y.y;
    let g5: int = g4 + a.z.x * b.y.z;
    let g6: int = a.x.x * b.y.x * c.y.y + a.y.x * b.y.y * c.y.y;
    let g7: int = g6 + a.z.x * b.y.z * c.y.y;
    let g8: int = a.x.x * b.x.x * c.y.x + a.x.x * b.y.x * c.y.y;
    let g9: int = g8 + a.y.x * b.x.y * c.y.x;
    let g10: int = g9 + a.y.x * b.y.y * c.y.y;
    let g11: int = g10 + a.z.x * b.x.z * c.y.x;
    let g12: int = g11 + a.z.x * b.y.z * c.y.y;
    let g13: int = a.x.x * b.z.x + a.y.x * b.z.y;
    let g14: int = g13 + a.z.x * b.z.z;
    let g15: int = a.x.x * b.z.x * c.y.z + a.y.x * b.z.y * c.y.z;
    let g16: int = g15 + a.z.x * b.z.z * c.y.z;
    let g17: int = g8 + a.x.x * b.z.x * c.y.z;
    let g18: int = g17 + a.y.x * b.x.y * c.y.x;
    let g19: int = g18 + a.y.x * b.y.y * c.y.y;
    let g20: int = g19 + a.y.x * b.z.y * c.y.z;
    let g21: int = g20 + a.z.x * b.x.z * c.y.x;
    let g22: int = g21 + a.z.x * b.y.z * c.y.y;
    let g23: int = g22 + a.z.x * b.z.z * c.y.z;
    let g24: int = b.x.x * c.y.x + b.y.x * c.y.y;
    let g25: int = g24 + b.z.x * c.y.z;
    let g26: int = b.x.y * c.y.x + b.y.y * c.y.y;
    let g27: int = g26 + b.z.y * c.y.z;
    let g28: int = a.y.x * b.x.y * c.y.x + a.y.x * b.y.y * c.y.y;
    let g29: int = g28 + a.y.x * b.z.y * c.y.z;
    let g30: int = b.x.z * c.y.x + b.y.z * c.y.y;
    let g31: int = g30 + b.z.z * c.y.z;
    let g32: int = a.z.x * b.x.z * c.y.x + a.z.x * b.y.z * c.y.y;
    let g33: int = g32 + a.z.x * b.z.z * c.y.z;
    assert((g0 + a.z.x * b.x.z) * (c.y.x) == g0 * (c.y.x) + (a.z.x * b.x.z) * (c.y.x)
        && (a.x.x * b.x.x + a.y.x * b.x.y) * (c.y.x) == a.x.x * b.x.x * (c.y.x) + (a.y.x * b.x.y) * (c.y.x)
        && (g4 + a.z.x * b.y.z) * (c.y.y) == g4 * (c.y.y) + (a.z.x * b.y.z) * (c.y.y)
    ) by (nonlinear_arith);
    assert((a.x.x * b.y.x + a.y.x * b.y.y) * (c.y.y) == a.x.x * b.y.x * (c.y.y) + (a.y.x * b.y.y) * (c.y.y)
        && (g13 + a.z.x * b.z.z) * (c.y.z) == g13 * (c.y.z) + (a.z.x * b.z.z) * (c.y.z)
    ) by (nonlinear_arith);
    assert((a.x.x * b.z.x + a.y.x * b.z.y) * (c.y.z) == a.x.x * b.z.x * (c.y.z) + (a.y.x * b.z.y) * (c.y.z)
        && (a.x.x) * (g24 + b.z.x * c.y.z) == (a.x.x) * (g24) + (a.x.x) * (b.z.x * c.y.z)
    ) by (nonlinear_arith);
    assert((a.x.x) * (b.x.x * c.y.x + b.y.x * c.y.y) == (a.x.x) * (b.x.x * c.y.x) + (a.x.x) * (b.y.x * c.y.y)
        && a.x.x * (b.x.x * c.y.x) == a.x.x * b.x.x * c.y.x
        && a.x.x * (b.y.x * c.y.y) == a.x.x * b.y.x * c.y.y
    ) by (nonlinear_arith);
    assert(a.x.x * (b.z.x * c.y.z) == a.x.x * b.z.x * c.y.z
        && (a.y.x) * (g26 + b.z.y * c.y.z) == (a.y.x) * (g26) + (a.y.x) * (b.z.y * c.y.z)
        && (a.y.x) * (b.x.y * c.y.x + b.y.y * c.y.y) == (a.y.x) * (b.x.y * c.y.x) + (a.y.x) * (b.y.y * c.y.y)
    ) by (nonlinear_arith);
    assert(a.y.x * (b.x.y * c.y.x) == a.y.x * b.x.y * c.y.x
        && a.y.x * (b.y.y * c.y.y) == a.y.x * b.y.y * c.y.y
        && a.y.x * (b.z.y * c.y.z) == a.y.x * b.z.y * c.y.z
        && (a.z.x) * (g30 + b.z.z * c.y.z) == (a.z.x) * (g30) + (a.z.x) * (b.z.z * c.y.z)
    ) by (nonlinear_arith);
    assert((a.z.x) * (b.x.z * c.y.x + b.y.z * c.y.y) == (a.z.x) * (b.x.z * c.y.x) + (a.z.x) * (b.y.z * c.y.y)
        && a.z.x * (b.x.z * c.y.x) == a.z.x * b.x.z * c.y.x
        && a.z.x * (b.y.z * c.y.y) == a.z.x * b.y.z * c.y.y
    ) by (nonlinear_arith);
    assert(a.z.x * (b.z.z * c.y.z) == a.z.x * b.z.z * c.y.z) by (nonlinear_arith);
    assert((a.x.x) * (b.x.x) == a.x.x * b.x.x);
    assert((a.y.x) * (b.x.y) == a.y.x * b.x.y);
    assert((a.x.x * b.x.x) + (a.y.x * b.x.y) == g0);
    assert((a.z.x) * (b.x.z) == a.z.x * b.x.z);
    assert((g0) + (a.z.x * b.x.z) == g1);
    assert((g0) * (c.y.x) == g2);
    assert((g1) * (c.y.x) == g3);
    assert((g1) * (c.y.x) == g3);
    assert((a.x.x) * (b.y.x) == a.x.x * b.y.x);
    assert((a.y.x) * (b.y.y) == a.y.x * b.y.y);
    assert((a.x.x * b.y.x) + (a.y.x * b.y.y) == g4);
    assert((a.z.x) * (b.y.z) == a.z.x * b.y.z);
    assert((g4) + (a.z.x * b.y.z) == g5);
    assert((g4) * (c.y.y) == g6);
    assert((g5) * (c.y.y) == g7);
    assert((g5) * (c.y.y) == g7);
    assert((g3) + (g7) == g12);
    assert((a.x.x) * (b.z.x) == a.x.x * b.z.x);
    assert((a.y.x) * (b.z.y) == a.y.x * b.z.y);
    assert((a.x.x * b.z.x) + (a.y.x * b.z.y) == g13);
    assert((a.z.x) * (b.z.z) == a.z.x * b.z.z);
    assert((g13) + (a.z.x * b.z.z) == g14);
    assert((g13) * (c.y.z) == g15);
    assert((g14) * (c.y.z) == g16);
    assert((g14) * (c.y.z) == g16);
    assert((g12) + (g16) == g23);
    assert((b.x.x) * (c.y.x) == b.x.x * c.y.x);
    assert((b.y.x) * (c.y.y) == b.y.x * c.y.y);
    assert((b.x.x * c.y.x) + (b.y.x * c.y.y) == g24);
    assert((b.z.x) * (c.y.z) == b.z.x * c.y.z);
    assert((g24) + (b.z.x * c.y.z) == g25);
    assert((a.x.x) * (g24) == g8);
    assert((a.x.x) * (g25) == g17);
    assert((a.x.x) * (g25) == g17);
    assert((b.x.y) * (c.y.x) == b.x.y * c.y.x);
    assert((b.y.y) * (c.y.y) == b.y.y * c.y.y);
    assert((b.x.y * c.y.x) + (b.y.y * c.y.y) == g26);
    assert((b.z.y) * (c.y.z) == b.z.y * c.y.z);
    assert((g26) + (b.z.y * c.y.z) == g27);
    assert((a.y.x) * (g26) == g28);
    assert((a.y.x) * (g27) == g29);
    assert((a.y.x) * (g27) == g29);
    assert((g17) + (g29) == g20);
    assert((b.x.z) * (c.y.x) == b.x.z * c.y.x);
    assert((b.y.z) * (c.y.y) == b.y.z * c.y.y);
    assert((b.x.z * c.y.x) + (b.y.z * c.y.y) == g30);
    assert((b.z.z) * (c.y.z) == b.z.z * c.y.z);
    assert((g30) + (b.z.z * c.y.z) == g31);
    assert((a.z.x) * (g30) == g32);
    assert((a.z.x) * (g31) == g33);
    assert((a.z.x) * (g31) == g33);
    assert((g20) + (g33) == g23);
}

proof fn assoc3_part_y_y(a: M3, b: M3, c: M3)
    ensures
        m3_mul(m3_mul(a, b), c).y.y == m3_mul(a, m3_mul(b, c)).y.y,
{
    let g0: int = a.x.y * b.x.x + a.y.y * b.x.y;
    let g1: int = g0 + a.z.y * b.x.z;
    let g2: int = a.x.y * b.x.x * c.y.x + a.y.y * b.x.y * c.y.x;
    let g3: int = g2 + a.z.y * b.x.z * c.y.x;
    let g4: int = a.x.y * b.y.x + a.y.y * b.y.y;
    let g5: int = g4 + a.z.y * b.y.z;
    let g6: int = a.x.y * b.y.x * c.y.y + a.y.y * b.y.y * c.y.y;
    let g7: int = g6 + a.z.y * b.y.z * c.y.y;
    let g8: int = a.x.y * b.x.x * c.y.x + a.x.y * b.y.x * c.y.y;
    let g9: int = g8 + a.y.y * b.x.y * c.y.x;
    let g10: int = g9 + a.y.y * b.y.y * c.y.y;
    let g11: int = g10 + a.z.y * b.x.z * c.y.x;
    let g12: int = g11 + a.z.y * b.y.z * c.y.y;
    let g13: int = a.x.y * b.z.x + a.y.y * b.z.y;
    let g14: int = g13 + a.z.y * b.z.z;
    let g15: int = a.x.y * b.z.x * c.y.z + a.y.y * b.z.y * c.y.z;
    let g16: int = g15 + a.z.y * b.z.z * c.y.z;
    let g17: int = g8 + a.x.y * b.z.x * c.y.z;
    let g18: int = g17 + a.y.y * b.x.y * c.y.x;
    let g19: int = g18 + a.y.y * b.y.y * c.y.y;
    let g20: int = g19 + a.y.y * b.z.y * c.y.z;
    let g21: int = g20 + a.z.y * b.x.z * c.y.x;
    let g22: int = g21 + a.z.y * b.y.z * c.y.y;
    let g23: int = g22 + a.z.y * b.z.z * c.y.z;
    let g24: int = b.x.x * c.y.x + b.y.x * c.y.y;
    let g25: int = g24 + b.z.x * c.y.z;
    let g26: int = b.x.y * c.y.x + b.y.y * c.y.y;
    let g27: int = g26 + b.z.y * c.y.z;
    let g28: int = a.y.y * b.x.y * c.y.x + a.y.y * b.y.y * c.y.y;
    let g29: int = g28 + a.y.y * b.z.y * c.y.z;
    let g30: int = b.x.z * c.y.x + b.y.z * c.y.y;
    let g31: int = g30 + b.z.z * c.y.z;
    let g32: int = a.z.y * b.x.z * c.y.x + a.z.y * b.y.z * c.y.y;
    let g33: int = g32 + a.z.y * b.z.z * c.y.z;
    assert((g0 + a.z.y * b.x.z) * (c.y.x) == g0 * (c.y.x) + (a.z.y * b.x.z) * (c.y.x)
        && (a.x.y * b.x.x + a.y.y * b.x.y) * (c.y.x) == a.x.y * b.x.x * (c.y.x) + (a.y.y * b.x.y) * (c.y.x)
        && (g4 + a.z.y * b.y.z) * (c.y.y) == g4 * (c.y.y) + (a.z.y * b.y.z) * (c.y.y)
    ) by (nonlinear_arith);
    assert((a.x.y * b.y.x + a.y.y * b.y.y) * (c.y.y) == a.x.y * b.y.x * (c.y.y) + (a.y.y * b.y.y) * (c.y.y)
        && (g13 + a.z.y * b.z.z) * (c.y.z) == g13 * (c.y.z) + (a.z.y * b.z.z) * (c.y.z)
    ) by (nonlinear_arith);
    assert((a.x.y * b.z.x + a.y.y * b.z.y) * (c.y.z) == a.x.y * b.z.x * (c.y.z) + (a.y.y * b.z.y) * (c.y.z)
        && (a.x.y) * (g24 + b.z.x * c.y.z) == (a.x.y) * (g24) + (a.x.y) * (b.z.x * c.y.z)
    ) by (nonlinear_arith);
    assert((a.x.y) * (b.x.x * c.y.x + b.y.x * c.y.y) == (a.x.y) * (b.x.x * c.y.x) + (a.x.y) * (b.y.x * c.y.y)
        && a.x.y * (b.x.x * c.y.x) == a.x.y * b.x.x * c.y.x
        && a.x.y * (b.y.x * c.y.y) == a.x.y * b.y.x * c.y.y
    ) by (nonlinear_arith);
    assert(a.x.y * (b.z.x * c.y.z) == a.x.y * b.z.x * c.y.z
        && (a.y.y) * (g26 + b.z.y * c.y.z) == (a.y.y) * (g26) + (a.y.y) * (b.z.y * c.y.z)
        && (a.y.y) * (b.x.y * c.y.x + b.y.y * c.y.y) == (a.y.y) * (b.x.y * c.y.x) + (a.y.y) * (b.y.y * c.y.y)
    ) by (nonlinear_arith);
    assert(a.y.y * (b.x.y * c.y.x) == a.y.y * b.x.y * c.y.x
        && a.y.y * (b.y.y * c.y.y) == a.y.y * b.y.y * c.y.y
        && a.y.y * (b.z.y * c.y.z) == a.y.y * b.z.y * c.y.z
        && (a.z.y) * (g30 + b.z.z * c.y.z) == (a.z.y) * (g30) + (a.z.y) * (b.z.z * c.y.z)
    ) by (nonlinear_arith);
    assert((a.z.y) * (b.x.z * c.y.x + b.y.z * c.y.y) == (a.z.y) * (b.x.z * c.y.x) + (a.z.y) * (b.y.z * c.y.y)
        && a.z.y * (b.x.z * c.y.x) == a.z.y * b.x.z * c.y.x
        && a.z.y * (b.y.z * c.y.y) == a.z.y * b.y.z * c.y.y
    ) by (nonlinear_arith);
    assert(a.z.y * (b.z.z * c.y.z) == a.z.y * b.z.z * c.y.z) by (nonlinear_arith);
    assert((a.x.y) * (b.x.x) == a.x.y * b.x.x);
    assert((a.y.y) * (b.x.y) == a.y.y * b.x.y);
    assert((a.x.y * b.x.x) + (a.y.y * b.x.y) == g0);
    assert((a.z.y) * (b.x.z) == a.z.y * b.x.z);
    assert((g0) + (a.z.y * b.x.z) == g1);
    assert((g0) * (c.y.x) == g2);
    assert((g1) * (c.y.x) == g3);
    assert((g1) * (c.y.x) == g3);
    assert((a.x.y) * (b.y.x) == a.x.y * b.y.x);
    assert((a.y.y) * (b.y.y) == a.y.y * b.y.y);
    assert((a.x.y * b.y.x) + (a.y.y * b.y.y) == g4);
    assert((a.z.y) * (b.y.z) == a.z.y * b.y.z);
    assert((g4) + (a.z.y * b.y.z) == g5);
    assert((g4) * (c.y.y) == g6);
    assert((g5) * (c.y.y) == g7);
    assert((g5) * (c.y.y) == g7);
    assert((g3) + (g7) == g12);
    assert((a.x.y) * (b.z.x) == a.x.y * b.z.x);
    assert((a.y.y) * (b.z.y) == a.y.y * b.z.y);
    assert((a.x.y * b.z.x) + (a.y.y * b.z.y) == g13);
    assert((a.z.y) * (b.z.z) == a.z.y * b.z.z);
    assert((g13) + (a.z.y * b.z.z) == g14);
    assert((g13) * (c.y.z) == g15);
    assert((g14) * (c.y.z) == g16);
    assert((g14) * (c.y.z) == g16);
    assert((g12) + (g16) == g23);
    assert((b.x.x) * (c.y.x) == b.x.x * c.y.x);
    assert((b.y.x) * (c.y.y) == b.y.x * c.y.y);
    assert((b.x.x * c.y.x) + (b.y.x * c.y.y) == g24);
    assert((b.z.x) * (c.y.z) == b.z.x * c.y.z);
    assert((g24) + (b.z.x * c.y.z) == g25);
    assert((a.x.y) * (g24) == g8);
    assert((a.x.y) * (g25) == g17);
    assert((a.x.y) * (g25) == g17);
    assert((b.x.y) * (c.y.x) == b.x.y * c.y.x);
    assert((b.y.y) * (c.y.y) == b.y.y * c.y.y);
    assert((b.x.y * c.y.x) + (b.y.y * c.y.y) == g26);
    assert((b.z.y) * (c.y.z) == b.z.y * c.y.z);
    assert((g26) + (b.z.y * c.y.z) == g27);
    assert((a.y.y) * (g26) == g28);
    assert((a.y.y) * (g27) == g29);
    assert((a.y.y) * (g27) == g29);
    assert((g17) + (g29) == g20);
    assert((b.x.z) * (c.y.x) == b.x.z * c.y.x);
    assert((b.y.z) * (c.y.y) == b.y.z * c.y.y);
    assert((b.x.z * c.y.x) + (b.y.z * c.y.y) == g30);
    assert((b.z.z) * (c.y.z) == b.z.z * c.y.z);
    assert((g30) + (b.z.z * c.y.z) == g31);
    assert((a.z.y) * (g30) == g32);
    assert((a.z.y) * (g31) == g33);
    assert((a.z.y) * (g31) == g33);
    assert((g20) + (g33) == g23);
}

proof fn assoc3_part_y_z(a: M3, b: M3, c: M3)
    ensures
        m3_mul(m3_mul(a, b), c).y.z == m3_mul(a, m3_mul(b, c)).y.z,
{
    let g0: int = a.x.z * b.x.x + a.y.z * b.x.y;
    let g1: int = g0 + a.z.z * b.x.z;
    let g2: int = a.x.z * b.x.x * c.y.x + a.y.z * b.x.y * c.y.x;
    let g3: int = g2 + a.z.z * b.x.z * c.y.x;
    let g4: int = a.x.z * b.y.x + a.y.z * b.y.y;
    let g5: int = g4 + a.z.z * b.y.z;
    let g6: int = a.x.z * b.y.x * c.y.y + a.y.z * b.y.y * c.y.y;
    let g7: int = g6 + a.z.z * b.y.z * c.y.y;
    let g8: int = a.x.z * b.x.x * c.y.x + a.x.z * b.y.x * c.y.y;
    let g9: int = g8 + a.y.z * b.x.y * c.y.x;
    let g10: int = g9 + a.y.z * b.y.y * c.y.y;
    let g11: int = g10 + a.z.z * b.x.z * c.y.x;
    let g12: int = g11 + a.z.z * b.y.z * c.y.y;
    let g13: int = a.x.z * b.z.x + a.y.z * b.z.y;
    let g14: int = g13 + a.z.z * b.z.z;
    let g15: int = a.x.z * b.z.x * c.y.z + a.y.z * b.z.y * c.y.z;
    let g16: int = g15 + a.z.z * b.z.z * c.y.z;
    let g17: int = g8 + a.x.z * b.z.x * c.y.z;
    let g18: int = g17 + a.y.z * b.x.y * c.y.x;
    let g19: int = g18 + a.y.z * b.y.y * c.y.y;
    let g20: int = g19 + a.y.z * b.z.y * c.y.z;
    let g21: int = g20 + a.z.z * b.x.z * c.y.x;
    let g22: int = g21 + a.z.z * b.y.z * c.y.y;
    let g23: int = g22 + a.z.z * b.z.z * c.y.z;
    let g24: int = b.x.x * c.y.x + b.y.x * c.y.y;
    let g25: int = g24 + b.z.x * c.y.z;
    let g26: int = b.x.y * c.y.x + b.y.y * c.y.y;
    let g27: int = g26 + b.z.y * c.y.z;
    let g28: int = a.y.z * b.x.y * c.y.x + a.y.z * b.y.y * c.y.y;
    let g29: int = g28 + a.y.z * b.z.y * c.y.z;
    let g30: int = b.x.z * c.y.x + b.y.z * c.y.y;
    let g31: int = g30 + b.z.z * c.y.z;
    let g32: int = a.z.z * b.x.z * c.y.x + a.z.z * b.y.z * c.y.y;
    let g33: int = g32 + a.z.z * b.z.z * c.y.z;
    assert((g0 + a.z.z * b.x.z) * (c.y.x) == g0 * (c.y.x) + (a.z.z * b.x.z) * (c.y.x)
        && (a.x.z * b.x.x + a.y.z * b.x.y) * (c.y.x) == a.x.z * b.x.x * (c.y.x) + (a.y.z * b.x.y) * (c.y.x)
        && (g4 + a.z.z * b.y.z) * (c.y.y) == g4 * (c.y.y) + (a.z.z * b.y.z) * (c.y.y)
    ) by (nonlinear_arith);
    assert((a.x.z * b.y.x + a.y.z * b.y.y) * (c.y.y) == a.x.z * b.y.x * (c.y.y) + (a.y.z * b.y.y) * (c.y.y)
        && (g13 + a.z.z * b.z.z) * (c.y.z) == g13 * (c.y.z) + (a.z.z * b.z.z) * (c.y.z)
    ) by (nonlinear_arith);
    assert((a.x.z * b.z.x + a.y.z * b.z.y) * (c.y.z) == a.x.z * b.z.x * (c.y.z) + (a.y.z * b.z.y) * (c.y.z)
        && (a.x.z) * (g24 + b.z.x * c.y.z) == (a.x.z) * (g24) + (a.x.z) * (b.z.x * c.y.z)
    ) by (nonlinear_arith);
    assert((a.x.z) * (b.x.x * c.y.x + b.y.x * c.y.y) == (a.x.z) * (b.x.x * c.y.x) + (a.x.z) * (b.y.x * c.y.y)
        && a.x.z * (b.x.x * c.y.x) == a.x.z * b.x.x * c.y.x
        && a.x.z * (b.y.x * c.y.y) == a.x.z * b.y.x * c.y.y
    ) by (nonlinear_arith);
    assert(a.x.z * (b.z.x * c.y.z) == a.x.z * b.z.x * c.y.z
        && (a.y.z) * (g26 + b.z.y * c.y.z) == (a.y.z) * (g26) + (a.y.z) * (b.z.y * c.y.z)
        && (a.y.z) * (b.x.y * c.y.x + b.y.y * c.y.y) == (a.y.z) * (b.x.y * c.y.x) + (a.y.z) * (b.y.y * c.y.y)
    ) by (nonlinear_arith);
    assert(a.y.z * (b.x.y * c.y.x) == a.y.z * b.x.y * c.y.x
        && a.y.z * (b.y.y * c.y.y) == a.y.z * b.y.y * c.y.y
        && a.y.z * (b.z.y * c.y.z) == a.y.z * b.z.y * c.y.z
        && (a.z.z) * (g30 + b.z.z * c.y.z) == (a.z.z) * (g30) + (a.z.z) * (b.z.z * c.y.z)
    ) by (nonlinear_arith);
    assert((a.z.z) * (b.x.z * c.y.x + b.y.z * c.y.y) == (a.z.z) * (b.x.z * c.y.x) + (a.z.z) * (b.y.z * c.y.y)
        && a.z.z * (b.x.z * c.y.x) == a.z.z * b.x.z * c.y.x
        && a.z.z * (b.y.z * c.y.y) == a.z.z * b.y.z * c.y.y
    ) by (nonlinear_arith);
    assert(a.z.z * (b.z.z * c.y.z) == a.z.z * b.z.z * c.y.z) by (nonlinear_arith);
    assert((a.x.z) * (b.x.x) == a.x.z * b.x.x);
    assert((a.y.z) * (b.x.y) == a.y.z * b.x.y);
    assert((a.x.z * b.x.x) + (a.y.z * b.x.y) == g0);
    assert((a.z.z) * (b.x.z) == a.z.z * b.x.z);
    assert((g0) + (a.z.z * b.x.z) == g1);
    assert((g0) * (c.y.x) == g2);
    assert((g1) * (c.y.x) == g3);
    assert((g1) * (c.y.x) == g3);
    assert((a.x.z) * (b.y.x) == a.x.z * b.y.x);
    assert((a.y.z) * (b.y.y) == a.y.z * b.y.y);
    assert((a.x.z * b.y.x) + (a.y.z * b.y.y) == g4);
    assert((a.z.z) * (b.y.z) == a.z.z * b.y.z);
    assert((g4) + (a.z.z * b.y.z) == g5);
    assert((g4) * (c.y.y) == g6);
    assert((g5) * (c.y.y) == g7);
    assert((g5) * (c.y.y) == g7);
    assert((g3) + (g7) == g12);
    assert((a.x.z) * (b.z.x) == a.x.z * b.z.x);
    assert((a.y.z) * (b.z.y) == a.y.z * b.z.y);
    assert((a.x.z * b.z.x) + (a.y.z * b.z.y) == g13);
    assert((a.z.z) * (b.z.z) == a.z.z * b.z.z);
    assert((g13) + (a.z.z * b.z.z) == g14);
    assert((g13) * (c.y.z) == g15);
    assert((g14) * (c.y.z) == g16);
    assert((g14) * (c.y.z) == g16);
    assert((g12) + (g16) == g23);
    assert((b.x.x) * (c.y.x) == b.x.x * c.y.x);
    assert((b.y.x) * (c.y.y) == b.y.x * c.y.y);
    assert((b.x.x * c.y.x) + (b.y.x * c.y.y) == g24);
    assert((b.z.x) * (c.y.z) == b.z.x * c.y.z);
    assert((g24) + (b.z.x * c.y.z) == g25);
    assert((a.x.z) * (g24) == g8);
    assert((a.x.z) * (g25) == g17);
    assert((a.x.z) * (g25) == g17);
    assert((b.x.y) * (c.y.x) == b.x.y * c.y.x);
    assert((b.y.y) * (c.y.y) == b.y.y * c.y.y);
    assert((b.x.y * c.y.x) + (b.y.y * c.y.y) == g26);
    assert((b.z.y) * (c.y.z) == b.z.y * c.y.z);
    assert((g26) + (b.z.y * c.y.z) == g27);
    assert((a.y.z) * (g26) == g28);
    assert((a.y.z) * (g27) == g29);
    assert((a.y.z) * (g27) == g29);
    assert((g17) + (g29) == g20);
    assert((b.x.z) * (c.y.x) == b.x.z * c.y.x);
    assert((b.y.z) * (c.y.y) == b.y.z * c.y.y);
    assert((b.x.z * c.y.x) + (b.y.z * c.y.y) == g30);
    assert((b.z.z) * (c.y.z) == b.z.z * c.y.z);
    assert((g30) + (b.z.z * c.y.z) == g31);
    assert((a.z.z) * (g30) == g32);
    assert((a.z.z) * (g31) == g33);
    assert((a.z.z) * (g31) == g33);
    assert((g20) + (g33) == g23);
}

proof fn assoc3_part_y_d(a: M3, b: M3, c: M3)
    ensures
        m3_mul(m3_mul(a, b), c).y.d == m3_mul(a, m3_mul(b, c)).y.d,
{
    assert(a.x.d * (b.x.d * c.y.d) == a.x.d * b.x.d * c.y.d) by (nonlinear_arith);
    assert((a.x.d) * (b.x.d) == a.x.d * b.x.d);
    assert((a.x.d * b.x.d) * (c.y.d) == a.x.d * b.x.d * c.y.d);
    assert((b.x.d) * (c.y.d) == b.x.d * c.y.d);
    assert((a.x.d) * (b.x.d * c.y.d) == a.x.d * b.x.d * c.y.d);
}

proof fn assoc3_part_z_x(a: M3, b: M3, c: M3)
    ensures
        m3_mul(m3_mul(a, b), c).z.x == m3_mul(a, m3_mul(b, c)).z.x,
{
    let g0: int = a.x.x * b.x.x + a.y.x * b.x.y;
    let g1: int = g0 + a.z.x * b.x.z;
    let g2: int = a.x.x * b.x.x * c.z.x + a.y.x * b.x.y * c.z.x;
    let g3: int = g2 + a.z.x * b.x.z * c.z.x;
    let g4: int = a.x.x * b.y.x + a.y.x * b.y.y;
    let g5: int = g4 + a.z.x * b.y.z;
    let g6: int = a.x.x * b.y.x * c.z.y + a.y.x * b.y.y * c.z.y;
    let g7: int = g6 + a.z.x * b.y.z * c.z.y;
    let g8: int = a.x.x * b.x.x * c.z.x + a.x.x * b.y.x * c.z.y;
    let g9: int = g8 + a.y.x * b.x.y * c.z.x;
    let g10: int = g9 + a.y.x * b.y.y * c.z.y;
    let g11: int = g10 + a.z.x * b.x.z * c.z.x;
    let g12: int = g11 + a.z.x * b.y.z * c.z.y;
    let g13: int = a.x.x * b.z.x + a.y.x * b.z.y;
    let g14: int = g13 + a.z.x * b.z.z;
    let g15: int = a.x.x * b.z.x * c.z.z + a.y.x * b.z.y * c.z.z;
    let g16: int = g15 + a.z.x * b.z.z * c.z.z;
    let g17: int = g8 + a.x.x * b.z.x * c.z.z;
    let g18: int = g17 + a.y.x * b.x.y * c.z.x;
    let g19: int = g18 + a.y.x * b.y.y * c.z.y;
    let g20: int = g19 + a.y.x * b.z.y * c.z.z;
    let g21: int = g20 + a.z.x * b.x.z * c.z.x;
    let g22: int = g21 + a.z.x * b.y.z * c.z.y;
    let g23: int = g22 + a.z.x * b.z.z * c.z.z;
    let g24: int = b.x.x * c.z.x + b.y.x * c.z.y;
    let g25: int = g24 + b.z.x * c.z.z;
    let g26: int = b.x.y * c.z.x + b.y.y * c.z.y;
    let g27: int = g26 + b.z.y * c.z.z;
    let g28: int = a.y.x * b.x.y * c.z.x + a.y.x * b.y.y * c.z.y;
    let g29: int = g28 + a.y.x * b.z.y * c.z.z;
    let g30: int = b.x.z * c.z.x + b.y.z * c.z.y;
    let g31: int = g30 + b.z.z * c.z.z;
    let g32: int = a.z.x * b.x.z * c.z.x + a.z.x * b.y.z * c.z.y;
    let g33: int = g32 + a.z.x * b.z.z * c.z.z;
    assert((g0 + a.z.x * b.x.z) * (c.z.x) == g0 * (c.z.x) + (a.z.x * b.x.z) * (c.z.x)
        && (a.x.x * b.x.x + a.y.x * b.x.y) * (c.z.x) == a.x.x * b.x.x * (c.z.x) + (a.y.x * b.x.y) * (c.z.x)
        && (g4 + a.z.x * b.y.z) * (c.z.y) == g4 * (c.z.y) + (a.z.x * b.y.z) * (c.z.y)
    ) by (nonlinear_arith);
    assert((a.x.x * b.y.x + a.y.x * b.y.y) * (c.z.y) == a.x.x * b.y.x * (c.z.y) + (a.y.x * b.y.y) * (c.z.y)
        && (g13 + a.z.x * b.z.z) * (c.z.z) == g13 * (c.z.z) + (a.z.x * b.z.z) * (c.z.z)
    ) by (nonlinear_arith);
    assert((a.x.x * b.z.x + a.y.x * b.z.y) * (c.z.z) == a.x.x * b.z.x * (c.z.z) + (a.y.x * b.z.y) * (c.z.z)
        && (a.x.x) * (g24 + b.z.x * c.z.z) == (a.x.x) * (g24) + (a.x.x) * (b.z.x * c.z.z)
    ) by (nonlinear_arith);
    assert((a.x.x) * (b.x.x * c.z.x + b.y.x * c.z.y) == (a.x.x) * (b.x.x * c.z.x) + (a.x.x) * (b.y.x * c.z.y)
        && a.x.x * (b.x.x * c.z.x) == a.x.x * b.x.x * c.z.x
        && a.x.x * (b.y.x * c.z.y) == a.x.x * b.y.x * c.z.y
    ) by (nonlinear_arith);
    assert(a.x.x * (b.z.x * c.z.z) == a.x.x * b.z.x * c.z.z
        && (a.y.x) * (g26 + b.z.y * c.z.z) == (a.y.x) * (g26) + (a.y.x) * (b.z.y * c.z.z)
        && (a.y.x) * (b.x.y * c.z.x + b.y.y * c.z.y) == (a.y.x) * (b.x.y * c.z.x) + (a.y.x) * (b.y.y * c.z.y)
    ) by (nonlinear_arith);
    assert(a.y.x * (b.x.y * c.z.x) == a.y.x * b.x.y * c.z.x
        && a.y.x * (b.y.y * c.z.y) == a.y.x * b.y.y * c.z.y
        && a.y.x * (b.z.y * c.z.z) == a.y.x * b.z.y * c.z.z
        && (a.z.x) * (g30 + b.z.z * c.z.z) == (a.z.x) * (g30) + (a.z.x) * (b.z.z * c.z.z)
    ) by (nonlinear_arith);
    assert((a.z.x) * (b.x.z * c.z.x + b.y.z * c.z.y) == (a.z.x) * (b.x.z * c.z.x) + (a.z.x) * (b.y.z * c.z.y)
        && a.z.x * (b.x.z * c.z.x) == a.z.x * b.x.z * c.z.x
        && a.z.x * (b.y.z * c.z.y) == a.z.x * b.y.z * c.z.y
    ) by (nonlinear_arith);
    assert(a.z.x * (b.z.z * c.z.z) == a.z.x * b.z.z * c.z.z) by (nonlinear_arith);
    assert((a.x.x) * (b.x.x) == a.x.x * b.x.x);
    assert((a.y.x) * (b.x.y) == a.y.x * b.x.y);
    assert((a.x.x * b.x.x) + (a.y.x * b.x.y) == g0);
    assert((a.z.x) * (b.x.z) == a.z.x * b.x.z);
    assert((g0) + (a.z.x * b.x.z) == g1);
    assert((g0) * (c.z.x) == g2);
    assert((g1) * (c.z.x) == g3);
    assert((g1) * (c.z.x) == g3);
    assert((a.x.x) * (b.y.x) == a.x.x * b.y.x);
    assert((a.y.x) * (b.y.y) == a.y.x * b.y.y);
    assert((a.x.x * b.y.x) + (a.y.x * b.y.y) == g4);
    assert((a.z.x) * (b.y.z) == a.z.x * b.y.z);
    assert((g4) + (a.z.x * b.y.z) == g5);
    assert((g4) * (c.z.y) == g6);
    assert((g5) * (c.z.y) == g7);
    assert((g5) * (c.z.y) == g7);
    assert((g3) + (g7) == g12);
    assert((a.x.x) * (b.z.x) == a.x.x * b.z.x);
    assert((a.y.x) * (b.z.y) == a.y.x * b.z.y);
    assert((a.x.x * b.z.x) + (a.y.x * b.z.y) == g13);
    assert((a.z.x) * (b.z.z) == a.z.x * b.z.z);
    assert((g13) + (a.z.x * b.z.z) == g14);
    assert((g13) * (c.z.z) == g15);
    assert((g14) * (c.z.z) == g16);
    assert((g14) * (c.z.z) == g16);
    assert((g12) + (g16) == g23);
    assert((b.x.x) * (c.z.x) == b.x.x * c.z.x);
    assert((b.y.x) * (c.z.y) == b.y.x * c.z.y);
    assert((b.x.x * c.z.x) + (b.y.x * c.z.y) == g24);
    assert((b.z.x) * (c.z.z) == b.z.x * c.z.z);
    assert((g24) + (b.z.x * c.z.z) == g25);
    assert((a.x.x) * (g24) == g8);
    assert((a.x.x) * (g25) == g17);
    assert((a.x.x) * (g25) == g17);
    assert((b.x.y) * (c.z.x) == b.x.y * c.z.x);
    assert((b.y.y) * (c.z.y) == b.y.y * c.z.y);
    assert((b.x.y * c.z.x) + (b.y.y * c.z.y) == g26);
    assert((b.z.y) * (c.z.z) == b.z.y * c.z.z);
    assert((g26) + (b.z.y * c.z.z) == g27);
    assert((a.y.x) * (g26) == g28);
    assert((a.y.x) * (g27) == g29);
    assert((a.y.x) * (g27) == g29);
    assert((g17) + (g29) == g20);
    assert((b.x.z) * (c.z.x) == b.x.z * c.z.x);
    assert((b.y.z) * (c.z.y) == b.y.z * c.z.y);
    assert((b.x.z * c.z.x) + (b.y.z * c.z.y) == g30);
    assert((b.z.z) * (c.z.z) == b.z.z * c.z.z);
    assert((g30) + (b.z.z * c.z.z) == g31);
    assert((a.z.x) * (g30) == g32);
    assert((a.z.x) * (g31) == g33);
    assert((a.z.x) * (g31) == g33);
    assert((g20) + (g33) == g23);
}

proof fn assoc3_part_z_y(a: M3, b: M3, c: M3)
    ensures
        m3_mul(m3_mul(a, b), c).z.y == m3_mul(a, m3_mul(b, c)).z.y,
{
    let g0: int = a.x.y * b.x.x + a.y.y * b.x.y;
    let g1: int = g0 + a.z.y * b.x.z;
    let g2: int = a.x.y * b.x.x * c.z.x + a.y.y * b.x.y * c.z.x;
    let g3: int = g2 + a.z.y * b.x.z * c.z.x;
    let g4: int = a.x.y * b.y.x + a.y.y * b.y.y;
    let g5: int = g4 + a.z.y * b.y.z;
    let g6: int = a.x.y * b.y.x * c.z.y + a.y.y * b.y.y * c.z.y;
    let g7: int = g6 + a.z.y * b.y.z * c.z.y;
    let g8: int = a.x.y * b.x.x * c.z.x + a.x.y * b.y.x * c.z.y;
    let g9: int = g8 + a.y.y * b.x.y * c.z.x;
    let g10: int = g9 + a.y.y * b.y.y * c.z.y;
    let g11: int = g10 + a.z.y * b.x.z * c.z.x;
    let g12: int = g11 + a.z.y * b.y.z * c.z.y;
    let g13: int = a.x.y * b.z.x + a.y.y * b.z.y;
    let g14: int = g13 + a.z.y * b.z.z;
    let g15: int = a.x.y * b.z.x * c.z.z + a.y.y * b.z.y * c.z.z;
    let g16: int = g15 + a.z.y * b.z.z * c.z.z;
    let g17: int = g8 + a.x.y * b.z.x * c.z.z;
    let g18: int = g17 + a.y.y * b.x.y * c.z.x;
    let g19: int = g18 + a.y.y * b.y.y * c.z.y;
    let g20: int = g19 + a.y.y * b.z.y * c.z.z;
    let g21: int = g20 + a.z.y * b.x.z * c.z.x;
    let g22: int = g21 + a.z.y * b.y.z * c.z.y;
    let g23: int = g22 + a.z.y * b.z.z * c.z.z;
    let g24: int = b.x.x * c.z.x + b.y.x * c.z.y;
    let g25: int = g24 + b.z.x * c.z.z;
    let g26: int = b.x.y * c.z.x + b.y.y * c.z.y;
    let g27: int = g26 + b.z.y * c.z.z;
    let g28: int = a.y.y * b.x.y * c.z.x + a.y.y * b.y.y * c.z.y;
    let g29: int = g28 + a.y.y * b.z.y * c.z.z;
    let g30: int = b.x.z * c.z.x + b.y.z * c.z.y;
    let g31: int = g30 + b.z.z * c.z.z;
    let g32: int = a.z.y * b.x.z * c.z.x + a.z.y * b.y.z * c.z.y;
    let g33: int = g32 + a.z.y * b.z.z * c.z.z;
    assert((g0 + a.z.y * b.x.z) * (c.z.x) == g0 * (c.z.x) + (a.z.y * b.x.z) * (c.z.x)
        && (a.x.y * b.x.x + a.y.y * b.x.y) * (c.z.x) == a.x.y * b.x.x * (c.z.x) + (a.y.y * b.x.y) * (c.z.x)
        && (g4 + a.z.y * b.y.z) * (c.z.y) == g4 * (c.z.y) + (a.z.y * b.y.z) * (c.z.y)
    ) by (nonlinear_arith);
    assert((a.x.y * b.y.x + a.y.y * b.y.y) * (c.z.y) == a.x.y * b.y.x * (c.z.y) + (a.y.y * b.y.y) * (c.z.y)
        && (g13 + a.z.y * b.z.z) * (c.z.z) == g13 * (c.z.z) + (a.z.y * b.z.z) * (c.z.z)
    ) by (nonlinear_arith);
    assert((a.x.y * b.z.x + a.y.y * b.z.y) * (c.z.z) == a.x.y * b.z.x * (c.z.z) + (a.y.y * b.z.y) * (c.z.z)
        && (a.x.y) * (g24 + b.z.x * c.z.z) == (a.x.y) * (g24) + (a.x.y) * (b.z.x * c.z.z)
    ) by (nonlinear_arith);
    assert((a.x.y) * (b.x.x * c.z.x + b.y.x * c.z.y) == (a.x.y) * (b.x.x * c.z.x) + (a.x.y) * (b.y.x * c.z.y)
        && a.x.y * (b.x.x * c.z.x) == a.x.y * b.x.x * c.z.x
        && a.x.y * (b.y.x * c.z.y) == a.x.y * b.y.x * c.z.y
    ) by (nonlinear_arith);
    assert(a.x.y * (b.z.x * c.z.z) == a.x.y * b.z.x * c.z.z
        && (a.y.y) * (g26 + b.z.y * c.z.z) == (a.y.y) * (g26) + (a.y.y) * (b.z.y * c.z.z)
        && (a.y.y) * (b.x.y * c.z.x + b.y.y * c.z.y) == (a.y.y) * (b.x.y * c.z.x) + (a.y.y) * (b.y.y * c.z.y)
    ) by (nonlinear_arith);
    assert(a.y.y * (b.x.y * c.z.x) == a.y.y * b.x.y * c.z.x
        && a.y.y * (b.y.y * c.z.y) == a.y.y * b.y.y * c.z.y
        && a.y.y * (b.z.y * c.z.z) == a.y.y * b.z.y * c.z.z
        && (a.z.y) * (g30 + b.z.z * c.z.z) == (a.z.y) * (g30) + (a.z.y) * (b.z.z * c.z.z)
    ) by (nonlinear_arith);
    assert((a.z.y) * (b.x.z * c.z.x + b.y.z * c.z.y) == (a.z.y) * (b.x.z * c.z.x) + (a.z.y) * (b.y.z * c.z.y)
        && a.z.y * (b.x.z * c.z.x) == a.z.y * b.x.z * c.z.x
        && a.z.y * (b.y.z * c.z.y) == a.z.y * b.y.z * c.z.y
    ) by (nonlinear_arith);
    assert(a.z.y * (b.z.z * c.z.z) == a.z.y * b.z.z * c.z.z) by (nonlinear_arith);
    assert((a.x.y) * (b.x.x) == a.x.y * b.x.x);
    assert((a.y.y) * (b.x.y) == a.y.y * b.x.y);
    assert((a.x.y * b.x.x) + (a.y.y * b.x.y) == g0);
    assert((a.z.y) * (b.x.z) == a.z.y * b.x.z);
    assert((g0) + (a.z.y * b.x.z) == g1);
    assert((g0) * (c.z.x) == g2);
    assert((g1) * (c.z.x) == g3);
    assert((g1) * (c.z.x) == g3);
    assert((a.x.y) * (b.y.x) == a.x.y * b.y.x);
    assert((a.y.y) * (b.y.y) == a.y.y * b.y.y);
    assert((a.x.y * b.y.x) + (a.y.y * b.y.y) == g4);
    assert((a.z.y) * (b.y.z) == a.z.y * b.y.z);
    assert((g4) + (a.z.y * b.y.z) == g5);
    assert((g4) * (c.z.y) == g6);
    assert((g5) * (c.z.y) == g7);
    assert((g5) * (c.z.y) == g7);
    assert((g3) + (g7) == g12);
    assert((a.x.y) * (b.z.x) == a.x.y * b.z.x);
    assert((a.y.y) * (b.z.y) == a.y.y * b.z.y);
    assert((a.x.y * b.z.x) + (a.y.y * b.z.y) == g13);
    assert((a.z.y) * (b.z.z) == a.z.y * b.z.z);
    assert((g13) + (a.z.y * b.z.z) == g14);
    assert((g13) * (c.z.z) == g15);
    assert((g14) * (c.z.z) == g16);
    assert((g14) * (c.z.z) == g16);
    assert((g12) + (g16) == g23);
    assert((b.x.x) * (c.z.x) == b.x.x * c.z.x);
    assert((b.y.x) * (c.z.y) == b.y.x * c.z.y);
    assert((b.x.x * c.z.x) + (b.y.x * c.z.y) == g24);
    assert((b.z.x) * (c.z.z) == b.z.x * c.z.z);
    assert((g24) + (b.z.x * c.z.z) == g25);
    assert((a.x.y) * (g24) == g8);
    assert((a.x.y) * (g25) == g17);
    assert((a.x.y) * (g25) == g17);
    assert((b.x.y) * (c.z.x) == b.x.y * c.z.x);
    assert((b.y.y) * (c.z.y) == b.y.y * c.z.y);
    assert((b.x.y * c.z.x) + (b.y.y * c.z.y) == g26);
    assert((b.z.y) * (c.z.z) == b.z.y * c.z.z);
    assert((g26) + (b.z.y * c.z.z) == g27);
    assert((a.y.y) * (g26) == g28);
    assert((a.y.y) * (g27) == g29);
    assert((a.y.y) * (g27) == g29);
    assert((g17) + (g29) == g20);
    assert((b.x.z) * (c.z.x) == b.x.z * c.z.x);
    assert((b.y.z) * (c.z.y) == b.y.z * c.z.y);
    assert((b.x.z * c.z.x) + (b.y.z * c.z.y) == g30);
    assert((b.z.z) * (c.z.z) == b.z.z * c.z.z);
    assert((g30) + (b.z.z * c.z.z) == g31);
    assert((a.z.y) * (g30) == g32);
    assert((a.z.y) * (g31) == g33);
    assert((a.z.y) * (g31) == g33);
    assert((g20) + (g33) == g23);
}

proof fn assoc3_part_z_z(a: M3, b: M3, c: M3)
    ensures
        m3_mul(m3_mul(a, b), c).z.z == m3_mul(a, m3_mul(b, c)).z.z,
{
    let g0: int = a.x.z * b.x.x + a.y.z * b.x.y;
    let g1: int = g0 + a.z.z * b.x.z;
    let g2: int = a.x.z * b.x.x * c.z.x + a.y.z * b.x.y * c.z.x;
    let g3: int = g2 + a.z.z * b.x.z * c.z.x;
    let g4: int = a.x.z * b.y.x + a.y.z * b.y.y;
    let g5: int = g4 + a.z.z * b.y.z;
    let g6: int = a.x.z * b.y.x * c.z.y + a.y.z * b.y.y * c.z.y;
    let g7: int = g6 + a.z.z * b.y.z * c.z.y;
    let g8: int = a.x.z * b.x.x * c.z.x + a.x.z * b.y.x * c.z.y;
    let g9: int = g8 + a.y.z * b.x.y * c.z.x;
    let g10: int = g9 + a.y.z * b.y.y * c.z.y;
    let g11: int = g10 + a.z.z * b.x.z * c.z.x;
    let g12: int = g11 + a.z.z * b.y.z * c.z.y;
    let g13: int = a.x.z * b.z.x + a.y.z * b.z.y;
    let g14: int = g13 + a.z.z * b.z.z;
    let g15: int = a.x.z * b.z.x * c.z.z + a.y.z * b.z.y * c.z.z;
    let g16: int = g15 + a.z.z * b.z.z * c.z.z;
    let g17: int = g8 + a.x.z * b.z.x * c.z.z;
    let g18: int = g17 + a.y.z * b.x.y * c.z.x;
    let g19: int = g18 + a.y.z * b.y.y * c.z.y;
    let g20: int = g19 + a.y.z * b.z.y * c.z.z;
    let g21: int = g20 + a.z.z * b.x.z * c.z.x;
    let g22: int = g21 + a.z.z * b.y.z * c.z.y;
    let g23: int = g22 + a.z.z * b.z.z * c.z.z;
    let g24: int = b.x.x * c.z.x + b.y.x * c.z.y;
    let g25: int = g24 + b.z.x * c.z.z;
    let g26: int = b.x.y * c.z.x + b.y.y * c.z.y;
    let g27: int = g26 + b.z.y * c.z.z;
    let g28: int = a.y.z * b.x.y * c.z.x + a.y.z * b.y.y * c.z.y;
    let g29: int = g28 + a.y.z * b.z.y * c.z.z;
    let g30: int = b.x.z * c.z.x + b.y.z * c.z.y;
    let g31: int = g30 + b.z.z * c.z.z;
    let g32: int = a.z.z * b.x.z * c.z.x + a.z.z * b.y.z * c.z.y;
    let g33: int = g32 + a.z.z * b.z.z * c.z.z;
    assert((g0 + a.z.z * b.x.z) * (c.z.x) == g0 * (c.z.x) + (a.z.z * b.x.z) * (c.z.x)
        && (a.x.z * b.x.x + a.y.z * b.x.y) * (c.z.x) == a.x.z * b.x.x * (c.z.x) + (a.y.z * b.x.y) * (c.z.x)
        && (g4 + a.z.z * b.y.z) * (c.z.y) == g4 * (c.z.y) + (a.z.z * b.y.z) * (c.z.y)
    ) by (nonlinear_arith);
    assert((a.x.z * b.y.x + a.y.z * b.y.y) * (c.z.y) == a.x.z * b.y.x * (c.z.y) + (a.y.z * b.y.y) * (c.z.y)
        && (g13 + a.z.z * b.z.z) * (c.z.z) == g13 * (c.z.z) + (a.z.z * b.z.z) * (c.z.z)
    ) by (nonlinear_arith);
    assert((a.x.z * b.z.x + a.y.z * b.z.y) * (c.z.z) == a.x.z * b.z.x * (c.z.z) + (a.y.z * b.z.y) * (c.z.z)
        && (a.x.z) * (g24 + b.z.x * c.z.z) == (a.x.z) * (g24) + (a.x.z) * (b.z.x * c.z.z)
    ) by (nonlinear_arith);
    assert((a.x.z) * (b.x.x * c.z.x + b.y.x * c.z.y) == (a.x.z) * (b.x.x * c.z.x) + (a.x.z) * (b.y.x * c.z.y)
        && a.x.z * (b.x.x * c.z.x) == a.x.z * b.x.x * c.z.x
        && a.x.z * (b.y.x * c.z.y) == a.x.z * b.y.x * c.z.y
    ) by (nonlinear_arith);
    assert(a.x.z * (b.z.x * c.z.z) == a.x.z * b.z.x * c.z.z
        && (a.y.z) * (g26 + b.z.y * c.z.z) == (a.y.z) * (g26) + (a.y.z) * (b.z.y * c.z.z)
        && (a.y.z) * (b.x.y * c.z.x + b.y.y * c.z.y) == (a.y.z) * (b.x.y * c.z.x) + (a.y.z) * (b.y.y * c.z.y)
    ) by (nonlinear_arith);
    assert(a.y.z * (b.x.y * c.z.x) == a.y.z * b.x.y * c.z.x
        && a.y.z * (b.y.y * c.z.y) == a.y.z * b.y.y * c.z.y
        && a.y.z * (b.z.y * c.z.z) == a.y.z * b.z.y * c.z.z
        && (a.z.z) * (g30 + b.z.z * c.z.z) == (a.z.z) * (g30) + (a.z.z) * (b.z.z * c.z.z)
    ) by (nonlinear_arith);
    assert((a.z.z) * (b.x.z * c.z.x + b.y.z * c.z.y) == (a.z.z) * (b.x.z * c.z.x) + (a.z.z) * (b.y.z * c.z.y)
        && a.z.z * (b.x.z * c.z.x) == a.z.z * b.x.z * c.z.x
        && a.z.z * (b.y.z * c.z.y) == a.z.z * b.y.z * c.z.y
    ) by (nonlinear_arith);
    assert(a.z.z * (b.z.z * c.z.z) == a.z.z * b.z.z * c.z.z) by (nonlinear_arith);
    assert((a.x.z) * (b.x.x) == a.x.z * b.x.x);
    assert((a.y.z) * (b.x.y) == a.y.z * b.x.y);
    assert((a.x.z * b.x.x) + (a.y.z * b.x.y) == g0);
    assert((a.z.z) * (b.x.z) == a.z.z * b.x.z);
    assert((g0) + (a.z.z * b.x.z) == g1);
    assert((g0) * (c.z.x) == g2);
    assert((g1) * (c.z.x) == g3);
    assert((g1) * (c.z.x) == g3);
    assert((a.x.z) * (b.y.x) == a.x.z * b.y.x);
    assert((a.y.z) * (b.y.y) == a.y.z * b.y.y);
    assert((a.x.z * b.y.x) + (a.y.z * b.y.y) == g4);
    assert((a.z.z) * (b.y.z) == a.z.z * b.y.z);
    assert((g4) + (a.z.z * b.y.z) == g5);
    assert((g4) * (c.z.y) == g6);
    assert((g5) * (c.z.y) == g7);
    assert((g5) * (c.z.y) == g7);
    assert((g3) + (g7) == g12);
    assert((a.x.z) * (b.z.x) == a.x.z * b.z.x);
    assert((a.y.z) * (b.z.y) == a.y.z * b.z.y);
    assert((a.x.z * b.z.x) + (a.y.z * b.z.y) == g13);
    assert((a.z.z) * (b.z.z) == a.z.z * b.z.z);
    assert((g13) + (a.z.z * b.z.z) == g14);
    assert((g13) * (c.z.z) == g15);
    assert((g14) * (c.z.z) == g16);
    assert((g14) * (c.z.z) == g16);
    assert((g12) + (g16) == g23);
    assert((b.x.x) * (c.z.x) == b.x.x * c.z.x);
    assert((b.y.x) * (c.z.y) == b.y.x * c.z.y);
    assert((b.x.x * c.z.x) + (b.y.x * c.z.y) == g24);
    assert((b.z.x) * (c.z.z) == b.z.x * c.z.z);
    assert((g24) + (b.z.x * c.z.z) == g25);
    assert((a.x.z) * (g24) == g8);
    assert((a.x.z) * (g25) == g17);
    assert((a.x.z) * (g25) == g17);
    assert((b.x.y) * (c.z.x) == b.x.y * c.z.x);
    assert((b.y.y) * (c.z.y) == b.y.y * c.z.y);
    assert((b.x.y * c.z.x) + (b.y.y * c.z.y) == g26);
    assert((b.z.y) * (c.z.z) == b.z.y * c.z.z);
    assert((g26) + (b.z.y * c.z.z) == g27);
    assert((a.y.z) * (g26) == g28);
    assert((a.y.z) * (g27) == g29);
    assert((a.y.z) * (g27) == g29);
    assert((g17) + (g29) == g20);
    assert((b.x.z) * (c.z.x) == b.x.z * c.z.x);
    assert((b.y.z) * (c.z.y) == b.y.z * c.z.y);
    assert((b.x.z * c.z.x) + (b.y.z * c.z.y) == g30);
    assert((b.z.z) * (c.z.z) == b.z.z * c.z.z);
    assert((g30) + (b.z.z * c.z.z) == g31);
    assert((a.z.z) * (g30) == g32);
    assert((a.z.z) * (g31) == g33);
    assert((a.z.z) * (g31) == g33);
    assert((g20) + (g33) == g23);
}

proof fn assoc3_part_z_d(a: M3, b: M3, c: M3)
    ensures
        m3_mul(m3_mul(a, b), c).z.d == m3_mul(a, m3_mul(b, c)).z.d,
{
    assert(a.x.d * (b.x.d * c.z.d) == a.x.d * b.x.d * c.z.d) by (nonlinear_arith);
    assert((a.x.d) * (b.x.d) == a.x.d * b.x.d);
    assert((a.x.d * b.x.d) * (c.z.d) == a.x.d * b.x.d * c.z.d);
    assert((b.x.d) * (c.z.d) == b.x.d * c.z.d);
    assert((a.x.d) * (b.x.d * c.z.d) == a.x.d * b.x.d * c.z.d);
}

/// The matrix product is associative, entry for entry.
pub proof fn lemma_mul_associative_3(a: M3, b: M3, c: M3)
    ensures
        m3_mul(m3_mul(a, b), c) == m3_mul(a, m3_mul(b, c)),
{
    assoc3_part_x_x(a, b, c);
    assoc3_part_x_y(a, b, c);
    assoc3_part_x_z(a, b, c);
    assoc3_part_x_d(a, b, c);
    assoc3_part_y_x(a, b, c);
    assoc3_part_y_y(a, b, c);
    assoc3_part_y_z(a, b, c);
    assoc3_part_y_d(a, b, c);
    assoc3_part_z_x(a, b, c);
    assoc3_part_z_y(a, b, c);
    assoc3_part_z_z(a, b, c);
    assoc3_part_z_d(a, b, c);
}

/// The determinant is multiplicative over the matrix product.
pub proof fn lemma_det_multiplicative_3(a: M3, b: M3)
    requires
        m3_wf(a),
    ensures
        m3_det(m3_mul(a, b)) == rat_mul(m3_det(a), m3_det(b)),
{
    let g0: int = a.x.x * b.y.x + a.y.x * b.y.y;
    let g1: int = g0 + a.z.x * b.y.z;
    let g2: int = a.x.y * b.z.x + a.y.y * b.z.y;
    let g3: int = g2 + a.z.y * b.z.z;
    let g4: int = a.x.x * a.x.y * b.y.x * b.z.x + a.x.x * a.y.y * b.y.x * b.z.y;
    let g5: int = g4 + a.x.x * a.z.y * b.y.x * b.z.z;
    let g6: int = a.x.y * a.y.x * b.y.y * b.z.x + a.y.x * a.y.y * b.y.y * b.z.y;
    let g7: int = g6 + a.y.x * a.z.y * b.y.y * b.z.z;
    let g8: int = g5 + a.x.y * a.y.x * b.y.y * b.z.x;
    let g9: int = g8 + a.y.x * a.y.y * b.y.y * b.z.y;
    let g10: int = g9 + a.y.x * a.z.y * b.y.y * b.z.z;
    let g11: int = a.x.y * a.z.x * b.y.z * b.z.x + a.y.y * a.z.x * b.y.z * b.z.y;
    let g12: int = g11 + a.z.x * a.z.y * b.y.z * b.z.z;
    let g13: int = g8 + a.x.y * a.z.x * b.y.z * b.z.x;
    let g14: int = g13 + a.y.x * a.y.y * b.y.y * b.z.y;
    let g15: int = g14 + a.y.x * a.z.y * b.y.y * b.z.z;
    let g16: int = g15 + a.y.y * a.z.x * b.y.z * b.z.y;
    let g17: int = g16 + a.z.x * a.z.y * b.y.z * b.z.z;
    let g18: int = a.x.x * b.z.x + a.y.x * b.z.y;
    let g19: int = g18 + a.z.x * b.z.z;
    let g20: int = a.x.y * b.y.x + a.y.y * b.y.y;
    let g21: int = g20 + a.z.y * b.y.z;
    let g22: int = a.x.x * a.x.y * b.y.x * b.z.x + a.x.x * a.y.y * b.y.y * b.z.x;
    let g23: int = g22 + a.x.x * a.z.y * b.y.z * b.z.x;
    let g24: int = a.x.y * a.y.x * b.y.x * b.z.y + a.y.x * a.y.y * b.y.y * b.z.y;
    let g25: int = g24 + a.y.x * a.z.y * b.y.z * b.z.y;
    let g26: int = g23 + a.x.y * a.y.x * b.y.x * b.z.y;
    let g27: int = g26 + a.y.x * a.y.y * b.y.y * b.z.y;
    let g28: int = g27 + a.y.x * a.z.y * b.y.z * b.z.y;
    let g29: int = a.x.y * a.z.x * b.y.x * b.z.z + a.y.y * a.z.x * b.y.y * b.z.z;
    let g30: int = g29 + a.z.x * a.z.y * b.y.z * b.z.z;
    let g31: int = g26 + a.x.y * a.z.x * b.y.x * b.z.z;
    let g32: int = g31 + a.y.x * a.y.y * b.y.y * b.z.y;
    let g33: int = g32 + a.y.x * a.z.y * b.y.z * b.z.y;
    let g34: int = g33 + a.y.y * a.z.x * b.y.y * b.z.z;
    let g35: int = g34 + a.z.x * a.z.y * b.y.z * b.z.z;
    let g36: int = a.x.x * a.y.y * b.y.x * b.z.y - a.x.x * a.y.y * b.y.y * b.z.x;
    let g37: int = g36 + a.x.x * a.z.y * b.y.x * b.z.z;
    let g38: int = g37 - a.x.x * a.z.y * b.y.z * b.z.x;
    let g39: int = g38 - a.x.y * a.y.x * b.y.x * b.z.y;
    let g40: int = g39 + a.x.y * a.y.x * b.y.y * b.z.x;
    let g41: int = g40 - a.x.y * a.z.x * b.y.x * b.z.z;
    let g42: int = g41 + a.x.y * a.z.x * b.y.z * b.z.x;
    let g43: int = g42 + a.y.x * a.z.y * b.y.y * b.z.z;
    let g44: int = g43 - a.y.x * a.z.y * b.y.z * b.z.y;
    let g45: int = g44 - a.y.y * a.z.x * b.y.y * b.z.z;
    let g46: int = g45 + a.y.y * a.z.x * b.y.z * b.z.y;
    let g47: int = a.x.z * b.x.x + a.y.z * b.x.y;
    let g48: int = g47 + a.z.z * b.x.z;
    let g49: int = a.x.x * a.x.z * a.y.y * b.x.x * b.y.x * b.z.y + a.x.x * a.y.y * a.y.z * b.x.y * b.y.x * b.z.y;
    let g50: int = g49 + a.x.x * a.y.y * a.z.z * b.x.z * b.y.x * b.z.y;
    let g51: int = a.x.x * a.x.z * a.y.y * b.x.x * b.y.y * b.z.x + a.x.x * a.y.y * a.y.z * b.x.y * b.y.y * b.z.x;
    let g52: int = g51 + a.x.x * a.y.y * a.z.z * b.x.z * b.y.y * b.z.x;
    let g53: int = a.x.x * a.x.z * a.y.y * b.x.x * b.y.x * b.z.y - a.x.x * a.x.z * a.y.y * b.x.x * b.y.y * b.z.x;
    let g54: int = g53 + a.x.x * a.y.y * a.y.z * b.x.y * b.y.x * b.z.y;
    let g55: int = g54 - a.x.x * a.y.y * a.y.z * b.x.y * b.y.y * b.z.x;
    let g56: int = g55 + a.x.x * a.y.y * a.z.z * b.x.z * b.y.x * b.z.y;
    let g57: int = g56 - a.x.x * a.y.y * a.z.z * b.x.z * b.y.y * b.z.x;
    let g58: int = a.x.x * a.x.z * a.z.y * b.x.x * b.y.x * b.z.z + a.x.x * a.y.z * a.z.y * b.x.y * b.y.x * b.z.z;
    let g59: int = g58 + a.x.x * a.z.y * a.z.z * b.x.z * b.y.x * b.z.z;
    let g60: int = g53 + a.x.x * a.x.z * a.z.y * b.x.x * b.y.x * b.z.z;
    let g61: int = g60 + a.x.x * a.y.y * a.y.z * b.x.y * b.y.x * b.z.y;
    let g62: int = g61 - a.x.x * a.y.y * a.y.z * b.x.y * b.y.y * b.z.x;
    let g63: int = g62 + a.x.x * a.y.y * a.z.z * b.x.z * b.y.x * b.z.y;
    let g64: int = g63 - a.x.x * a.y.y * a.z.z * b.x.z * b.y.y * b.z.x;
    let g65: int = g64 + a.x.x * a.y.z * a.z.y * b.x.y * b.y.x * b.z.z;
    let g66: int = g65 + a.x.x * a.z.y * a.z.z * b.x.z * b.y.x * b.z.z;
    let g67: int = a.x.x * a.x.z * a.z.y * b.x.x * b.y.z * b.z.x + a.x.x * a.y.z * a.z.y * b.x.y * b.y.z * b.z.x;
    let g68: int = g67 + a.x.x * a.z.y * a.z.z * b.x.z * b.y.z * b.z.x;
    let g69: int = g60 - a.x.x * a.x.z * a.z.y * b.x.x * b.y.z * b.z.x;
    let g70: int = g69 + a.x.x * a.y.y * a.y.z * b.x.y * b.y.x * b.z.y;
    let g71: int = g70 - a.x.x * a.y.y * a.y.z * b.x.y * b.y.y * b.z.x;
    let g72: int = g71 + a.x.x * a.y.y * a.z.z * b.x.z * b.y.x * b.z.y;
    let g73: int = g72 - a.x.x * a.y.y * a.z.z * b.x.z * b.y.y * b.z.x;
    let g74: int = g73 + a.x.x * a.y.z * a.z.y * b.x.y * b.y.x * b.z.z;
    let g75: int = g74 - a.x.x * a.y.z * a.z.y * b.x.y * b.y.z * b.z.x;
    let g76: int = g75 + a.x.x * a.z.y * a.z.z * b.x.z * b.y.x * b.z.z;
    let g77: int = g76 - a.x.x * a.z.y * a.z.z * b.x.z * b.y.z * b.z.x;
    let g78: int = a.x.y * a.x.z * a.y.x * b.x.x * b.y.x * b.z.y + a.x.y * a.y.x * a.y.z * b.x.y * b.y.x * b.z.y;
    let g79: int = g78 + a.x.y * a.y.x * a.z.z * b.x.z * b.y.x * b.z.y;
    let g80: int = g77 - a.x.y * a.x.z * a.y.x * b.x.x * b.y.x * b.z.y;
    let g81: int = g80 - a.x.y * a.y.x * a.y.z * b.x.y * b.y.x * b.z.y;
    let g82: int = g81 - a.x.y * a.y.x * a.z.z * b.x.z * b.y.x * b.z.y;
    let g83: int = a.x.y * a.x.z * a.y.x * b.x.x * b.y.y * b.z.x + a.x.y * a.y.x * a.y.z * b.x.y * b.y.y * b.z.x;
    let g84: int = g83 + a.x.y * a.y.x * a.z.z * b.x.z * b.y.y * b.z.x;
    let g85: int = g80 + a.x.y * a.x.z * a.y.x * b.x.x * b.y.y * b.z.x;
    let g86: int = g85 - a.x.y * a.y.x * a.y.z * b.x.y * b.y.x * b.z.y;
    let g87: int = g86 + a.x.y * a.y.x * a.y.z * b.x.y * b.y.y * b.z.x;
    let g88: int = g87 - a.x.y * a.y.x * a.z.z * b.x.z * b.y.x * b.z.y;
    let g89: int = g88 + a.x.y * a.y.x * a.z.z * b.x.z * b.y.y * b.z.x;
    let g90: int = a.x.y * a.x.z * a.z.x * b.x.x * b.y.x * b.z.z + a.x.y * a.y.z * a.z.x * b.x.y * b.y.x * b.z.z;
    let g91: int = g90 + a.x.y * a.z.x * a.z.z * b.x.z * b.y.x * b.z.z;
    let g92: int = g85 - a.x.y * a.x.z * a.z.x * b.x.x * b.y.x * b.z.z;
    let g93: int = g92 - a.x.y * a.y.x * a.y.z * b.x.y * b.y.x * b.z.y;
    let g94: int = g93 + a.x.y * a.y.x * a.y.z * b.x.y * b.y.y * b.z.x;
    let g95: int = g94 - a.x.y * a.y.x * a.z.z * b.x.z * b.y.x * b.z.y;
    let g96: int = g95 + a.x.y * a.y.x * a.z.z * b.x.z * b.y.y * b.z.x;
    let g97: int = g96 - a.x.y * a.y.z * a.z.x * b.x.y * b.y.x * b.z.z;
    let g98: int = g97 - a.x.y * a.z.x * a.z.z * b.x.z * b.y.x * b.z.z;
    let g99: int = a.x.y * a.x.z * a.z.x * b.x.x * b.y.z * b.z.x + a.x.y * a.y.z * a.z.x * b.x.y * b.y.z * b.z.x;
    let g100: int = g99 + a.x.y * a.z.x * a.z.z * b.x.z * b.y.z * b.z.x;
    let g101: int = g92 + a.x.y * a.x.z * a.z.x * b.x.x * b.y.z * b.z.x;
    let g102: int = g101 - a.x.y * a.y.x * a.y.z * b.x.y * b.y.x * b.z.y;
    let g103: int = g102 + a.x.y * a.y.x * a.y.z * b.x.y * b.y.y * b.z.x;
    let g104: int = g103 - a.x.y * a.y.x * a.z.z * b.x.z * b.y.x * b.z.y;
    let g105: int = g104 + a.x.y * a.y.x * a.z.z * b.x.z * b.y.y * b.z.x;
    let g106: int = g105 - a.x.y * a.y.z * a.z.x * b.x.y * b.y.x * b.z.z;
    let g107: int = g106 + a.x.y * a.y.z * a.z.x * b.x.y * b.y.z * b.z.x;
    let g108: int = g107 - a.x.y * a.z.x * a.z.z * b.x.z * b.y.x * b.z.z;
    let g109: int = g108 + a.x.y * a.z.x * a.z.z * b.x.z * b.y.z * b.z.x;
    let g110: int = a.x.z * a.y.x * a.z.y * b.x.x * b.y.y * b.z.z + a.y.x * a.y.z * a.z.y * b.x.y * b.y.y * b.z.z;
    let g111: int = g110 + a.y.x * a.z.y * a.z.z * b.x.z * b.y.y * b.z.z;
    let g112: int = g109 + a.x.z * a.y.x * a.z.y * b.x.x * b.y.y * b.z.z;
    let g113: int = g112 + a.y.x * a.y.z * a.z.y * b.x.y * b.y.y * b.z.z;
    let g114: int = g113 + a.y.x * a.z.y * a.z.z * b.x.z * b.y.y * b.z.z;
    let g115: int = a.x.z * a.y.x * a.z.y * b.x.x * b.y.z * b.z.y + a.y.x * a.y.z * a.z.y * b.x.y * b.y.z * b.z.y;
    let g116: int = g115 + a.y.x * a.z.y * a.z.z * b.x.z * b.y.z * b.z.y;
    let g117: int = g112 - a.x.z * a.y.x * a.z.y * b.x.x * b.y.z * b.z.y;
    let g118: int = g117 + a.y.x * a.y.z * a.z.y * b.x.y * b.y.y * b.z.z;
    let g119: int = g118 - a.y.x * a.y.z * a.z.y * b.x.y * b.y.z * b.z.y;
    let g120: int = g119 + a.y.x * a.z.y * a.z.z * b.x.z * b.y.y * b.z.z;
    let g121: int = g120 - a.y.x * a.z.y * a.z.z * b.x.z * b.y.z * b.z.y;
    let g122: int = a.x.z * a.y.y * a.z.x * b.x.x * b.y.y * b.z.z + a.y.y * a.y.z * a.z.x * b.x.y * b.y.y * b.z.z;
    let g123: int = g122 + a.y.y * a.z.x * a.z.z * b.x.z * b.y.y * b.z.z;
    let g124: int = g117 - a.x.z * a.y.y * a.z.x * b.x.x * b.y.y * b.z.z;
    let g125: int = g124 + a.y.x * a.y.z * a.z.y * b.x.y * b.y.y * b.z.z;
    let g126: int = g125 - a.y.x * a.y.z * a.z.y * b.x.y * b.y.z * b.z.y;
    let g127: int = g126 + a.y.x * a.z.y * a.z.z * b.x.z * b.y.y * b.z.z;
    let g128: int = g127 - a.y.x * a.z.y * a.z.z * b.x.z * b.y.z * b.z.y;
    let g129: int = g128 - a.y.y * a.y.z * a.z.x * b.x.y * b.y.y * b.z.z;
    let g130: int = g129 - a.y.y * a.z.x * a.z.z * b.x.z * b.y.y * b.z.z;
    let g131: int = a.x.z * a.y.y * a.z.x * b.x.x * b.y.z * b.z.y + a.y.y * a.y.z * a.z.x * b.x.y * b.y.z * b.z.y;
    let g132: int = g131 + a.y.y * a.z.x * a.z.z * b.x.z * b.y.z * b.z.y;
    let g133: int = g124 + a.x.z * a.y.y * a.z.x * b.x.x * b.y.z * b.z.y;
    let g134: int = g133 + a.y.x * a.y.z * a.z.y * b.x.y * b.y.y * b.z.z;
    let g135: int = g134 - a.y.x * a.y.z * a.z.y * b.x.y * b.y.z * b.z.y;
    let g136: int = g135 + a.y.x * a.z.y * a.z.z * b.x.z * b.y.y * b.z.z;
    let g137: int = g136 - a.y.x * a.z.y * a.z.z * b.x.z * b.y.z * b.z.y;
    let g138: int = g137 - a.y.y * a.y.z * a.z.x * b.x.y * b.y.y * b.z.z;
    let g139: int = g138 + a.y.y * a.y.z * a.z.x * b.x.y * b.y.z * b.z.y;
    let g140: int = g139 - a.y.y * a.z.x * a.z.z * b.x.z * b.y.y * b.z.z;
    let g141: int = g140 + a.y.y * a.z.x * a.z.z * b.x.z * b.y.z * b.z.y;
    let g142: int = a.x.y * b.x.x + a.y.y * b.x.y;
    let g143: int = g142 + a.z.y * b.x.z;
    let g144: int = a.x.x * a.x.y * b.x.x * b.z.x + a.x.x * a.y.y * b.x.y * b.z.x;
    let g145: int = g144 + a.x.x * a.z.y * b.x.z * b.z.x;
    let g146: int = a.x.y * a.y.x * b.x.x * b.z.y + a.y.x * a.y.y * b.x.y * b.z.y;
    let g147: int = g146 + a.y.x * a.z.y * b.x.z * b.z.y;
    let g148: int = g145 + a.x.y * a.y.x * b.x.x * b.z.y;
    let g149: int = g148 + a.y.x * a.y.y * b.x.y * b.z.y;
    let g150: int = g149 + a.y.x * a.z.y * b.x.z * b.z.y;
    let g151: int = a.x.y * a.z.x * b.x.x * b.z.z + a.y.y * a.z.x * b.x.y * b.z.z;
    let g152: int = g151 + a.z.x * a.z.y * b.x.z * b.z.z;
    let g153: int = g148 + a.x.y * a.z.x * b.x.x * b.z.z;
    let g154: int = g153 + a.y.x * a.y.y * b.x.y * b.z.y;
    let g155: int = g154 + a.y.x * a.z.y * b.x.z * b.z.y;
    let g156: int = g155 + a.y.y * a.z.x * b.x.y * b.z.z;
    let g157: int = g156 + a.z.x * a.z.y * b.x.z * b.z.z;
    let g158: int = a.x.x * b.x.x + a.y.x * b.x.y;
    let g159: int = g158 + a.z.x * b.x.z;
    let g160: int = a.x.x * a.x.y * b.x.x * b.z.x + a.x.x * a.y.y * b.x.x * b.z.y;
    let g161: int = g160 + a.x.x * a.z.y * b.x.x * b.z.z;
    let g162: int = a.x.y * a.y.x * b.x.y * b.z.x + a.y.x * a.y.y * b.x.y * b.z.y;
    let g163: int = g162 + a.y.x * a.z.y * b.x.y * b.z.z;
    let g164: int = g161 + a.x.y * a.y.x * b.x.y * b.z.x;
    let g165: int = g164 + a.y.x * a.y.y * b.x.y * b.z.y;
    let g166: int = g165 + a.y.x * a.z.y * b.x.y * b.z.z;
    let g167: int = a.x.y * a.z.x * b.x.z * b.z.x + a.y.y * a.z.x * b.x.z * b.z.y;
    let g168: int = g167 + a.z.x * a.z.y * b.x.z * b.z.z;
    let g169: int = g164 + a.x.y * a.z.x * b.x.z * b.z.x;
    let g170: int = g169 + a.y.x * a.y.y * b.x.y * b.z.y;
    let g171: int = g170 + a.y.x * a.z.y * b.x.y * b.z.z;
    let g172: int = g171 + a.y.y * a.z.x * b.x.z * b.z.y;
    let g173: int = g172 + a.z.x * a.z.y * b.x.z * b.z.z;
    let g174: int = (0 - a.x.x * a.y.y * b.x.x * b.z.y) + a.x.x * a.y.y * b.x.y * b.z.x;
    let g175: int = g174 - a.x.x * a.z.y * b.x.x * b.z.z;
    let g176: int = g175 + a.x.x * a.z.y * b.x.z * b.z.x;
    let g177: int = g176 + a.x.y * a.y.x * b.x.x * b.z.y;
    let g178: int = g177 - a.x.y * a.y.x * b.x.y * b.z.x;
    let g179: int = g178 + a.x.y * a.z.x * b.x.x * b.z.z;
    let g180: int = g179 - a.x.y * a.z.x * b.x.z * b.z.x;
    let g181: int = g180 - a.y.x * a.z.y * b.x.y * b.z.z;
    let g182: int = g181 + a.y.x * a.z.y * b.x.z * b.z.y;
    let g183: int = g182 + a.y.y * a.z.x * b.x.y * b.z.z;
    let g184: int = g183 - a.y.y * a.z.x * b.x.z * b.z.y;
    let g185: int = a.x.z * b.y.x + a.y.z * b.y.y;
    let g186: int = g185 + a.z.z * b.y.z;
    let g187: int = (0 - a.x.x * a.x.z * a.y.y * b.x.x * b.y.x * b.z.y) - a.x.x * a.y.y * a.y.z * b.x.x * b.y.y * b.z.y;
    let g188: int = g187 - a.x.x * a.y.y * a.z.z * b.x.x * b.y.z * b.z.y;
    let g189: int = a.x.x * a.x.z * a.y.y * b.x.y * b.y.x * b.z.x + a.x.x * a.y.y * a.y.z * b.x.y * b.y.y * b.z.x;
    let g190: int = g189 + a.x.x * a.y.y * a.z.z * b.x.y * b.y.z * b.z.x;
    let g191: int = (0 - a.x.x * a.x.z * a.y.y * b.x.x * b.y.x * b.z.y) + a.x.x * a.x.z * a.y.y * b.x.y * b.y.x * b.z.x;
    let g192: int = g191 - a.x.x * a.y.y * a.y.z * b.x.x * b.y.y * b.z.y;
    let g193: int = g192 + a.x.x * a.y.y * a.y.z * b.x.y * b.y.y * b.z.x;
    let g194: int = g193 - a.x.x * a.y.y * a.z.z * b.x.x * b.y.z * b.z.y;
    let g195: int = g194 + a.x.x * a.y.y * a.z.z * b.x.y * b.y.z * b.z.x;
    let g196: int = a.x.x * a.x.z * a.z.y * b.x.x * b.y.x * b.z.z + a.x.x * a.y.z * a.z.y * b.x.x * b.y.y * b.z.z;
    let g197: int = g196 + a.x.x * a.z.y * a.z.z * b.x.x * b.y.z * b.z.z;
    let g198: int = g191 - a.x.x * a.x.z * a.z.y * b.x.x * b.y.x * b.z.z;
    let g199: int = g198 - a.x.x * a.y.y * a.y.z * b.x.x * b.y.y * b.z.y;
    let g200: int = g199 + a.x.x * a.y.y * a.y.z * b.x.y * b.y.y * b.z.x;
    let g201: int = g200 - a.x.x * a.y.y * a.z.z * b.x.x * b.y.z * b.z.y;
    let g202: int = g201 + a.x.x * a.y.y * a.z.z * b.x.y * b.y.z * b.z.x;
    let g203: int = g202 - a.x.x * a.y.z * a.z.y * b.x.x * b.y.y * b.z.z;
    let g204: int = g203 - a.x.x * a.z.y * a.z.z * b.x.x * b.y.z * b.z.z;
    let g205: int = a.x.x * a.x.z * a.z.y * b.x.z * b.y.x * b.z.x + a.x.x * a.y.z * a.z.y * b.x.z * b.y.y * b.z.x;
    let g206: int = g205 + a.x.x * a.z.y * a.z.z * b.x.z * b.y.z * b.z.x;
    let g207: int = g198 + a.x.x * a.x.z * a.z.y * b.x.z * b.y.x * b.z.x;
    let g208: int = g207 - a.x.x * a.y.y * a.y.z * b.x.x * b.y.y * b.z.y;
    let g209: int = g208 + a.x.x * a.y.y * a.y.z * b.x.y * b.y.y * b.z.x;
    let g210: int = g209 - a.x.x * a.y.y * a.z.z * b.x.x * b.y.z * b.z.y;
    let g211: int = g210 + a.x.x * a.y.y * a.z.z * b.x.y * b.y.z * b.z.x;
    let g212: int = g211 - a.x.x * a.y.z * a.z.y * b.x.x * b.y.y * b.z.z;
    let g213: int = g212 + a.x.x * a.y.z * a.z.y * b.x.z * b.y.y * b.z.x;
    let g214: int = g213 - a.x.x * a.z.y * a.z.z * b.x.x * b.y.z * b.z.z;
    let g215: int = g214 + a.x.x * a.z.y * a.z.z * b.x.z * b.y.z * b.z.x;
    let g216: int = a.x.y * a.x.z * a.y.x * b.x.x * b.y.x * b.z.y + a.x.y * a.y.x * a.y.z * b.x.x * b.y.y * b.z.y;
    let g217: int = g216 + a.x.y * a.y.x * a.z.z * b.x.x * b.y.z * b.z.y;
    let g218: int = g215 + a.x.y * a.x.z * a.y.x * b.x.x * b.y.x * b.z.y;
    let g219: int = g218 + a.x.y * a.y.x * a.y.z * b.x.x * b.y.y * b.z.y;
    let g220: int = g219 + a.x.y * a.y.x * a.z.z * b.x.x * b.y.z * b.z.y;
    let g221: int = a.x.y * a.x.z * a.y.x * b.x.y * b.y.x * b.z.x + a.x.y * a.y.x * a.y.z * b.x.y * b.y.y * b.z.x;
    let g222: int = g221 + a.x.y * a.y.x * a.z.z * b.x.y * b.y.z * b.z.x;
    let g223: int = g218 - a.x.y * a.x.z * a.y.x * b.x.y * b.y.x * b.z.x;
    let g224: int = g223 + a.x.y * a.y.x * a.y.z * b.x.x * b.y.y * b.z.y;
    let g225: int = g224 - a.x.y * a.y.x * a.y.z * b.x.y * b.y.y * b.z.x;
    let g226: int = g225 + a.x.y * a.y.x * a.z.z * b.x.x * b.y.z * b.z.y;
    let g227: int = g226 - a.x.y * a.y.x * a.z.z * b.x.y * b.y.z * b.z.x;
    let g228: int = a.x.y * a.x.z * a.z.x * b.x.x * b.y.x * b.z.z + a.x.y * a.y.z * a.z.x * b.x.x * b.y.y * b.z.z;
    let g229: int = g228 + a.x.y * a.z.x * a.z.z * b.x.x * b.y.z * b.z.z;
    let g230: int = g223 + a.x.y * a.x.z * a.z.x * b.x.x * b.y.x * b.z.z;
    let g231: int = g230 + a.x.y * a.y.x * a.y.z * b.x.x * b.y.y * b.z.y;
    let g232: int = g231 - a.x.y * a.y.x * a.y.z * b.x.y * b.y.y * b.z.x;
    let g233: int = g232 + a.x.y * a.y.x * a.z.z * b.x.x * b.y.z * b.z.y;
    let g234: int = g233 - a.x.y * a.y.x * a.z.z * b.x.y * b.y.z * b.z.x;
    let g235: int = g234 + a.x.y * a.y.z * a.z.x * b.x.x * b.y.y * b.z.z;
    let g236: int = g235 + a.x.y * a.z.x * a.z.z * b.x.x * b.y.z * b.z.z;
    let g237: int = a.x.y * a.x.z * a.z.x * b.x.z * b.y.x * b.z.x + a.x.y * a.y.z * a.z.x * b.x.z * b.y.y * b.z.x;
    let g238: int = g237 + a.x.y * a.z.x * a.z.z * b.x.z * b.y.z * b.z.x;
    let g239: int = g230 - a.x.y * a.x.z * a.z.x * b.x.z * b.y.x * b.z.x;
    let g240: int = g239 + a.x.y * a.y.x * a.y.z * b.x.x * b.y.y * b.z.y;
    let g241: int = g240 - a.x.y * a.y.x * a.y.z * b.x.y * b.y.y * b.z.x;
    let g242: int = g241 + a.x.y * a.y.x * a.z.z * b.x.x * b.y.z * b.z.y;
    let g243: int = g242 - a.x.y * a.y.x * a.z.z * b.x.y * b.y.z * b.z.x;
    let g244: int = g243 + a.x.y * a.y.z * a.z.x * b.x.x * b.y.y * b.z.z;
    let g245: int = g244 - a.x.y * a.y.z * a.z.x * b.x.z * b.y.y * b.z.x;
    let g246: int = g245 + a.x.y * a.z.x * a.z.z * b.x.x * b.y.z * b.z.z;
    let g247: int = g246 - a.x.y * a.z.x * a.z.z * b.x.z * b.y.z * b.z.x;
    let g248: int = a.x.z * a.y.x * a.z.y * b.x.y * b.y.x * b.z.z + a.y.x * a.y.z * a.z.y * b.x.y * b.y.y * b.z.z;
    let g249: int = g248 + a.y.x * a.z.y * a.z.z * b.x.y * b.y.z * b.z.z;
    let g250: int = g247 - a.x.z * a.y.x * a.z.y * b.x.y * b.y.x * b.z.z;
    let g251: int = g250 - a.y.x * a.y.z * a.z.y * b.x.y * b.y.y * b.z.z;
    let g252: int = g251 - a.y.x * a.z.y * a.z.z * b.x.y * b.y.z * b.z.z;
    let g253: int = a.x.z * a.y.x * a.z.y * b.x.z * b.y.x * b.z.y + a.y.x * a.y.z * a.z.y * b.x.z * b.y.y * b.z.y;
    let g254: int = g253 + a.y.x * a.z.y * a.z.z * b.x.z * b.y.z * b.z.y;
    let g255: int = g250 + a.x.z * a.y.x * a.z.y * b.x.z * b.y.x * b.z.y;
    let g256: int = g255 - a.y.x * a.y.z * a.z.y * b.x.y * b.y.y * b.z.z;
    let g257: int = g256 + a.y.x * a.y.z * a.z.y * b.x.z * b.y.y * b.z.y;
    let g258: int = g257 - a.y.x * a.z.y * a.z.z * b.x.y * b.y.z * b.z.z;
    let g259: int = g258 + a.y.x * a.z.y * a.z.z * b.x.z * b.y.z * b.z.y;
    let g260: int = a.x.z * a.y.y * a.z.x * b.x.y * b.y.x * b.z.z + a.y.y * a.y.z * a.z.x * b.x.y * b.y.y * b.z.z;
    let g261: int = g260 + a.y.y * a.z.x * a.z.z * b.x.y * b.y.z * b.z.z;
    let g262: int = g255 + a.x.z * a.y.y * a.z.x * b.x.y * b.y.x * b.z.z;
    let g263: int = g262 - a.y.x * a.y.z * a.z.y * b.x.y * b.y.y * b.z.z;
    let g264: int = g263 + a.y.x * a.y.z * a.z.y * b.x.z * b.y.y * b.z.y;
    let g265: int = g264 - a.y.x * a.z.y * a.z.z * b.x.y * b.y.z * b.z.z;
    let g266: int = g265 + a.y.x * a.z.y * a.z.z * b.x.z * b.y.z * b.z.y;
    let g267: int = g266 + a.y.y * a.y.z * a.z.x * b.x.y * b.y.y * b.z.z;
    let g268: int = g267 + a.y.y * a.z.x * a.z.z * b.x.y * b.y.z * b.z.z;
    let g269: int = a.x.z * a.y.y * a.z.x * b.x.z * b.y.x * b.z.y + a.y.y * a.y.z * a.z.x * b.x.z * b.y.y * b.z.y;
    let g270: int = g269 + a.y.y * a.z.x * a.z.z * b.x.z * b.y.z * b.z.y;
    let g271: int = g262 - a.x.z * a.y.y * a.z.x * b.x.z * b.y.x * b.z.y;
    let g272: int = g271 - a.y.x * a.y.z * a.z.y * b.x.y * b.y.y * b.z.z;
    let g273: int = g272 + a.y.x * a.y.z * a.z.y * b.x.z * b.y.y * b.z.y;
    let g274: int = g273 - a.y.x * a.z.y * a.z.z * b.x.y * b.y.z * b.z.z;
    let g275: int = g274 + a.y.x * a.z.y * a.z.z * b.x.z * b.y.z * b.z.y;
    let g276: int = g275 + a.y.y * a.y.z * a.z.x * b.x.y * b.y.y * b.z.z;
    let g277: int = g276 - a.y.y * a.y.z * a.z.x * b.x.z * b.y.y * b.z.y;
    let g278: int = g277 + a.y.y * a.z.x * a.z.z * b.x.y * b.y.z * b.z.z;
    let g279: int = g278 - a.y.y * a.z.x * a.z.z * b.x.z * b.y.z * b.z.y;
    let g280: int = (0 - a.x.x * a.x.z * a.y.y * b.x.x * b.y.y * b.z.x) + a.x.x * a.x.z * a.y.y * b.x.y * b.y.x * b.z.x;
    let g281: int = g280 - a.x.x * a.x.z * a.z.y * b.x.x * b.y.z * b.z.x;
    let g282: int = g281 + a.x.x * a.x.z * a.z.y * b.x.z * b.y.x * b.z.x;
    let g283: int = g282 - a.x.x * a.y.y * a.y.z * b.x.x * b.y.y * b.z.y;
    let g284: int = g283 + a.x.x * a.y.y * a.y.z * b.x.y * b.y.x * b.z.y;
    let g285: int = g284 - a.x.x * a.y.y * a.z.z * b.x.x * b.y.z * b.z.y;
    let g286: int = g285 + a.x.x * a.y.y * a.z.z * b.x.y * b.y.z * b.z.x;
    let g287: int = g286 + a.x.x * a.y.y * a.z.z * b.x.z * b.y.x * b.z.y;
    let g288: int = g287 - a.x.x * a.y.y * a.z.z * b.x.z * b.y.y * b.z.x;
    let g289: int = g288 - a.x.x * a.y.z * a.z.y * b.x.x * b.y.y * b.z.z;
    let g290: int = g289 + a.x.x * a.y.z * a.z.y * b.x.y * b.y.x * b.z.z;
    let g291: int = g290 - a.x.x * a.y.z * a.z.y * b.x.y * b.y.z * b.z.x;
    let g292: int = g291 + a.x.x * a.y.z * a.z.y * b.x.z * b.y.y * b.z.x;
    let g293: int = g292 - a.x.x * a.z.y * a.z.z * b.x.x * b.y.z * b.z.z;
    let g294: int = g293 + a.x.x * a.z.y * a.z.z * b.x.z * b.y.x * b.z.z;
    let g295: int = g294 + a.x.y * a.x.z * a.y.x * b.x.x * b.y.y * b.z.x;
    let g296: int = g295 - a.x.y * a.x.z * a.y.x * b.x.y * b.y.x * b.z.x;
    let g297: int = g296 + a.x.y * a.x.z * a.z.x * b.x.x * b.y.z * b.z.x;
    let g298: int = g297 - a.x.y * a.x.z * a.z.x * b.x.z * b.y.x * b.z.x;
    let g299: int = g298 + a.x.y * a.y.x * a.y.z * b.x.x * b.y.y * b.z.y;
    let g300: int = g299 - a.x.y * a.y.x * a.y.z * b.x.y * b.y.x * b.z.y;
    let g301: int = g300 + a.x.y * a.y.x * a.z.z * b.x.x * b.y.z * b.z.y;
    let g302: int = g301 - a.x.y * a.y.x * a.z.z * b.x.y * b.y.z * b.z.x;
    let g303: int = g302 - a.x.y * a.y.x * a.z.z * b.x.z * b.y.x * b.z.y;
    let g304: int = g303 + a.x.y * a.y.x * a.z.z * b.x.z * b.y.y * b.z.x;
    let g305: int = g304 + a.x.y * a.y.z * a.z.x * b.x.x * b.y.y * b.z.z;
    let g306: int = g305 - a.x.y * a.y.z * a.z.x * b.x.y * b.y.x * b.z.z;
    let g307: int = g306 + a.x.y * a.y.z * a.z.x * b.x.y * b.y.z * b.z.x;
    let g308: int = g307 - a.x.y * a.y.z * a.z.x * b.x.z * b.y.y * b.z.x;
    let g309: int = g308 + a.x.y * a.z.x * a.z.z * b.x.x * b.y.z * b.z.z;
    let g310: int = g309 - a.x.y * a.z.x * a.z.z * b.x.z * b.y.x * b.z.z;
    let g311: int = g310 + a.x.z * a.y.x * a.z.y * b.x.x * b.y.y * b.z.z;
    let g312: int = g311 - a.x.z * a.y.x * a.z.y * b.x.x * b.y.z * b.z.y;
    let g313: int = g312 - a.x.z * a.y.x * a.z.y * b.x.y * b.y.x * b.z.z;
    let g314: int = g313 + a.x.z * a.y.x * a.z.y * b.x.z * b.y.x * b.z.y;
    let g315: int = g314 - a.x.z * a.y.y * a.z.x * b.x.x * b.y.y * b.z.z;
    let g316: int = g315 + a.x.z * a.y.y * a.z.x * b.x.x * b.y.z * b.z.y;
    let g317: int = g316 + a.x.z * a.y.y * a.z.x * b.x.y * b.y.x * b.z.z;
    let g318: int = g317 - a.x.z * a.y.y * a.z.x * b.x.z * b.y.x * b.z.y;
    let g319: int = g318 - a.y.x * a.y.z * a.z.y * b.x.y * b.y.z * b.z.y;
    let g320: int = g319 + a.y.x * a.y.z * a.z.y * b.x.z * b.y.y * b.z.y;
    let g321: int = g320 - a.y.x * a.z.y * a.z.z * b.x.y * b.y.z * b.z.z;
    let g322: int = g321 + a.y.x * a.z.y * a.z.z * b.x.z * b.y.y * b.z.z;
    let g323: int = g322 + a.y.y * a.y.z * a.z.x * b.x.y * b.y.z * b.z.y;
    let g324: int = g323 - a.y.y * a.y.z * a.z.x * b.x.z * b.y.y * b.z.y;
    let g325: int = g324 + a.y.y * a.z.x * a.z.z * b.x.y * b.y.z * b.z.z;
    let g326: int = g325 - a.y.y * a.z.x * a.z.z * b.x.z * b.y.y * b.z.z;
    let g327: int = a.x.x * a.x.y * b.x.x * b.y.x + a.x.x * a.y.y * b.x.x * b.y.y;
    let g328: int = g327 + a.x.x * a.z.y * b.x.x * b.y.z;
    let g329: int = a.x.y * a.y.x * b.x.y * b.y.x + a.y.x * a.y.y * b.x.y * b.y.y;
    let g330: int = g329 + a.y.x * a.z.y * b.x.y * b.y.z;
    let g331: int = g328 + a.x.y * a.y.x * b.x.y * b.y.x;
    let g332: int = g331 + a.y.x * a.y.y * b.x.y * b.y.y;
    let g333: int = g332 + a.y.x * a.z.y * b.x.y * b.y.z;
    let g334: int = a.x.y * a.z.x * b.x.z * b.y.x + a.y.y * a.z.x * b.x.z * b.y.y;
    let g335: int = g334 + a.z.x * a.z.y * b.x.z * b.y.z;
    let g336: int = g331 + a.x.y * a.z.x * b.x.z * b.y.x;
    let g337: int = g336 + a.y.x * a.y.y * b.x.y * b.y.y;
    let g338: int = g337 + a.y.x * a.z.y * b.x.y * b.y.z;
    let g339: int = g338 + a.y.y * a.z.x * b.x.z * b.y.y;
    let g340: int = g339 + a.z.x * a.z.y * b.x.z * b.y.z;
    let g341: int = a.x.x * a.x.y * b.x.x * b.y.x + a.x.x * a.y.y * b.x.y * b.y.x;
    let g342: int = g341 + a.x.x * a.z.y * b.x.z * b.y.x;
    let g343: int = a.x.y * a.y.x * b.x.x * b.y.y + a.y.x * a.y.y * b.x.y * b.y.y;
    let g344: int = g343 + a.y.x * a.z.y * b.x.z * b.y.y;
    let g345: int = g342 + a.x.y * a.y.x * b.x.x * b.y.y;
    let g346: int = g345 + a.y.x * a.y.y * b.x.y * b.y.y;
    let g347: int = g346 + a.y.x * a.z.y * b.x.z * b.y.y;
    let g348: int = a.x.y * a.z.x * b.x.x * b.y.z + a.y.y * a.z.x * b.x.y * b.y.z;
    let g349: int = g348 + a.z.x * a.z.y * b.x.z * b.y.z;
    let g350: int = g345 + a.x.y * a.z.x * b.x.x * b.y.z;
    let g351: int = g350 + a.y.x * a.y.y * b.x.y * b.y.y;
    let g352: int = g351 + a.y.x * a.z.y * b.x.z * b.y.y;
    let g353: int = g352 + a.y.y * a.z.x * b.x.y * b.y.z;
    let g354: int = g353 + a.z.x * a.z.y * b.x.z * b.y.z;
    let g355: int = a.x.x * a.y.y * b.x.x * b.y.y - a.x.x * a.y.y * b.x.y * b.y.x;
    let g356: int = g355 + a.x.x * a.z.y * b.x.x * b.y.z;
    let g357: int = g356 - a.x.x * a.z.y * b.x.z * b.y.x;
    let g358: int = g357 - a.x.y * a.y.x * b.x.x * b.y.y;
    let g359: int = g358 + a.x.y * a.y.x * b.x.y * b.y.x;
    let g360: int = g359 - a.x.y * a.z.x * b.x.x * b.y.z;
    let g361: int = g360 + a.x.y * a.z.x * b.x.z * b.y.x;
    let g362: int = g361 + a.y.x * a.z.y * b.x.y * b.y.z;
    let g363: int = g362 - a.y.x * a.z.y * b.x.z * b.y.y;
    let g364: int = g363 - a.y.y * a.z.x * b.x.y * b.y.z;
    let g365: int = g364 + a.y.y * a.z.x * b.x.z * b.y.y;
    let g366: int = a.x.z * b.z.x + a.y.z * b.z.y;
    let g367: int = g366 + a.z.z * b.z.z;
    let g368: int = a.x.x * a.x.z * a.y.y * b.x.x * b.y.y * b.z.x + a.x.x * a.y.y * a.y.z * b.x.x * b.y.y * b.z.y;
    let g369: int = g368 + a.x.x * a.y.y * a.z.z * b.x.x * b.y.y * b.z.z;
    let g370: int = a.x.x * a.x.z * a.y.y * b.x.y * b.y.x * b.z.x + a.x.x * a.y.y * a.y.z * b.x.y * b.y.x * b.z.y;
    let g371: int = g370 + a.x.x * a.y.y * a.z.z * b.x.y * b.y.x * b.z.z;
    let g372: int = a.x.x * a.x.z * a.y.y * b.x.x * b.y.y * b.z.x - a.x.x * a.x.z * a.y.y * b.x.y * b.y.x * b.z.x;
    let g373: int = g372 + a.x.x * a.y.y * a.y.z * b.x.x * b.y.y * b.z.y;
    let g374: int = g373 - a.x.x * a.y.y * a.y.z * b.x.y * b.y.x * b.z.y;
    let g375: int = g374 + a.x.x * a.y.y * a.z.z * b.x.x * b.y.y * b.z.z;
    let g376: int = g375 - a.x.x * a.y.y * a.z.z * b.x.y * b.y.x * b.z.z;
    let g377: int = a.x.x * a.x.z * a.z.y * b.x.x * b.y.z * b.z.x + a.x.x * a.y.z * a.z.y * b.x.x * b.y.z * b.z.y;
    let g378: int = g377 + a.x.x * a.z.y * a.z.z * b.x.x * b.y.z * b.z.z;
    let g379: int = g372 + a.x.x * a.x.z * a.z.y * b.x.x * b.y.z * b.z.x;
    let g380: int = g379 + a.x.x * a.y.y * a.y.z * b.x.x * b.y.y * b.z.y;
    let g381: int = g380 - a.x.x * a.y.y * a.y.z * b.x.y * b.y.x * b.z.y;
    let g382: int = g381 + a.x.x * a.y.y * a.z.z * b.x.x * b.y.y * b.z.z;
    let g383: int = g382 - a.x.x * a.y.y * a.z.z * b.x.y * b.y.x * b.z.z;
    let g384: int = g383 + a.x.x * a.y.z * a.z.y * b.x.x * b.y.z * b.z.y;
    let g385: int = g384 + a.x.x * a.z.y * a.z.z * b.x.x * b.y.z * b.z.z;
    let g386: int = a.x.x * a.x.z * a.z.y * b.x.z * b.y.x * b.z.x + a.x.x * a.y.z * a.z.y * b.x.z * b.y.x * b.z.y;
    let g387: int = g386 + a.x.x * a.z.y * a.z.z * b.x.z * b.y.x * b.z.z;
    let g388: int = g379 - a.x.x * a.x.z * a.z.y * b.x.z * b.y.x * b.z.x;
    let g389: int = g388 + a.x.x * a.y.y * a.y.z * b.x.x * b.y.y * b.z.y;
    let g390: int = g389 - a.x.x * a.y.y * a.y.z * b.x.y * b.y.x * b.z.y;
    let g391: int = g390 + a.x.x * a.y.y * a.z.z * b.x.x * b.y.y * b.z.z;
    let g392: int = g391 - a.x.x * a.y.y * a.z.z * b.x.y * b.y.x * b.z.z;
    let g393: int = g392 + a.x.x * a.y.z * a.z.y * b.x.x * b.y.z * b.z.y;
    let g394: int = g393 - a.x.x * a.y.z * a.z.y * b.x.z * b.y.x * b.z.y;
    let g395: int = g394 + a.x.x * a.z.y * a.z.z * b.x.x * b.y.z * b.z.z;
    let g396: int = g395 - a.x.x * a.z.y * a.z.z * b.x.z * b.y.x * b.z.z;
    let g397: int = a.x.y * a.x.z * a.y.x * b.x.x * b.y.y * b.z.x + a.x.y * a.y.x * a.y.z * b.x.x * b.y.y * b.z.y;
    let g398: int = g397 + a.x.y * a.y.x * a.z.z * b.x.x * b.y.y * b.z.z;
    let g399: int = g396 - a.x.y * a.x.z * a.y.x * b.x.x * b.y.y * b.z.x;
    let g400: int = g399 - a.x.y * a.y.x * a.y.z * b.x.x * b.y.y * b.z.y;
    let g401: int = g400 - a.x.y * a.y.x * a.z.z * b.x.x * b.y.y * b.z.z;
    let g402: int = a.x.y * a.x.z * a.y.x * b.x.y * b.y.x * b.z.x + a.x.y * a.y.x * a.y.z * b.x.y * b.y.x * b.z.y;
    let g403: int = g402 + a.x.y * a.y.x * a.z.z * b.x.y * b.y.x * b.z.z;
    let g404: int = g399 + a.x.y * a.x.z * a.y.x * b.x.y * b.y.x * b.z.x;
    let g405: int = g404 - a.x.y * a.y.x * a.y.z * b.x.x * b.y.y * b.z.y;
    let g406: int = g405 + a.x.y * a.y.x * a.y.z * b.x.y * b.y.x * b.z.y;
    let g407: int = g406 - a.x.y * a.y.x * a.z.z * b.x.x * b.y.y * b.z.z;
    let g408: int = g407 + a.x.y * a.y.x * a.z.z * b.x.y * b.y.x * b.z.z;
    let g409: int = a.x.y * a.x.z * a.z.x * b.x.x * b.y.z * b.z.x + a.x.y * a.y.z * a.z.x * b.x.x * b.y.z * b.z.y;
    let g410: int = g409 + a.x.y * a.z.x * a.z.z * b.x.x * b.y.z * b.z.z;
    let g411: int = g404 - a.x.y * a.x.z * a.z.x * b.x.x * b.y.z * b.z.x;
    let g412: int = g411 - a.x.y * a.y.x * a.y.z * b.x.x * b.y.y * b.z.y;
    let g413: int = g412 + a.x.y * a.y.x * a.y.z * b.x.y * b.y.x * b.z.y;
    let g414: int = g413 - a.x.y * a.y.x * a.z.z * b.x.x * b.y.y * b.z.z;
    let g415: int = g414 + a.x.y * a.y.x * a.z.z * b.x.y * b.y.x * b.z.z;
    let g416: int = g415 - a.x.y * a.y.z * a.z.x * b.x.x * b.y.z * b.z.y;
    let g417: int = g416 - a.x.y * a.z.x * a.z.z * b.x.x * b.y.z * b.z.z;
    let g418: int = a.x.y * a.x.z * a.z.x * b.x.z * b.y.x * b.z.x + a.x.y * a.y.z * a.z.x * b.x.z * b.y.x * b.z.y;
    let g419: int = g418 + a.x.y * a.z.x * a.z.z * b.x.z * b.y.x * b.z.z;
    let g420: int = g411 + a.x.y * a.x.z * a.z.x * b.x.z * b.y.x * b.z.x;
    let g421: int = g420 - a.x.y * a.y.x * a.y.z * b.x.x * b.y.y * b.z.y;
    let g422: int = g421 + a.x.y * a.y.x * a.y.z * b.x.y * b.y.x * b.z.y;
    let g423: int = g422 - a.x.y * a.y.x * a.z.z * b.x.x * b.y.y * b.z.z;
    let g424: int = g423 + a.x.y * a.y.x * a.z.z * b.x.y * b.y.x * b.z.z;
    let g425: int = g424 - a.x.y * a.y.z * a.z.x * b.x.x * b.y.z * b.z.y;
    let g426: int = g425 + a.x.y * a.y.z * a.z.x * b.x.z * b.y.x * b.z.y;
    let g427: int = g426 - a.x.y * a.z.x * a.z.z * b.x.x * b.y.z * b.z.z;
    let g428: int = g427 + a.x.y * a.z.x * a.z.z * b.x.z * b.y.x * b.z.z;
    let g429: int = a.x.z * a.y.x * a.z.y * b.x.y * b.y.z * b.z.x + a.y.x * a.y.z * a.z.y * b.x.y * b.y.z * b.z.y;
    let g430: int = g429 + a.y.x * a.z.y * a.z.z * b.x.y * b.y.z * b.z.z;
    let g431: int = g428 + a.x.z * a.y.x * a.z.y * b.x.y * b.y.z * b.z.x;
    let g432: int = g431 + a.y.x * a.y.z * a.z.y * b.x.y * b.y.z * b.z.y;
    let g433: int = g432 + a.y.x * a.z.y * a.z.z * b.x.y * b.y.z * b.z.z;
    let g434: int = a.x.z * a.y.x * a.z.y * b.x.z * b.y.y * b.z.x + a.y.x * a.y.z * a.z.y * b.x.z * b.y.y * b.z.y;
    let g435: int = g434 + a.y.x * a.z.y * a.z.z * b.x.z * b.y.y * b.z.z;
    let g436: int = g431 - a.x.z * a.y.x * a.z.y * b.x.z * b.y.y * b.z.x;
    let g437: int = g436 + a.y.x * a.y.z * a.z.y * b.x.y * b.y.z * b.z.y;
    let g438: int = g437 - a.y.x * a.y.z * a.z.y * b.x.z * b.y.y * b.z.y;
    let g439: int = g438 + a.y.x * a.z.y * a.z.z * b.x.y * b.y.z * b.z.z;
    let g440: int = g439 - a.y.x * a.z.y * a.z.z * b.x.z * b.y.y * b.z.z;
    let g441: int = a.x.z * a.y.y * a.z.x * b.x.y * b.y.z * b.z.x + a.y.y * a.y.z * a.z.x * b.x.y * b.y.z * b.z.y;
    let g442: int = g441 + a.y.y * a.z.x * a.z.z * b.x.y * b.y.z * b.z.z;
    let g443: int = g436 - a.x.z * a.y.y * a.z.x * b.x.y * b.y.z * b.z.x;
    let g444: int = g443 + a.y.x * a.y.z * a.z.y * b.x.y * b.y.z * b.z.y;
    let g445: int = g444 - a.y.x * a.y.z * a.z.y * b.x.z * b.y.y * b.z.y;
    let g446: int = g445 + a.y.x * a.z.y * a.z.z * b.x.y * b.y.z * b.z.z;
    let g447: int = g446 - a.y.x * a.z.y * a.z.z * b.x.z * b.y.y * b.z.z;
    let g448: int = g447 - a.y.y * a.y.z * a.z.x * b.x.y * b.y.z * b.z.y;
    let g449: int = g448 - a.y.y * a.z.x * a.z.z * b.x.y * b.y.z * b.z.z;
    let g450: int = a.x.z * a.y.y * a.z.x * b.x.z * b.y.y * b.z.x + a.y.y * a.y.z * a.z.x * b.x.z * b.y.y * b.z.y;
    let g451: int = g450 + a.y.y * a.z.x * a.z.z * b.x.z * b.y.y * b.z.z;
    let g452: int = g443 + a.x.z * a.y.y * a.z.x * b.x.z * b.y.y * b.z.x;
    let g453: int = g452 + a.y.x * a.y.z * a.z.y * b.x.y * b.y.z * b.z.y;
    let g454: int = g453 - a.y.x * a.y.z * a.z.y * b.x.z * b.y.y * b.z.y;
    let g455: int = g454 + a.y.x * a.z.y * a.z.z * b.x.y * b.y.z * b.z.z;
    let g456: int = g455 - a.y.x * a.z.y * a.z.z * b.x.z * b.y.y * b.z.z;
    let g457: int = g456 - a.y.y * a.y.z * a.z.x * b.x.y * b.y.z * b.z.y;
    let g458: int = g457 + a.y.y * a.y.z * a.z.x * b.x.z * b.y.y * b.z.y;
    let g459: int = g458 - a.y.y * a.z.x * a.z.z * b.x.y * b.y.z * b.z.z;
    let g460: int = g459 + a.y.y * a.z.x * a.z.z * b.x.z * b.y.y * b.z.z;
    let g461: int = a.x.x * a.y.y * a.z.z * b.x.x * b.y.y * b.z.z - a.x.x * a.y.y * a.z.z * b.x.x * b.y.z * b.z.y;
    let g462: int = g461 - a.x.x * a.y.y * a.z.z * b.x.y * b.y.x * b.z.z;
    let g463: int = g462 + a.x.x * a.y.y * a.z.z * b.x.y * b.y.z * b.z.x;
    let g464: int = g463 + a.x.x * a.y.y * a.z.z * b.x.z * b.y.x * b.z.y;
    let g465: int = g464 - a.x.x * a.y.y * a.z.z * b.x.z * b.y.y * b.z.x;
    let g466: int = g465 - a.x.x * a.y.z * a.z.y * b.x.x * b.y.y * b.z.z;
    let g467: int = g466 + a.x.x * a.y.z * a.z.y * b.x.x * b.y.z * b.z.y;
    let g468: int = g467 + a.x.x * a.y.z * a.z.y * b.x.y * b.y.x * b.z.z;
    let g469: int = g468 - a.x.x * a.y.z * a.z.y * b.x.y * b.y.z * b.z.x;
    let g470: int = g469 - a.x.x * a.y.z * a.z.y * b.x.z * b.y.x * b.z.y;
    let g471: int = g470 + a.x.x * a.y.z * a.z.y * b.x.z * b.y.y * b.z.x;
    let g472: int = g471 - a.x.y * a.y.x * a.z.z * b.x.x * b.y.y * b.z.z;
    let g473: int = g472 + a.x.y * a.y.x * a.z.z * b.x.x * b.y.z * b.z.y;
    let g474: int = g473 + a.x.y * a.y.x * a.z.z * b.x.y * b.y.x * b.z.z;
    let g475: int = g474 - a.x.y * a.y.x * a.z.z * b.x.y * b.y.z * b.z.x;
    let g476: int = g475 - a.x.y * a.y.x * a.z.z * b.x.z * b.y.x * b.z.y;
    let g477: int = g476 + a.x.y * a.y.x * a.z.z * b.x.z * b.y.y * b.z.x;
    let g478: int = g477 + a.x.y * a.y.z * a.z.x * b.x.x * b.y.y * b.z.z;
    let g479: int = g478 - a.x.y * a.y.z * a.z.x * b.x.x * b.y.z * b.z.y;
    let g480: int = g479 - a.x.y * a.y.z * a.z.x * b.x.y * b.y.x * b.z.z;
    let g481: int = g480 + a.x.y * a.y.z * a.z.x * b.x.y * b.y.z * b.z.x;
    let g482: int = g481 + a.x.y * a.y.z * a.z.x * b.x.z * b.y.x * b.z.y;
    let g483: int = g482 - a.x.y * a.y.z * a.z.x * b.x.z * b.y.y * b.z.x;
    let g484: int = g483 + a.x.z * a.y.x * a.z.y * b.x.x * b.y.y * b.z.z;
    let g485: int = g484 - a.x.z * a.y.x * a.z.y * b.x.x * b.y.z * b.z.y;
    let g486: int = g485 - a.x.z * a.y.x * a.z.y * b.x.y * b.y.x * b.z.z;
    let g487: int = g486 + a.x.z * a.y.x * a.z.y * b.x.y * b.y.z * b.z.x;
    let g488: int = g487 + a.x.z * a.y.x * a.z.y * b.x.z * b.y.x * b.z.y;
    let g489: int = g488 - a.x.z * a.y.x * a.z.y * b.x.z * b.y.y * b.z.x;
    let g490: int = g489 - a.x.z * a.y.y * a.z.x * b.x.x * b.y.y * b.z.z;
    let g491: int = g490 + a.x.z * a.y.y * a.z.x * b.x.x * b.y.z * b.z.y;
    let g492: int = g491 + a.x.z * a.y.y * a.z.x * b.x.y * b.y.x * b.z.z;
    let g493: int = g492 - a.x.z * a.y.y * a.z.x * b.x.y * b.y.z * b.z.x;
    let g494: int = g493 - a.x.z * a.y.y * a.z.x * b.x.z * b.y.x * b.z.y;
    let g495: int = g494 + a.x.z * a.y.y * a.z.x * b.x.z * b.y.y * b.z.x;
    let g496: int = a.y.x * a.z.y - a.y.y * a.z.x;
    let g497: int = a.x.z * a.y.x * a.z.y - a.x.z * a.y.y * a.z.x;
    let g498: int = (0 - a.x.x * a.z.y) + a.x.y * a.z.x;
    let g499: int = (0 - a.x.x * a.y.z * a.z.y) + a.x.y * a.y.z * a.z.x;
    let g500: int = g499 + a.x.z * a.y.x * a.z.y;
    let g501: int = g500 - a.x.z * a.y.y * a.z.x;
    let g502: int = a.x.x * a.y.y - a.x.y * a.y.x;
    let g503: int = a.x.x * a.y.y * a.z.z - a.x.y * a.y.x * a.z.z;
    let g504: int = a.x.x * a.y.y * a.z.z - a.x.x * a.y.z * a.z.y;
    let g505: int = g504 - a.x.y * a.y.x * a.z.z;
    let g506: int = g505 + a.x.y * a.y.z * a.z.x;
    let g507: int = g506 + a.x.z * a.y.x * a.z.y;
    let g508: int = g507 - a.x.z * a.y.y * a.z.x;
    let g509: int = b.y.x * b.z.y - b.y.y * b.z.x;
    let g510: int = b.x.z * b.y.x * b.z.y - b.x.z * b.y.y * b.z.x;
    let g511: int = (0 - b.x.x * b.z.y) + b.x.y * b.z.x;
    let g512: int = (0 - b.x.x * b.y.z * b.z.y) + b.x.y * b.y.z * b.z.x;
    let g513: int = g512 + b.x.z * b.y.x * b.z.y;
    let g514: int = g513 - b.x.z * b.y.y * b.z.x;
    let g515: int = b.x.x * b.y.y - b.x.y * b.y.x;
    let g516: int = b.x.x * b.y.y * b.z.z - b.x.y * b.y.x * b.z.z;
    let g517: int = b.x.x * b.y.y * b.z.z - b.x.x * b.y.z * b.z.y;
    let g518: int = g517 - b.x.y * b.y.x * b.z.z;
    let g519: int = g518 + b.x.y * b.y.z * b.z.x;
    let g520: int = g519 + b.x.z * b.y.x * b.z.y;
    let g521: int = g520 - b.x.z * b.y.y * b.z.x;
    let g522: int = a.x.x * a.y.z * a.z.y * b.x.x * b.y.y * b.z.z - a.x.x * a.y.z * a.z.y * b.x.x * b.y.z * b.z.y;
    let g523: int = g522 - a.x.x * a.y.z * a.z.y * b.x.y * b.y.x * b.z.z;
    let g524: int = g523 + a.x.x * a.y.z * a.z.y * b.x.y * b.y.z * b.z.x;
    let g525: int = g524 + a.x.x * a.y.z * a.z.y * b.x.z * b.y.x * b.z.y;
    let g526: int = g525 - a.x.x * a.y.z * a.z.y * b.x.z * b.y.y * b.z.x;
    let g527: int = a.x.y * a.y.x * a.z.z * b.x.x * b.y.y * b.z.z - a.x.y * a.y.x * a.z.z * b.x.x * b.y.z * b.z.y;
    let g528: int = g527 - a.x.y * a.y.x * a.z.z * b.x.y * b.y.x * b.z.z;
    let g529: int = g528 + a.x.y * a.y.x * a.z.z * b.x.y * b.y.z * b.z.x;
    let g530: int = g529 + a.x.y * a.y.x * a.z.z * b.x.z * b.y.x * b.z.y;
    let g531: int = g530 - a.x.y * a.y.x * a.z.z * b.x.z * b.y.y * b.z.x;
    let g532: int = a.x.y * a.y.z * a.z.x * b.x.x * b.y.y * b.z.z - a.x.y * a.y.z * a.z.x * b.x.x * b.y.z * b.z.y;
    let g533: int = g532 - a.x.y * a.y.z * a.z.x * b.x.y * b.y.x * b.z.z;
    let g534: int = g533 + a.x.y * a.y.z * a.z.x * b.x.y * b.y.z * b.z.x;
    let g535: int = g534 + a.x.y * a.y.z * a.z.x * b.x.z * b.y.x * b.z.y;
    let g536: int = g535 - a.x.y * a.y.z * a.z.x * b.x.z * b.y.y * b.z.x;
    let g537: int = a.x.z * a.y.x * a.z.y * b.x.x * b.y.y * b.z.z - a.x.z * a.y.x * a.z.y * b.x.x * b.y.z * b.z.y;
    let g538: int = g537 - a.x.z * a.y.x * a.z.y * b.x.y * b.y.x * b.z.z;
    let g539: int = g538 + a.x.z * a.y.x * a.z.y * b.x.y * b.y.z * b.z.x;
    let g540: int = g539 + a.x.z * a.y.x * a.z.y * b.x.z * b.y.x * b.z.y;
    let g541: int = g540 - a.x.z * a.y.x * a.z.y * b.x.z * b.y.y * b.z.x;
    let g542: int = a.x.z * a.y.y * a.z.x * b.x.x * b.y.y * b.z.z - a.x.z * a.y.y * a.z.x * b.x.x * b.y.z * b.z.y;
    let g543: int = g542 - a.x.z * a.y.y * a.z.x * b.x.y * b.y.x * b.z.z;
    let g544: int = g543 + a.x.z * a.y.y * a.z.x * b.x.y * b.y.z * b.z.x;
    let g545: int = g544 + a.x.z * a.y.y * a.z.x * b.x.z * b.y.x * b.z.y;
    let g546: int = g545 - a.x.z * a.y.y * a.z.x * b.x.z * b.y.y * b.z.x;
    assert((g0 + a.z.x * b.y.z) * (g3) == g0 * (g3) + (a.z.x * b.y.z) * (g3)
        && (a.x.x * b.y.x + a.y.x * b.y.y) * (g3) == a.x.x * b.y.x * (g3) + (a.y.x * b.y.y) * (g3)
    ) by (nonlinear_arith);
    assert((a.x.x * b.y.x) * (g2 + a.z.y * b.z.z) == (a.x.x * b.y.x) * (g2) + (a.x.x * b.y.x) * (a.z.y * b.z.z)
        && (a.x.x * b.y.x) * (a.x.y * b.z.x + a.y.y * b.z.y) == (a.x.x * b.y.x) * (a.x.y * b.z.x) + (a.x.x * b.y.x) * (a.y.y * b.z.y)
    ) by (nonlinear_arith);
    assert((a.x.x * b.y.x) * (a.x.y * b.z.x) == a.x.x * a.x.y * b.y.x * b.z.x
        && (a.x.x * b.y.x) * (a.y.y * b.z.y) == a.x.x * a.y.y * b.y.x * b.z.y
        && (a.x.x * b.y.x) * (a.z.y * b.z.z) == a.x.x * a.z.y * b.y.x * b.z.z
    ) by (nonlinear_arith);
    assert((a.y.x * b.y.y) * (g2 + a.z.y * b.z.z) == (a.y.x * b.y.y) * (g2) + (a.y.x * b.y.y) * (a.z.y * b.z.z)
        && (a.y.x * b.y.y) * (a.x.y * b.z.x + a.y.y * b.z.y) == (a.y.x * b.y.y) * (a.x.y * b.z.x) + (a.y.x * b.y.y) * (a.y.y * b.z.y)
    ) by (nonlinear_arith);
    assert((a.y.x * b.y.y) * (a.x.y * b.z.x) == a.x.y * a.y.x * b.y.y * b.z.x
        && (a.y.x * b.y.y) * (a.y.y * b.z.y) == a.y.x * a.y.y * b.y.y * b.z.y
        && (a.y.x * b.y.y) * (a.z.y * b.z.z) == a.y.x * a.z.y * b.y.y * b.z.z
    ) by (nonlinear_arith);
    assert((a.z.x * b.y.z) * (g2 + a.z.y * b.z.z) == (a.z.x * b.y.z) * (g2) + (a.z.x * b.y.z) * (a.z.y * b.z.z)
        && (a.z.x * b.y.z) * (a.x.y * b.z.x + a.y.y * b.z.y) == (a.z.x * b.y.z) * (a.x.y * b.z.x) + (a.z.x * b.y.z) * (a.y.y * b.z.y)
    ) by (nonlinear_arith);
    assert((a.z.x * b.y.z) * (a.x.y * b.z.x) == a.x.y * a.z.x * b.y.z * b.z.x
        && (a.z.x * b.y.z) * (a.y.y * b.z.y) == a.y.y * a.z.x * b.y.z * b.z.y
        && (a.z.x * b.y.z) * (a.z.y * b.z.z) == a.z.x * a.z.y * b.y.z * b.z.z
    ) by (nonlinear_arith);
    assert((g18 + a.z.x * b.z.z) * (g21) == g18 * (g21) + (a.z.x * b.z.z) * (g21)
        && (a.x.x * b.z.x + a.y.x * b.z.y) * (g21) == a.x.x * b.z.x * (g21) + (a.y.x * b.z.y) * (g21)
    ) by (nonlinear_arith);
    assert((a.x.x * b.z.x) * (g20 + a.z.y * b.y.z) == (a.x.x * b.z.x) * (g20) + (a.x.x * b.z.x) * (a.z.y * b.y.z)
        && (a.x.x * b.z.x) * (a.x.y * b.y.x + a.y.y * b.y.y) == (a.x.x * b.z.x) * (a.x.y * b.y.x) + (a.x.x * b.z.x) * (a.y.y * b.y.y)
    ) by (nonlinear_arith);
    assert((a.x.x * b.z.x) * (a.x.y * b.y.x) == a.x.x * a.x.y * b.y.x * b.z.x
        && (a.x.x * b.z.x) * (a.y.y * b.y.y) == a.x.x * a.y.y * b.y.y * b.z.x
        && (a.x.x * b.z.x) * (a.z.y * b.y.z) == a.x.x * a.z.y * b.y.z * b.z.x
    ) by (nonlinear_arith);
    assert((a.y.x * b.z.y) * (g20 + a.z.y * b.y.z) == (a.y.x * b.z.y) * (g20) + (a.y.x * b.z.y) * (a.z.y * b.y.z)
        && (a.y.x * b.z.y) * (a.x.y * b.y.x + a.y.y * b.y.y) == (a.y.x * b.z.y) * (a.x.y * b.y.x) + (a.y.x * b.z.y) * (a.y.y * b.y.y)
    ) by (nonlinear_arith);
    assert((a.y.x * b.z.y) * (a.x.y * b.y.x) == a.x.y * a.y.x * b.y.x * b.z.y
        && (a.y.x * b.z.y) * (a.y.y * b.y.y) == a.y.x * a.y.y * b.y.y * b.z.y
        && (a.y.x * b.z.y) * (a.z.y * b.y.z) == a.y.x * a.z.y * b.y.z * b.z.y
    ) by (nonlinear_arith);
    assert((a.z.x * b.z.z) * (g20 + a.z.y * b.y.z) == (a.z.x * b.z.z) * (g20) + (a.z.x * b.z.z) * (a.z.y * b.y.z)
        && (a.z.x * b.z.z) * (a.x.y * b.y.x + a.y.y * b.y.y) == (a.z.x * b.z.z) * (a.x.y * b.y.x) + (a.z.x * b.z.z) * (a.y.y * b.y.y)
    ) by (nonlinear_arith);
    assert((a.z.x * b.z.z) * (a.x.y * b.y.x) == a.x.y * a.z.x * b.y.x * b.z.z
        && (a.z.x * b.z.z) * (a.y.y * b.y.y) == a.y.y * a.z.x * b.y.y * b.z.z
        && (a.z.x * b.z.z) * (a.z.y * b.y.z) == a.z.x * a.z.y * b.y.z * b.z.z
    ) by (nonlinear_arith);
    assert((g45 + a.y.y * a.z.x * b.y.z * b.z.y) * (g48) == g45 * (g48) + (a.y.y * a.z.x * b.y.z * b.z.y) * (g48)
        && (g44 - a.y.y * a.z.x * b.y.y * b.z.z) * (g48) == g44 * (g48) - (a.y.y * a.z.x * b.y.y * b.z.z) * (g48)
    ) by (nonlinear_arith);
    assert((g43 - a.y.x * a.z.y * b.y.z * b.z.y) * (g48) == g43 * (g48) - (a.y.x * a.z.y * b.y.z * b.z.y) * (g48)
        && (g42 + a.y.x * a.z.y * b.y.y * b.z.z) * (g48) == g42 * (g48) + (a.y.x * a.z.y * b.y.y * b.z.z) * (g48)
    ) by (nonlinear_arith);
    assert((g41 + a.x.y * a.z.x * b.y.z * b.z.x) * (g48) == g41 * (g48) + (a.x.y * a.z.x * b.y.z * b.z.x) * (g48)
        && (g40 - a.x.y * a.z.x * b.y.x * b.z.z) * (g48) == g40 * (g48) - (a.x.y * a.z.x * b.y.x * b.z.z) * (g48)
    ) by (nonlinear_arith);
    assert((g39 + a.x.y * a.y.x * b.y.y * b.z.x) * (g48) == g39 * (g48) + (a.x.y * a.y.x * b.y.y * b.z.x) * (g48)
        && (g38 - a.x.y * a.y.x * b.y.x * b.z.y) * (g48) == g38 * (g48) - (a.x.y * a.y.x * b.y.x * b.z.y) * (g48)
    ) by (nonlinear_arith);
    assert((g37 - a.x.x * a.z.y * b.y.z * b.z.x) * (g48) == g37 * (g48) - (a.x.x * a.z.y * b.y.z * b.z.x) * (g48)
        && (g36 + a.x.x * a.z.y * b.y.x * b.z.z) * (g48) == g36 * (g48) + (a.x.x * a.z.y * b.y.x * b.z.z) * (g48)
    ) by (nonlinear_arith);
    assert((a.x.x * a.y.y * b.y.x * b.z.y - a.x.x * a.y.y * b.y.y * b.z.x) * (g48) == a.x.x * a.y.y * b.y.x * b.z.y * (g48) - (a.x.x * a.y.y * b.y.y * b.z.x) * (g48)) by (nonlinear_arith);
    assert((a.x.x * a.y.y * b.y.x * b.z.y) * (g47 + a.z.z * b.x.z) == (a.x.x * a.y.y * b.y.x * b.z.y) * (g47) + (a.x.x * a.y.y * b.y.x * b.z.y) * (a.z.z * b.x.z)) by (nonlinear_arith);
    assert((a.x.x * a.y.y * b.y.x * b.z.y) * (a.x.z * b.x.x + a.y.z * b.x.y) == (a.x.x * a.y.y * b.y.x * b.z.y) * (a.x.z * b.x.x) + (a.x.x * a.y.y * b.y.x * b.z.y) * (a.y.z * b.x.y)) by (nonlinear_arith);
    assert((a.x.x * a.y.y * b.y.x * b.z.y) * (a.x.z * b.x.x) == a.x.x * a.x.z * a.y.y * b.x.x * b.y.x * b.z.y) by (nonlinear_arith);
    assert((a.x.x * a.y.y * b.y.x * b.z.y) * (a.y.z * b.x.y) == a.x.x * a.y.y * a.y.z * b.x.y * b.y.x * b.z.y) by (nonlinear_arith);
    assert((a.x.x * a.y.y * b.y.x * b.z.y) * (a.z.z * b.x.z) == a.x.x * a.y.y * a.z.z * b.x.z * b.y.x * b.z.y) by (nonlinear_arith);
    assert((a.x.x * a.y.y * b.y.y * b.z.x) * (g47 + a.z.z * b.x.z) == (a.x.x * a.y.y * b.y.y * b.z.x) * (g47) + (a.x.x * a.y.y * b.y.y * b.z.x) * (a.z.z * b.x.z)) by (nonlinear_arith);
    assert((a.x.x * a.y.y * b.y.y * b.z.x) * (a.x.z * b.x.x + a.y.z * b.x.y) == (a.x.x * a.y.y * b.y.y * b.z.x) * (a.x.z * b.x.x) + (a.x.x * a.y.y * b.y.y * b.z.x) * (a.y.z * b.x.y)) by (nonlinear_arith);
    assert((a.x.x * a.y.y * b.y.y * b.z.x) * (a.x.z * b.x.x) == a.x.x * a.x.z * a.y.y * b.x.x * b.y.y * b.z.x) by (nonlinear_arith);
    assert((a.x.x * a.y.y * b.y.y * b.z.x) * (a.y.z * b.x.y) == a.x.x * a.y.y * a.y.z * b.x.y * b.y.y * b.z.x) by (nonlinear_arith);
    assert((a.x.x * a.y.y * b.y.y * b.z.x) * (a.z.z * b.x.z) == a.x.x * a.y.y * a.z.z * b.x.z * b.y.y * b.z.x) by (nonlinear_arith);
    assert((a.x.x * a.z.y * b.y.x * b.z.z) * (g47 + a.z.z * b.x.z) == (a.x.x * a.z.y * b.y.x * b.z.z) * (g47) + (a.x.x * a.z.y * b.y.x * b.z.z) * (a.z.z * b.x.z)) by (nonlinear_arith);
    assert((a.x.x * a.z.y * b.y.x * b.z.z) * (a.x.z * b.x.x + a.y.z * b.x.y) == (a.x.x * a.z.y * b.y.x * b.z.z) * (a.x.z * b.x.x) + (a.x.x * a.z.y * b.y.x * b.z.z) * (a.y.z * b.x.y)) by (nonlinear_arith);
    assert((a.x.x * a.z.y * b.y.x * b.z.z) * (a.x.z * b.x.x) == a.x.x * a.x.z * a.z.y * b.x.x * b.y.x * b.z.z) by (nonlinear_arith);
    assert((a.x.x * a.z.y * b.y.x * b.z.z) * (a.y.z * b.x.y) == a.x.x * a.y.z * a.z.y * b.x.y * b.y.x * b.z.z) by (nonlinear_arith);
    assert((a.x.x * a.z.y * b.y.x * b.z.z) * (a.z.z * b.x.z) == a.x.x * a.z.y * a.z.z * b.x.z * b.y.x * b.z.z) by (nonlinear_arith);
    assert((a.x.x * a.z.y * b.y.z * b.z.x) * (g47 + a.z.z * b.x.z) == (a.x.x * a.z.y * b.y.z * b.z.x) * (g47) + (a.x.x * a.z.y * b.y.z * b.z.x) * (a.z.z * b.x.z)) by (nonlinear_arith);
    assert((a.x.x * a.z.y * b.y.z * b.z.x) * (a.x.z * b.x.x + a.y.z * b.x.y) == (a.x.x * a.z.y * b.y.z * b.z.x) * (a.x.z * b.x.x) + (a.x.x * a.z.y * b.y.z * b.z.x) * (a.y.z * b.x.y)) by (nonlinear_arith);
    assert((a.x.x * a.z.y * b.y.z * b.z.x) * (a.x.z * b.x.x) == a.x.x * a.x.z * a.z.y * b.x.x * b.y.z * b.z.x) by (nonlinear_arith);
    assert((a.x.x * a.z.y * b.y.z * b.z.x) * (a.y.z * b.x.y) == a.x.x * a.y.z * a.z.y * b.x.y * b.y.z * b.z.x) by (nonlinear_arith);
    assert((a.x.x * a.z.y * b.y.z * b.z.x) * (a.z.z * b.x.z) == a.x.x * a.z.y * a.z.z * b.x.z * b.y.z * b.z.x) by (nonlinear_arith);
    assert((a.x.y * a.y.x * b.y.x * b.z.y) * (g47 + a.z.z * b.x.z) == (a.x.y * a.y.x * b.y.x * b.z.y) * (g47) + (a.x.y * a.y.x * b.y.x * b.z.y) * (a.z.z * b.x.z)) by (nonlinear_arith);
    assert((a.x.y * a.y.x * b.y.x * b.z.y) * (a.x.z * b.x.x + a.y.z * b.x.y) == (a.x.y * a.y.x * b.y.x * b.z.y) * (a.x.z * b.x.x) + (a.x.y * a.y.x * b.y.x * b.z.y) * (a.y.z * b.x.y)) by (nonlinear_arith);
    assert((a.x.y * a.y.x * b.y.x * b.z.y) * (a.x.z * b.x.x) == a.x.y * a.x.z * a.y.x * b.x.x * b.y.x * b.z.y) by (nonlinear_arith);
    assert((a.x.y * a.y.x * b.y.x * b.z.y) * (a.y.z * b.x.y) == a.x.y * a.y.x * a.y.z * b.x.y * b.y.x * b.z.y) by (nonlinear_arith);
    assert((a.x.y * a.y.x * b.y.x * b.z.y) * (a.z.z * b.x.z) == a.x.y * a.y.x * a.z.z * b.x.z * b.y.x * b.z.y) by (nonlinear_arith);
    assert((a.x.y * a.y.x * b.y.y * b.z.x) * (g47 + a.z.z * b.x.z) == (a.x.y * a.y.x * b.y.y * b.z.x) * (g47) + (a.x.y * a.y.x * b.y.y * b.z.x) * (a.z.z * b.x.z)) by (nonlinear_arith);
    assert((a.x.y * a.y.x * b.y.y * b.z.x) * (a.x.z * b.x.x + a.y.z * b.x.y) == (a.x.y * a.y.x * b.y.y * b.z.x) * (a.x.z * b.x.x) + (a.x.y * a.y.x * b.y.y * b.z.x) * (a.y.z * b.x.y)) by (nonlinear_arith);
    assert((a.x.y * a.y.x * b.y.y * b.z.x) * (a.x.z * b.x.x) == a.x.y * a.x.z * a.y.x * b.x.x * b.y.y * b.z.x) by (nonlinear_arith);
    assert((a.x.y * a.y.x * b.y.y * b.z.x) * (a.y.z * b.x.y) == a.x.y * a.y.x * a.y.z * b.x.y * b.y.y * b.z.x) by (nonlinear_arith);
    assert((a.x.y * a.y.x * b.y.y * b.z.x) * (a.z.z * b.x.z) == a.x.y * a.y.x * a.z.z * b.x.z * b.y.y * b.z.x) by (nonlinear_arith);
    assert((a.x.y * a.z.x * b.y.x * b.z.z) * (g47 + a.z.z * b.x.z) == (a.x.y * a.z.x * b.y.x * b.z.z) * (g47) + (a.x.y * a.z.x * b.y.x * b.z.z) * (a.z.z * b.x.z)) by (nonlinear_arith);
    assert((a.x.y * a.z.x * b.y.x * b.z.z) * (a.x.z * b.x.x + a.y.z * b.x.y) == (a.x.y * a.z.x * b.y.x * b.z.z) * (a.x.z * b.x.x) + (a.x.y * a.z.x * b.y.x * b.z.z) * (a.y.z * b.x.y)) by (nonlinear_arith);
    assert((a.x.y * a.z.x * b.y.x * b.z.z) * (a.x.z * b.x.x) == a.x.y * a.x.z * a.z.x * b.x.x * b.y.x * b.z.z) by (nonlinear_arith);
    assert((a.x.y * a.z.x * b.y.x * b.z.z) * (a.y.z * b.x.y) == a.x.y * a.y.z * a.z.x * b.x.y * b.y.x * b.z.z) by (nonlinear_arith);
    assert((a.x.y * a.z.x * b.y.x * b.z.z) * (a.z.z * b.x.z) == a.x.y * a.z.x * a.z.z * b.x.z * b.y.x * b.z.z) by (nonlinear_arith);
    assert((a.x.y * a.z.x * b.y.z * b.z.x) * (g47 + a.z.z * b.x.z) == (a.x.y * a.z.x * b.y.z * b.z.x) * (g47) + (a.x.y * a.z.x * b.y.z * b.z.x) * (a.z.z * b.x.z)) by (nonlinear_arith);
    assert((a.x.y * a.z.x * b.y.z * b.z.x) * (a.x.z * b.x.x + a.y.z * b.x.y) == (a.x.y * a.z.x * b.y.z * b.z.x) * (a.x.z * b.x.x) + (a.x.y * a.z.x * b.y.z * b.z.x) * (a.y.z * b.x.y)) by (nonlinear_arith);
    assert((a.x.y * a.z.x * b.y.z * b.z.x) * (a.x.z * b.x.x) == a.x.y * a.x.z * a.z.x * b.x.x * b.y.z * b.z.x) by (nonlinear_arith);
    assert((a.x.y * a.z.x * b.y.z * b.z.x) * (a.y.z * b.x.y) == a.x.y * a.y.z * a.z.x * b.x.y * b.y.z * b.z.x) by (nonlinear_arith);
    assert((a.x.y * a.z.x * b.y.z * b.z.x) * (a.z.z * b.x.z) == a.x.y * a.z.x * a.z.z * b.x.z * b.y.z * b.z.x) by (nonlinear_arith);
    assert((a.y.x * a.z.y * b.y.y * b.z.z) * (g47 + a.z.z * b.x.z) == (a.y.x * a.z.y * b.y.y * b.z.z) * (g47) + (a.y.x * a.z.y * b.y.y * b.z.z) * (a.z.z * b.x.z)) by (nonlinear_arith);
    assert((a.y.x * a.z.y * b.y.y * b.z.z) * (a.x.z * b.x.x + a.y.z * b.x.y) == (a.y.x * a.z.y * b.y.y * b.z.z) * (a.x.z * b.x.x) + (a.y.x * a.z.y * b.y.y * b.z.z) * (a.y.z * b.x.y)) by (nonlinear_arith);
    assert((a.y.x * a.z.y * b.y.y * b.z.z) * (a.x.z * b.x.x) == a.x.z * a.y.x * a.z.y * b.x.x * b.y.y * b.z.z) by (nonlinear_arith);
    assert((a.y.x * a.z.y * b.y.y * b.z.z) * (a.y.z * b.x.y) == a.y.x * a.y.z * a.z.y * b.x.y * b.y.y * b.z.z) by (nonlinear_arith);
    assert((a.y.x * a.z.y * b.y.y * b.z.z) * (a.z.z * b.x.z) == a.y.x * a.z.y * a.z.z * b.x.z * b.y.y * b.z.z) by (nonlinear_arith);
    assert((a.y.x * a.z.y * b.y.z * b.z.y) * (g47 + a.z.z * b.x.z) == (a.y.x * a.z.y * b.y.z * b.z.y) * (g47) + (a.y.x * a.z.y * b.y.z * b.z.y) * (a.z.z * b.x.z)) by (nonlinear_arith);
    assert((a.y.x * a.z.y * b.y.z * b.z.y) * (a.x.z * b.x.x + a.y.z * b.x.y) == (a.y.x * a.z.y * b.y.z * b.z.y) * (a.x.z * b.x.x) + (a.y.x * a.z.y * b.y.z * b.z.y) * (a.y.z * b.x.y)) by (nonlinear_arith);
    assert((a.y.x * a.z.y * b.y.z * b.z.y) * (a.x.z * b.x.x) == a.x.z * a.y.x * a.z.y * b.x.x * b.y.z * b.z.y) by (nonlinear_arith);
    assert((a.y.x * a.z.y * b.y.z * b.z.y) * (a.y.z * b.x.y) == a.y.x * a.y.z * a.z.y * b.x.y * b.y.z * b.z.y) by (nonlinear_arith);
    assert((a.y.x * a.z.y * b.y.z * b.z.y) * (a.z.z * b.x.z) == a.y.x * a.z.y * a.z.z * b.x.z * b.y.z * b.z.y) by (nonlinear_arith);
    assert((a.y.y * a.z.x * b.y.y * b.z.z) * (g47 + a.z.z * b.x.z) == (a.y.y * a.z.x * b.y.y * b.z.z) * (g47) + (a.y.y * a.z.x * b.y.y * b.z.z) * (a.z.z * b.x.z)) by (nonlinear_arith);
    assert((a.y.y * a.z.x * b.y.y * b.z.z) * (a.x.z * b.x.x + a.y.z * b.x.y) == (a.y.y * a.z.x * b.y.y * b.z.z) * (a.x.z * b.x.x) + (a.y.y * a.z.x * b.y.y * b.z.z) * (a.y.z * b.x.y)) by (nonlinear_arith);
    assert((a.y.y * a.z.x * b.y.y * b.z.z) * (a.x.z * b.x.x) == a.x.z * a.y.y * a.z.x * b.x.x * b.y.y * b.z.z) by (nonlinear_arith);
    assert((a.y.y * a.z.x * b.y.y * b.z.z) * (a.y.z * b.x.y) == a.y.y * a.y.z * a.z.x * b.x.y * b.y.y * b.z.z) by (nonlinear_arith);
    assert((a.y.y * a.z.x * b.y.y * b.z.z) * (a.z.z * b.x.z) == a.y.y * a.z.x * a.z.z * b.x.z * b.y.y * b.z.z) by (nonlinear_arith);
    assert((a.y.y * a.z.x * b.y.z * b.z.y) * (g47 + a.z.z * b.x.z) == (a.y.y * a.z.x * b.y.z * b.z.y) * (g47) + (a.y.y * a.z.x * b.y.z * b.z.y) * (a.z.z * b.x.z)) by (nonlinear_arith);
    assert((a.y.y * a.z.x * b.y.z * b.z.y) * (a.x.z * b.x.x + a.y.z * b.x.y) == (a.y.y * a.z.x * b.y.z * b.z.y) * (a.x.z * b.x.x) + (a.y.y * a.z.x * b.y.z * b.z.y) * (a.y.z * b.x.y)) by (nonlinear_arith);
    assert((a.y.y * a.z.x * b.y.z * b.z.y) * (a.x.z * b.x.x) == a.x.z * a.y.y * a.z.x * b.x.x * b.y.z * b.z.y) by (nonlinear_arith);
    assert((a.y.y * a.z.x * b.y.z * b.z.y) * (a.y.z * b.x.y) == a.y.y * a.y.z * a.z.x * b.x.y * b.y.z * b.z.y) by (nonlinear_arith);
    assert((a.y.y * a.z.x * b.y.z * b.z.y) * (a.z.z * b.x.z) == a.y.y * a.z.x * a.z.z * b.x.z * b.y.z * b.z.y
        && (g18 + a.z.x * b.z.z) * (g143) == g18 * (g143) + (a.z.x * b.z.z) * (g143)
    ) by (nonlinear_arith);
    assert((a.x.x * b.z.x + a.y.x * b.z.y) * (g143) == a.x.x * b.z.x * (g143) + (a.y.x * b.z.y) * (g143)
        && (a.x.x * b.z.x) * (g142 + a.z.y * b.x.z) == (a.x.x * b.z.x) * (g142) + (a.x.x * b.z.x) * (a.z.y * b.x.z)
    ) by (nonlinear_arith);
    assert((a.x.x * b.z.x) * (a.x.y * b.x.x + a.y.y * b.x.y) == (a.x.x * b.z.x) * (a.x.y * b.x.x) + (a.x.x * b.z.x) * (a.y.y * b.x.y)
        && (a.x.x * b.z.x) * (a.x.y * b.x.x) == a.x.x * a.x.y * b.x.x * b.z.x
    ) by (nonlinear_arith);
    assert((a.x.x * b.z.x) * (a.y.y * b.x.y) == a.x.x * a.y.y * b.x.y * b.z.x
        && (a.x.x * b.z.x) * (a.z.y * b.x.z) == a.x.x * a.z.y * b.x.z * b.z.x
    ) by (nonlinear_arith);
    assert((a.y.x * b.z.y) * (g142 + a.z.y * b.x.z) == (a.y.x * b.z.y) * (g142) + (a.y.x * b.z.y) * (a.z.y * b.x.z)
        && (a.y.x * b.z.y) * (a.x.y * b.x.x + a.y.y * b.x.y) == (a.y.x * b.z.y) * (a.x.y * b.x.x) + (a.y.x * b.z.y) * (a.y.y * b.x.y)
    ) by (nonlinear_arith);
    assert((a.y.x * b.z.y) * (a.x.y * b.x.x) == a.x.y * a.y.x * b.x.x * b.z.y
        && (a.y.x * b.z.y) * (a.y.y * b.x.y) == a.y.x * a.y.y * b.x.y * b.z.y
        && (a.y.x * b.z.y) * (a.z.y * b.x.z) == a.y.x * a.z.y * b.x.z * b.z.y
    ) by (nonlinear_arith);
    assert((a.z.x * b.z.z) * (g142 + a.z.y * b.x.z) == (a.z.x * b.z.z) * (g142) + (a.z.x * b.z.z) * (a.z.y * b.x.z)
        && (a.z.x * b.z.z) * (a.x.y * b.x.x + a.y.y * b.x.y) == (a.z.x * b.z.z) * (a.x.y * b.x.x) + (a.z.x * b.z.z) * (a.y.y * b.x.y)
    ) by (nonlinear_arith);
    assert((a.z.x * b.z.z) * (a.x.y * b.x.x) == a.x.y * a.z.x * b.x.x * b.z.z
        && (a.z.x * b.z.z) * (a.y.y * b.x.y) == a.y.y * a.z.x * b.x.y * b.z.z
        && (a.z.x * b.z.z) * (a.z.y * b.x.z) == a.z.x * a.z.y * b.x.z * b.z.z
    ) by (nonlinear_arith);
    assert((g158 + a.z.x * b.x.z) * (g3) == g158 * (g3) + (a.z.x * b.x.z) * (g3)
        && (a.x.x * b.x.x + a.y.x * b.x.y) * (g3) == a.x.x * b.x.x * (g3) + (a.y.x * b.x.y) * (g3)
    ) by (nonlinear_arith);
    assert((a.x.x * b.x.x) * (g2 + a.z.y * b.z.z) == (a.x.x * b.x.x) * (g2) + (a.x.x * b.x.x) * (a.z.y * b.z.z)
        && (a.x.x * b.x.x) * (a.x.y * b.z.x + a.y.y * b.z.y) == (a.x.x * b.x.x) * (a.x.y * b.z.x) + (a.x.x * b.x.x) * (a.y.y * b.z.y)
    ) by (nonlinear_arith);
    assert((a.x.x * b.x.x) * (a.x.y * b.z.x) == a.x.x * a.x.y * b.x.x * b.z.x
        && (a.x.x * b.x.x) * (a.y.y * b.z.y) == a.x.x * a.y.y * b.x.x * b.z.y
        && (a.x.x * b.x.x) * (a.z.y * b.z.z) == a.x.x * a.z.y * b.x.x * b.z.z
    ) by (nonlinear_arith);
    assert((a.y.x * b.x.y) * (g2 + a.z.y * b.z.z) == (a.y.x * b.x.y) * (g2) + (a.y.x * b.x.y) * (a.z.y * b.z.z)
        && (a.y.x * b.x.y) * (a.x.y * b.z.x + a.y.y * b.z.y) == (a.y.x * b.x.y) * (a.x.y * b.z.x) + (a.y.x * b.x.y) * (a.y.y * b.z.y)
    ) by (nonlinear_arith);
    assert((a.y.x * b.x.y) * (a.x.y * b.z.x) == a.x.y * a.y.x * b.x.y * b.z.x
        && (a.y.x * b.x.y) * (a.y.y * b.z.y) == a.y.x * a.y.y * b.x.y * b.z.y
        && (a.y.x * b.x.y) * (a.z.y * b.z.z) == a.y.x * a.z.y * b.x.y * b.z.z
    ) by (nonlinear_arith);
    assert((a.z.x * b.x.z) * (g2 + a.z.y * b.z.z) == (a.z.x * b.x.z) * (g2) + (a.z.x * b.x.z) * (a.z.y * b.z.z)
        && (a.z.x * b.x.z) * (a.x.y * b.z.x + a.y.y * b.z.y) == (a.z.x * b.x.z) * (a.x.y * b.z.x) + (a.z.x * b.x.z) * (a.y.y * b.z.y)
    ) by (nonlinear_arith);
    assert((a.z.x * b.x.z) * (a.x.y * b.z.x) == a.x.y * a.z.x * b.x.z * b.z.x
        && (a.z.x * b.x.z) * (a.y.y * b.z.y) == a.y.y * a.z.x * b.x.z * b.z.y
        && (a.z.x * b.x.z) * (a.z.y * b.z.z) == a.z.x * a.z.y * b.x.z * b.z.z
    ) by (nonlinear_arith);
    assert((g183 - a.y.y * a.z.x * b.x.z * b.z.y) * (g186) == g183 * (g186) - (a.y.y * a.z.x * b.x.z * b.z.y) * (g186)
        && (g182 + a.y.y * a.z.x * b.x.y * b.z.z) * (g186) == g182 * (g186) + (a.y.y * a.z.x * b.x.y * b.z.z) * (g186)
    ) by (nonlinear_arith);
    assert((g181 + a.y.x * a.z.y * b.x.z * b.z.y) * (g186) == g181 * (g186) + (a.y.x * a.z.y * b.x.z * b.z.y) * (g186)
        && (g180 - a.y.x * a.z.y * b.x.y * b.z.z) * (g186) == g180 * (g186) - (a.y.x * a.z.y * b.x.y * b.z.z) * (g186)
    ) by (nonlinear_arith);
    assert((g179 - a.x.y * a.z.x * b.x.z * b.z.x) * (g186) == g179 * (g186) - (a.x.y * a.z.x * b.x.z * b.z.x) * (g186)
        && (g178 + a.x.y * a.z.x * b.x.x * b.z.z) * (g186) == g178 * (g186) + (a.x.y * a.z.x * b.x.x * b.z.z) * (g186)
    ) by (nonlinear_arith);
    assert((g177 - a.x.y * a.y.x * b.x.y * b.z.x) * (g186) == g177 * (g186) - (a.x.y * a.y.x * b.x.y * b.z.x) * (g186)
        && (g176 + a.x.y * a.y.x * b.x.x * b.z.y) * (g186) == g176 * (g186) + (a.x.y * a.y.x * b.x.x * b.z.y) * (g186)
    ) by (nonlinear_arith);
    assert((g175 + a.x.x * a.z.y * b.x.z * b.z.x) * (g186) == g175 * (g186) + (a.x.x * a.z.y * b.x.z * b.z.x) * (g186)
        && (g174 - a.x.x * a.z.y * b.x.x * b.z.z) * (g186) == g174 * (g186) - (a.x.x * a.z.y * b.x.x * b.z.z) * (g186)
    ) by (nonlinear_arith);
    assert(((0 - a.x.x * a.y.y * b.x.x * b.z.y) + a.x.x * a.y.y * b.x.y * b.z.x) * (g186) == (0 - a.x.x * a.y.y * b.x.x * b.z.y) * (g186) + (a.x.x * a.y.y * b.x.y * b.z.x) * (g186)) by (nonlinear_arith);
    assert(((0 - a.x.x * a.y.y * b.x.x * b.z.y)) * (g185 + a.z.z * b.y.z) == ((0 - a.x.x * a.y.y * b.x.x * b.z.y)) * (g185) + ((0 - a.x.x * a.y.y * b.x.x * b.z.y)) * (a.z.z * b.y.z)) by (nonlinear_arith);
    assert(((0 - a.x.x * a.y.y * b.x.x * b.z.y)) * (a.x.z * b.y.x + a.y.z * b.y.y) == ((0 - a.x.x * a.y.y * b.x.x * b.z.y)) * (a.x.z * b.y.x) + ((0 - a.x.x * a.y.y * b.x.x * b.z.y)) * (a.y.z * b.y.y)) by (nonlinear_arith);
    assert(((0 - a.x.x * a.y.y * b.x.x * b.z.y)) * (a.x.z * b.y.x) == (0 - a.x.x * a.x.z * a.y.y * b.x.x * b.y.x * b.z.y)) by (nonlinear_arith);
    assert(((0 - a.x.x * a.y.y * b.x.x * b.z.y)) * (a.y.z * b.y.y) == (0 - a.x.x * a.y.y * a.y.z * b.x.x * b.y.y * b.z.y)) by (nonlinear_arith);
    assert(((0 - a.x.x * a.y.y * b.x.x * b.z.y)) * (a.z.z * b.y.z) == (0 - a.x.x * a.y.y * a.z.z * b.x.x * b.y.z * b.z.y)) by (nonlinear_arith);
    assert((a.x.x * a.y.y * b.x.y * b.z.x) * (g185 + a.z.z * b.y.z) == (a.x.x * a.y.y * b.x.y * b.z.x) * (g185) + (a.x.x * a.y.y * b.x.y * b.z.x) * (a.z.z * b.y.z)) by (nonlinear_arith);
    assert((a.x.x * a.y.y * b.x.y * b.z.x) * (a.x.z * b.y.x + a.y.z * b.y.y) == (a.x.x * a.y.y * b.x.y * b.z.x) * (a.x.z * b.y.x) + (a.x.x * a.y.y * b.x.y * b.z.x) * (a.y.z * b.y.y)) by (nonlinear_arith);
    assert((a.x.x * a.y.y * b.x.y * b.z.x) * (a.x.z * b.y.x) == a.x.x * a.x.z * a.y.y * b.x.y * b.y.x * b.z.x) by (nonlinear_arith);
    assert((a.x.x * a.y.y * b.x.y * b.z.x) * (a.y.z * b.y.y) == a.x.x * a.y.y * a.y.z * b.x.y * b.y.y * b.z.x) by (nonlinear_arith);
    assert((a.x.x * a.y.y * b.x.y * b.z.x) * (a.z.z * b.y.z) == a.x.x * a.y.y * a.z.z * b.x.y * b.y.z * b.z.x) by (nonlinear_arith);
    assert((a.x.x * a.z.y * b.x.x * b.z.z) * (g185 + a.z.z * b.y.z) == (a.x.x * a.z.y * b.x.x * b.z.z) * (g185) + (a.x.x * a.z.y * b.x.x * b.z.z) * (a.z.z * b.y.z)) by (nonlinear_arith);
    assert((a.x.x * a.z.y * b.x.x * b.z.z) * (a.x.z * b.y.x + a.y.z * b.y.y) == (a.x.x * a.z.y * b.x.x * b.z.z) * (a.x.z * b.y.x) + (a.x.x * a.z.y * b.x.x * b.z.z) * (a.y.z * b.y.y)) by (nonlinear_arith);
    assert((a.x.x * a.z.y * b.x.x * b.z.z) * (a.x.z * b.y.x) == a.x.x * a.x.z * a.z.y * b.x.x * b.y.x * b.z.z) by (nonlinear_arith);
    assert((a.x.x * a.z.y * b.x.x * b.z.z) * (a.y.z * b.y.y) == a.x.x * a.y.z * a.z.y * b.x.x * b.y.y * b.z.z) by (nonlinear_arith);
    assert((a.x.x * a.z.y * b.x.x * b.z.z) * (a.z.z * b.y.z) == a.x.x * a.z.y * a.z.z * b.x.x * b.y.z * b.z.z) by (nonlinear_arith);
    assert((a.x.x * a.z.y * b.x.z * b.z.x) * (g185 + a.z.z * b.y.z) == (a.x.x * a.z.y * b.x.z * b.z.x) * (g185) + (a.x.x * a.z.y * b.x.z * b.z.x) * (a.z.z * b.y.z)) by (nonlinear_arith);
    assert((a.x.x * a.z.y * b.x.z * b.z.x) * (a.x.z * b.y.x + a.y.z * b.y.y) == (a.x.x * a.z.y * b.x.z * b.z.x) * (a.x.z * b.y.x) + (a.x.x * a.z.y * b.x.z * b.z.x) * (a.y.z * b.y.y)) by (nonlinear_arith);
    assert((a.x.x * a.z.y * b.x.z * b.z.x) * (a.x.z * b.y.x) == a.x.x * a.x.z * a.z.y * b.x.z * b.y.x * b.z.x) by (nonlinear_arith);
    assert((a.x.x * a.z.y * b.x.z * b.z.x) * (a.y.z * b.y.y) == a.x.x * a.y.z * a.z.y * b.x.z * b.y.y * b.z.x) by (nonlinear_arith);
    assert((a.x.x * a.z.y * b.x.z * b.z.x) * (a.z.z * b.y.z) == a.x.x * a.z.y * a.z.z * b.x.z * b.y.z * b.z.x) by (nonlinear_arith);
    assert((a.x.y * a.y.x * b.x.x * b.z.y) * (g185 + a.z.z * b.y.z) == (a.x.y * a.y.x * b.x.x * b.z.y) * (g185) + (a.x.y * a.y.x * b.x.x * b.z.y) * (a.z.z * b.y.z)) by (nonlinear_arith);
    assert((a.x.y * a.y.x * b.x.x * b.z.y) * (a.x.z * b.y.x + a.y.z * b.y.y) == (a.x.y * a.y.x * b.x.x * b.z.y) * (a.x.z * b.y.x) + (a.x.y * a.y.x * b.x.x * b.z.y) * (a.y.z * b.y.y)) by (nonlinear_arith);
    assert((a.x.y * a.y.x * b.x.x * b.z.y) * (a.x.z * b.y.x) == a.x.y * a.x.z * a.y.x * b.x.x * b.y.x * b.z.y) by (nonlinear_arith);
    assert((a.x.y * a.y.x * b.x.x * b.z.y) * (a.y.z * b.y.y) == a.x.y * a.y.x * a.y.z * b.x.x * b.y.y * b.z.y) by (nonlinear_arith);
    assert((a.x.y * a.y.x * b.x.x * b.z.y) * (a.z.z * b.y.z) == a.x.y * a.y.x * a.z.z * b.x.x * b.y.z * b.z.y) by (nonlinear_arith);
    assert((a.x.y * a.y.x * b.x.y * b.z.x) * (g185 + a.z.z * b.y.z) == (a.x.y * a.y.x * b.x.y * b.z.x) * (g185) + (a.x.y * a.y.x * b.x.y * b.z.x) * (a.z.z * b.y.z)) by (nonlinear_arith);
    assert((a.x.y * a.y.x * b.x.y * b.z.x) * (a.x.z * b.y.x + a.y.z * b.y.y) == (a.x.y * a.y.x * b.x.y * b.z.x) * (a.x.z * b.y.x) + (a.x.y * a.y.x * b.x.y * b.z.x) * (a.y.z * b.y.y)) by (nonlinear_arith);
    assert((a.x.y * a.y.x * b.x.y * b.z.x) * (a.x.z * b.y.x) == a.x.y * a.x.z * a.y.x * b.x.y * b.y.x * b.z.x) by (nonlinear_arith);
    assert((a.x.y * a.y.x * b.x.y * b.z.x) * (a.y.z * b.y.y) == a.x.y * a.y.x * a.y.z * b.x.y * b.y.y * b.z.x) by (nonlinear_arith);
    assert((a.x.y * a.y.x * b.x.y * b.z.x) * (a.z.z * b.y.z) == a.x.y * a.y.x * a.z.z * b.x.y * b.y.z * b.z.x) by (nonlinear_arith);
    assert((a.x.y * a.z.x * b.x.x * b.z.z) * (g185 + a.z.z * b.y.z) == (a.x.y * a.z.x * b.x.x * b.z.z) * (g185) + (a.x.y * a.z.x * b.x.x * b.z.z) * (a.z.z * b.y.z)) by (nonlinear_arith);
    assert((a.x.y * a.z.x * b.x.x * b.z.z) * (a.x.z * b.y.x + a.y.z * b.y.y) == (a.x.y * a.z.x * b.x.x * b.z.z) * (a.x.z * b.y.x) + (a.x.y * a.z.x * b.x.x * b.z.z) * (a.y.z * b.y.y)) by (nonlinear_arith);
    assert((a.x.y * a.z.x * b.x.x * b.z.z) * (a.x.z * b.y.x) == a.x.y * a.x.z * a.z.x * b.x.x * b.y.x * b.z.z) by (nonlinear_arith);
    assert((a.x.y * a.z.x * b.x.x * b.z.z) * (a.y.z * b.y.y) == a.x.y * a.y.z * a.z.x * b.x.x * b.y.y * b.z.z) by (nonlinear_arith);
    assert((a.x.y * a.z.x * b.x.x * b.z.z) * (a.z.z * b.y.z) == a.x.y * a.z.x * a.z.z * b.x.x * b.y.z * b.z.z) by (nonlinear_arith);
    assert((a.x.y * a.z.x * b.x.z * b.z.x) * (g185 + a.z.z * b.y.z) == (a.x.y * a.z.x * b.x.z * b.z.x) * (g185) + (a.x.y * a.z.x * b.x.z * b.z.x) * (a.z.z * b.y.z)) by (nonlinear_arith);
    assert((a.x.y * a.z.x * b.x.z * b.z.x) * (a.x.z * b.y.x + a.y.z * b.y.y) == (a.x.y * a.z.x * b.x.z * b.z.x) * (a.x.z * b.y.x) + (a.x.y * a.z.x * b.x.z * b.z.x) * (a.y.z * b.y.y)) by (nonlinear_arith);
    assert((a.x.y * a.z.x * b.x.z * b.z.x) * (a.x.z * b.y.x) == a.x.y * a.x.z * a.z.x * b.x.z * b.y.x * b.z.x) by (nonlinear_arith);
    assert((a.x.y * a.z.x * b.x.z * b.z.x) * (a.y.z * b.y.y) == a.x.y * a.y.z * a.z.x * b.x.z * b.y.y * b.z.x) by (nonlinear_arith);
    assert((a.x.y * a.z.x * b.x.z * b.z.x) * (a.z.z * b.y.z) == a.x.y * a.z.x * a.z.z * b.x.z * b.y.z * b.z.x) by (nonlinear_arith);
    assert((a.y.x * a.z.y * b.x.y * b.z.z) * (g185 + a.z.z * b.y.z) == (a.y.x * a.z.y * b.x.y * b.z.z) * (g185) + (a.y.x * a.z.y * b.x.y * b.z.z) * (a.z.z * b.y.z)) by (nonlinear_arith);
    assert((a.y.x * a.z.y * b.x.y * b.z.z) * (a.x.z * b.y.x + a.y.z * b.y.y) == (a.y.x * a.z.y * b.x.y * b.z.z) * (a.x.z * b.y.x) + (a.y.x * a.z.y * b.x.y * b.z.z) * (a.y.z * b.y.y)) by (nonlinear_arith);
    assert((a.y.x * a.z.y * b.x.y * b.z.z) * (a.x.z * b.y.x) == a.x.z * a.y.x * a.z.y * b.x.y * b.y.x * b.z.z) by (nonlinear_arith);
    assert((a.y.x * a.z.y * b.x.y * b.z.z) * (a.y.z * b.y.y) == a.y.x * a.y.z * a.z.y * b.x.y * b.y.y * b.z.z) by (nonlinear_arith);
    assert((a.y.x * a.z.y * b.x.y * b.z.z) * (a.z.z * b.y.z) == a.y.x * a.z.y * a.z.z * b.x.y * b.y.z * b.z.z) by (nonlinear_arith);
    assert((a.y.x * a.z.y * b.x.z * b.z.y) * (g185 + a.z.z * b.y.z) == (a.y.x * a.z.y * b.x.z * b.z.y) * (g185) + (a.y.x * a.z.y * b.x.z * b.z.y) * (a.z.z * b.y.z)) by (nonlinear_arith);
    assert((a.y.x * a.z.y * b.x.z * b.z.y) * (a.x.z * b.y.x + a.y.z * b.y.y) == (a.y.x * a.z.y * b.x.z * b.z.y) * (a.x.z * b.y.x) + (a.y.x * a.z.y * b.x.z * b.z.y) * (a.y.z * b.y.y)) by (nonlinear_arith);
    assert((a.y.x * a.z.y * b.x.z * b.z.y) * (a.x.z * b.y.x) == a.x.z * a.y.x * a.z.y * b.x.z * b.y.x * b.z.y) by (nonlinear_arith);
    assert((a.y.x * a.z.y * b.x.z * b.z.y) * (a.y.z * b.y.y) == a.y.x * a.y.z * a.z.y * b.x.z * b.y.y * b.z.y) by (nonlinear_arith);
    assert((a.y.x * a.z.y * b.x.z * b.z.y) * (a.z.z * b.y.z) == a.y.x * a.z.y * a.z.z * b.x.z * b.y.z * b.z.y) by (nonlinear_arith);
    assert((a.y.y * a.z.x * b.x.y * b.z.z) * (g185 + a.z.z * b.y.z) == (a.y.y * a.z.x * b.x.y * b.z.z) * (g185) + (a.y.y * a.z.x * b.x.y * b.z.z) * (a.z.z * b.y.z)) by (nonlinear_arith);
    assert((a.y.y * a.z.x * b.x.y * b.z.z) * (a.x.z * b.y.x + a.y.z * b.y.y) == (a.y.y * a.z.x * b.x.y * b.z.z) * (a.x.z * b.y.x) + (a.y.y * a.z.x * b.x.y * b.z.z) * (a.y.z * b.y.y)) by (nonlinear_arith);
    assert((a.y.y * a.z.x * b.x.y * b.z.z) * (a.x.z * b.y.x) == a.x.z * a.y.y * a.z.x * b.x.y * b.y.x * b.z.z) by (nonlinear_arith);
    assert((a.y.y * a.z.x * b.x.y * b.z.z) * (a.y.z * b.y.y) == a.y.y * a.y.z * a.z.x * b.x.y * b.y.y * b.z.z) by (nonlinear_arith);
    assert((a.y.y * a.z.x * b.x.y * b.z.z) * (a.z.z * b.y.z) == a.y.y * a.z.x * a.z.z * b.x.y * b.y.z * b.z.z) by (nonlinear_arith);
    assert((a.y.y * a.z.x * b.x.z * b.z.y) * (g185 + a.z.z * b.y.z) == (a.y.y * a.z.x * b.x.z * b.z.y) * (g185) + (a.y.y * a.z.x * b.x.z * b.z.y) * (a.z.z * b.y.z)) by (nonlinear_arith);
    assert((a.y.y * a.z.x * b.x.z * b.z.y) * (a.x.z * b.y.x + a.y.z * b.y.y) == (a.y.y * a.z.x * b.x.z * b.z.y) * (a.x.z * b.y.x) + (a.y.y * a.z.x * b.x.z * b.z.y) * (a.y.z * b.y.y)) by (nonlinear_arith);
    assert((a.y.y * a.z.x * b.x.z * b.z.y) * (a.x.z * b.y.x) == a.x.z * a.y.y * a.z.x * b.x.z * b.y.x * b.z.y) by (nonlinear_arith);
    assert((a.y.y * a.z.x * b.x.z * b.z.y) * (a.y.z * b.y.y) == a.y.y * a.y.z * a.z.x * b.x.z * b.y.y * b.z.y) by (nonlinear_arith);
    assert((a.y.y * a.z.x * b.x.z * b.z.y) * (a.z.z * b.y.z) == a.y.y * a.z.x * a.z.z * b.x.z * b.y.z * b.z.y
        && (g158 + a.z.x * b.x.z) * (g21) == g158 * (g21) + (a.z.x * b.x.z) * (g21)
    ) by (nonlinear_arith);
    assert((a.x.x * b.x.x + a.y.x * b.x.y) * (g21) == a.x.x * b.x.x * (g21) + (a.y.x * b.x.y) * (g21)
        && (a.x.x * b.x.x) * (g20 + a.z.y * b.y.z) == (a.x.x * b.x.x) * (g20) + (a.x.x * b.x.x) * (a.z.y * b.y.z)
    ) by (nonlinear_arith);
    assert((a.x.x * b.x.x) * (a.x.y * b.y.x + a.y.y * b.y.y) == (a.x.x * b.x.x) * (a.x.y * b.y.x) + (a.x.x * b.x.x) * (a.y.y * b.y.y)
        && (a.x.x * b.x.x) * (a.x.y * b.y.x) == a.x.x * a.x.y * b.x.x * b.y.x
    ) by (nonlinear_arith);
    assert((a.x.x * b.x.x) * (a.y.y * b.y.y) == a.x.x * a.y.y * b.x.x * b.y.y
        && (a.x.x * b.x.x) * (a.z.y * b.y.z) == a.x.x * a.z.y * b.x.x * b.y.z
    ) by (nonlinear_arith);
    assert((a.y.x * b.x.y) * (g20 + a.z.y * b.y.z) == (a.y.x * b.x.y) * (g20) + (a.y.x * b.x.y) * (a.z.y * b.y.z)
        && (a.y.x * b.x.y) * (a.x.y * b.y.x + a.y.y * b.y.y) == (a.y.x * b.x.y) * (a.x.y * b.y.x) + (a.y.x * b.x.y) * (a.y.y * b.y.y)
    ) by (nonlinear_arith);
    assert((a.y.x * b.x.y) * (a.x.y * b.y.x) == a.x.y * a.y.x * b.x.y * b.y.x
        && (a.y.x * b.x.y) * (a.y.y * b.y.y) == a.y.x * a.y.y * b.x.y * b.y.y
        && (a.y.x * b.x.y) * (a.z.y * b.y.z) == a.y.x * a.z.y * b.x.y * b.y.z
    ) by (nonlinear_arith);
    assert((a.z.x * b.x.z) * (g20 + a.z.y * b.y.z) == (a.z.x * b.x.z) * (g20) + (a.z.x * b.x.z) * (a.z.y * b.y.z)
        && (a.z.x * b.x.z) * (a.x.y * b.y.x + a.y.y * b.y.y) == (a.z.x * b.x.z) * (a.x.y * b.y.x) + (a.z.x * b.x.z) * (a.y.y * b.y.y)
    ) by (nonlinear_arith);
    assert((a.z.x * b.x.z) * (a.x.y * b.y.x) == a.x.y * a.z.x * b.x.z * b.y.x
        && (a.z.x * b.x.z) * (a.y.y * b.y.y) == a.y.y * a.z.x * b.x.z * b.y.y
        && (a.z.x * b.x.z) * (a.z.y * b.y.z) == a.z.x * a.z.y * b.x.z * b.y.z
    ) by (nonlinear_arith);
    assert((g0 + a.z.x * b.y.z) * (g143) == g0 * (g143) + (a.z.x * b.y.z) * (g143)
        && (a.x.x * b.y.x + a.y.x * b.y.y) * (g143) == a.x.x * b.y.x * (g143) + (a.y.x * b.y.y) * (g143)
    ) by (nonlinear_arith);
    assert((a.x.x * b.y.x) * (g142 + a.z.y * b.x.z) == (a.x.x * b.y.x) * (g142) + (a.x.x * b.y.x) * (a.z.y * b.x.z)
        && (a.x.x * b.y.x) * (a.x.y * b.x.x + a.y.y * b.x.y) == (a.x.x * b.y.x) * (a.x.y * b.x.x) + (a.x.x * b.y.x) * (a.y.y * b.x.y)
    ) by (nonlinear_arith);
    assert((a.x.x * b.y.x) * (a.x.y * b.x.x) == a.x.x * a.x.y * b.x.x * b.y.x
        && (a.x.x * b.y.x) * (a.y.y * b.x.y) == a.x.x * a.y.y * b.x.y * b.y.x
        && (a.x.x * b.y.x) * (a.z.y * b.x.z) == a.x.x * a.z.y * b.x.z * b.y.x
    ) by (nonlinear_arith);
    assert((a.y.x * b.y.y) * (g142 + a.z.y * b.x.z) == (a.y.x * b.y.y) * (g142) + (a.y.x * b.y.y) * (a.z.y * b.x.z)
        && (a.y.x * b.y.y) * (a.x.y * b.x.x + a.y.y * b.x.y) == (a.y.x * b.y.y) * (a.x.y * b.x.x) + (a.y.x * b.y.y) * (a.y.y * b.x.y)
    ) by (nonlinear_arith);
    assert((a.y.x * b.y.y) * (a.x.y * b.x.x) == a.x.y * a.y.x * b.x.x * b.y.y
        && (a.y.x * b.y.y) * (a.y.y * b.x.y) == a.y.x * a.y.y * b.x.y * b.y.y
        && (a.y.x * b.y.y) * (a.z.y * b.x.z) == a.y.x * a.z.y * b.x.z * b.y.y
    ) by (nonlinear_arith);
    assert((a.z.x * b.y.z) * (g142 + a.z.y * b.x.z) == (a.z.x * b.y.z) * (g142) + (a.z.x * b.y.z) * (a.z.y * b.x.z)
        && (a.z.x * b.y.z) * (a.x.y * b.x.x + a.y.y * b.x.y) == (a.z.x * b.y.z) * (a.x.y * b.x.x) + (a.z.x * b.y.z) * (a.y.y * b.x.y)
    ) by (nonlinear_arith);
    assert((a.z.x * b.y.z) * (a.x.y * b.x.x) == a.x.y * a.z.x * b.x.x * b.y.z
        && (a.z.x * b.y.z) * (a.y.y * b.x.y) == a.y.y * a.z.x * b.x.y * b.y.z
        && (a.z.x * b.y.z) * (a.z.y * b.x.z) == a.z.x * a.z.y * b.x.z * b.y.z
    ) by (nonlinear_arith);
    assert((g364 + a.y.y * a.z.x * b.x.z * b.y.y) * (g367) == g364 * (g367) + (a.y.y * a.z.x * b.x.z * b.y.y) * (g367)
        && (g363 - a.y.y * a.z.x * b.x.y * b.y.z) * (g367) == g363 * (g367) - (a.y.y * a.z.x * b.x.y * b.y.z) * (g367)
    ) by (nonlinear_arith);
    assert((g362 - a.y.x * a.z.y * b.x.z * b.y.y) * (g367) == g362 * (g367) - (a.y.x * a.z.y * b.x.z * b.y.y) * (g367)
        && (g361 + a.y.x * a.z.y * b.x.y * b.y.z) * (g367) == g361 * (g367) + (a.y.x * a.z.y * b.x.y * b.y.z) * (g367)
    ) by (nonlinear_arith);
    assert((g360 + a.x.y * a.z.x * b.x.z * b.y.x) * (g367) == g360 * (g367) + (a.x.y * a.z.x * b.x.z * b.y.x) * (g367)
        && (g359 - a.x.y * a.z.x * b.x.x * b.y.z) * (g367) == g359 * (g367) - (a.x.y * a.z.x * b.x.x * b.y.z) * (g367)
    ) by (nonlinear_arith);
    assert((g358 + a.x.y * a.y.x * b.x.y * b.y.x) * (g367) == g358 * (g367) + (a.x.y * a.y.x * b.x.y * b.y.x) * (g367)
        && (g357 - a.x.y * a.y.x * b.x.x * b.y.y) * (g367) == g357 * (g367) - (a.x.y * a.y.x * b.x.x * b.y.y) * (g367)
    ) by (nonlinear_arith);
    assert((g356 - a.x.x * a.z.y * b.x.z * b.y.x) * (g367) == g356 * (g367) - (a.x.x * a.z.y * b.x.z * b.y.x) * (g367)
        && (g355 + a.x.x * a.z.y * b.x.x * b.y.z) * (g367) == g355 * (g367) + (a.x.x * a.z.y * b.x.x * b.y.z) * (g367)
    ) by (nonlinear_arith);
    assert((a.x.x * a.y.y * b.x.x * b.y.y - a.x.x * a.y.y * b.x.y * b.y.x) * (g367) == a.x.x * a.y.y * b.x.x * b.y.y * (g367) - (a.x.x * a.y.y * b.x.y * b.y.x) * (g367)) by (nonlinear_arith);
    assert((a.x.x * a.y.y * b.x.x * b.y.y) * (g366 + a.z.z * b.z.z) == (a.x.x * a.y.y * b.x.x * b.y.y) * (g366) + (a.x.x * a.y.y * b.x.x * b.y.y) * (a.z.z * b.z.z)) by (nonlinear_arith);
    assert((a.x.x * a.y.y * b.x.x * b.y.y) * (a.x.z * b.z.x + a.y.z * b.z.y) == (a.x.x * a.y.y * b.x.x * b.y.y) * (a.x.z * b.z.x) + (a.x.x * a.y.y * b.x.x * b.y.y) * (a.y.z * b.z.y)) by (nonlinear_arith);
    assert((a.x.x * a.y.y * b.x.x * b.y.y) * (a.x.z * b.z.x) == a.x.x * a.x.z * a.y.y * b.x.x * b.y.y * b.z.x) by (nonlinear_arith);
    assert((a.x.x * a.y.y * b.x.x * b.y.y) * (a.y.z * b.z.y) == a.x.x * a.y.y * a.y.z * b.x.x * b.y.y * b.z.y) by (nonlinear_arith);
    assert((a.x.x * a.y.y * b.x.x * b.y.y) * (a.z.z * b.z.z) == a.x.x * a.y.y * a.z.z * b.x.x * b.y.y * b.z.z) by (nonlinear_arith);
    assert((a.x.x * a.y.y * b.x.y * b.y.x) * (g366 + a.z.z * b.z.z) == (a.x.x * a.y.y * b.x.y * b.y.x) * (g366) + (a.x.x * a.y.y * b.x.y * b.y.x) * (a.z.z * b.z.z)) by (nonlinear_arith);
    assert((a.x.x * a.y.y * b.x.y * b.y.x) * (a.x.z * b.z.x + a.y.z * b.z.y) == (a.x.x * a.y.y * b.x.y * b.y.x) * (a.x.z * b.z.x) + (a.x.x * a.y.y * b.x.y * b.y.x) * (a.y.z * b.z.y)) by (nonlinear_arith);
    assert((a.x.x * a.y.y * b.x.y * b.y.x) * (a.x.z * b.z.x) == a.x.x * a.x.z * a.y.y * b.x.y * b.y.x * b.z.x) by (nonlinear_arith);
    assert((a.x.x * a.y.y * b.x.y * b.y.x) * (a.y.z * b.z.y) == a.x.x * a.y.y * a.y.z * b.x.y * b.y.x * b.z.y) by (nonlinear_arith);
    assert((a.x.x * a.y.y * b.x.y * b.y.x) * (a.z.z * b.z.z) == a.x.x * a.y.y * a.z.z * b.x.y * b.y.x * b.z.z) by (nonlinear_arith);
    assert((a.x.x * a.z.y * b.x.x * b.y.z) * (g366 + a.z.z * b.z.z) == (a.x.x * a.z.y * b.x.x * b.y.z) * (g366) + (a.x.x * a.z.y * b.x.x * b.y.z) * (a.z.z * b.z.z)) by (nonlinear_arith);
    assert((a.x.x * a.z.y * b.x.x * b.y.z) * (a.x.z * b.z.x + a.y.z * b.z.y) == (a.x.x * a.z.y * b.x.x * b.y.z) * (a.x.z * b.z.x) + (a.x.x * a.z.y * b.x.x * b.y.z) * (a.y.z * b.z.y)) by (nonlinear_arith);
    assert((a.x.x * a.z.y * b.x.x * b.y.z) * (a.x.z * b.z.x) == a.x.x * a.x.z * a.z.y * b.x.x * b.y.z * b.z.x) by (nonlinear_arith);
    assert((a.x.x * a.z.y * b.x.x * b.y.z) * (a.y.z * b.z.y) == a.x.x * a.y.z * a.z.y * b.x.x * b.y.z * b.z.y) by (nonlinear_arith);
    assert((a.x.x * a.z.y * b.x.x * b.y.z) * (a.z.z * b.z.z) == a.x.x * a.z.y * a.z.z * b.x.x * b.y.z * b.z.z) by (nonlinear_arith);
    assert((a.x.x * a.z.y * b.x.z * b.y.x) * (g366 + a.z.z * b.z.z) == (a.x.x * a.z.y * b.x.z * b.y.x) * (g366) + (a.x.x * a.z.y * b.x.z * b.y.x) * (a.z.z * b.z.z)) by (nonlinear_arith);
    assert((a.x.x * a.z.y * b.x.z * b.y.x) * (a.x.z * b.z.x + a.y.z * b.z.y) == (a.x.x * a.z.y * b.x.z * b.y.x) * (a.x.z * b.z.x) + (a.x.x * a.z.y * b.x.z * b.y.x) * (a.y.z * b.z.y)) by (nonlinear_arith);
    assert((a.x.x * a.z.y * b.x.z * b.y.x) * (a.x.z * b.z.x) == a.x.x * a.x.z * a.z.y * b.x.z * b.y.x * b.z.x) by (nonlinear_arith);
    assert((a.x.x * a.z.y * b.x.z * b.y.x) * (a.y.z * b.z.y) == a.x.x * a.y.z * a.z.y * b.x.z * b.y.x * b.z.y) by (nonlinear_arith);
    assert((a.x.x * a.z.y * b.x.z * b.y.x) * (a.z.z * b.z.z) == a.x.x * a.z.y * a.z.z * b.x.z * b.y.x * b.z.z) by (nonlinear_arith);
    assert((a.x.y * a.y.x * b.x.x * b.y.y) * (g366 + a.z.z * b.z.z) == (a.x.y * a.y.x * b.x.x * b.y.y) * (g366) + (a.x.y * a.y.x * b.x.x * b.y.y) * (a.z.z * b.z.z)) by (nonlinear_arith);
    assert((a.x.y * a.y.x * b.x.x * b.y.y) * (a.x.z * b.z.x + a.y.z * b.z.y) == (a.x.y * a.y.x * b.x.x * b.y.y) * (a.x.z * b.z.x) + (a.x.y * a.y.x * b.x.x * b.y.y) * (a.y.z * b.z.y)) by (nonlinear_arith);
    assert((a.x.y * a.y.x * b.x.x * b.y.y) * (a.x.z * b.z.x) == a.x.y * a.x.z * a.y.x * b.x.x * b.y.y * b.z.x) by (nonlinear_arith);
    assert((a.x.y * a.y.x * b.x.x * b.y.y) * (a.y.z * b.z.y) == a.x.y * a.y.x * a.y.z * b.x.x * b.y.y * b.z.y) by (nonlinear_arith);
    assert((a.x.y * a.y.x * b.x.x * b.y.y) * (a.z.z * b.z.z) == a.x.y * a.y.x * a.z.z * b.x.x * b.y.y * b.z.z) by (nonlinear_arith);
    assert((a.x.y * a.y.x * b.x.y * b.y.x) * (g366 + a.z.z * b.z.z) == (a.x.y * a.y.x * b.x.y * b.y.x) * (g366) + (a.x.y * a.y.x * b.x.y * b.y.x) * (a.z.z * b.z.z)) by (nonlinear_arith);
    assert((a.x.y * a.y.x * b.x.y * b.y.x) * (a.x.z * b.z.x + a.y.z * b.z.y) == (a.x.y * a.y.x * b.x.y * b.y.x) * (a.x.z * b.z.x) + (a.x.y * a.y.x * b.x.y * b.y.x) * (a.y.z * b.z.y)) by (nonlinear_arith);
    assert((a.x.y * a.y.x * b.x.y * b.y.x) * (a.x.z * b.z.x) == a.x.y * a.x.z * a.y.x * b.x.y * b.y.x * b.z.x) by (nonlinear_arith);
    assert((a.x.y * a.y.x * b.x.y * b.y.x) * (a.y.z * b.z.y) == a.x.y * a.y.x * a.y.z * b.x.y * b.y.x * b.z.y) by (nonlinear_arith);
    assert((a.x.y * a.y.x * b.x.y * b.y.x) * (a.z.z * b.z.z) == a.x.y * a.y.x * a.z.z * b.x.y * b.y.x * b.z.z) by (nonlinear_arith);
    assert((a.x.y * a.z.x * b.x.x * b.y.z) * (g366 + a.z.z * b.z.z) == (a.x.y * a.z.x * b.x.x * b.y.z) * (g366) + (a.x.y * a.z.x * b.x.x * b.y.z) * (a.z.z * b.z.z)) by (nonlinear_arith);
    assert((a.x.y * a.z.x * b.x.x * b.y.z) * (a.x.z * b.z.x + a.y.z * b.z.y) == (a.x.y * a.z.x * b.x.x * b.y.z) * (a.x.z * b.z.x) + (a.x.y * a.z.x * b.x.x * b.y.z) * (a.y.z * b.z.y)) by (nonlinear_arith);
    assert((a.x.y * a.z.x * b.x.x * b.y.z) * (a.x.z * b.z.x) == a.x.y * a.x.z * a.z.x * b.x.x * b.y.z * b.z.x) by (nonlinear_arith);
    assert((a.x.y * a.z.x * b.x.x * b.y.z) * (a.y.z * b.z.y) == a.x.y * a.y.z * a.z.x * b.x.x * b.y.z * b.z.y) by (nonlinear_arith);
    assert((a.x.y * a.z.x * b.x.x * b.y.z) * (a.z.z * b.z.z) == a.x.y * a.z.x * a.z.z * b.x.x * b.y.z * b.z.z) by (nonlinear_arith);
    assert((a.x.y * a.z.x * b.x.z * b.y.x) * (g366 + a.z.z * b.z.z) == (a.x.y * a.z.x * b.x.z * b.y.x) * (g366) + (a.x.y * a.z.x * b.x.z * b.y.x) * (a.z.z * b.z.z)) by (nonlinear_arith);
    assert((a.x.y * a.z.x * b.x.z * b.y.x) * (a.x.z * b.z.x + a.y.z * b.z.y) == (a.x.y * a.z.x * b.x.z * b.y.x) * (a.x.z * b.z.x) + (a.x.y * a.z.x * b.x.z * b.y.x) * (a.y.z * b.z.y)) by (nonlinear_arith);
    assert((a.x.y * a.z.x * b.x.z * b.y.x) * (a.x.z * b.z.x) == a.x.y * a.x.z * a.z.x * b.x.z * b.y.x * b.z.x) by (nonlinear_arith);
    assert((a.x.y * a.z.x * b.x.z * b.y.x) * (a.y.z * b.z.y) == a.x.y * a.y.z * a.z.x * b.x.z * b.y.x * b.z.y) by (nonlinear_arith);
    assert((a.x.y * a.z.x * b.x.z * b.y.x) * (a.z.z * b.z.z) == a.x.y * a.z.x * a.z.z * b.x.z * b.y.x * b.z.z) by (nonlinear_arith);
    assert((a.y.x * a.z.y * b.x.y * b.y.z) * (g366 + a.z.z * b.z.z) == (a.y.x * a.z.y * b.x.y * b.y.z) * (g366) + (a.y.x * a.z.y * b.x.y * b.y.z) * (a.z.z * b.z.z)) by (nonlinear_arith);
    assert((a.y.x * a.z.y * b.x.y * b.y.z) * (a.x.z * b.z.x + a.y.z * b.z.y) == (a.y.x * a.z.y * b.x.y * b.y.z) * (a.x.z * b.z.x) + (a.y.x * a.z.y * b.x.y * b.y.z) * (a.y.z * b.z.y)) by (nonlinear_arith);
    assert((a.y.x * a.z.y * b.x.y * b.y.z) * (a.x.z * b.z.x) == a.x.z * a.y.x * a.z.y * b.x.y * b.y.z * b.z.x) by (nonlinear_arith);
    assert((a.y.x * a.z.y * b.x.y * b.y.z) * (a.y.z * b.z.y) == a.y.x * a.y.z * a.z.y * b.x.y * b.y.z * b.z.y) by (nonlinear_arith);
    assert((a.y.x * a.z.y * b.x.y * b.y.z) * (a.z.z * b.z.z) == a.y.x * a.z.y * a.z.z * b.x.y * b.y.z * b.z.z) by (nonlinear_arith);
    assert((a.y.x * a.z.y * b.x.z * b.y.y) * (g366 + a.z.z * b.z.z) == (a.y.x * a.z.y * b.x.z * b.y.y) * (g366) + (a.y.x * a.z.y * b.x.z * b.y.y) * (a.z.z * b.z.z)) by (nonlinear_arith);
    assert((a.y.x * a.z.y * b.x.z * b.y.y) * (a.x.z * b.z.x + a.y.z * b.z.y) == (a.y.x * a.z.y * b.x.z * b.y.y) * (a.x.z * b.z.x) + (a.y.x * a.z.y * b.x.z * b.y.y) * (a.y.z * b.z.y)) by (nonlinear_arith);
    assert((a.y.x * a.z.y * b.x.z * b.y.y) * (a.x.z * b.z.x) == a.x.z * a.y.x * a.z.y * b.x.z * b.y.y * b.z.x) by (nonlinear_arith);
    assert((a.y.x * a.z.y * b.x.z * b.y.y) * (a.y.z * b.z.y) == a.y.x * a.y.z * a.z.y * b.x.z * b.y.y * b.z.y) by (nonlinear_arith);
    assert((a.y.x * a.z.y * b.x.z * b.y.y) * (a.z.z * b.z.z) == a.y.x * a.z.y * a.z.z * b.x.z * b.y.y * b.z.z) by (nonlinear_arith);
    assert((a.y.y * a.z.x * b.x.y * b.y.z) * (g366 + a.z.z * b.z.z) == (a.y.y * a.z.x * b.x.y * b.y.z) * (g366) + (a.y.y * a.z.x * b.x.y * b.y.z) * (a.z.z * b.z.z)) by (nonlinear_arith);
    assert((a.y.y * a.z.x * b.x.y * b.y.z) * (a.x.z * b.z.x + a.y.z * b.z.y) == (a.y.y * a.z.x * b.x.y * b.y.z) * (a.x.z * b.z.x) + (a.y.y * a.z.x * b.x.y * b.y.z) * (a.y.z * b.z.y)) by (nonlinear_arith);
    assert((a.y.y * a.z.x * b.x.y * b.y.z) * (a.x.z * b.z.x) == a.x.z * a.y.y * a.z.x * b.x.y * b.y.z * b.z.x) by (nonlinear_arith);
    assert((a.y.y * a.z.x * b.x.y * b.y.z) * (a.y.z * b.z.y) == a.y.y * a.y.z * a.z.x * b.x.y * b.y.z * b.z.y) by (nonlinear_arith);
    assert((a.y.y * a.z.x * b.x.y * b.y.z) * (a.z.z * b.z.z) == a.y.y * a.z.x * a.z.z * b.x.y * b.y.z * b.z.z) by (nonlinear_arith);
    assert((a.y.y * a.z.x * b.x.z * b.y.y) * (g366 + a.z.z * b.z.z) == (a.y.y * a.z.x * b.x.z * b.y.y) * (g366) + (a.y.y * a.z.x * b.x.z * b.y.y) * (a.z.z * b.z.z)) by (nonlinear_arith);
    assert((a.y.y * a.z.x * b.x.z * b.y.y) * (a.x.z * b.z.x + a.y.z * b.z.y) == (a.y.y * a.z.x * b.x.z * b.y.y) * (a.x.z * b.z.x) + (a.y.y * a.z.x * b.x.z * b.y.y) * (a.y.z * b.z.y)) by (nonlinear_arith);
    assert((a.y.y * a.z.x * b.x.z * b.y.y) * (a.x.z * b.z.x) == a.x.z * a.y.y * a.z.x * b.x.z * b.y.y * b.z.x) by (nonlinear_arith);
    assert((a.y.y * a.z.x * b.x.z * b.y.y) * (a.y.z * b.z.y) == a.y.y * a.y.z * a.z.x * b.x.z * b.y.y * b.z.y) by (nonlinear_arith);
    assert((a.y.y * a.z.x * b.x.z * b.y.y) * (a.z.z * b.z.z) == a.y.y * a.z.x * a.z.z * b.x.z * b.y.y * b.z.z
        && a.z.x * a.y.y == a.y.y * a.z.x
    ) by (nonlinear_arith);
    assert((a.y.x * a.z.y - a.y.y * a.z.x) * (a.x.z) == a.y.x * a.z.y * (a.x.z) - (a.y.y * a.z.x) * (a.x.z)
        && (a.y.x * a.z.y) * a.x.z == a.x.z * a.y.x * a.z.y
        && (a.y.y * a.z.x) * a.x.z == a.x.z * a.y.y * a.z.x
        && a.z.x * a.x.y == a.x.y * a.z.x
    ) by (nonlinear_arith);
    assert(((0 - a.x.x * a.z.y) + a.x.y * a.z.x) * (a.y.z) == (0 - a.x.x * a.z.y) * (a.y.z) + (a.x.y * a.z.x) * (a.y.z)
        && ((0 - a.x.x * a.z.y)) * (a.y.z) == (0 - a.x.x * a.y.z * a.z.y)
        && (a.x.y * a.z.x) * a.y.z == a.x.y * a.y.z * a.z.x
        && a.y.x * a.x.y == a.x.y * a.y.x
    ) by (nonlinear_arith);
    assert((a.x.x * a.y.y - a.x.y * a.y.x) * (a.z.z) == a.x.x * a.y.y * (a.z.z) - (a.x.y * a.y.x) * (a.z.z)
        && b.z.x * b.y.y == b.y.y * b.z.x
        && (b.y.x * b.z.y - b.y.y * b.z.x) * (b.x.z) == b.y.x * b.z.y * (b.x.z) - (b.y.y * b.z.x) * (b.x.z)
    ) by (nonlinear_arith);
    assert((b.y.x * b.z.y) * b.x.z == b.x.z * b.y.x * b.z.y
        && (b.y.y * b.z.x) * b.x.z == b.x.z * b.y.y * b.z.x
        && b.z.x * b.x.y == b.x.y * b.z.x
        && ((0 - b.x.x * b.z.y) + b.x.y * b.z.x) * (b.y.z) == (0 - b.x.x * b.z.y) * (b.y.z) + (b.x.y * b.z.x) * (b.y.z)
    ) by (nonlinear_arith);
    assert(((0 - b.x.x * b.z.y)) * (b.y.z) == (0 - b.x.x * b.y.z * b.z.y)
        && (b.x.y * b.z.x) * b.y.z == b.x.y * b.y.z * b.z.x
        && b.y.x * b.x.y == b.x.y * b.y.x
        && (b.x.x * b.y.y - b.x.y * b.y.x) * (b.z.z) == b.x.x * b.y.y * (b.z.z) - (b.x.y * b.y.x) * (b.z.z)
    ) by (nonlinear_arith);
    assert((g507 - a.x.z * a.y.y * a.z.x) * (g521) == g507 * (g521) - (a.x.z * a.y.y * a.z.x) * (g521)
        && (g506 + a.x.z * a.y.x * a.z.y) * (g521) == g506 * (g521) + (a.x.z * a.y.x * a.z.y) * (g521)
    ) by (nonlinear_arith);
    assert((g505 + a.x.y * a.y.z * a.z.x) * (g521) == g505 * (g521) + (a.x.y * a.y.z * a.z.x) * (g521)
        && (g504 - a.x.y * a.y.x * a.z.z) * (g521) == g504 * (g521) - (a.x.y * a.y.x * a.z.z) * (g521)
    ) by (nonlinear_arith);
    assert((a.x.x * a.y.y * a.z.z - a.x.x * a.y.z * a.z.y) * (g521) == a.x.x * a.y.y * a.z.z * (g521) - (a.x.x * a.y.z * a.z.y) * (g521)) by (nonlinear_arith);
    assert((a.x.x * a.y.y * a.z.z) * (g520 - b.x.z * b.y.y * b.z.x) == (a.x.x * a.y.y * a.z.z) * (g520) - (a.x.x * a.y.y * a.z.z) * (b.x.z * b.y.y * b.z.x)) by (nonlinear_arith);
    assert((a.x.x * a.y.y * a.z.z) * (g519 + b.x.z * b.y.x * b.z.y) == (a.x.x * a.y.y * a.z.z) * (g519) + (a.x.x * a.y.y * a.z.z) * (b.x.z * b.y.x * b.z.y)) by (nonlinear_arith);
    assert((a.x.x * a.y.y * a.z.z) * (g518 + b.x.y * b.y.z * b.z.x) == (a.x.x * a.y.y * a.z.z) * (g518) + (a.x.x * a.y.y * a.z.z) * (b.x.y * b.y.z * b.z.x)) by (nonlinear_arith);
    assert((a.x.x * a.y.y * a.z.z) * (g517 - b.x.y * b.y.x * b.z.z) == (a.x.x * a.y.y * a.z.z) * (g517) - (a.x.x * a.y.y * a.z.z) * (b.x.y * b.y.x * b.z.z)) by (nonlinear_arith);
    assert((a.x.x * a.y.y * a.z.z) * (b.x.x * b.y.y * b.z.z - b.x.x * b.y.z * b.z.y) == (a.x.x * a.y.y * a.z.z) * (b.x.x * b.y.y * b.z.z) - (a.x.x * a.y.y * a.z.z) * (b.x.x * b.y.z * b.z.y)) by (nonlinear_arith);
    assert((a.x.x * a.y.y * a.z.z) * (b.x.x * b.y.y * b.z.z) == a.x.x * a.y.y * a.z.z * b.x.x * b.y.y * b.z.z) by (nonlinear_arith);
    assert((a.x.x * a.y.y * a.z.z) * (b.x.x * b.y.z * b.z.y) == a.x.x * a.y.y * a.z.z * b.x.x * b.y.z * b.z.y) by (nonlinear_arith);
    assert((a.x.x * a.y.y * a.z.z) * (b.x.y * b.y.x * b.z.z) == a.x.x * a.y.y * a.z.z * b.x.y * b.y.x * b.z.z) by (nonlinear_arith);
    assert((a.x.x * a.y.y * a.z.z) * (b.x.y * b.y.z * b.z.x) == a.x.x * a.y.y * a.z.z * b.x.y * b.y.z * b.z.x) by (nonlinear_arith);
    assert((a.x.x * a.y.y * a.z.z) * (b.x.z * b.y.x * b.z.y) == a.x.x * a.y.y * a.z.z * b.x.z * b.y.x * b.z.y) by (nonlinear_arith);
    assert((a.x.x * a.y.y * a.z.z) * (b.x.z * b.y.y * b.z.x) == a.x.x * a.y.y * a.z.z * b.x.z * b.y.y * b.z.x) by (nonlinear_arith);
    assert((a.x.x * a.y.z * a.z.y) * (g520 - b.x.z * b.y.y * b.z.x) == (a.x.x * a.y.z * a.z.y) * (g520) - (a.x.x * a.y.z * a.z.y) * (b.x.z * b.y.y * b.z.x)) by (nonlinear_arith);
    assert((a.x.x * a.y.z * a.z.y) * (g519 + b.x.z * b.y.x * b.z.y) == (a.x.x * a.y.z * a.z.y) * (g519) + (a.x.x * a.y.z * a.z.y) * (b.x.z * b.y.x * b.z.y)) by (nonlinear_arith);
    assert((a.x.x * a.y.z * a.z.y) * (g518 + b.x.y * b.y.z * b.z.x) == (a.x.x * a.y.z * a.z.y) * (g518) + (a.x.x * a.y.z * a.z.y) * (b.x.y * b.y.z * b.z.x)) by (nonlinear_arith);
    assert((a.x.x * a.y.z * a.z.y) * (g517 - b.x.y * b.y.x * b.z.z) == (a.x.x * a.y.z * a.z.y) * (g517) - (a.x.x * a.y.z * a.z.y) * (b.x.y * b.y.x * b.z.z)) by (nonlinear_arith);
    assert((a.x.x * a.y.z * a.z.y) * (b.x.x * b.y.y * b.z.z - b.x.x * b.y.z * b.z.y) == (a.x.x * a.y.z * a.z.y) * (b.x.x * b.y.y * b.z.z) - (a.x.x * a.y.z * a.z.y) * (b.x.x * b.y.z * b.z.y)) by (nonlinear_arith);
    assert((a.x.x * a.y.z * a.z.y) * (b.x.x * b.y.y * b.z.z) == a.x.x * a.y.z * a.z.y * b.x.x * b.y.y * b.z.z) by (nonlinear_arith);
    assert((a.x.x * a.y.z * a.z.y) * (b.x.x * b.y.z * b.z.y) == a.x.x * a.y.z * a.z.y * b.x.x * b.y.z * b.z.y) by (nonlinear_arith);
    assert((a.x.x * a.y.z * a.z.y) * (b.x.y * b.y.x * b.z.z) == a.x.x * a.y.z * a.z.y * b.x.y * b.y.x * b.z.z) by (nonlinear_arith);
    assert((a.x.x * a.y.z * a.z.y) * (b.x.y * b.y.z * b.z.x) == a.x.x * a.y.z * a.z.y * b.x.y * b.y.z * b.z.x) by (nonlinear_arith);
    assert((a.x.x * a.y.z * a.z.y) * (b.x.z * b.y.x * b.z.y) == a.x.x * a.y.z * a.z.y * b.x.z * b.y.x * b.z.y) by (nonlinear_arith);
    assert((a.x.x * a.y.z * a.z.y) * (b.x.z * b.y.y * b.z.x) == a.x.x * a.y.z * a.z.y * b.x.z * b.y.y * b.z.x) by (nonlinear_arith);
    assert((a.x.y * a.y.x * a.z.z) * (g520 - b.x.z * b.y.y * b.z.x) == (a.x.y * a.y.x * a.z.z) * (g520) - (a.x.y * a.y.x * a.z.z) * (b.x.z * b.y.y * b.z.x)) by (nonlinear_arith);
    assert((a.x.y * a.y.x * a.z.z) * (g519 + b.x.z * b.y.x * b.z.y) == (a.x.y * a.y.x * a.z.z) * (g519) + (a.x.y * a.y.x * a.z.z) * (b.x.z * b.y.x * b.z.y)) by (nonlinear_arith);
    assert((a.x.y * a.y.x * a.z.z) * (g518 + b.x.y * b.y.z * b.z.x) == (a.x.y * a.y.x * a.z.z) * (g518) + (a.x.y * a.y.x * a.z.z) * (b.x.y * b.y.z * b.z.x)) by (nonlinear_arith);
    assert((a.x.y * a.y.x * a.z.z) * (g517 - b.x.y * b.y.x * b.z.z) == (a.x.y * a.y.x * a.z.z) * (g517) - (a.x.y * a.y.x * a.z.z) * (b.x.y * b.y.x * b.z.z)) by (nonlinear_arith);
    assert((a.x.y * a.y.x * a.z.z) * (b.x.x * b.y.y * b.z.z - b.x.x * b.y.z * b.z.y) == (a.x.y * a.y.x * a.z.z) * (b.x.x * b.y.y * b.z.z) - (a.x.y * a.y.x * a.z.z) * (b.x.x * b.y.z * b.z.y)) by (nonlinear_arith);
    assert((a.x.y * a.y.x * a.z.z) * (b.x.x * b.y.y * b.z.z) == a.x.y * a.y.x * a.z.z * b.x.x * b.y.y * b.z.z) by (nonlinear_arith);
    assert((a.x.y * a.y.x * a.z.z) * (b.x.x * b.y.z * b.z.y) == a.x.y * a.y.x * a.z.z * b.x.x * b.y.z * b.z.y) by (nonlinear_arith);
    assert((a.x.y * a.y.x * a.z.z) * (b.x.y * b.y.x * b.z.z) == a.x.y * a.y.x * a.z.z * b.x.y * b.y.x * b.z.z) by (nonlinear_arith);
    assert((a.x.y * a.y.x * a.z.z) * (b.x.y * b.y.z * b.z.x) == a.x.y * a.y.x * a.z.z * b.x.y * b.y.z * b.z.x) by (nonlinear_arith);
    assert((a.x.y * a.y.x * a.z.z) * (b.x.z * b.y.x * b.z.y) == a.x.y * a.y.x * a.z.z * b.x.z * b.y.x * b.z.y) by (nonlinear_arith);
    assert((a.x.y * a.y.x * a.z.z) * (b.x.z * b.y.y * b.z.x) == a.x.y * a.y.x * a.z.z * b.x.z * b.y.y * b.z.x) by (nonlinear_arith);
    assert((a.x.y * a.y.z * a.z.x) * (g520 - b.x.z * b.y.y * b.z.x) == (a.x.y * a.y.z * a.z.x) * (g520) - (a.x.y * a.y.z * a.z.x) * (b.x.z * b.y.y * b.z.x)) by (nonlinear_arith);
    assert((a.x.y * a.y.z * a.z.x) * (g519 + b.x.z * b.y.x * b.z.y) == (a.x.y * a.y.z * a.z.x) * (g519) + (a.x.y * a.y.z * a.z.x) * (b.x.z * b.y.x * b.z.y)) by (nonlinear_arith);
    assert((a.x.y * a.y.z * a.z.x) * (g518 + b.x.y * b.y.z * b.z.x) == (a.x.y * a.y.z * a.z.x) * (g518) + (a.x.y * a.y.z * a.z.x) * (b.x.y * b.y.z * b.z.x)) by (nonlinear_arith);
    assert((a.x.y * a.y.z * a.z.x) * (g517 - b.x.y * b.y.x * b.z.z) == (a.x.y * a.y.z * a.z.x) * (g517) - (a.x.y * a.y.z * a.z.x) * (b.x.y * b.y.x * b.z.z)) by (nonlinear_arith);
    assert((a.x.y * a.y.z * a.z.x) * (b.x.x * b.y.y * b.z.z - b.x.x * b.y.z * b.z.y) == (a.x.y * a.y.z * a.z.x) * (b.x.x * b.y.y * b.z.z) - (a.x.y * a.y.z * a.z.x) * (b.x.x * b.y.z * b.z.y)) by (nonlinear_arith);
    assert((a.x.y * a.y.z * a.z.x) * (b.x.x * b.y.y * b.z.z) == a.x.y * a.y.z * a.z.x * b.x.x * b.y.y * b.z.z) by (nonlinear_arith);
    assert((a.x.y * a.y.z * a.z.x) * (b.x.x * b.y.z * b.z.y) == a.x.y * a.y.z * a.z.x * b.x.x * b.y.z * b.z.y) by (nonlinear_arith);
    assert((a.x.y * a.y.z * a.z.x) * (b.x.y * b.y.x * b.z.z) == a.x.y * a.y.z * a.z.x * b.x.y * b.y.x * b.z.z) by (nonlinear_arith);
    assert((a.x.y * a.y.z * a.z.x) * (b.x.y * b.y.z * b.z.x) == a.x.y * a.y.z * a.z.x * b.x.y * b.y.z * b.z.x) by (nonlinear_arith);
    assert((a.x.y * a.y.z * a.z.x) * (b.x.z * b.y.x * b.z.y) == a.x.y * a.y.z * a.z.x * b.x.z * b.y.x * b.z.y) by (nonlinear_arith);
    assert((a.x.y * a.y.z * a.z.x) * (b.x.z * b.y.y * b.z.x) == a.x.y * a.y.z * a.z.x * b.x.z * b.y.y * b.z.x) by (nonlinear_arith);
    assert((a.x.z * a.y.x * a.z.y) * (g520 - b.x.z * b.y.y * b.z.x) == (a.x.z * a.y.x * a.z.y) * (g520) - (a.x.z * a.y.x * a.z.y) * (b.x.z * b.y.y * b.z.x)) by (nonlinear_arith);
    assert((a.x.z * a.y.x * a.z.y) * (g519 + b.x.z * b.y.x * b.z.y) == (a.x.z * a.y.x * a.z.y) * (g519) + (a.x.z * a.y.x * a.z.y) * (b.x.z * b.y.x * b.z.y)) by (nonlinear_arith);
    assert((a.x.z * a.y.x * a.z.y) * (g518 + b.x.y * b.y.z * b.z.x) == (a.x.z * a.y.x * a.z.y) * (g518) + (a.x.z * a.y.x * a.z.y) * (b.x.y * b.y.z * b.z.x)) by (nonlinear_arith);
    assert((a.x.z * a.y.x * a.z.y) * (g517 - b.x.y * b.y.x * b.z.z) == (a.x.z * a.y.x * a.z.y) * (g517) - (a.x.z * a.y.x * a.z.y) * (b.x.y * b.y.x * b.z.z)) by (nonlinear_arith);
    assert((a.x.z * a.y.x * a.z.y) * (b.x.x * b.y.y * b.z.z - b.x.x * b.y.z * b.z.y) == (a.x.z * a.y.x * a.z.y) * (b.x.x * b.y.y * b.z.z) - (a.x.z * a.y.x * a.z.y) * (b.x.x * b.y.z * b.z.y)) by (nonlinear_arith);
    assert((a.x.z * a.y.x * a.z.y) * (b.x.x * b.y.y * b.z.z) == a.x.z * a.y.x * a.z.y * b.x.x * b.y.y * b.z.z) by (nonlinear_arith);
    assert((a.x.z * a.y.x * a.z.y) * (b.x.x * b.y.z * b.z.y) == a.x.z * a.y.x * a.z.y * b.x.x * b.y.z * b.z.y) by (nonlinear_arith);
    assert((a.x.z * a.y.x * a.z.y) * (b.x.y * b.y.x * b.z.z) == a.x.z * a.y.x * a.z.y * b.x.y * b.y.x * b.z.z) by (nonlinear_arith);
    assert((a.x.z * a.y.x * a.z.y) * (b.x.y * b.y.z * b.z.x) == a.x.z * a.y.x * a.z.y * b.x.y * b.y.z * b.z.x) by (nonlinear_arith);
    assert((a.x.z * a.y.x * a.z.y) * (b.x.z * b.y.x * b.z.y) == a.x.z * a.y.x * a.z.y * b.x.z * b.y.x * b.z.y) by (nonlinear_arith);
    assert((a.x.z * a.y.x * a.z.y) * (b.x.z * b.y.y * b.z.x) == a.x.z * a.y.x * a.z.y * b.x.z * b.y.y * b.z.x) by (nonlinear_arith);
    assert((a.x.z * a.y.y * a.z.x) * (g520 - b.x.z * b.y.y * b.z.x) == (a.x.z * a.y.y * a.z.x) * (g520) - (a.x.z * a.y.y * a.z.x) * (b.x.z * b.y.y * b.z.x)) by (nonlinear_arith);
    assert((a.x.z * a.y.y * a.z.x) * (g519 + b.x.z * b.y.x * b.z.y) == (a.x.z * a.y.y * a.z.x) * (g519) + (a.x.z * a.y.y * a.z.x) * (b.x.z * b.y.x * b.z.y)) by (nonlinear_arith);
    assert((a.x.z * a.y.y * a.z.x) * (g518 + b.x.y * b.y.z * b.z.x) == (a.x.z * a.y.y * a.z.x) * (g518) + (a.x.z * a.y.y * a.z.x) * (b.x.y * b.y.z * b.z.x)) by (nonlinear_arith);
    assert((a.x.z * a.y.y * a.z.x) * (g517 - b.x.y * b.y.x * b.z.z) == (a.x.z * a.y.y * a.z.x) * (g517) - (a.x.z * a.y.y * a.z.x) * (b.x.y * b.y.x * b.z.z)) by (nonlinear_arith);
    assert((a.x.z * a.y.y * a.z.x) * (b.x.x * b.y.y * b.z.z - b.x.x * b.y.z * b.z.y) == (a.x.z * a.y.y * a.z.x) * (b.x.x * b.y.y * b.z.z) - (a.x.z * a.y.y * a.z.x) * (b.x.x * b.y.z * b.z.y)) by (nonlinear_arith);
    assert((a.x.z * a.y.y * a.z.x) * (b.x.x * b.y.y * b.z.z) == a.x.z * a.y.y * a.z.x * b.x.x * b.y.y * b.z.z) by (nonlinear_arith);
    assert((a.x.z * a.y.y * a.z.x) * (b.x.x * b.y.z * b.z.y) == a.x.z * a.y.y * a.z.x * b.x.x * b.y.z * b.z.y) by (nonlinear_arith);
    assert((a.x.z * a.y.y * a.z.x) * (b.x.y * b.y.x * b.z.z) == a.x.z * a.y.y * a.z.x * b.x.y * b.y.x * b.z.z) by (nonlinear_arith);
    assert((a.x.z * a.y.y * a.z.x) * (b.x.y * b.y.z * b.z.x) == a.x.z * a.y.y * a.z.x * b.x.y * b.y.z * b.z.x) by (nonlinear_arith);
    assert((a.x.z * a.y.y * a.z.x) * (b.x.z * b.y.x * b.z.y) == a.x.z * a.y.y * a.z.x * b.x.z * b.y.x * b.z.y) by (nonlinear_arith);
    assert((a.x.z * a.y.y * a.z.x) * (b.x.z * b.y.y * b.z.x) == a.x.z * a.y.y * a.z.x * b.x.z * b.y.y * b.z.x
        && (a.x.d * b.x.d) * (a.x.d * b.y.d) == a.x.d * a.x.d * b.x.d * b.y.d
    ) by (nonlinear_arith);
    assert((a.x.d * a.x.d * b.x.d * b.y.d) * (a.x.d * b.z.d) == a.x.d * a.x.d * a.x.d * b.x.d * b.y.d * b.z.d) by (nonlinear_arith);
    assert((a.x.d * a.y.d * a.z.d) * (b.x.d * b.y.d * b.z.d) == a.x.d * a.y.d * a.z.d * b.x.d * b.y.d * b.z.d) by (nonlinear_arith);
    assert((a.x.x) * (b.y.x) == a.x.x * b.y.x);
    assert((a.y.x) * (b.y.y) == a.y.x * b.y.y);
    assert((a.x.x * b.y.x) + (a.y.x * b.y.y) == g0);
    assert((a.z.x) * (b.y.z) == a.z.x * b.y.z);
    assert((g0) + (a.z.x * b.y.z) == g1);
    assert((a.x.y) * (b.z.x) == a.x.y * b.z.x);
    assert((a.y.y) * (b.z.y) == a.y.y * b.z.y);
    assert((a.x.y * b.z.x) + (a.y.y * b.z.y) == g2);
    assert((a.z.y) * (b.z.z) == a.z.y * b.z.z);
    assert((g2) + (a.z.y * b.z.z) == g3);
    assert((a.x.x * b.y.x) * (g2) == g4);
    assert((a.x.x * b.y.x) * (g3) == g5);
    assert((a.y.x * b.y.y) * (g2) == g6);
    assert((a.y.x * b.y.y) * (g3) == g7);
    assert((g0) * (g3) == g10);
    assert((a.z.x * b.y.z) * (g2) == g11);
    assert((a.z.x * b.y.z) * (g3) == g12);
    assert((g1) * (g3) == g17);
    assert((g1) * (g3) == g17);
    assert((a.x.x) * (b.z.x) == a.x.x * b.z.x);
    assert((a.y.x) * (b.z.y) == a.y.x * b.z.y);
    assert((a.x.x * b.z.x) + (a.y.x * b.z.y) == g18);
    assert((a.z.x) * (b.z.z) == a.z.x * b.z.z);
    assert((g18) + (a.z.x * b.z.z) == g19);
    assert((a.x.y) * (b.y.x) == a.x.y * b.y.x);
    assert((a.y.y) * (b.y.y) == a.y.y * b.y.y);
    assert((a.x.y * b.y.x) + (a.y.y * b.y.y) == g20);
    assert((a.z.y) * (b.y.z) == a.z.y * b.y.z);
    assert((g20) + (a.z.y * b.y.z) == g21);
    assert((a.x.x * b.z.x) * (g20) == g22);
    assert((a.x.x * b.z.x) * (g21) == g23);
    assert((a.y.x * b.z.y) * (g20) == g24);
    assert((a.y.x * b.z.y) * (g21) == g25);
    assert((g18) * (g21) == g28);
    assert((a.z.x * b.z.z) * (g20) == g29);
    assert((a.z.x * b.z.z) * (g21) == g30);
    assert((g19) * (g21) == g35);
    assert((g19) * (g21) == g35);
    assert((g17) - (g35) == g46);
    assert((a.x.z) * (b.x.x) == a.x.z * b.x.x);
    assert((a.y.z) * (b.x.y) == a.y.z * b.x.y);
    assert((a.x.z * b.x.x) + (a.y.z * b.x.y) == g47);
    assert((a.z.z) * (b.x.z) == a.z.z * b.x.z);
    assert((g47) + (a.z.z * b.x.z) == g48);
    assert((a.x.x * a.y.y * b.y.x * b.z.y) * (g47) == g49);
    assert((a.x.x * a.y.y * b.y.x * b.z.y) * (g48) == g50);
    assert((a.x.x * a.y.y * b.y.y * b.z.x) * (g47) == g51);
    assert((a.x.x * a.y.y * b.y.y * b.z.x) * (g48) == g52);
    assert((g36) * (g48) == g57);
    assert((a.x.x * a.z.y * b.y.x * b.z.z) * (g47) == g58);
    assert((a.x.x * a.z.y * b.y.x * b.z.z) * (g48) == g59);
    assert((g37) * (g48) == g66);
    assert((a.x.x * a.z.y * b.y.z * b.z.x) * (g47) == g67);
    assert((a.x.x * a.z.y * b.y.z * b.z.x) * (g48) == g68);
    assert((g38) * (g48) == g77);
    assert((a.x.y * a.y.x * b.y.x * b.z.y) * (g47) == g78);
    assert((a.x.y * a.y.x * b.y.x * b.z.y) * (g48) == g79);
    assert((g39) * (g48) == g82);
    assert((a.x.y * a.y.x * b.y.y * b.z.x) * (g47) == g83);
    assert((a.x.y * a.y.x * b.y.y * b.z.x) * (g48) == g84);
    assert((g40) * (g48) == g89);
    assert((a.x.y * a.z.x * b.y.x * b.z.z) * (g47) == g90);
    assert((a.x.y * a.z.x * b.y.x * b.z.z) * (g48) == g91);
    assert((g41) * (g48) == g98);
    assert((a.x.y * a.z.x * b.y.z * b.z.x) * (g47) == g99);
    assert((a.x.y * a.z.x * b.y.z * b.z.x) * (g48) == g100);
    assert((g42) * (g48) == g109);
    assert((a.y.x * a.z.y * b.y.y * b.z.z) * (g47) == g110);
    assert((a.y.x * a.z.y * b.y.y * b.z.z) * (g48) == g111);
    assert((g43) * (g48) == g114);
    assert((a.y.x * a.z.y * b.y.z * b.z.y) * (g47) == g115);
    assert((a.y.x * a.z.y * b.y.z * b.z.y) * (g48) == g116);
    assert((g44) * (g48) == g121);
    assert((a.y.y * a.z.x * b.y.y * b.z.z) * (g47) == g122);
    assert((a.y.y * a.z.x * b.y.y * b.z.z) * (g48) == g123);
    assert((g45) * (g48) == g130);
    assert((a.y.y * a.z.x * b.y.z * b.z.y) * (g47) == g131);
    assert((a.y.y * a.z.x * b.y.z * b.z.y) * (g48) == g132);
    assert((g46) * (g48) == g141);
    assert((g46) * (g48) == g141);
    assert((a.x.x) * (b.z.x) == a.x.x * b.z.x);
    assert((a.y.x) * (b.z.y) == a.y.x * b.z.y);
    assert((a.x.x * b.z.x) + (a.y.x * b.z.y) == g18);
    assert((a.z.x) * (b.z.z) == a.z.x * b.z.z);
    assert((g18) + (a.z.x * b.z.z) == g19);
    assert((a.x.y) * (b.x.x) == a.x.y * b.x.x);
    assert((a.y.y) * (b.x.y) == a.y.y * b.x.y);
    assert((a.x.y * b.x.x) + (a.y.y * b.x.y) == g142);
    assert((a.z.y) * (b.x.z) == a.z.y * b.x.z);
    assert((g142) + (a.z.y * b.x.z) == g143);
    assert((a.x.x * b.z.x) * (g142) == g144);
    assert((a.x.x * b.z.x) * (g143) == g145);
    assert((a.y.x * b.z.y) * (g142) == g146);
    assert((a.y.x * b.z.y) * (g143) == g147);
    assert((g18) * (g143) == g150);
    assert((a.z.x * b.z.z) * (g142) == g151);
    assert((a.z.x * b.z.z) * (g143) == g152);
    assert((g19) * (g143) == g157);
    assert((g19) * (g143) == g157);
    assert((a.x.x) * (b.x.x) == a.x.x * b.x.x);
    assert((a.y.x) * (b.x.y) == a.y.x * b.x.y);
    assert((a.x.x * b.x.x) + (a.y.x * b.x.y) == g158);
    assert((a.z.x) * (b.x.z) == a.z.x * b.x.z);
    assert((g158) + (a.z.x * b.x.z) == g159);
    assert((a.x.y) * (b.z.x) == a.x.y * b.z.x);
    assert((a.y.y) * (b.z.y) == a.y.y * b.z.y);
    assert((a.x.y * b.z.x) + (a.y.y * b.z.y) == g2);
    assert((a.z.y) * (b.z.z) == a.z.y * b.z.z);
    assert((g2) + (a.z.y * b.z.z) == g3);
    assert((a.x.x * b.x.x) * (g2) == g160);
    assert((a.x.x * b.x.x) * (g3) == g161);
    assert((a.y.x * b.x.y) * (g2) == g162);
    assert((a.y.x * b.x.y) * (g3) == g163);
    assert((g158) * (g3) == g166);
    assert((a.z.x * b.x.z) * (g2) == g167);
    assert((a.z.x * b.x.z) * (g3) == g168);
    assert((g159) * (g3) == g173);
    assert((g159) * (g3) == g173);
    assert((g157) - (g173) == g184);
    assert((a.x.z) * (b.y.x) == a.x.z * b.y.x);
    assert((a.y.z) * (b.y.y) == a.y.z * b.y.y);
    assert((a.x.z * b.y.x) + (a.y.z * b.y.y) == g185);
    assert((a.z.z) * (b.y.z) == a.z.z * b.y.z);
    assert((g185) + (a.z.z * b.y.z) == g186);
    assert(((0 - a.x.x * a.y.y * b.x.x * b.z.y)) * (g185) == g187);
    assert(((0 - a.x.x * a.y.y * b.x.x * b.z.y)) * (g186) == g188);
    assert((a.x.x * a.y.y * b.x.y * b.z.x) * (g185) == g189);
    assert((a.x.x * a.y.y * b.x.y * b.z.x) * (g186) == g190);
    assert((g174) * (g186) == g195);
    assert((a.x.x * a.z.y * b.x.x * b.z.z) * (g185) == g196);
    assert((a.x.x * a.z.y * b.x.x * b.z.z) * (g186) == g197);
    assert((g175) * (g186) == g204);
    assert((a.x.x * a.z.y * b.x.z * b.z.x) * (g185) == g205);
    assert((a.x.x * a.z.y * b.x.z * b.z.x) * (g186) == g206);
    assert((g176) * (g186) == g215);
    assert((a.x.y * a.y.x * b.x.x * b.z.y) * (g185) == g216);
    assert((a.x.y * a.y.x * b.x.x * b.z.y) * (g186) == g217);
    assert((g177) * (g186) == g220);
    assert((a.x.y * a.y.x * b.x.y * b.z.x) * (g185) == g221);
    assert((a.x.y * a.y.x * b.x.y * b.z.x) * (g186) == g222);
    assert((g178) * (g186) == g227);
    assert((a.x.y * a.z.x * b.x.x * b.z.z) * (g185) == g228);
    assert((a.x.y * a.z.x * b.x.x * b.z.z) * (g186) == g229);
    assert((g179) * (g186) == g236);
    assert((a.x.y * a.z.x * b.x.z * b.z.x) * (g185) == g237);
    assert((a.x.y * a.z.x * b.x.z * b.z.x) * (g186) == g238);
    assert((g180) * (g186) == g247);
    assert((a.y.x * a.z.y * b.x.y * b.z.z) * (g185) == g248);
    assert((a.y.x * a.z.y * b.x.y * b.z.z) * (g186) == g249);
    assert((g181) * (g186) == g252);
    assert((a.y.x * a.z.y * b.x.z * b.z.y) * (g185) == g253);
    assert((a.y.x * a.z.y * b.x.z * b.z.y) * (g186) == g254);
    assert((g182) * (g186) == g259);
    assert((a.y.y * a.z.x * b.x.y * b.z.z) * (g185) == g260);
    assert((a.y.y * a.z.x * b.x.y * b.z.z) * (g186) == g261);
    assert((g183) * (g186) == g268);
    assert((a.y.y * a.z.x * b.x.z * b.z.y) * (g185) == g269);
    assert((a.y.y * a.z.x * b.x.z * b.z.y) * (g186) == g270);
    assert((g184) * (g186) == g279);
    assert((g184) * (g186) == g279);
    assert((g141) + (g279) == g326);
    assert((a.x.x) * (b.x.x) == a.x.x * b.x.x);
    assert((a.y.x) * (b.x.y) == a.y.x * b.x.y);
    assert((a.x.x * b.x.x) + (a.y.x * b.x.y) == g158);
    assert((a.z.x) * (b.x.z) == a.z.x * b.x.z);
    assert((g158) + (a.z.x * b.x.z) == g159);
    assert((a.x.y) * (b.y.x) == a.x.y * b.y.x);
    assert((a.y.y) * (b.y.y) == a.y.y * b.y.y);
    assert((a.x.y * b.y.x) + (a.y.y * b.y.y) == g20);
    assert((a.z.y) * (b.y.z) == a.z.y * b.y.z);
    assert((g20) + (a.z.y * b.y.z) == g21);
    assert((a.x.x * b.x.x) * (g20) == g327);
    assert((a.x.x * b.x.x) * (g21) == g328);
    assert((a.y.x * b.x.y) * (g20) == g329);
    assert((a.y.x * b.x.y) * (g21) == g330);
    assert((g158) * (g21) == g333);
    assert((a.z.x * b.x.z) * (g20) == g334);
    assert((a.z.x * b.x.z) * (g21) == g335);
    assert((g159) * (g21) == g340);
    assert((g159) * (g21) == g340);
    assert((a.x.x) * (b.y.x) == a.x.x * b.y.x);
    assert((a.y.x) * (b.y.y) == a.y.x * b.y.y);
    assert((a.x.x * b.y.x) + (a.y.x * b.y.y) == g0);
    assert((a.z.x) * (b.y.z) == a.z.x * b.y.z);
    assert((g0) + (a.z.x * b.y.z) == g1);
    assert((a.x.y) * (b.x.x) == a.x.y * b.x.x);
    assert((a.y.y) * (b.x.y) == a.y.y * b.x.y);
    assert((a.x.y * b.x.x) + (a.y.y * b.x.y) == g142);
    assert((a.z.y) * (b.x.z) == a.z.y * b.x.z);
    assert((g142) + (a.z.y * b.x.z) == g143);
    assert((a.x.x * b.y.x) * (g142) == g341);
    assert((a.x.x * b.y.x) * (g143) == g342);
    assert((a.y.x * b.y.y) * (g142) == g343);
    assert((a.y.x * b.y.y) * (g143) == g344);
    assert((g0) * (g143) == g347);
    assert((a.z.x * b.y.z) * (g142) == g348);
    assert((a.z.x * b.y.z) * (g143) == g349);
    assert((g1) * (g143) == g354);
    assert((g1) * (g143) == g354);
    assert((g340) - (g354) == g365);
    assert((a.x.z) * (b.z.x) == a.x.z * b.z.x);
    assert((a.y.z) * (b.z.y) == a.y.z * b.z.y);
    assert((a.x.z * b.z.x) + (a.y.z * b.z.y) == g366);
    assert((a.z.z) * (b.z.z) == a.z.z * b.z.z);
    assert((g366) + (a.z.z * b.z.z) == g367);
    assert((a.x.x * a.y.y * b.x.x * b.y.y) * (g366) == g368);
    assert((a.x.x * a.y.y * b.x.x * b.y.y) * (g367) == g369);
    assert((a.x.x * a.y.y * b.x.y * b.y.x) * (g366) == g370);
    assert((a.x.x * a.y.y * b.x.y * b.y.x) * (g367) == g371);
    assert((g355) * (g367) == g376);
    assert((a.x.x * a.z.y * b.x.x * b.y.z) * (g366) == g377);
    assert((a.x.x * a.z.y * b.x.x * b.y.z) * (g367) == g378);
    assert((g356) * (g367) == g385);
    assert((a.x.x * a.z.y * b.x.z * b.y.x) * (g366) == g386);
    assert((a.x.x * a.z.y * b.x.z * b.y.x) * (g367) == g387);
    assert((g357) * (g367) == g396);
    assert((a.x.y * a.y.x * b.x.x * b.y.y) * (g366) == g397);
    assert((a.x.y * a.y.x * b.x.x * b.y.y) * (g367) == g398);
    assert((g358) * (g367) == g401);
    assert((a.x.y * a.y.x * b.x.y * b.y.x) * (g366) == g402);
    assert((a.x.y * a.y.x * b.x.y * b.y.x) * (g367) == g403);
    assert((g359) * (g367) == g408);
    assert((a.x.y * a.z.x * b.x.x * b.y.z) * (g366) == g409);
    assert((a.x.y * a.z.x * b.x.x * b.y.z) * (g367) == g410);
    assert((g360) * (g367) == g417);
    assert((a.x.y * a.z.x * b.x.z * b.y.x) * (g366) == g418);
    assert((a.x.y * a.z.x * b.x.z * b.y.x) * (g367) == g419);
    assert((g361) * (g367) == g428);
    assert((a.y.x * a.z.y * b.x.y * b.y.z) * (g366) == g429);
    assert((a.y.x * a.z.y * b.x.y * b.y.z) * (g367) == g430);
    assert((g362) * (g367) == g433);
    assert((a.y.x * a.z.y * b.x.z * b.y.y) * (g366) == g434);
    assert((a.y.x * a.z.y * b.x.z * b.y.y) * (g367) == g435);
    assert((g363) * (g367) == g440);
    assert((a.y.y * a.z.x * b.x.y * b.y.z) * (g366) == g441);
    assert((a.y.y * a.z.x * b.x.y * b.y.z) * (g367) == g442);
    assert((g364) * (g367) == g449);
    assert((a.y.y * a.z.x * b.x.z * b.y.y) * (g366) == g450);
    assert((a.y.y * a.z.x * b.x.z * b.y.y) * (g367) == g451);
    assert((g365) * (g367) == g460);
    assert((g365) * (g367) == g460);
    assert((g326) + (g460) == g495);
    assert((a.y.x) * (a.z.y) == a.y.x * a.z.y);
    assert((a.z.x) * (a.y.y) == a.y.y * a.z.x);
    assert((a.y.x * a.z.y) - (a.y.y * a.z.x) == g496);
    assert((g496) * (a.x.z) == g497);
    assert((g496) * (a.x.z) == g497);
    assert((a.z.x) * (a.x.y) == a.x.y * a.z.x);
    assert((a.x.x) * (a.z.y) == a.x.x * a.z.y);
    assert((a.x.y * a.z.x) - (a.x.x * a.z.y) == g498);
    assert((g498) * (a.y.z) == g499);
    assert((g498) * (a.y.z) == g499);
    assert((g497) + (g499) == g501);
    assert((a.x.x) * (a.y.y) == a.x.x * a.y.y);
    assert((a.y.x) * (a.x.y) == a.x.y * a.y.x);
    assert((a.x.x * a.y.y) - (a.x.y * a.y.x) == g502);
    assert((g502) * (a.z.z) == g503);
    assert((g502) * (a.z.z) == g503);
    assert((g501) + (g503) == g508);
    assert((b.y.x) * (b.z.y) == b.y.x * b.z.y);
    assert((b.z.x) * (b.y.y) == b.y.y * b.z.x);
    assert((b.y.x * b.z.y) - (b.y.y * b.z.x) == g509);
    assert((g509) * (b.x.z) == g510);
    assert((g509) * (b.x.z) == g510);
    assert((b.z.x) * (b.x.y) == b.x.y * b.z.x);
    assert((b.x.x) * (b.z.y) == b.x.x * b.z.y);
    assert((b.x.y * b.z.x) - (b.x.x * b.z.y) == g511);
    assert((g511) * (b.y.z) == g512);
    assert((g511) * (b.y.z) == g512);
    assert((g510) + (g512) == g514);
    assert((b.x.x) * (b.y.y) == b.x.x * b.y.y);
    assert((b.y.x) * (b.x.y) == b.x.y * b.y.x);
    assert((b.x.x * b.y.y) - (b.x.y * b.y.x) == g515);
    assert((g515) * (b.z.z) == g516);
    assert((g515) * (b.z.z) == g516);
    assert((g514) + (g516) == g521);
    assert((a.x.x * a.y.y * a.z.z) * (g517) == g461);
    assert((a.x.x * a.y.y * a.z.z) * (g518) == g462);
    assert((a.x.x * a.y.y * a.z.z) * (g519) == g463);
    assert((a.x.x * a.y.y * a.z.z) * (g520) == g464);
    assert((a.x.x * a.y.y * a.z.z) * (g521) == g465);
    assert((a.x.x * a.y.z * a.z.y) * (g517) == g522);
    assert((a.x.x * a.y.z * a.z.y) * (g518) == g523);
    assert((a.x.x * a.y.z * a.z.y) * (g519) == g524);
    assert((a.x.x * a.y.z * a.z.y) * (g520) == g525);
    assert((a.x.x * a.y.z * a.z.y) * (g521) == g526);
    assert((g504) * (g521) == g471);
    assert((a.x.y * a.y.x * a.z.z) * (g517) == g527);
    assert((a.x.y * a.y.x * a.z.z) * (g518) == g528);
    assert((a.x.y * a.y.x * a.z.z) * (g519) == g529);
    assert((a.x.y * a.y.x * a.z.z) * (g520) == g530);
    assert((a.x.y * a.y.x * a.z.z) * (g521) == g531);
    assert((g505) * (g521) == g477);
    assert((a.x.y * a.y.z * a.z.x) * (g517) == g532);
    assert((a.x.y * a.y.z * a.z.x) * (g518) == g533);
    assert((a.x.y * a.y.z * a.z.x) * (g519) == g534);
    assert((a.x.y * a.y.z * a.z.x) * (g520) == g535);
    assert((a.x.y * a.y.z * a.z.x) * (g521) == g536);
    assert((g506) * (g521) == g483);
    assert((a.x.z * a.y.x * a.z.y) * (g517) == g537);
    assert((a.x.z * a.y.x * a.z.y) * (g518) == g538);
    assert((a.x.z * a.y.x * a.z.y) * (g519) == g539);
    assert((a.x.z * a.y.x * a.z.y) * (g520) == g540);
    assert((a.x.z * a.y.x * a.z.y) * (g521) == g541);
    assert((g507) * (g521) == g489);
    assert((a.x.z * a.y.y * a.z.x) * (g517) == g542);
    assert((a.x.z * a.y.y * a.z.x) * (g518) == g543);
    assert((a.x.z * a.y.y * a.z.x) * (g519) == g544);
    assert((a.x.z * a.y.y * a.z.x) * (g520) == g545);
    assert((a.x.z * a.y.y * a.z.x) * (g521) == g546);
    assert((g508) * (g521) == g495);
    assert((g508) * (g521) == g495);
    assert((a.x.d) * (b.x.d) == a.x.d * b.x.d);
    assert((a.x.d) * (b.y.d) == a.x.d * b.y.d);
    assert((a.x.d * b.x.d) * (a.x.d * b.y.d) == a.x.d * a.x.d * b.x.d * b.y.d);
    assert((a.x.d) * (b.z.d) == a.x.d * b.z.d);
    assert((a.x.d * a.x.d * b.x.d * b.y.d) * (a.x.d * b.z.d) == a.x.d * a.x.d * a.x.d * b.x.d * b.y.d * b.z.d);
    assert((a.x.d) * (a.y.d) == a.x.d * a.y.d);
    assert((a.x.d * a.y.d) * (a.z.d) == a.x.d * a.y.d * a.z.d);
    assert((b.x.d) * (b.y.d) == b.x.d * b.y.d);
    assert((b.x.d * b.y.d) * (b.z.d) == b.x.d * b.y.d * b.z.d);
    assert((a.x.d * a.y.d * a.z.d) * (b.x.d * b.y.d * b.z.d) == a.x.d * a.y.d * a.z.d * b.x.d * b.y.d * b.z.d);
    assert(a.x.d * a.x.d * a.x.d * b.x.d * b.y.d * b.z.d == a.x.d * a.y.d * a.z.d * b.x.d * b.y.d * b.z.d) by (nonlinear_arith)
        requires
            a.x.d == a.y.d,
            a.x.d == a.z.d,
    ;
}

} // verus!
