//! 4x4 matrices of exact rational entries.
//!
//! A matrix holds its columns as vectors on one shared denominator. The
//! determinant expands along the first row of the columns into four 3x3
//! minors; the comatrix takes a signed 3x3 minor determinant for each entry,
//! and the adjugate is its transpose.

use crate::scalar::Rat;
use crate::scalar::Scalar;
use crate::scalar::in_range;
use crate::scalar::lemma_pos_mul;
use crate::scalar::mul_wide;
use crate::scalar::rat_in_range;
use crate::scalar::rat_recip;
use crate::scalar::rat_sim;
use crate::scalar::rat_from_int;
use crate::scalar::rat_wf;
use crate::matrix3::M3;
use crate::matrix3::m3_det;
use crate::matrix3::m3_det_fits;
use crate::matrix3::Matrix3;
use crate::vector::V3;
use crate::vector::V4;
use crate::vector::Vector3;
use crate::vector::Vector4;
use crate::vector::v3_dot;
use crate::vector::v3_wf;
use crate::vector::v4_add;
use crate::vector::v4_in_range;
use crate::vector::v4_scale;
use crate::vector::v4_sim;
use crate::vector::v4_sub;
use crate::vector::v4_wf;
use vstd::prelude::*;

verus! {

/// The specification-level form of a 4x4 matrix: four columns on one shared
/// denominator.
pub ghost struct M4 {
    pub x: V4,
    pub y: V4,
    pub z: V4,
    pub w: V4,
}

/// Well-formed matrix: well-formed columns that share one denominator.
pub open spec fn m4_wf(m: M4) -> bool {
    &&& v4_wf(m.x)
    &&& v4_wf(m.y)
    &&& v4_wf(m.z)
    &&& v4_wf(m.w)
    &&& m.x.d == m.y.d
    &&& m.x.d == m.z.d
    &&& m.x.d == m.w.d
}

/// All parts of `m` fit the storage range.
pub open spec fn m4_in_range(m: M4) -> bool {
    v4_in_range(m.x) && v4_in_range(m.y) && v4_in_range(m.z) && v4_in_range(m.w)
}

/// A column with every numerator and the denominator multiplied by `k`: the
/// same column value on a coarser denominator.
pub open spec fn v4_times(v: V4, k: int) -> V4 {
    V4 { x: v.x * k, y: v.y * k, z: v.z * k, w: v.w * k, d: v.d * k }
}

/// The matrix with the given columns, brought to one shared denominator
/// (kept as is when the denominators already agree).
pub open spec fn m4_new(x: V4, y: V4, z: V4, w: V4) -> M4 {
    if x.d == y.d && x.d == z.d && x.d == w.d {
        M4 { x, y, z, w }
    } else {
        M4 {
            x: v4_times(x, y.d * z.d * w.d),
            y: v4_times(y, x.d * z.d * w.d),
            z: v4_times(z, x.d * y.d * w.d),
            w: v4_times(w, x.d * y.d * z.d),
        }
    }
}

/// The identity matrix.
pub open spec fn m4_identity() -> M4 {
    M4 {
        x: V4 { x: 1, y: 0, z: 0, w: 0, d: 1 },
        y: V4 { x: 0, y: 1, z: 0, w: 0, d: 1 },
        z: V4 { x: 0, y: 0, z: 1, w: 0, d: 1 },
        w: V4 { x: 0, y: 0, z: 0, w: 1, d: 1 },
    }
}

/// Exact transpose: column `i` of the result is row `i` of `m`.
pub open spec fn m4_transpose(m: M4) -> M4 {
    M4 {
        x: V4 { x: m.x.x, y: m.y.x, z: m.z.x, w: m.w.x, d: m.x.d },
        y: V4 { x: m.x.y, y: m.y.y, z: m.z.y, w: m.w.y, d: m.y.d },
        z: V4 { x: m.x.z, y: m.y.z, z: m.z.z, w: m.w.z, d: m.z.d },
        w: V4 { x: m.x.w, y: m.y.w, z: m.z.w, w: m.w.w, d: m.w.d },
    }
}

/// Componentwise exact sum.
pub open spec fn m4_add(a: M4, b: M4) -> M4 {
    M4 { x: v4_add(a.x, b.x), y: v4_add(a.y, b.y), z: v4_add(a.z, b.z), w: v4_add(a.w, b.w) }
}

/// Componentwise exact difference.
pub open spec fn m4_sub(a: M4, b: M4) -> M4 {
    M4 { x: v4_sub(a.x, b.x), y: v4_sub(a.y, b.y), z: v4_sub(a.z, b.z), w: v4_sub(a.w, b.w) }
}

/// Every entry scaled by the scalar `s`.
pub open spec fn m4_scalar_mul(m: M4, s: Rat) -> M4 {
    M4 {
        x: v4_scale(m.x, s),
        y: v4_scale(m.y, s),
        z: v4_scale(m.z, s),
        w: v4_scale(m.w, s),
    }
}

/// Exact matrix-times-column-vector product.
pub open spec fn m4_vec_mul(m: M4, v: V4) -> V4 {
    V4 {
        x: m.x.x * v.x + m.y.x * v.y + m.z.x * v.z + m.w.x * v.w,
        y: m.x.y * v.x + m.y.y * v.y + m.z.y * v.z + m.w.y * v.w,
        z: m.x.z * v.x + m.y.z * v.y + m.z.z * v.z + m.w.z * v.w,
        w: m.x.w * v.x + m.y.w * v.y + m.z.w * v.z + m.w.w * v.w,
        d: m.x.d * v.d,
    }
}

/// Exact matrix product: column `j` of the result is `a` times column `j`
/// of `b`.
pub open spec fn m4_mul(a: M4, b: M4) -> M4 {
    M4 {
        x: m4_vec_mul(a, b.x),
        y: m4_vec_mul(a, b.y),
        z: m4_vec_mul(a, b.z),
        w: m4_vec_mul(a, b.w),
    }
}

/// The two representations denote the same matrix, columnwise.
pub open spec fn m4_sim(a: M4, b: M4) -> bool {
    v4_sim(a.x, b.x) && v4_sim(a.y, b.y) && v4_sim(a.z, b.z) && v4_sim(a.w, b.w)
}

/// The 3x3 minor of `m` that deletes column `x` and row `x`.
pub open spec fn m4_minor_x_x(m: M4) -> M3 {
    M3 {
        x: V3 { x: m.y.y, y: m.y.z, z: m.y.w, d: m.y.d },
        y: V3 { x: m.z.y, y: m.z.z, z: m.z.w, d: m.z.d },
        z: V3 { x: m.w.y, y: m.w.z, z: m.w.w, d: m.w.d },
    }
}

/// The 3x3 minor of `m` that deletes column `x` and row `y`.
pub open spec fn m4_minor_x_y(m: M4) -> M3 {
    M3 {
        x: V3 { x: m.y.x, y: m.y.z, z: m.y.w, d: m.y.d },
        y: V3 { x: m.z.x, y: m.z.z, z: m.z.w, d: m.z.d },
        z: V3 { x: m.w.x, y: m.w.z, z: m.w.w, d: m.w.d },
    }
}

/// The 3x3 minor of `m` that deletes column `x` and row `z`.
pub open spec fn m4_minor_x_z(m: M4) -> M3 {
    M3 {
        x: V3 { x: m.y.x, y: m.y.y, z: m.y.w, d: m.y.d },
        y: V3 { x: m.z.x, y: m.z.y, z: m.z.w, d: m.z.d },
        z: V3 { x: m.w.x, y: m.w.y, z: m.w.w, d: m.w.d },
    }
}

/// The 3x3 minor of `m` that deletes column `x` and row `w`.
pub open spec fn m4_minor_x_w(m: M4) -> M3 {
    M3 {
        x: V3 { x: m.y.x, y: m.y.y, z: m.y.z, d: m.y.d },
        y: V3 { x: m.z.x, y: m.z.y, z: m.z.z, d: m.z.d },
        z: V3 { x: m.w.x, y: m.w.y, z: m.w.z, d: m.w.d },
    }
}

/// The 3x3 minor of `m` that deletes column `y` and row `x`.
pub open spec fn m4_minor_y_x(m: M4) -> M3 {
    M3 {
        x: V3 { x: m.x.y, y: m.x.z, z: m.x.w, d: m.x.d },
        y: V3 { x: m.z.y, y: m.z.z, z: m.z.w, d: m.z.d },
        z: V3 { x: m.w.y, y: m.w.z, z: m.w.w, d: m.w.d },
    }
}

/// The 3x3 minor of `m` that deletes column `y` and row `y`.
pub open spec fn m4_minor_y_y(m: M4) -> M3 {
    M3 {
        x: V3 { x: m.x.x, y: m.x.z, z: m.x.w, d: m.x.d },
        y: V3 { x: m.z.x, y: m.z.z, z: m.z.w, d: m.z.d },
        z: V3 { x: m.w.x, y: m.w.z, z: m.w.w, d: m.w.d },
    }
}

/// The 3x3 minor of `m` that deletes column `y` and row `z`.
pub open spec fn m4_minor_y_z(m: M4) -> M3 {
    M3 {
        x: V3 { x: m.x.x, y: m.x.y, z: m.x.w, d: m.x.d },
        y: V3 { x: m.z.x, y: m.z.y, z: m.z.w, d: m.z.d },
        z: V3 { x: m.w.x, y: m.w.y, z: m.w.w, d: m.w.d },
    }
}

/// The 3x3 minor of `m` that deletes column `y` and row `w`.
pub open spec fn m4_minor_y_w(m: M4) -> M3 {
    M3 {
        x: V3 { x: m.x.x, y: m.x.y, z: m.x.z, d: m.x.d },
        y: V3 { x: m.z.x, y: m.z.y, z: m.z.z, d: m.z.d },
        z: V3 { x: m.w.x, y: m.w.y, z: m.w.z, d: m.w.d },
    }
}

/// The 3x3 minor of `m` that deletes column `z` and row `x`.
pub open spec fn m4_minor_z_x(m: M4) -> M3 {
    M3 {
        x: V3 { x: m.x.y, y: m.x.z, z: m.x.w, d: m.x.d },
        y: V3 { x: m.y.y, y: m.y.z, z: m.y.w, d: m.y.d },
        z: V3 { x: m.w.y, y: m.w.z, z: m.w.w, d: m.w.d },
    }
}

/// The 3x3 minor of `m` that deletes column `z` and row `y`.
pub open spec fn m4_minor_z_y(m: M4) -> M3 {
    M3 {
        x: V3 { x: m.x.x, y: m.x.z, z: m.x.w, d: m.x.d },
        y: V3 { x: m.y.x, y: m.y.z, z: m.y.w, d: m.y.d },
        z: V3 { x: m.w.x, y: m.w.z, z: m.w.w, d: m.w.d },
    }
}

/// The 3x3 minor of `m` that deletes column `z` and row `z`.
pub open spec fn m4_minor_z_z(m: M4) -> M3 {
    M3 {
        x: V3 { x: m.x.x, y: m.x.y, z: m.x.w, d: m.x.d },
        y: V3 { x: m.y.x, y: m.y.y, z: m.y.w, d: m.y.d },
        z: V3 { x: m.w.x, y: m.w.y, z: m.w.w, d: m.w.d },
    }
}

/// The 3x3 minor of `m` that deletes column `z` and row `w`.
pub open spec fn m4_minor_z_w(m: M4) -> M3 {
    M3 {
        x: V3 { x: m.x.x, y: m.x.y, z: m.x.z, d: m.x.d },
        y: V3 { x: m.y.x, y: m.y.y, z: m.y.z, d: m.y.d },
        z: V3 { x: m.w.x, y: m.w.y, z: m.w.z, d: m.w.d },
    }
}

/// The 3x3 minor of `m` that deletes column `w` and row `x`.
pub open spec fn m4_minor_w_x(m: M4) -> M3 {
    M3 {
        x: V3 { x: m.x.y, y: m.x.z, z: m.x.w, d: m.x.d },
        y: V3 { x: m.y.y, y: m.y.z, z: m.y.w, d: m.y.d },
        z: V3 { x: m.z.y, y: m.z.z, z: m.z.w, d: m.z.d },
    }
}

/// The 3x3 minor of `m` that deletes column `w` and row `y`.
pub open spec fn m4_minor_w_y(m: M4) -> M3 {
    M3 {
        x: V3 { x: m.x.x, y: m.x.z, z: m.x.w, d: m.x.d },
        y: V3 { x: m.y.x, y: m.y.z, z: m.y.w, d: m.y.d },
        z: V3 { x: m.z.x, y: m.z.z, z: m.z.w, d: m.z.d },
    }
}

/// The 3x3 minor of `m` that deletes column `w` and row `z`.
pub open spec fn m4_minor_w_z(m: M4) -> M3 {
    M3 {
        x: V3 { x: m.x.x, y: m.x.y, z: m.x.w, d: m.x.d },
        y: V3 { x: m.y.x, y: m.y.y, z: m.y.w, d: m.y.d },
        z: V3 { x: m.z.x, y: m.z.y, z: m.z.w, d: m.z.d },
    }
}

/// The 3x3 minor of `m` that deletes column `w` and row `w`.
pub open spec fn m4_minor_w_w(m: M4) -> M3 {
    M3 {
        x: V3 { x: m.x.x, y: m.x.y, z: m.x.z, d: m.x.d },
        y: V3 { x: m.y.x, y: m.y.y, z: m.y.z, d: m.y.d },
        z: V3 { x: m.z.x, y: m.z.y, z: m.z.z, d: m.z.d },
    }
}

/// Exact determinant: Laplace expansion along the first row of the columns,
/// with alternating signs on the four 3x3 minor determinants.
pub open spec fn m4_det(m: M4) -> Rat {
    Rat {
        n: m.x.x * m3_det(m4_minor_x_x(m)).n - m.y.x * m3_det(m4_minor_y_x(m)).n + m.z.x
            * m3_det(m4_minor_z_x(m)).n - m.w.x * m3_det(m4_minor_w_x(m)).n,
        d: m.x.d * m3_det(m4_minor_x_x(m)).d,
    }
}

/// Everything the determinant computes on its way stays within the storage
/// range.
pub open spec fn m4_det_fits(m: M4) -> bool {
    &&& m3_det_fits(m4_minor_x_x(m))
    &&& m3_det_fits(m4_minor_y_x(m))
    &&& m3_det_fits(m4_minor_z_x(m))
    &&& m3_det_fits(m4_minor_w_x(m))
    &&& rat_in_range(m4_det(m))
}

/// The exact cofactor matrix: each entry a signed 3x3 minor determinant,
/// with the checkerboard sign pattern.
pub open spec fn m4_comatrix(m: M4) -> M4 {
    M4 {
        x: V4 {
            x: m3_det(m4_minor_x_x(m)).n,
            y: -m3_det(m4_minor_x_y(m)).n,
            z: m3_det(m4_minor_x_z(m)).n,
            w: -m3_det(m4_minor_x_w(m)).n,
            d: m3_det(m4_minor_x_x(m)).d,
        },
        y: V4 {
            x: -m3_det(m4_minor_y_x(m)).n,
            y: m3_det(m4_minor_y_y(m)).n,
            z: -m3_det(m4_minor_y_z(m)).n,
            w: m3_det(m4_minor_y_w(m)).n,
            d: m3_det(m4_minor_y_x(m)).d,
        },
        z: V4 {
            x: m3_det(m4_minor_z_x(m)).n,
            y: -m3_det(m4_minor_z_y(m)).n,
            z: m3_det(m4_minor_z_z(m)).n,
            w: -m3_det(m4_minor_z_w(m)).n,
            d: m3_det(m4_minor_z_x(m)).d,
        },
        w: V4 {
            x: -m3_det(m4_minor_w_x(m)).n,
            y: m3_det(m4_minor_w_y(m)).n,
            z: -m3_det(m4_minor_w_z(m)).n,
            w: m3_det(m4_minor_w_w(m)).n,
            d: m3_det(m4_minor_w_x(m)).d,
        },
    }
}

/// Everything the comatrix computes on its way stays within the storage
/// range.
pub open spec fn m4_comatrix_fits(m: M4) -> bool {
    &&& m3_det_fits(m4_minor_x_x(m))
    &&& m3_det_fits(m4_minor_x_y(m))
    &&& m3_det_fits(m4_minor_x_z(m))
    &&& m3_det_fits(m4_minor_x_w(m))
    &&& m3_det_fits(m4_minor_y_x(m))
    &&& m3_det_fits(m4_minor_y_y(m))
    &&& m3_det_fits(m4_minor_y_z(m))
    &&& m3_det_fits(m4_minor_y_w(m))
    &&& m3_det_fits(m4_minor_z_x(m))
    &&& m3_det_fits(m4_minor_z_y(m))
    &&& m3_det_fits(m4_minor_z_z(m))
    &&& m3_det_fits(m4_minor_z_w(m))
    &&& m3_det_fits(m4_minor_w_x(m))
    &&& m3_det_fits(m4_minor_w_y(m))
    &&& m3_det_fits(m4_minor_w_z(m))
    &&& m3_det_fits(m4_minor_w_w(m))
}

/// Exact adjugate: the transpose of the cofactor matrix.
pub open spec fn m4_adjugate(m: M4) -> M4 {
    m4_transpose(m4_comatrix(m))
}

/// Exact inverse: the adjugate scaled by the reciprocal determinant, absent
/// exactly when the determinant is zero.
pub open spec fn m4_inverse(m: M4) -> Option<M4> {
    if m4_det(m).n == 0 {
        None
    } else {
        Some(m4_scalar_mul(m4_adjugate(m), rat_recip(m4_det(m))))
    }
}

/// The 3D translation by `v` in homogeneous coordinates: the identity with
/// `v` in the last column.
pub open spec fn m4_translate(v: V3) -> M4 {
    M4 {
        x: V4 { x: v.d, y: 0, z: 0, w: 0, d: v.d },
        y: V4 { x: 0, y: v.d, z: 0, w: 0, d: v.d },
        z: V4 { x: 0, y: 0, z: v.d, w: 0, d: v.d },
        w: V4 { x: v.x, y: v.y, z: v.z, w: v.d, d: v.d },
    }
}

/// The 3D scaling by the components of `v`, in homogeneous coordinates.
pub open spec fn m4_scale(v: V3) -> M4 {
    M4 {
        x: V4 { x: v.x, y: 0, z: 0, w: 0, d: v.d },
        y: V4 { x: 0, y: v.y, z: 0, w: 0, d: v.d },
        z: V4 { x: 0, y: 0, z: v.z, w: 0, d: v.d },
        w: V4 { x: 0, y: 0, z: 0, w: v.d, d: v.d },
    }
}

/// The 3D rotation about the unit axis `a` whose sine and cosine are `s`
/// and `c`, in homogeneous coordinates: the Rodrigues closed form, with every
/// entry over the denominator `a.d * a.d * c.d * s.d`.
pub open spec fn m4_rotate(s: Rat, c: Rat, a: V3) -> M4 {
    M4 {
        x: V4 {
            x: (c.n * a.d * a.d + a.x * a.x * (c.d - c.n)) * s.d,
            y: a.x * (c.d - c.n) * a.y * s.d + s.n * a.z * (a.d * c.d),
            z: a.x * (c.d - c.n) * a.z * s.d - s.n * a.y * (a.d * c.d),
            w: 0,
            d: a.d * a.d * c.d * s.d,
        },
        y: V4 {
            x: a.y * (c.d - c.n) * a.x * s.d - s.n * a.z * (a.d * c.d),
            y: (c.n * a.d * a.d + a.y * a.y * (c.d - c.n)) * s.d,
            z: a.y * (c.d - c.n) * a.z * s.d + s.n * a.x * (a.d * c.d),
            w: 0,
            d: a.d * a.d * c.d * s.d,
        },
        z: V4 {
            x: a.z * (c.d - c.n) * a.x * s.d + s.n * a.y * (a.d * c.d),
            y: a.z * (c.d - c.n) * a.y * s.d - s.n * a.x * (a.d * c.d),
            z: (c.n * a.d * a.d + a.z * a.z * (c.d - c.n)) * s.d,
            w: 0,
            d: a.d * a.d * c.d * s.d,
        },
        w: V4 { x: 0, y: 0, z: 0, w: a.d * a.d * c.d * s.d, d: a.d * a.d * c.d * s.d },
    }
}

/// Everything the rotation construction computes on its way stays within the
/// storage range.
pub open spec fn m4_rotate_fits(s: Rat, c: Rat, a: V3) -> bool {
    &&& in_range(c.d - c.n)
    &&& in_range(a.x * (c.d - c.n))
    &&& in_range(a.y * (c.d - c.n))
    &&& in_range(a.z * (c.d - c.n))
    &&& in_range(a.x * (c.d - c.n) * a.y)
    &&& in_range(a.x * (c.d - c.n) * a.z)
    &&& in_range(a.y * (c.d - c.n) * a.x)
    &&& in_range(a.y * (c.d - c.n) * a.z)
    &&& in_range(a.z * (c.d - c.n) * a.x)
    &&& in_range(a.z * (c.d - c.n) * a.y)
    &&& in_range(s.n * a.x)
    &&& in_range(s.n * a.y)
    &&& in_range(s.n * a.z)
    &&& in_range(a.d * c.d)
    &&& in_range(a.x * a.x)
    &&& in_range(a.y * a.y)
    &&& in_range(a.z * a.z)
    &&& in_range(c.n * a.d)
    &&& in_range(c.n * a.d * a.d + a.x * a.x * (c.d - c.n))
    &&& in_range(c.n * a.d * a.d + a.y * a.y * (c.d - c.n))
    &&& in_range(c.n * a.d * a.d + a.z * a.z * (c.d - c.n))
    &&& in_range(a.d * a.d)
    &&& in_range(a.d * a.d * c.d)
    &&& m4_in_range(m4_rotate(s, c, a))
}

/// A 4x4 matrix of exact rational entries; the fields are the columns.
#[derive(Clone, Copy, Debug)]
pub struct Matrix4 {
    pub x: Vector4,
    pub y: Vector4,
    pub z: Vector4,
    pub w: Vector4,
}

impl View for Matrix4 {
    type V = M4;

    open spec fn view(&self) -> M4 {
        M4 { x: self.x@, y: self.y@, z: self.z@, w: self.w@ }
    }
}

impl PartialEq for Matrix4 {
    fn eq(&self, other: &Matrix4) -> (r: bool) {
        self.x == other.x && self.y == other.y && self.z == other.z && self.w == other.w
    }
}

impl vstd::std_specs::cmp::PartialEqSpecImpl for Matrix4 {
    open spec fn obeys_eq_spec() -> bool {
        true
    }

    open spec fn eq_spec(&self, other: &Matrix4) -> bool {
        m4_sim(self@, other@)
    }
}

/// The column `v` with numerators and denominator multiplied by `k`.
pub(crate) fn col4_times(v: &Vector4, k: i64) -> (r: Vector4)
    requires
        v4_wf(v@),
        1 <= k,
        v4_in_range(v4_times(v@, k as int)),
    ensures
        r@ == v4_times(v@, k as int),
        v4_wf(r@),
{
    proof {
        lemma_pos_mul(v@.d, k as int);
        assert(in_range(k as int)) by (nonlinear_arith)
            requires
                1 <= v@.d,
                in_range(v@.d * (k as int)),
        ;
    }
    Vector4 {
        x: mul_wide(v.x, k) as i64,
        y: mul_wide(v.y, k) as i64,
        z: mul_wide(v.z, k) as i64,
        w: mul_wide(v.w, k) as i64,
        d: mul_wide(v.d, k) as i64,
    }
}

impl Matrix4 {
    /// The matrix with the given columns.
    pub fn new(x: Vector4, y: Vector4, z: Vector4, w: Vector4) -> (r: Matrix4)
        requires
            v4_wf(x@),
            v4_wf(y@),
            v4_wf(z@),
            v4_wf(w@),
            m4_in_range(m4_new(x@, y@, z@, w@)),
        ensures
            r@ == m4_new(x@, y@, z@, w@),
            m4_wf(r@),
    {
        if x.d == y.d && x.d == z.d && x.d == w.d {
            Matrix4 { x, y, z, w }
        } else {
            proof {
                assert(in_range(y@.d * z@.d) && in_range(y@.d * z@.d * w@.d) && in_range(
                    x@.d * z@.d,
                ) && in_range(x@.d * z@.d * w@.d) && in_range(x@.d * y@.d) && in_range(
                    x@.d * y@.d * w@.d,
                ) && in_range(x@.d * y@.d * z@.d)) by (nonlinear_arith)
                    requires
                        1 <= x@.d,
                        1 <= y@.d,
                        1 <= z@.d,
                        1 <= w@.d,
                        in_range(x@.d * (y@.d * z@.d * w@.d)),
                        in_range(y@.d * (x@.d * z@.d * w@.d)),
                        in_range(z@.d * (x@.d * y@.d * w@.d)),
                        in_range(w@.d * (x@.d * y@.d * z@.d)),
                ;
                lemma_pos_mul(y@.d, z@.d);
                lemma_pos_mul(y@.d * z@.d, w@.d);
                lemma_pos_mul(x@.d, z@.d);
                lemma_pos_mul(x@.d * z@.d, w@.d);
                lemma_pos_mul(x@.d, y@.d);
                lemma_pos_mul(x@.d * y@.d, w@.d);
                lemma_pos_mul(x@.d * y@.d, z@.d);
            }
            let ky = mul_wide(y.d, z.d) as i64;
            let kx2 = mul_wide(x.d, z.d) as i64;
            let kx3 = mul_wide(x.d, y.d) as i64;
            let r = Matrix4 {
                x: col4_times(&x, mul_wide(ky, w.d) as i64),
                y: col4_times(&y, mul_wide(kx2, w.d) as i64),
                z: col4_times(&z, mul_wide(kx3, w.d) as i64),
                w: col4_times(&w, mul_wide(kx3, z.d) as i64),
            };
            proof {
                assert(x@.d * (y@.d * z@.d * w@.d) == y@.d * (x@.d * z@.d * w@.d) && x@.d
                    * (y@.d * z@.d * w@.d) == z@.d * (x@.d * y@.d * w@.d) && x@.d * (y@.d
                    * z@.d * w@.d) == w@.d * (x@.d * y@.d * z@.d)) by (nonlinear_arith);
            }
            r
        }
    }

    /// The identity matrix.
    pub fn identity() -> (r: Matrix4)
        ensures
            r@ == m4_identity(),
            m4_wf(r@),
    {
        Matrix4 {
            x: Vector4 { x: 1, y: 0, z: 0, w: 0, d: 1 },
            y: Vector4 { x: 0, y: 1, z: 0, w: 0, d: 1 },
            z: Vector4 { x: 0, y: 0, z: 1, w: 0, d: 1 },
            w: Vector4 { x: 0, y: 0, z: 0, w: 1, d: 1 },
        }
    }

    /// The transpose: column `i` of the result is row `i` of `m`.
    pub fn transpose(m: &Matrix4) -> (r: Matrix4)
        requires
            m4_wf(m@),
        ensures
            r@ == m4_transpose(m@),
            m4_wf(r@),
    {
        Matrix4 {
            x: Vector4 { x: m.x.x, y: m.y.x, z: m.z.x, w: m.w.x, d: m.x.d },
            y: Vector4 { x: m.x.y, y: m.y.y, z: m.z.y, w: m.w.y, d: m.y.d },
            z: Vector4 { x: m.x.z, y: m.y.z, z: m.z.z, w: m.w.z, d: m.z.d },
            w: Vector4 { x: m.x.w, y: m.y.w, z: m.z.w, w: m.w.w, d: m.w.d },
        }
    }


    /// Componentwise exact sum.
    pub fn add_matrix_and_matrix(a: &Matrix4, b: &Matrix4) -> (r: Matrix4)
        requires
            m4_wf(a@),
            m4_wf(b@),
            m4_in_range(m4_add(a@, b@)),
        ensures
            r@ == m4_add(a@, b@),
            m4_wf(r@),
    {
        Matrix4 {
            x: Vector4::add_vector_and_vector(&a.x, &b.x),
            y: Vector4::add_vector_and_vector(&a.y, &b.y),
            z: Vector4::add_vector_and_vector(&a.z, &b.z),
            w: Vector4::add_vector_and_vector(&a.w, &b.w),
        }
    }

    /// Componentwise exact difference.
    pub fn sub_matrix_and_matrix(a: &Matrix4, b: &Matrix4) -> (r: Matrix4)
        requires
            m4_wf(a@),
            m4_wf(b@),
            m4_in_range(m4_sub(a@, b@)),
        ensures
            r@ == m4_sub(a@, b@),
            m4_wf(r@),
    {
        Matrix4 {
            x: Vector4::sub_vector_and_vector(&a.x, &b.x),
            y: Vector4::sub_vector_and_vector(&a.y, &b.y),
            z: Vector4::sub_vector_and_vector(&a.z, &b.z),
            w: Vector4::sub_vector_and_vector(&a.w, &b.w),
        }
    }

    /// Every entry scaled by the scalar `b`.
    pub fn mul_matrix_and_scalar(a: &Matrix4, b: &Scalar) -> (r: Matrix4)
        requires
            m4_wf(a@),
            rat_wf(b@),
            m4_in_range(m4_scalar_mul(a@, b@)),
        ensures
            r@ == m4_scalar_mul(a@, b@),
            m4_wf(r@),
    {
        Matrix4 {
            x: Vector4::mul_vector_and_scalar(&a.x, b),
            y: Vector4::mul_vector_and_scalar(&a.y, b),
            z: Vector4::mul_vector_and_scalar(&a.z, b),
            w: Vector4::mul_vector_and_scalar(&a.w, b),
        }
    }

    /// The matrix applied to a column vector, by dotting the rows of `a`
    /// (the columns of its transpose) with `b`.
    pub fn mul_matrix_and_vector(a: &Matrix4, b: &Vector4) -> (r: Vector4)
        requires
            m4_wf(a@),
            v4_wf(b@),
            v4_in_range(m4_vec_mul(a@, b@)),
        ensures
            r@ == m4_vec_mul(a@, b@),
            v4_wf(r@),
    {
        let t = Matrix4::transpose(a);
        let sx = Vector4::dot(&t.x, b);
        let sy = Vector4::dot(&t.y, b);
        let sz = Vector4::dot(&t.z, b);
        let sw = Vector4::dot(&t.w, b);
        Vector4 { x: sx.n, y: sy.n, z: sz.n, w: sw.n, d: sx.d }
    }

    /// The matrix product, column by column of `b`.
    pub fn mul_matrix_and_matrix(a: &Matrix4, b: &Matrix4) -> (r: Matrix4)
        requires
            m4_wf(a@),
            m4_wf(b@),
            m4_in_range(m4_mul(a@, b@)),
        ensures
            r@ == m4_mul(a@, b@),
            m4_wf(r@),
    {
        Matrix4 {
            x: Matrix4::mul_matrix_and_vector(a, &b.x),
            y: Matrix4::mul_matrix_and_vector(a, &b.y),
            z: Matrix4::mul_matrix_and_vector(a, &b.z),
            w: Matrix4::mul_matrix_and_vector(a, &b.w),
        }
    }


    /// Exact determinant: Laplace expansion along the first row of the
    /// columns into four 3x3 minor determinants with alternating signs.
    pub fn determinant(m: &Matrix4) -> (r: Scalar)
        requires
            m4_wf(m@),
            m4_det_fits(m@),
        ensures
            r@ == m4_det(m@),
            rat_wf(r@),
    {
        let ma = Matrix3 { x: Vector3 { x: m.y.y, y: m.y.z, z: m.y.w, d: m.y.d }, y: Vector3 { x: m.z.y, y: m.z.z, z: m.z.w, d: m.z.d }, z: Vector3 { x: m.w.y, y: m.w.z, z: m.w.w, d: m.w.d } };
        let mb = Matrix3 { x: Vector3 { x: m.x.y, y: m.x.z, z: m.x.w, d: m.x.d }, y: Vector3 { x: m.z.y, y: m.z.z, z: m.z.w, d: m.z.d }, z: Vector3 { x: m.w.y, y: m.w.z, z: m.w.w, d: m.w.d } };
        let mc = Matrix3 { x: Vector3 { x: m.x.y, y: m.x.z, z: m.x.w, d: m.x.d }, y: Vector3 { x: m.y.y, y: m.y.z, z: m.y.w, d: m.y.d }, z: Vector3 { x: m.w.y, y: m.w.z, z: m.w.w, d: m.w.d } };
        let md = Matrix3 { x: Vector3 { x: m.x.y, y: m.x.z, z: m.x.w, d: m.x.d }, y: Vector3 { x: m.y.y, y: m.y.z, z: m.y.w, d: m.y.d }, z: Vector3 { x: m.z.y, y: m.z.z, z: m.z.w, d: m.z.d } };
        let da = Matrix3::determinant(&ma);
        let db = Matrix3::determinant(&mb);
        let dc = Matrix3::determinant(&mc);
        let dd = Matrix3::determinant(&md);
        proof {
            lemma_pos_mul(m@.x.d, da@.d);
        }
        Scalar {
            n: (mul_wide(m.x.x, da.n) - mul_wide(m.y.x, db.n) + mul_wide(m.z.x, dc.n)
                - mul_wide(m.w.x, dd.n)) as i64,
            d: mul_wide(m.x.d, da.d) as i64,
        }
    }


    /// The cofactor matrix: for each entry, the determinant of the 3x3 minor
    /// that deletes the entry's row and column, under the checkerboard sign
    /// pattern.
    pub fn comatrix(m: &Matrix4) -> (r: Matrix4)
        requires
            m4_wf(m@),
            m4_comatrix_fits(m@),
        ensures
            r@ == m4_comatrix(m@),
            m4_wf(r@),
    {
        let m_x_x = Matrix3 { x: Vector3 { x: m.y.y, y: m.y.z, z: m.y.w, d: m.y.d }, y: Vector3 { x: m.z.y, y: m.z.z, z: m.z.w, d: m.z.d }, z: Vector3 { x: m.w.y, y: m.w.z, z: m.w.w, d: m.w.d } };
        let m_x_y = Matrix3 { x: Vector3 { x: m.y.x, y: m.y.z, z: m.y.w, d: m.y.d }, y: Vector3 { x: m.z.x, y: m.z.z, z: m.z.w, d: m.z.d }, z: Vector3 { x: m.w.x, y: m.w.z, z: m.w.w, d: m.w.d } };
        let m_x_z = Matrix3 { x: Vector3 { x: m.y.x, y: m.y.y, z: m.y.w, d: m.y.d }, y: Vector3 { x: m.z.x, y: m.z.y, z: m.z.w, d: m.z.d }, z: Vector3 { x: m.w.x, y: m.w.y, z: m.w.w, d: m.w.d } };
        let m_x_w = Matrix3 { x: Vector3 { x: m.y.x, y: m.y.y, z: m.y.z, d: m.y.d }, y: Vector3 { x: m.z.x, y: m.z.y, z: m.z.z, d: m.z.d }, z: Vector3 { x: m.w.x, y: m.w.y, z: m.w.z, d: m.w.d } };
        let m_y_x = Matrix3 { x: Vector3 { x: m.x.y, y: m.x.z, z: m.x.w, d: m.x.d }, y: Vector3 { x: m.z.y, y: m.z.z, z: m.z.w, d: m.z.d }, z: Vector3 { x: m.w.y, y: m.w.z, z: m.w.w, d: m.w.d } };
        let m_y_y = Matrix3 { x: Vector3 { x: m.x.x, y: m.x.z, z: m.x.w, d: m.x.d }, y: Vector3 { x: m.z.x, y: m.z.z, z: m.z.w, d: m.z.d }, z: Vector3 { x: m.w.x, y: m.w.z, z: m.w.w, d: m.w.d } };
        let m_y_z = Matrix3 { x: Vector3 { x: m.x.x, y: m.x.y, z: m.x.w, d: m.x.d }, y: Vector3 { x: m.z.x, y: m.z.y, z: m.z.w, d: m.z.d }, z: Vector3 { x: m.w.x, y: m.w.y, z: m.w.w, d: m.w.d } };
        let m_y_w = Matrix3 { x: Vector3 { x: m.x.x, y: m.x.y, z: m.x.z, d: m.x.d }, y: Vector3 { x: m.z.x, y: m.z.y, z: m.z.z, d: m.z.d }, z: Vector3 { x: m.w.x, y: m.w.y, z: m.w.z, d: m.w.d } };
        let m_z_x = Matrix3 { x: Vector3 { x: m.x.y, y: m.x.z, z: m.x.w, d: m.x.d }, y: Vector3 { x: m.y.y, y: m.y.z, z: m.y.w, d: m.y.d }, z: Vector3 { x: m.w.y, y: m.w.z, z: m.w.w, d: m.w.d } };
        let m_z_y = Matrix3 { x: Vector3 { x: m.x.x, y: m.x.z, z: m.x.w, d: m.x.d }, y: Vector3 { x: m.y.x, y: m.y.z, z: m.y.w, d: m.y.d }, z: Vector3 { x: m.w.x, y: m.w.z, z: m.w.w, d: m.w.d } };
        let m_z_z = Matrix3 { x: Vector3 { x: m.x.x, y: m.x.y, z: m.x.w, d: m.x.d }, y: Vector3 { x: m.y.x, y: m.y.y, z: m.y.w, d: m.y.d }, z: Vector3 { x: m.w.x, y: m.w.y, z: m.w.w, d: m.w.d } };
        let m_z_w = Matrix3 { x: Vector3 { x: m.x.x, y: m.x.y, z: m.x.z, d: m.x.d }, y: Vector3 { x: m.y.x, y: m.y.y, z: m.y.z, d: m.y.d }, z: Vector3 { x: m.w.x, y: m.w.y, z: m.w.z, d: m.w.d } };
        let m_w_x = Matrix3 { x: Vector3 { x: m.x.y, y: m.x.z, z: m.x.w, d: m.x.d }, y: Vector3 { x: m.y.y, y: m.y.z, z: m.y.w, d: m.y.d }, z: Vector3 { x: m.z.y, y: m.z.z, z: m.z.w, d: m.z.d } };
        let m_w_y = Matrix3 { x: Vector3 { x: m.x.x, y: m.x.z, z: m.x.w, d: m.x.d }, y: Vector3 { x: m.y.x, y: m.y.z, z: m.y.w, d: m.y.d }, z: Vector3 { x: m.z.x, y: m.z.z, z: m.z.w, d: m.z.d } };
        let m_w_z = Matrix3 { x: Vector3 { x: m.x.x, y: m.x.y, z: m.x.w, d: m.x.d }, y: Vector3 { x: m.y.x, y: m.y.y, z: m.y.w, d: m.y.d }, z: Vector3 { x: m.z.x, y: m.z.y, z: m.z.w, d: m.z.d } };
        let m_w_w = Matrix3 { x: Vector3 { x: m.x.x, y: m.x.y, z: m.x.z, d: m.x.d }, y: Vector3 { x: m.y.x, y: m.y.y, z: m.y.z, d: m.y.d }, z: Vector3 { x: m.z.x, y: m.z.y, z: m.z.z, d: m.z.d } };
        let d_x_x = Matrix3::determinant(&m_x_x);
        let d_x_y = Matrix3::determinant(&m_x_y);
        let d_x_z = Matrix3::determinant(&m_x_z);
        let d_x_w = Matrix3::determinant(&m_x_w);
        let d_y_x = Matrix3::determinant(&m_y_x);
        let d_y_y = Matrix3::determinant(&m_y_y);
        let d_y_z = Matrix3::determinant(&m_y_z);
        let d_y_w = Matrix3::determinant(&m_y_w);
        let d_z_x = Matrix3::determinant(&m_z_x);
        let d_z_y = Matrix3::determinant(&m_z_y);
        let d_z_z = Matrix3::determinant(&m_z_z);
        let d_z_w = Matrix3::determinant(&m_z_w);
        let d_w_x = Matrix3::determinant(&m_w_x);
        let d_w_y = Matrix3::determinant(&m_w_y);
        let d_w_z = Matrix3::determinant(&m_w_z);
        let d_w_w = Matrix3::determinant(&m_w_w);
        Matrix4 {
            x: Vector4 { x: d_x_x.n, y: -d_x_y.n, z: d_x_z.n, w: -d_x_w.n, d: d_x_x.d },
            y: Vector4 { x: -d_y_x.n, y: d_y_y.n, z: -d_y_z.n, w: d_y_w.n, d: d_y_x.d },
            z: Vector4 { x: d_z_x.n, y: -d_z_y.n, z: d_z_z.n, w: -d_z_w.n, d: d_z_x.d },
            w: Vector4 { x: -d_w_x.n, y: d_w_y.n, z: -d_w_z.n, w: d_w_w.n, d: d_w_x.d },
        }
    }

    /// Exact adjugate: the transpose of the cofactor matrix.
    pub fn adjugate(m: &Matrix4) -> (r: Matrix4)
        requires
            m4_wf(m@),
            m4_comatrix_fits(m@),
        ensures
            r@ == m4_adjugate(m@),
            m4_wf(r@),
    {
        let c = Matrix4::comatrix(m);
        Matrix4::transpose(&c)
    }

    /// The inverse, absent exactly when the determinant is zero: the adjugate
    /// scaled by the reciprocal determinant.
    pub fn inverse(m: &Matrix4) -> (r: Option<Matrix4>)
        requires
            m4_wf(m@),
            m4_det_fits(m@),
            m4_comatrix_fits(m@),
            m4_det(m@).n != 0 ==> m4_in_range(
                m4_scalar_mul(m4_adjugate(m@), rat_recip(m4_det(m@))),
            ),
        ensures
            (r is Some) == (m4_det(m@).n != 0),
            r matches Some(inv) ==> m4_inverse(m@) == Some(inv@) && m4_wf(inv@),
    {
        let det = Matrix4::determinant(m);
        if det.n == 0 {
            None
        } else {
            let invdet = Scalar::recip(&det);
            let adj = Matrix4::adjugate(m);
            Some(Matrix4::mul_matrix_and_scalar(&adj, &invdet))
        }
    }

    /// The 3D translation by `v` in homogeneous coordinates.
    pub fn translate(v: &Vector3) -> (r: Matrix4)
        requires
            v3_wf(v@),
        ensures
            r@ == m4_translate(v@),
            m4_wf(r@),
    {
        Matrix4 {
            x: Vector4 { x: v.d, y: 0, z: 0, w: 0, d: v.d },
            y: Vector4 { x: 0, y: v.d, z: 0, w: 0, d: v.d },
            z: Vector4 { x: 0, y: 0, z: v.d, w: 0, d: v.d },
            w: Vector4 { x: v.x, y: v.y, z: v.z, w: v.d, d: v.d },
        }
    }

    /// The 3D rotation about the unit axis `axis` whose sine and cosine are
    /// `s` and `c`, in homogeneous coordinates, by the Rodrigues closed form.
    /// A caller models the rotation by an angle by handing in that angle's
    /// exact sine and cosine; the axis must have length one exactly.
    pub fn rotate(s: &Scalar, c: &Scalar, axis: &Vector3) -> (r: Matrix4)
        requires
            rat_wf(s@),
            rat_wf(c@),
            v3_wf(axis@),
            rat_sim(v3_dot(axis@, axis@), rat_from_int(1)),
            m4_rotate_fits(s@, c@, axis@),
        ensures
            r@ == m4_rotate(s@, c@, axis@),
            m4_wf(r@),
    {
        let q = c.d - c.n;
        let tx = mul_wide(axis.x, q) as i64;
        let ty = mul_wide(axis.y, q) as i64;
        let tz = mul_wide(axis.z, q) as i64;
        let sx = mul_wide(s.n, axis.x) as i64;
        let sy = mul_wide(s.n, axis.y) as i64;
        let sz = mul_wide(s.n, axis.z) as i64;
        let dacd = mul_wide(axis.d, c.d) as i64;
        let nxx = mul_wide(axis.x, axis.x) as i64;
        let nyy = mul_wide(axis.y, axis.y) as i64;
        let nzz = mul_wide(axis.z, axis.z) as i64;
        let cnda = mul_wide(c.n, axis.d) as i64;
        let gx = (mul_wide(cnda, axis.d) + mul_wide(nxx, q)) as i64;
        let gy = (mul_wide(cnda, axis.d) + mul_wide(nyy, q)) as i64;
        let gz = (mul_wide(cnda, axis.d) + mul_wide(nzz, q)) as i64;
        let txy = mul_wide(tx, axis.y) as i64;
        let txz = mul_wide(tx, axis.z) as i64;
        let tyx = mul_wide(ty, axis.x) as i64;
        let tyz = mul_wide(ty, axis.z) as i64;
        let tzx = mul_wide(tz, axis.x) as i64;
        let tzy = mul_wide(tz, axis.y) as i64;
        let dd1 = mul_wide(axis.d, axis.d) as i64;
        let dd2 = mul_wide(dd1, c.d) as i64;
        proof {
            lemma_pos_mul(axis@.d, axis@.d);
            lemma_pos_mul(axis@.d * axis@.d, c@.d);
            lemma_pos_mul(axis@.d * axis@.d * c@.d, s@.d);
        }
        let dbig = mul_wide(dd2, s.d) as i64;
        Matrix4 {
            x: Vector4 {
                x: mul_wide(gx, s.d) as i64,
                y: (mul_wide(txy, s.d) + mul_wide(sz, dacd)) as i64,
                z: (mul_wide(txz, s.d) - mul_wide(sy, dacd)) as i64,
                w: 0,
                d: dbig,
            },
            y: Vector4 {
                x: (mul_wide(tyx, s.d) - mul_wide(sz, dacd)) as i64,
                y: mul_wide(gy, s.d) as i64,
                z: (mul_wide(tyz, s.d) + mul_wide(sx, dacd)) as i64,
                w: 0,
                d: dbig,
            },
            z: Vector4 {
                x: (mul_wide(tzx, s.d) + mul_wide(sy, dacd)) as i64,
                y: (mul_wide(tzy, s.d) - mul_wide(sx, dacd)) as i64,
                z: mul_wide(gz, s.d) as i64,
                w: 0,
                d: dbig,
            },
            w: Vector4 { x: 0, y: 0, z: 0, w: dbig, d: dbig },
        }
    }

    /// The 3D scaling by the components of `v`, in homogeneous coordinates.
    pub fn scale(v: &Vector3) -> (r: Matrix4)
        requires
            v3_wf(v@),
        ensures
            r@ == m4_scale(v@),
            m4_wf(r@),
    {
        Matrix4 {
            x: Vector4 { x: v.x, y: 0, z: 0, w: 0, d: v.d },
            y: Vector4 { x: 0, y: v.y, z: 0, w: 0, d: v.d },
            z: Vector4 { x: 0, y: 0, z: v.z, w: 0, d: v.d },
            w: Vector4 { x: 0, y: 0, z: 0, w: v.d, d: v.d },
        }
    }

    /// Replaces `self` with `self + rhs`.
    pub fn add_assign(&mut self, rhs: &Matrix4)
        requires
            m4_wf(old(self)@),
            m4_wf(rhs@),
            m4_in_range(m4_add(old(self)@, rhs@)),
        ensures
            final(self)@ == m4_add(old(self)@, rhs@),
            m4_wf(final(self)@),
    {
        let a = *self;
        *self = Matrix4::add_matrix_and_matrix(&a, rhs);
    }

    /// Replaces `self` with `self - rhs`.
    pub fn sub_assign(&mut self, rhs: &Matrix4)
        requires
            m4_wf(old(self)@),
            m4_wf(rhs@),
            m4_in_range(m4_sub(old(self)@, rhs@)),
        ensures
            final(self)@ == m4_sub(old(self)@, rhs@),
            m4_wf(final(self)@),
    {
        let a = *self;
        *self = Matrix4::sub_matrix_and_matrix(&a, rhs);
    }
}

} // verus!
