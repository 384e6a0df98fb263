//! Exact linear-algebra primitives: fixed-size vectors (2/3/4 components) and
//! square matrices (2x2/3x3/4x4) over exact rational scalars, with transpose,
//! determinant, adjugate, inverse (by cofactor expansion), and the common
//! 2D/3D transform constructors.
//!
//! Every value is a tuple of integer numerators over one positive denominator;
//! equality compares values, not representations, so `a == b` means the two
//! sides denote the same rational entries.

pub mod laws2;
pub mod laws3;
pub mod laws4;
pub mod matrix2;
pub mod matrix3;
pub mod matrix4;
pub mod scalar;
pub mod vector;

pub use matrix2::Matrix2;
pub use matrix3::Matrix3;
pub use matrix4::Matrix4;
pub use scalar::Scalar;
pub use vector::Vector2;
pub use vector::Vector3;
pub use vector::Vector4;
