use linmath::Matrix2;
use linmath::Matrix3;
use linmath::Matrix4;
use linmath::Scalar;
use linmath::Vector2;
use linmath::Vector3;
use linmath::Vector4;

fn s(i: i64) -> Scalar {
    Scalar::from_int(i)
}

fn mat3(c: [[i64; 3]; 3]) -> Matrix3 {
    Matrix3::new(
        Vector3::new(s(c[0][0]), s(c[0][1]), s(c[0][2])),
        Vector3::new(s(c[1][0]), s(c[1][1]), s(c[1][2])),
        Vector3::new(s(c[2][0]), s(c[2][1]), s(c[2][2])),
    )
}

fn mat4(c: [[i64; 4]; 4]) -> Matrix4 {
    Matrix4::new(
        Vector4::new(s(c[0][0]), s(c[0][1]), s(c[0][2]), s(c[0][3])),
        Vector4::new(s(c[1][0]), s(c[1][1]), s(c[1][2]), s(c[1][3])),
        Vector4::new(s(c[2][0]), s(c[2][1]), s(c[2][2]), s(c[2][3])),
        Vector4::new(s(c[3][0]), s(c[3][1]), s(c[3][2]), s(c[3][3])),
    )
}

#[test]
fn scalar_fractions_add() {
    let half = Scalar::new(1, 2);
    let third = Scalar::new(1, 3);
    assert_eq!(Scalar::add_scalar_and_scalar(&half, &third), Scalar::new(5, 6));
}

#[test]
fn scalar_negative_denominator_normalizes() {
    assert_eq!(Scalar::new(1, -2), Scalar::new(-1, 2));
}

#[test]
fn scalar_division_exact() {
    let q = Scalar::div_scalar_and_scalar(&Scalar::new(3, 4), &Scalar::new(1, 2));
    assert_eq!(q, Scalar::new(3, 2));
}

#[test]
fn scalar_recip_cancels() {
    let v = Scalar::new(-7, 3);
    let r = Scalar::recip(&v);
    assert_eq!(Scalar::mul_scalar_and_scalar(&v, &r), s(1));
}

#[test]
fn vector_length_three_four_five() {
    let v = Vector2::new(s(3), s(4));
    assert_eq!(Vector2::length(&v), Some(s(5)));
}

#[test]
fn vector_length_irrational_is_absent() {
    let v = Vector2::new(s(1), s(1));
    assert_eq!(Vector2::length(&v), None);
}

#[test]
fn vector_normalize_zero_is_absent() {
    let v = Vector3::new(s(0), s(0), s(0));
    assert_eq!(Vector3::normalize(&v), None);
}

#[test]
fn inverse_identity_2() {
    let m = Matrix2::new(Vector2::new(s(2), s(1)), Vector2::new(s(7), s(4)));
    let inv = Matrix2::inverse(&m).unwrap();
    assert_eq!(Matrix2::mul_matrix_and_matrix(&m, &inv), Matrix2::identity());
}

#[test]
fn inverse_identity_4() {
    let m = mat4([[2, 0, 0, 1], [0, 3, 1, 0], [1, 0, 1, 0], [0, 1, 0, 2]]);
    let inv = Matrix4::inverse(&m).unwrap();
    assert_eq!(Matrix4::mul_matrix_and_matrix(&m, &inv), Matrix4::identity());
}

#[test]
fn equal_columns_singular_2() {
    let m = Matrix2::new(Vector2::new(s(3), s(5)), Vector2::new(s(3), s(5)));
    assert_eq!(Matrix2::determinant(&m), s(0));
    assert!(Matrix2::inverse(&m).is_none());
}

#[test]
fn equal_columns_singular_3() {
    let m = mat3([[1, 2, 3], [4, 5, 6], [1, 2, 3]]);
    assert_eq!(Matrix3::determinant(&m), s(0));
    assert!(Matrix3::inverse(&m).is_none());
}

#[test]
fn equal_columns_singular_4() {
    let m = mat4([[1, 2, 3, 4], [5, 6, 7, 8], [5, 6, 7, 8], [9, 1, 2, 3]]);
    assert_eq!(Matrix4::determinant(&m), s(0));
    assert!(Matrix4::inverse(&m).is_none());
}

#[test]
fn zero_row_determinant_4() {
    let m = mat4([[0, 2, 3, 4], [0, 6, 7, 8], [0, 1, 9, 2], [0, 5, 4, 6]]);
    assert_eq!(Matrix4::determinant(&m), s(0));
}

#[test]
fn transpose_involution_3() {
    let m = mat3([[1, 2, 3], [4, 5, 6], [7, 8, 9]]);
    assert_eq!(Matrix3::transpose(&Matrix3::transpose(&m)), m);
}

#[test]
fn transpose_involution_4() {
    let m = mat4([[1, 2, 3, 4], [5, 6, 7, 8], [9, 10, 11, 12], [13, 14, 15, 16]]);
    assert_eq!(Matrix4::transpose(&Matrix4::transpose(&m)), m);
}

#[test]
fn mul_associative_3() {
    let a = mat3([[1, 2, 0], [3, 1, 1], [0, 2, 2]]);
    let b = mat3([[2, 1, 1], [0, 1, 3], [1, 0, 1]]);
    let c = mat3([[1, 1, 0], [2, 0, 1], [3, 1, 2]]);
    let ab_c = Matrix3::mul_matrix_and_matrix(&Matrix3::mul_matrix_and_matrix(&a, &b), &c);
    let a_bc = Matrix3::mul_matrix_and_matrix(&a, &Matrix3::mul_matrix_and_matrix(&b, &c));
    assert_eq!(ab_c, a_bc);
}

#[test]
fn mul_associative_4() {
    let a = mat4([[1, 2, 0, 1], [3, 1, 1, 0], [0, 2, 2, 1], [1, 0, 1, 1]]);
    let b = mat4([[2, 1, 1, 0], [0, 1, 3, 1], [1, 0, 1, 2], [0, 1, 0, 1]]);
    let c = mat4([[1, 1, 0, 2], [2, 0, 1, 0], [3, 1, 2, 1], [0, 2, 1, 1]]);
    let ab_c = Matrix4::mul_matrix_and_matrix(&Matrix4::mul_matrix_and_matrix(&a, &b), &c);
    let a_bc = Matrix4::mul_matrix_and_matrix(&a, &Matrix4::mul_matrix_and_matrix(&b, &c));
    assert_eq!(ab_c, a_bc);
}

#[test]
fn determinant_multiplicative_3() {
    let a = mat3([[1, 2, 0], [3, 1, 1], [0, 2, 2]]);
    let b = mat3([[2, 1, 1], [0, 1, 3], [1, 0, 1]]);
    let ab = Matrix3::mul_matrix_and_matrix(&a, &b);
    let lhs = Matrix3::determinant(&ab);
    let rhs = Scalar::mul_scalar_and_scalar(&Matrix3::determinant(&a), &Matrix3::determinant(&b));
    assert_eq!(lhs, rhs);
}

#[test]
fn determinant_multiplicative_4() {
    let a = mat4([[1, 2, 0, 1], [3, 1, 1, 0], [0, 2, 2, 1], [1, 0, 1, 1]]);
    let b = mat4([[2, 1, 1, 0], [0, 1, 3, 1], [1, 0, 1, 2], [0, 1, 0, 1]]);
    let ab = Matrix4::mul_matrix_and_matrix(&a, &b);
    let lhs = Matrix4::determinant(&ab);
    let rhs = Scalar::mul_scalar_and_scalar(&Matrix4::determinant(&a), &Matrix4::determinant(&b));
    assert_eq!(lhs, rhs);
}

#[test]
fn adjugate_times_matrix_is_determinant_identity_3() {
    let m = mat3([[1, 2, 0], [3, 1, 1], [0, 2, 2]]);
    let adj = Matrix3::adjugate(&m);
    let det = Matrix3::determinant(&m);
    let lhs = Matrix3::mul_matrix_and_matrix(&m, &adj);
    let rhs = Matrix3::mul_matrix_and_scalar(&Matrix3::identity(), &det);
    assert_eq!(lhs, rhs);
}

#[test]
fn adjugate_is_comatrix_transpose_4() {
    let m = mat4([[1, 0, 2, 2], [0, 2, 1, 0], [0, 1, 0, 1], [1, 2, 1, 4]]);
    let adj = Matrix4::adjugate(&m);
    let com = Matrix4::comatrix(&m);
    assert_eq!(Matrix4::transpose(&com), adj);
}

#[test]
fn fractional_matrix_inverse_3() {
    let m = Matrix3::new(
        Vector3::new(Scalar::new(1, 2), s(0), s(0)),
        Vector3::new(s(0), Scalar::new(2, 3), s(0)),
        Vector3::new(s(0), s(0), s(1)),
    );
    let inv = Matrix3::inverse(&m).unwrap();
    assert_eq!(Matrix3::mul_matrix_and_matrix(&m, &inv), Matrix3::identity());
}

#[test]
fn ortho_3_unit_box() {
    let o = Matrix3::ortho(&s(-1), &s(1), &s(-1), &s(1));
    let expected = Matrix3::new(
        Vector3::new(s(1), s(0), s(0)),
        Vector3::new(s(0), s(1), s(0)),
        Vector3::new(s(0), s(0), s(-1)),
    );
    assert_eq!(o, expected);
}

#[test]
fn ortho_3_scales_box_corner() {
    let o = Matrix3::ortho(&s(0), &s(4), &s(0), &s(2));
    let corner = Vector3::new(s(4), s(2), s(1));
    let mapped = Matrix3::mul_matrix_and_vector(&o, &corner);
    assert_eq!(mapped, Vector3::new(s(2), s(2), s(-1)));
}

#[test]
fn rotate_4_pythagorean_axis() {
    let axis = Vector3::new(Scalar::new(3, 5), Scalar::new(4, 5), s(0));
    let r = Matrix4::rotate(&s(1), &s(0), &axis);
    let det = Matrix4::determinant(&r);
    assert_eq!(det, s(1));
}

#[test]
fn part_accessors_give_components() {
    let v = Vector3::new(s(7), Scalar::new(1, 2), s(-3));
    assert_eq!(v.part_x(), s(7));
    assert_eq!(v.part_y(), Scalar::new(1, 2));
    assert_eq!(v.part_z(), s(-3));
}
