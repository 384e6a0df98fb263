use linmath::Matrix2;
use linmath::Matrix3;
use linmath::Matrix4;
use linmath::Scalar;
use linmath::Vector2;
use linmath::Vector3;
use linmath::Vector4;

#[test]
fn matrix2_add() {
    let a = Matrix2::new(Vector2::new(Scalar::from_int(1), Scalar::from_int(2)), Vector2::new(Scalar::from_int(3), Scalar::from_int(4)));
    let b = Matrix2::new(Vector2::new(Scalar::from_int(5), Scalar::from_int(6)), Vector2::new(Scalar::from_int(7), Scalar::from_int(8)));
    assert_eq!(Matrix2::add_matrix_and_matrix(&a, &b), Matrix2::new(Vector2::new(Scalar::from_int(6), Scalar::from_int(8)), Vector2::new(Scalar::from_int(10), Scalar::from_int(12))));
}

#[test]
fn matrix2_add_assign() {
    let mut a = Matrix2::new(Vector2::new(Scalar::from_int(1), Scalar::from_int(2)), Vector2::new(Scalar::from_int(3), Scalar::from_int(4)));
    let b = Matrix2::new(Vector2::new(Scalar::from_int(5), Scalar::from_int(6)), Vector2::new(Scalar::from_int(7), Scalar::from_int(8)));
    a.add_assign(&b);
    assert_eq!(a, Matrix2::new(Vector2::new(Scalar::from_int(6), Scalar::from_int(8)), Vector2::new(Scalar::from_int(10), Scalar::from_int(12))));
}

#[test]
fn matrix2_sub() {
    let a = Matrix2::new(Vector2::new(Scalar::from_int(1), Scalar::from_int(2)), Vector2::new(Scalar::from_int(3), Scalar::from_int(4)));
    let b = Matrix2::new(Vector2::new(Scalar::from_int(5), Scalar::from_int(6)), Vector2::new(Scalar::from_int(7), Scalar::from_int(8)));
    assert_eq!(Matrix2::sub_matrix_and_matrix(&a, &b), Matrix2::new(Vector2::new(Scalar::from_int(-4), Scalar::from_int(-4)), Vector2::new(Scalar::from_int(-4), Scalar::from_int(-4))));
}

#[test]
fn matrix2_sub_assign() {
    let mut a = Matrix2::new(Vector2::new(Scalar::from_int(1), Scalar::from_int(2)), Vector2::new(Scalar::from_int(3), Scalar::from_int(4)));
    let b = Matrix2::new(Vector2::new(Scalar::from_int(5), Scalar::from_int(6)), Vector2::new(Scalar::from_int(7), Scalar::from_int(8)));
    a.sub_assign(&b);
    assert_eq!(a, Matrix2::new(Vector2::new(Scalar::from_int(-4), Scalar::from_int(-4)), Vector2::new(Scalar::from_int(-4), Scalar::from_int(-4))));
}

#[test]
fn matrix2_mul_matrix() {
    let a = Matrix2::new(Vector2::new(Scalar::from_int(1), Scalar::from_int(2)), Vector2::new(Scalar::from_int(3), Scalar::from_int(4)));
    let b = Matrix2::new(Vector2::new(Scalar::from_int(5), Scalar::from_int(6)), Vector2::new(Scalar::from_int(7), Scalar::from_int(8)));
    assert_eq!(Matrix2::mul_matrix_and_matrix(&a, &b), Matrix2::new(Vector2::new(Scalar::from_int(23), Scalar::from_int(34)), Vector2::new(Scalar::from_int(31), Scalar::from_int(46))));
}

#[test]
fn matrix2_mul_vector() {
    let a = Matrix2::new(Vector2::new(Scalar::from_int(1), Scalar::from_int(2)), Vector2::new(Scalar::from_int(3), Scalar::from_int(4)));
    let b = Vector2::new(Scalar::from_int(1), Scalar::from_int(2));
    assert_eq!(Matrix2::mul_matrix_and_vector(&a, &b), Vector2::new(Scalar::from_int(7), Scalar::from_int(10)));
}

#[test]
fn matrix2_mul_scalar() {
    let m = Matrix2::new(Vector2::new(Scalar::from_int(1), Scalar::from_int(2)), Vector2::new(Scalar::from_int(3), Scalar::from_int(4)));
    assert_eq!(Matrix2::mul_matrix_and_scalar(&m, &Scalar::from_int(2)), Matrix2::new(Vector2::new(Scalar::from_int(2), Scalar::from_int(4)), Vector2::new(Scalar::from_int(6), Scalar::from_int(8))));
}

#[test]
fn matrix2_transpose() {
    let m = Matrix2::new(Vector2::new(Scalar::from_int(1), Scalar::from_int(2)), Vector2::new(Scalar::from_int(3), Scalar::from_int(4)));
    let t = Matrix2::transpose(&m);
    assert_eq!(t, Matrix2::new(Vector2::new(Scalar::from_int(1), Scalar::from_int(3)), Vector2::new(Scalar::from_int(2), Scalar::from_int(4))));
}

#[test]
fn matrix2_determinant() {
    let a = Matrix2::new(Vector2::new(Scalar::from_int(1), Scalar::from_int(2)), Vector2::new(Scalar::from_int(3), Scalar::from_int(4)));
    let b = Matrix2::new(Vector2::new(Scalar::from_int(1), Scalar::from_int(0)), Vector2::new(Scalar::from_int(0), Scalar::from_int(1)));
    let c = Matrix2::determinant(&a);
    let d = Matrix2::determinant(&b);
    assert_eq!(c, Scalar::from_int(-2));
    assert_eq!(d, Scalar::from_int(1));
}

#[test]
fn matrix2_inverse() {
    let mat = Matrix2::new(Vector2::new(Scalar::from_int(1), Scalar::from_int(2)), Vector2::new(Scalar::from_int(3), Scalar::from_int(4)));
    if let Some(invmat) = Matrix2::inverse(&mat) {
        assert_eq!(Matrix2::mul_matrix_and_matrix(&mat, &invmat), Matrix2::identity());
    } else {
        assert!(false)
    }
}

#[test]
fn matrix3_add() {
    let a = Matrix3::new(
        Vector3::new(Scalar::from_int(1), Scalar::from_int(2), Scalar::from_int(3)),
        Vector3::new(Scalar::from_int(4), Scalar::from_int(5), Scalar::from_int(6)),
        Vector3::new(Scalar::from_int(7), Scalar::from_int(8), Scalar::from_int(9)),
    );
    let b = Matrix3::new(
        Vector3::new(Scalar::from_int(10), Scalar::from_int(11), Scalar::from_int(12)),
        Vector3::new(Scalar::from_int(13), Scalar::from_int(14), Scalar::from_int(15)),
        Vector3::new(Scalar::from_int(16), Scalar::from_int(17), Scalar::from_int(18)),
    );
    assert_eq!(
        Matrix3::add_matrix_and_matrix(&a, &b),
        Matrix3::new(
        Vector3::new(Scalar::from_int(11), Scalar::from_int(13), Scalar::from_int(15)),
        Vector3::new(Scalar::from_int(17), Scalar::from_int(19), Scalar::from_int(21)),
        Vector3::new(Scalar::from_int(23), Scalar::from_int(25), Scalar::from_int(27)),
    )
    );
}

#[test]
fn matrix3_add_assign() {
    let mut a = Matrix3::new(
        Vector3::new(Scalar::from_int(1), Scalar::from_int(2), Scalar::from_int(3)),
        Vector3::new(Scalar::from_int(4), Scalar::from_int(5), Scalar::from_int(6)),
        Vector3::new(Scalar::from_int(7), Scalar::from_int(8), Scalar::from_int(9)),
    );
    let b = Matrix3::new(
        Vector3::new(Scalar::from_int(10), Scalar::from_int(11), Scalar::from_int(12)),
        Vector3::new(Scalar::from_int(13), Scalar::from_int(14), Scalar::from_int(15)),
        Vector3::new(Scalar::from_int(16), Scalar::from_int(17), Scalar::from_int(18)),
    );
    a.add_assign(&b);
    assert_eq!(a, Matrix3::new(
        Vector3::new(Scalar::from_int(11), Scalar::from_int(13), Scalar::from_int(15)),
        Vector3::new(Scalar::from_int(17), Scalar::from_int(19), Scalar::from_int(21)),
        Vector3::new(Scalar::from_int(23), Scalar::from_int(25), Scalar::from_int(27)),
    ));
}

#[test]
fn matrix3_sub() {
    let a = Matrix3::new(
        Vector3::new(Scalar::from_int(1), Scalar::from_int(2), Scalar::from_int(3)),
        Vector3::new(Scalar::from_int(4), Scalar::from_int(5), Scalar::from_int(6)),
        Vector3::new(Scalar::from_int(7), Scalar::from_int(8), Scalar::from_int(9)),
    );
    let b = Matrix3::new(
        Vector3::new(Scalar::from_int(10), Scalar::from_int(11), Scalar::from_int(12)),
        Vector3::new(Scalar::from_int(13), Scalar::from_int(14), Scalar::from_int(15)),
        Vector3::new(Scalar::from_int(16), Scalar::from_int(17), Scalar::from_int(18)),
    );
    assert_eq!(
        Matrix3::sub_matrix_and_matrix(&a, &b),
        Matrix3::new(
        Vector3::new(Scalar::from_int(-9), Scalar::from_int(-9), Scalar::from_int(-9)),
        Vector3::new(Scalar::from_int(-9), Scalar::from_int(-9), Scalar::from_int(-9)),
        Vector3::new(Scalar::from_int(-9), Scalar::from_int(-9), Scalar::from_int(-9)),
    )
    );
}

#[test]
fn matrix3_sub_assign() {
    let mut a = Matrix3::new(
        Vector3::new(Scalar::from_int(1), Scalar::from_int(2), Scalar::from_int(3)),
        Vector3::new(Scalar::from_int(4), Scalar::from_int(5), Scalar::from_int(6)),
        Vector3::new(Scalar::from_int(7), Scalar::from_int(8), Scalar::from_int(9)),
    );
    let b = Matrix3::new(
        Vector3::new(Scalar::from_int(10), Scalar::from_int(11), Scalar::from_int(12)),
        Vector3::new(Scalar::from_int(13), Scalar::from_int(14), Scalar::from_int(15)),
        Vector3::new(Scalar::from_int(16), Scalar::from_int(17), Scalar::from_int(18)),
    );
    a.sub_assign(&b);
    assert_eq!(a, Matrix3::new(
        Vector3::new(Scalar::from_int(-9), Scalar::from_int(-9), Scalar::from_int(-9)),
        Vector3::new(Scalar::from_int(-9), Scalar::from_int(-9), Scalar::from_int(-9)),
        Vector3::new(Scalar::from_int(-9), Scalar::from_int(-9), Scalar::from_int(-9)),
    ));
}

#[test]
fn matrix3_mul_matrix() {
    let a = Matrix3::new(
        Vector3::new(Scalar::from_int(1), Scalar::from_int(2), Scalar::from_int(3)),
        Vector3::new(Scalar::from_int(4), Scalar::from_int(5), Scalar::from_int(6)),
        Vector3::new(Scalar::from_int(7), Scalar::from_int(8), Scalar::from_int(9)),
    );
    let b = Matrix3::new(
        Vector3::new(Scalar::from_int(10), Scalar::from_int(11), Scalar::from_int(12)),
        Vector3::new(Scalar::from_int(13), Scalar::from_int(14), Scalar::from_int(15)),
        Vector3::new(Scalar::from_int(16), Scalar::from_int(17), Scalar::from_int(18)),
    );
    assert_eq!(
        Matrix3::mul_matrix_and_matrix(&a, &b),
        Matrix3::new(
        Vector3::new(Scalar::from_int(138), Scalar::from_int(171), Scalar::from_int(204)),
        Vector3::new(Scalar::from_int(174), Scalar::from_int(216), Scalar::from_int(258)),
        Vector3::new(Scalar::from_int(210), Scalar::from_int(261), Scalar::from_int(312)),
    )
    );
}

#[test]
fn matrix3_mul_vector() {
    let a = Matrix3::new(
        Vector3::new(Scalar::from_int(1), Scalar::from_int(2), Scalar::from_int(3)),
        Vector3::new(Scalar::from_int(4), Scalar::from_int(5), Scalar::from_int(6)),
        Vector3::new(Scalar::from_int(7), Scalar::from_int(8), Scalar::from_int(9)),
    );
    let b = Vector3::new(Scalar::from_int(1), Scalar::from_int(2), Scalar::from_int(3));
    assert_eq!(Matrix3::mul_matrix_and_vector(&a, &b), Vector3::new(Scalar::from_int(30), Scalar::from_int(36), Scalar::from_int(42)));
}

#[test]
fn matrix3_mul_scalar() {
    let m = Matrix3::new(
        Vector3::new(Scalar::from_int(1), Scalar::from_int(2), Scalar::from_int(3)),
        Vector3::new(Scalar::from_int(4), Scalar::from_int(5), Scalar::from_int(6)),
        Vector3::new(Scalar::from_int(7), Scalar::from_int(8), Scalar::from_int(9)),
    );
    assert_eq!(
        Matrix3::mul_matrix_and_scalar(&m, &Scalar::from_int(2)),
        Matrix3::new(
        Vector3::new(Scalar::from_int(2), Scalar::from_int(4), Scalar::from_int(6)),
        Vector3::new(Scalar::from_int(8), Scalar::from_int(10), Scalar::from_int(12)),
        Vector3::new(Scalar::from_int(14), Scalar::from_int(16), Scalar::from_int(18)),
    )
    );
}

#[test]
fn matrix3_transpose() {
    let m = Matrix3::new(
        Vector3::new(Scalar::from_int(1), Scalar::from_int(2), Scalar::from_int(3)),
        Vector3::new(Scalar::from_int(4), Scalar::from_int(5), Scalar::from_int(6)),
        Vector3::new(Scalar::from_int(7), Scalar::from_int(8), Scalar::from_int(9)),
    );
    let t = Matrix3::transpose(&m);
    assert_eq!(t, Matrix3::new(
        Vector3::new(Scalar::from_int(1), Scalar::from_int(4), Scalar::from_int(7)),
        Vector3::new(Scalar::from_int(2), Scalar::from_int(5), Scalar::from_int(8)),
        Vector3::new(Scalar::from_int(3), Scalar::from_int(6), Scalar::from_int(9)),
    ));
}

#[test]
fn matrix3_determinant() {
    let a = Matrix3::new(
        Vector3::new(Scalar::from_int(1), Scalar::from_int(2), Scalar::from_int(3)),
        Vector3::new(Scalar::from_int(4), Scalar::from_int(5), Scalar::from_int(6)),
        Vector3::new(Scalar::from_int(7), Scalar::from_int(8), Scalar::from_int(9)),
    );
    let b = Matrix3::new(
        Vector3::new(Scalar::from_int(1), Scalar::from_int(0), Scalar::from_int(0)),
        Vector3::new(Scalar::from_int(0), Scalar::from_int(1), Scalar::from_int(0)),
        Vector3::new(Scalar::from_int(0), Scalar::from_int(0), Scalar::from_int(1)),
    );
    let c = Matrix3::determinant(&a);
    let d = Matrix3::determinant(&b);
    assert_eq!(c, Scalar::from_int(0));
    assert_eq!(d, Scalar::from_int(1));
}

#[test]
fn matrix3_inverse() {
    let mat = Matrix3::new(
        Vector3::new(Scalar::from_int(1), Scalar::from_int(0), Scalar::from_int(-2)),
        Vector3::new(Scalar::from_int(-1), Scalar::from_int(-2), Scalar::from_int(-3)),
        Vector3::new(Scalar::from_int(1), Scalar::from_int(1), Scalar::from_int(0)),
    );
    if let Some(invmat) = Matrix3::inverse(&mat) {
        assert_eq!(Matrix3::mul_matrix_and_matrix(&mat, &invmat), Matrix3::identity());
    } else {
        assert!(false)
    }
}

#[test]
fn matrix3_translate() {
    let t = Matrix3::translate(&Vector2::new(Scalar::from_int(1), Scalar::from_int(0)));
    let p = Vector3::new(Scalar::from_int(0), Scalar::from_int(0), Scalar::from_int(1));
    let d = Vector3::new(Scalar::from_int(1), Scalar::from_int(0), Scalar::from_int(0));
    assert_eq!(Matrix3::mul_matrix_and_vector(&t, &p), Vector3::new(Scalar::from_int(1), Scalar::from_int(0), Scalar::from_int(1)));
    assert_eq!(Matrix3::mul_matrix_and_vector(&t, &d), Vector3::new(Scalar::from_int(1), Scalar::from_int(0), Scalar::from_int(0)));
}

#[test]
fn matrix3_rotate() {
    let r = Matrix3::rotate(&Scalar::from_int(1), &Scalar::from_int(0));
    let p = Vector3::new(Scalar::from_int(1), Scalar::from_int(0), Scalar::from_int(1));
    let d = Vector3::new(Scalar::from_int(1), Scalar::from_int(0), Scalar::from_int(0));
    assert_eq!(Matrix3::mul_matrix_and_vector(&r, &p), Vector3::new(Scalar::from_int(0), Scalar::from_int(1), Scalar::from_int(1)));
    assert_eq!(Matrix3::mul_matrix_and_vector(&r, &d), Vector3::new(Scalar::from_int(0), Scalar::from_int(1), Scalar::from_int(0)));
}

#[test]
fn matrix3_scale() {
    let sm = Matrix3::scale(&Vector2::new(Scalar::from_int(2), Scalar::from_int(1)));
    let p = Vector3::new(Scalar::from_int(1), Scalar::from_int(0), Scalar::from_int(1));
    let d = Vector3::new(Scalar::from_int(1), Scalar::from_int(0), Scalar::from_int(0));
    assert_eq!(Matrix3::mul_matrix_and_vector(&sm, &p), Vector3::new(Scalar::from_int(2), Scalar::from_int(0), Scalar::from_int(1)));
    assert_eq!(Matrix3::mul_matrix_and_vector(&sm, &d), Vector3::new(Scalar::from_int(2), Scalar::from_int(0), Scalar::from_int(0)));
}

#[test]
fn matrix4_add() {
    let a = Matrix4::new(
        Vector4::new(Scalar::from_int(1), Scalar::from_int(2), Scalar::from_int(3), Scalar::from_int(4)),
        Vector4::new(Scalar::from_int(5), Scalar::from_int(6), Scalar::from_int(7), Scalar::from_int(8)),
        Vector4::new(Scalar::from_int(9), Scalar::from_int(10), Scalar::from_int(11), Scalar::from_int(12)),
        Vector4::new(Scalar::from_int(13), Scalar::from_int(14), Scalar::from_int(15), Scalar::from_int(16)),
    );
    let b = Matrix4::new(
        Vector4::new(Scalar::from_int(17), Scalar::from_int(18), Scalar::from_int(19), Scalar::from_int(20)),
        Vector4::new(Scalar::from_int(21), Scalar::from_int(22), Scalar::from_int(23), Scalar::from_int(24)),
        Vector4::new(Scalar::from_int(25), Scalar::from_int(26), Scalar::from_int(27), Scalar::from_int(28)),
        Vector4::new(Scalar::from_int(29), Scalar::from_int(30), Scalar::from_int(31), Scalar::from_int(32)),
    );
    assert_eq!(
        Matrix4::add_matrix_and_matrix(&a, &b),
        Matrix4::new(
        Vector4::new(Scalar::from_int(18), Scalar::from_int(20), Scalar::from_int(22), Scalar::from_int(24)),
        Vector4::new(Scalar::from_int(26), Scalar::from_int(28), Scalar::from_int(30), Scalar::from_int(32)),
        Vector4::new(Scalar::from_int(34), Scalar::from_int(36), Scalar::from_int(38), Scalar::from_int(40)),
        Vector4::new(Scalar::from_int(42), Scalar::from_int(44), Scalar::from_int(46), Scalar::from_int(48)),
    )
    );
}

#[test]
fn matrix4_sub() {
    let a = Matrix4::new(
        Vector4::new(Scalar::from_int(1), Scalar::from_int(2), Scalar::from_int(3), Scalar::from_int(4)),
        Vector4::new(Scalar::from_int(5), Scalar::from_int(6), Scalar::from_int(7), Scalar::from_int(8)),
        Vector4::new(Scalar::from_int(9), Scalar::from_int(10), Scalar::from_int(11), Scalar::from_int(12)),
        Vector4::new(Scalar::from_int(13), Scalar::from_int(14), Scalar::from_int(15), Scalar::from_int(16)),
    );
    let b = Matrix4::new(
        Vector4::new(Scalar::from_int(17), Scalar::from_int(18), Scalar::from_int(19), Scalar::from_int(20)),
        Vector4::new(Scalar::from_int(21), Scalar::from_int(22), Scalar::from_int(23), Scalar::from_int(24)),
        Vector4::new(Scalar::from_int(25), Scalar::from_int(26), Scalar::from_int(27), Scalar::from_int(28)),
        Vector4::new(Scalar::from_int(29), Scalar::from_int(30), Scalar::from_int(31), Scalar::from_int(32)),
    );
    assert_eq!(
        Matrix4::sub_matrix_and_matrix(&a, &b),
        Matrix4::new(
        Vector4::new(Scalar::from_int(-16), Scalar::from_int(-16), Scalar::from_int(-16), Scalar::from_int(-16)),
        Vector4::new(Scalar::from_int(-16), Scalar::from_int(-16), Scalar::from_int(-16), Scalar::from_int(-16)),
        Vector4::new(Scalar::from_int(-16), Scalar::from_int(-16), Scalar::from_int(-16), Scalar::from_int(-16)),
        Vector4::new(Scalar::from_int(-16), Scalar::from_int(-16), Scalar::from_int(-16), Scalar::from_int(-16)),
    )
    );
}

#[test]
fn matrix4_mul_matrix() {
    let a = Matrix4::new(
        Vector4::new(Scalar::from_int(1), Scalar::from_int(2), Scalar::from_int(3), Scalar::from_int(4)),
        Vector4::new(Scalar::from_int(5), Scalar::from_int(6), Scalar::from_int(7), Scalar::from_int(8)),
        Vector4::new(Scalar::from_int(9), Scalar::from_int(10), Scalar::from_int(11), Scalar::from_int(12)),
        Vector4::new(Scalar::from_int(13), Scalar::from_int(14), Scalar::from_int(15), Scalar::from_int(16)),
    );
    let b = Matrix4::new(
        Vector4::new(Scalar::from_int(17), Scalar::from_int(18), Scalar::from_int(19), Scalar::from_int(20)),
        Vector4::new(Scalar::from_int(21), Scalar::from_int(22), Scalar::from_int(23), Scalar::from_int(24)),
        Vector4::new(Scalar::from_int(25), Scalar::from_int(26), Scalar::from_int(27), Scalar::from_int(28)),
        Vector4::new(Scalar::from_int(29), Scalar::from_int(30), Scalar::from_int(31), Scalar::from_int(32)),
    );
    assert_eq!(
        Matrix4::mul_matrix_and_matrix(&a, &b),
        Matrix4::new(
        Vector4::new(Scalar::from_int(538), Scalar::from_int(612), Scalar::from_int(686), Scalar::from_int(760)),
        Vector4::new(Scalar::from_int(650), Scalar::from_int(740), Scalar::from_int(830), Scalar::from_int(920)),
        Vector4::new(Scalar::from_int(762), Scalar::from_int(868), Scalar::from_int(974), Scalar::from_int(1080)),
        Vector4::new(Scalar::from_int(874), Scalar::from_int(996), Scalar::from_int(1118), Scalar::from_int(1240)),
    )
    );
}

#[test]
fn matrix4_mul_vector() {
    let a = Matrix4::new(
        Vector4::new(Scalar::from_int(1), Scalar::from_int(2), Scalar::from_int(3), Scalar::from_int(4)),
        Vector4::new(Scalar::from_int(5), Scalar::from_int(6), Scalar::from_int(7), Scalar::from_int(8)),
        Vector4::new(Scalar::from_int(9), Scalar::from_int(10), Scalar::from_int(11), Scalar::from_int(12)),
        Vector4::new(Scalar::from_int(13), Scalar::from_int(14), Scalar::from_int(15), Scalar::from_int(16)),
    );
    let b = Vector4::new(Scalar::from_int(1), Scalar::from_int(2), Scalar::from_int(3), Scalar::from_int(4));
    assert_eq!(Matrix4::mul_matrix_and_vector(&a, &b), Vector4::new(Scalar::from_int(90), Scalar::from_int(100), Scalar::from_int(110), Scalar::from_int(120)));
}

#[test]
fn matrix4_mul_scalar() {
    let m = Matrix4::new(
        Vector4::new(Scalar::from_int(1), Scalar::from_int(2), Scalar::from_int(3), Scalar::from_int(4)),
        Vector4::new(Scalar::from_int(5), Scalar::from_int(6), Scalar::from_int(7), Scalar::from_int(8)),
        Vector4::new(Scalar::from_int(9), Scalar::from_int(10), Scalar::from_int(11), Scalar::from_int(12)),
        Vector4::new(Scalar::from_int(13), Scalar::from_int(14), Scalar::from_int(15), Scalar::from_int(16)),
    );
    assert_eq!(
        Matrix4::mul_matrix_and_scalar(&m, &Scalar::from_int(2)),
        Matrix4::new(
        Vector4::new(Scalar::from_int(2), Scalar::from_int(4), Scalar::from_int(6), Scalar::from_int(8)),
        Vector4::new(Scalar::from_int(10), Scalar::from_int(12), Scalar::from_int(14), Scalar::from_int(16)),
        Vector4::new(Scalar::from_int(18), Scalar::from_int(20), Scalar::from_int(22), Scalar::from_int(24)),
        Vector4::new(Scalar::from_int(26), Scalar::from_int(28), Scalar::from_int(30), Scalar::from_int(32)),
    )
    );
}

#[test]
fn matrix4_transpose() {
    let m = Matrix4::new(
        Vector4::new(Scalar::from_int(1), Scalar::from_int(2), Scalar::from_int(3), Scalar::from_int(4)),
        Vector4::new(Scalar::from_int(5), Scalar::from_int(6), Scalar::from_int(7), Scalar::from_int(8)),
        Vector4::new(Scalar::from_int(9), Scalar::from_int(10), Scalar::from_int(11), Scalar::from_int(12)),
        Vector4::new(Scalar::from_int(13), Scalar::from_int(14), Scalar::from_int(15), Scalar::from_int(16)),
    );
    let t = Matrix4::transpose(&m);
    assert_eq!(
        t,
        Matrix4::new(
        Vector4::new(Scalar::from_int(1), Scalar::from_int(5), Scalar::from_int(9), Scalar::from_int(13)),
        Vector4::new(Scalar::from_int(2), Scalar::from_int(6), Scalar::from_int(10), Scalar::from_int(14)),
        Vector4::new(Scalar::from_int(3), Scalar::from_int(7), Scalar::from_int(11), Scalar::from_int(15)),
        Vector4::new(Scalar::from_int(4), Scalar::from_int(8), Scalar::from_int(12), Scalar::from_int(16)),
    )
    );
}

#[test]
fn matrix4_determinant() {
    let a = Matrix4::new(
        Vector4::new(Scalar::from_int(1), Scalar::from_int(2), Scalar::from_int(3), Scalar::from_int(4)),
        Vector4::new(Scalar::from_int(5), Scalar::from_int(6), Scalar::from_int(7), Scalar::from_int(8)),
        Vector4::new(Scalar::from_int(9), Scalar::from_int(10), Scalar::from_int(11), Scalar::from_int(12)),
        Vector4::new(Scalar::from_int(13), Scalar::from_int(14), Scalar::from_int(15), Scalar::from_int(16)),
    );
    let b = Matrix4::new(
        Vector4::new(Scalar::from_int(1), Scalar::from_int(0), Scalar::from_int(0), Scalar::from_int(0)),
        Vector4::new(Scalar::from_int(0), Scalar::from_int(1), Scalar::from_int(0), Scalar::from_int(0)),
        Vector4::new(Scalar::from_int(0), Scalar::from_int(0), Scalar::from_int(1), Scalar::from_int(0)),
        Vector4::new(Scalar::from_int(0), Scalar::from_int(0), Scalar::from_int(0), Scalar::from_int(1)),
    );
    let c = Matrix4::determinant(&a);
    let d = Matrix4::determinant(&b);
    assert_eq!(c, Scalar::from_int(0));
    assert_eq!(d, Scalar::from_int(1));
}

#[test]
fn matrix4_inverse() {
    let mat = Matrix4::new(
        Vector4::new(Scalar::from_int(1), Scalar::from_int(0), Scalar::from_int(2), Scalar::from_int(2)),
        Vector4::new(Scalar::from_int(0), Scalar::from_int(2), Scalar::from_int(1), Scalar::from_int(0)),
        Vector4::new(Scalar::from_int(0), Scalar::from_int(1), Scalar::from_int(0), Scalar::from_int(1)),
        Vector4::new(Scalar::from_int(1), Scalar::from_int(2), Scalar::from_int(1), Scalar::from_int(4)),
    );
    if let Some(invmat) = Matrix4::inverse(&mat) {
        assert_eq!(Matrix4::mul_matrix_and_matrix(&mat, &invmat), Matrix4::identity());
    } else {
        assert!(false)
    }
}

#[test]
fn matrix4_translate() {
    let t = Matrix4::translate(&Vector3::new(Scalar::from_int(1), Scalar::from_int(0), Scalar::from_int(0)));
    let p = Vector4::new(Scalar::from_int(0), Scalar::from_int(0), Scalar::from_int(0), Scalar::from_int(1));
    let d = Vector4::new(Scalar::from_int(1), Scalar::from_int(0), Scalar::from_int(0), Scalar::from_int(0));
    assert_eq!(Matrix4::mul_matrix_and_vector(&t, &p), Vector4::new(Scalar::from_int(1), Scalar::from_int(0), Scalar::from_int(0), Scalar::from_int(1)));
    assert_eq!(Matrix4::mul_matrix_and_vector(&t, &d), Vector4::new(Scalar::from_int(1), Scalar::from_int(0), Scalar::from_int(0), Scalar::from_int(0)));
}

#[test]
fn matrix4_rotate_x() {
    let r = Matrix4::rotate(&Scalar::from_int(1), &Scalar::from_int(0), &Vector3::new(Scalar::from_int(1), Scalar::from_int(0), Scalar::from_int(0)));
    let p = Vector4::new(Scalar::from_int(0), Scalar::from_int(1), Scalar::from_int(0), Scalar::from_int(1));
    let d = Vector4::new(Scalar::from_int(0), Scalar::from_int(1), Scalar::from_int(0), Scalar::from_int(0));
    assert_eq!(Matrix4::mul_matrix_and_vector(&r, &p), Vector4::new(Scalar::from_int(0), Scalar::from_int(0), Scalar::from_int(1), Scalar::from_int(1)));
    assert_eq!(Matrix4::mul_matrix_and_vector(&r, &d), Vector4::new(Scalar::from_int(0), Scalar::from_int(0), Scalar::from_int(1), Scalar::from_int(0)));
}

#[test]
fn matrix4_rotate_y() {
    let r = Matrix4::rotate(&Scalar::from_int(1), &Scalar::from_int(0), &Vector3::new(Scalar::from_int(0), Scalar::from_int(1), Scalar::from_int(0)));
    let p = Vector4::new(Scalar::from_int(1), Scalar::from_int(0), Scalar::from_int(0), Scalar::from_int(1));
    let d = Vector4::new(Scalar::from_int(1), Scalar::from_int(0), Scalar::from_int(0), Scalar::from_int(0));
    assert_eq!(Matrix4::mul_matrix_and_vector(&r, &p), Vector4::new(Scalar::from_int(0), Scalar::from_int(0), Scalar::from_int(-1), Scalar::from_int(1)));
    assert_eq!(Matrix4::mul_matrix_and_vector(&r, &d), Vector4::new(Scalar::from_int(0), Scalar::from_int(0), Scalar::from_int(-1), Scalar::from_int(0)));
}

#[test]
fn matrix4_rotate_z() {
    let r = Matrix4::rotate(&Scalar::from_int(1), &Scalar::from_int(0), &Vector3::new(Scalar::from_int(0), Scalar::from_int(0), Scalar::from_int(1)));
    let p = Vector4::new(Scalar::from_int(1), Scalar::from_int(0), Scalar::from_int(0), Scalar::from_int(1));
    let d = Vector4::new(Scalar::from_int(1), Scalar::from_int(0), Scalar::from_int(0), Scalar::from_int(0));
    assert_eq!(Matrix4::mul_matrix_and_vector(&r, &p), Vector4::new(Scalar::from_int(0), Scalar::from_int(1), Scalar::from_int(0), Scalar::from_int(1)));
    assert_eq!(Matrix4::mul_matrix_and_vector(&r, &d), Vector4::new(Scalar::from_int(0), Scalar::from_int(1), Scalar::from_int(0), Scalar::from_int(0)));
}

#[test]
fn matrix4_scale() {
    let sm = Matrix4::scale(&Vector3::new(Scalar::from_int(2), Scalar::from_int(1), Scalar::from_int(1)));
    let p = Vector4::new(Scalar::from_int(1), Scalar::from_int(0), Scalar::from_int(0), Scalar::from_int(1));
    let d = Vector4::new(Scalar::from_int(1), Scalar::from_int(0), Scalar::from_int(0), Scalar::from_int(0));
    assert_eq!(Matrix4::mul_matrix_and_vector(&sm, &p), Vector4::new(Scalar::from_int(2), Scalar::from_int(0), Scalar::from_int(0), Scalar::from_int(1)));
    assert_eq!(Matrix4::mul_matrix_and_vector(&sm, &d), Vector4::new(Scalar::from_int(2), Scalar::from_int(0), Scalar::from_int(0), Scalar::from_int(0)));
}
