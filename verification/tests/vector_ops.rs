use linmath::Scalar;
use linmath::Vector2;
use linmath::Vector3;
use linmath::Vector4;

#[test]
fn vector2_add() {
    let a = Vector2::new(Scalar::from_int(1), Scalar::from_int(2));
    let b = Vector2::new(Scalar::from_int(3), Scalar::from_int(4));
    assert_eq!(Vector2::add_vector_and_vector(&a, &b), Vector2::new(Scalar::from_int(4), Scalar::from_int(6)));
}

#[test]
fn vector2_add_assign() {
    let mut a = Vector2::new(Scalar::from_int(1), Scalar::from_int(2));
    let b = Vector2::new(Scalar::from_int(3), Scalar::from_int(4));
    a.add_assign(&b);
    assert_eq!(a, Vector2::new(Scalar::from_int(4), Scalar::from_int(6)));
}

#[test]
fn vector2_sub() {
    let a = Vector2::new(Scalar::from_int(1), Scalar::from_int(2));
    let b = Vector2::new(Scalar::from_int(3), Scalar::from_int(4));
    assert_eq!(Vector2::sub_vector_and_vector(&a, &b), Vector2::new(Scalar::from_int(-2), Scalar::from_int(-2)));
}

#[test]
fn vector2_sub_assign() {
    let mut a = Vector2::new(Scalar::from_int(1), Scalar::from_int(2));
    let b = Vector2::new(Scalar::from_int(3), Scalar::from_int(4));
    a.sub_assign(&b);
    assert_eq!(a, Vector2::new(Scalar::from_int(-2), Scalar::from_int(-2)));
}

#[test]
fn vector2_mul() {
    let v = Vector2::new(Scalar::from_int(1), Scalar::from_int(2));
    assert_eq!(Vector2::mul_vector_and_scalar(&v, &Scalar::from_int(2)), Vector2::new(Scalar::from_int(2), Scalar::from_int(4)));
}

#[test]
fn vector2_mul_assign() {
    let mut v = Vector2::new(Scalar::from_int(1), Scalar::from_int(2));
    v.mul_assign(&Scalar::from_int(2));
    assert_eq!(v, Vector2::new(Scalar::from_int(2), Scalar::from_int(4)));
}

#[test]
fn vector2_dot() {
    let a = Vector2::new(Scalar::from_int(1), Scalar::from_int(2));
    let b = Vector2::new(Scalar::from_int(3), Scalar::from_int(4));
    assert_eq!(Vector2::dot(&a, &b), Scalar::from_int(11));
}

#[test]
fn vector2_length() {
    let v = Vector2::new(Scalar::from_int(1), Scalar::from_int(0));
    assert_eq!(Vector2::length(&v), Some(Scalar::from_int(1)));
}

#[test]
fn vector2_normalize() {
    let v = Vector2::new(Scalar::from_int(2), Scalar::from_int(0));
    assert_eq!(Vector2::normalize(&v), Some(Vector2::new(Scalar::from_int(1), Scalar::from_int(0))));
}

#[test]
fn vector3_add() {
    let a = Vector3::new(Scalar::from_int(1), Scalar::from_int(2), Scalar::from_int(3));
    let b = Vector3::new(Scalar::from_int(4), Scalar::from_int(5), Scalar::from_int(6));
    assert_eq!(Vector3::add_vector_and_vector(&a, &b), Vector3::new(Scalar::from_int(5), Scalar::from_int(7), Scalar::from_int(9)));
}

#[test]
fn vector3_add_assign() {
    let mut a = Vector3::new(Scalar::from_int(1), Scalar::from_int(2), Scalar::from_int(3));
    let b = Vector3::new(Scalar::from_int(4), Scalar::from_int(5), Scalar::from_int(6));
    a.add_assign(&b);
    assert_eq!(a, Vector3::new(Scalar::from_int(5), Scalar::from_int(7), Scalar::from_int(9)));
}

#[test]
fn vector3_sub() {
    let a = Vector3::new(Scalar::from_int(1), Scalar::from_int(2), Scalar::from_int(3));
    let b = Vector3::new(Scalar::from_int(4), Scalar::from_int(5), Scalar::from_int(6));
    assert_eq!(Vector3::sub_vector_and_vector(&a, &b), Vector3::new(Scalar::from_int(-3), Scalar::from_int(-3), Scalar::from_int(-3)));
}

#[test]
fn vector3_sub_assign() {
    let mut a = Vector3::new(Scalar::from_int(1), Scalar::from_int(2), Scalar::from_int(3));
    let b = Vector3::new(Scalar::from_int(4), Scalar::from_int(5), Scalar::from_int(6));
    a.sub_assign(&b);
    assert_eq!(a, Vector3::new(Scalar::from_int(-3), Scalar::from_int(-3), Scalar::from_int(-3)));
}

#[test]
fn vector3_mul() {
    let v = Vector3::new(Scalar::from_int(1), Scalar::from_int(2), Scalar::from_int(3));
    assert_eq!(Vector3::mul_vector_and_scalar(&v, &Scalar::from_int(2)), Vector3::new(Scalar::from_int(2), Scalar::from_int(4), Scalar::from_int(6)));
}

#[test]
fn vector3_mul_assign() {
    let mut v = Vector3::new(Scalar::from_int(1), Scalar::from_int(2), Scalar::from_int(3));
    v.mul_assign(&Scalar::from_int(2));
    assert_eq!(v, Vector3::new(Scalar::from_int(2), Scalar::from_int(4), Scalar::from_int(6)));
}

#[test]
fn vector3_dot() {
    let a = Vector3::new(Scalar::from_int(1), Scalar::from_int(2), Scalar::from_int(3));
    let b = Vector3::new(Scalar::from_int(4), Scalar::from_int(5), Scalar::from_int(6));
    assert_eq!(Vector3::dot(&a, &b), Scalar::from_int(32));
}

#[test]
fn vector3_length() {
    let v = Vector3::new(Scalar::from_int(1), Scalar::from_int(0), Scalar::from_int(0));
    assert_eq!(Vector3::length(&v), Some(Scalar::from_int(1)));
}

#[test]
fn vector3_normalize() {
    let v = Vector3::new(Scalar::from_int(2), Scalar::from_int(0), Scalar::from_int(0));
    assert_eq!(Vector3::normalize(&v), Some(Vector3::new(Scalar::from_int(1), Scalar::from_int(0), Scalar::from_int(0))));
}

#[test]
fn vector3_cross() {
    let a = Vector3::new(Scalar::from_int(1), Scalar::from_int(2), Scalar::from_int(3));
    let b = Vector3::new(Scalar::from_int(4), Scalar::from_int(5), Scalar::from_int(6));
    assert_eq!(Vector3::cross(&a, &b), Vector3::new(Scalar::from_int(-3), Scalar::from_int(6), Scalar::from_int(-3)));
}

#[test]
fn vector4_add() {
    let a = Vector4::new(Scalar::from_int(1), Scalar::from_int(2), Scalar::from_int(3), Scalar::from_int(4));
    let b = Vector4::new(Scalar::from_int(5), Scalar::from_int(6), Scalar::from_int(7), Scalar::from_int(8));
    assert_eq!(Vector4::add_vector_and_vector(&a, &b), Vector4::new(Scalar::from_int(6), Scalar::from_int(8), Scalar::from_int(10), Scalar::from_int(12)));
}

#[test]
fn vector4_add_assign() {
    let mut a = Vector4::new(Scalar::from_int(1), Scalar::from_int(2), Scalar::from_int(3), Scalar::from_int(4));
    let b = Vector4::new(Scalar::from_int(5), Scalar::from_int(6), Scalar::from_int(7), Scalar::from_int(8));
    a.add_assign(&b);
    assert_eq!(a, Vector4::new(Scalar::from_int(6), Scalar::from_int(8), Scalar::from_int(10), Scalar::from_int(12)));
}

#[test]
fn vector4_sub() {
    let a = Vector4::new(Scalar::from_int(1), Scalar::from_int(2), Scalar::from_int(3), Scalar::from_int(4));
    let b = Vector4::new(Scalar::from_int(5), Scalar::from_int(6), Scalar::from_int(7), Scalar::from_int(8));
    assert_eq!(Vector4::sub_vector_and_vector(&a, &b), Vector4::new(Scalar::from_int(-4), Scalar::from_int(-4), Scalar::from_int(-4), Scalar::from_int(-4)));
}

#[test]
fn vector4_sub_assign() {
    let mut a = Vector4::new(Scalar::from_int(1), Scalar::from_int(2), Scalar::from_int(3), Scalar::from_int(4));
    let b = Vector4::new(Scalar::from_int(5), Scalar::from_int(6), Scalar::from_int(7), Scalar::from_int(8));
    a.sub_assign(&b);
    assert_eq!(a, Vector4::new(Scalar::from_int(-4), Scalar::from_int(-4), Scalar::from_int(-4), Scalar::from_int(-4)));
}

#[test]
fn vector4_mul() {
    let v = Vector4::new(Scalar::from_int(1), Scalar::from_int(2), Scalar::from_int(3), Scalar::from_int(4));
    assert_eq!(Vector4::mul_vector_and_scalar(&v, &Scalar::from_int(2)), Vector4::new(Scalar::from_int(2), Scalar::from_int(4), Scalar::from_int(6), Scalar::from_int(8)));
}

#[test]
fn vector4_mul_assign() {
    let mut v = Vector4::new(Scalar::from_int(1), Scalar::from_int(2), Scalar::from_int(3), Scalar::from_int(4));
    v.mul_assign(&Scalar::from_int(2));
    assert_eq!(v, Vector4::new(Scalar::from_int(2), Scalar::from_int(4), Scalar::from_int(6), Scalar::from_int(8)));
}

#[test]
fn vector4_dot() {
    let a = Vector4::new(Scalar::from_int(1), Scalar::from_int(2), Scalar::from_int(3), Scalar::from_int(4));
    let b = Vector4::new(Scalar::from_int(5), Scalar::from_int(6), Scalar::from_int(7), Scalar::from_int(8));
    assert_eq!(Vector4::dot(&a, &b), Scalar::from_int(70));
}

#[test]
fn vector4_length() {
    let v = Vector4::new(Scalar::from_int(1), Scalar::from_int(0), Scalar::from_int(0), Scalar::from_int(0));
    assert_eq!(Vector4::length(&v), Some(Scalar::from_int(1)));
}

#[test]
fn vector4_normalize() {
    let v = Vector4::new(Scalar::from_int(2), Scalar::from_int(0), Scalar::from_int(0), Scalar::from_int(0));
    assert_eq!(Vector4::normalize(&v), Some(Vector4::new(Scalar::from_int(1), Scalar::from_int(0), Scalar::from_int(0), Scalar::from_int(0))));
}
