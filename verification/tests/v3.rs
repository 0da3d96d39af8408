use linalg3::v3::Vector3;

#[test]
fn test_ordering() {
    let v1 = Vector3::new(1, 2, 3);
    let v2 = Vector3::new(0, 1, 2);

    assert!(v1 > v2);
    assert!(v1 == v1 && v2 == v2);
    assert!(v2 < v1);
}

#[test]
fn ordering_incomparable() {
    // mixed-sign component differences: neither less, greater, nor equal
    let v1 = Vector3::new(1, 0, 0);
    let v2 = Vector3::new(0, 1, 0);
    assert_eq!(None, v1.partial_cmp(&v2));
    assert!(!(v1 < v2) && !(v1 > v2) && v1 != v2);
}

#[test]
fn vector_add_sub_neg() {
    let u = Vector3::new(1, -2, 3);
    let v = Vector3::new(4, 5, -6);
    assert_eq!(Vector3::new(5, 3, -3), u.add(v));
    assert_eq!(Vector3::new(-3, -7, 9), u.sub(v));
    assert_eq!(Vector3::new(-1, 2, -3), u.neg());
}

#[test]
fn vector_assign_ops() {
    let mut u = Vector3::new(1, 2, 3);
    u.add_assign(Vector3::new(10, 20, 30));
    assert_eq!(Vector3::new(11, 22, 33), u);
    u.sub_assign(Vector3::new(1, 2, 3));
    assert_eq!(Vector3::new(10, 20, 30), u);
    u.mul_assign(3);
    assert_eq!(Vector3::new(30, 60, 90), u);
    u.div_assign(10);
    assert_eq!(Vector3::new(3, 6, 9), u);
}

#[test]
fn vector_scalar_ops() {
    let u = Vector3::new(3, -4, 5);
    assert_eq!(Vector3::new(6, -8, 10), u.mul_scalar(2));
    assert_eq!(Vector3::new(1, -2, 2), u.div_scalar(2));
}

#[test]
fn dot_and_len2() {
    let u = Vector3::new(1, 2, 3);
    let v = Vector3::new(4, -5, 6);
    assert_eq!(12, u.dot(v));
    assert_eq!(14, u.len2());
}

#[test]
fn cross_product() {
    let u = Vector3::new(1, 2, 3);
    let v = Vector3::new(4, 5, 6);
    assert_eq!(Vector3::new(-3, 6, -3), u.crossp(&v));
    // anti-commutativity on the same pair
    assert_eq!(Vector3::new(3, -6, 3), v.crossp(&u));
}

#[test]
fn projection() {
    let v = Vector3::new(3, 4, 0);
    let axis = Vector3::new(1, 0, 0);
    assert_eq!(Vector3::new(3, 0, 0), v.proj(&axis));
}

#[test]
fn projection_idempotent() {
    // the first projection truncates; projecting again changes nothing
    let v = Vector3::new(5, 5, 0);
    let axis = Vector3::new(2, 0, 0);
    let p = v.proj(&axis);
    assert_eq!(Vector3::new(4, 0, 0), p);
    assert_eq!(p, p.proj(&axis));
}

#[test]
fn random_vector_in_range() {
    let v = Vector3::new_random(10, 2);
    assert!(2 <= v.x && v.x < 10);
    assert!(2 <= v.y && v.y < 10);
    assert!(2 <= v.z && v.z < 10);
}

#[test]
fn random_vector_single_value_range() {
    // the half-open range [0, 1) holds one value only
    let v = Vector3::new_random(1, 0);
    assert_eq!(Vector3::new(0, 0, 0), v);
}
