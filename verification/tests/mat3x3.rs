use linalg3::mat3x3::Matrix3x3;

#[test]
fn matrix_multiply() {
    let m1 = Matrix3x3::unit_matrix();
    let m2 = Matrix3x3 { m: [[3, 2, 5], [2, -1, -3], [4, -2, 3]] };
    assert_eq!(m2, m1.mul(m2));
    assert_eq!(m2, m2.mul(m1));
}

#[test]
fn solve_lin_eq() {
    let m2 = Matrix3x3 { m: [[1, 1, 1], [0, 1, 1], [1, 0, -1]] };
    let v: [i64; 3] = [2, 2, 2];
    let s: [i64; 3] = [0, 4, -2];
    assert_eq!(s, m2.solve(v).unwrap());
}

#[test]
fn solve_lin_eq_inf() {
    let m2 = Matrix3x3 { m: [[1, 1, 1], [0, 1, 1], [0, 0, 0]] };
    let v: [i64; 3] = [2, 2, 2];
    assert_eq!(None, m2.solve(v));
}

#[test]
fn solve_round_trip() {
    // the right-hand side is m * x for x = (1, 2, 3); solving recovers x
    let m = Matrix3x3 { m: [[1, 1, 1], [0, 1, 1], [1, 0, -1]] };
    let b: [i64; 3] = [6, 5, -2];
    assert_eq!([1, 2, 3], m.solve(b).unwrap());
}

#[test]
fn matrix_add_sub() {
    let m1 = Matrix3x3 { m: [[1, 2, 3], [4, 5, 6], [7, 8, 9]] };
    let m2 = Matrix3x3 { m: [[9, 8, 7], [6, 5, 4], [3, 2, 1]] };
    let all_ten = Matrix3x3 { m: [[10, 10, 10], [10, 10, 10], [10, 10, 10]] };
    assert_eq!(all_ten, m1.add(m2));
    assert_eq!(m1, all_ten.sub(m2));
}

#[test]
fn matrix_scalar_mul() {
    let m = Matrix3x3 { m: [[1, -2, 3], [0, 5, -6], [7, 0, 9]] };
    let r = m.mul_scalar(-3);
    assert_eq!(Matrix3x3 { m: [[-3, 6, -9], [0, -15, 18], [-21, 0, -27]] }, r);
}

#[test]
fn matrix_product_general() {
    let m1 = Matrix3x3 { m: [[1, 2, 0], [0, 1, 1], [1, 0, 1]] };
    let m2 = Matrix3x3 { m: [[1, 0, 2], [3, 1, 0], [0, 1, 1]] };
    let expected = Matrix3x3 { m: [[7, 2, 2], [3, 2, 1], [1, 1, 3]] };
    assert_eq!(expected, m1.mul(m2));
}

#[test]
fn determinant_values() {
    let unit = Matrix3x3::unit_matrix();
    assert_eq!(1, unit.determinant());
    let m = Matrix3x3 { m: [[1, 2, 3], [4, 5, 6], [7, 8, 10]] };
    assert_eq!(-3, m.determinant());
    let singular = Matrix3x3 { m: [[1, 1, 1], [0, 1, 1], [0, 0, 0]] };
    assert_eq!(0, singular.determinant());
}
