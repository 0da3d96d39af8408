use linalg3::complex::Complex;

#[test]
fn multiplication() {
    let c = Complex { re: 3, im: 1 };
    let r = c.mul(c);
    assert_eq!(r.re, 8);
    assert_eq!(r.im, 6);
}

#[test]
fn division() {
    let c = Complex { re: 3, im: 1 };
    let r = c.div(c);
    assert_eq!(r.re, 1);
    assert_eq!(r.im, 0);
}

#[test]
fn addition() {
    let c1 = Complex { re: 3, im: 1 };
    let c2 = Complex { re: 2, im: 4 };
    let r = c1.add(c2);
    assert_eq!(r.re, 5);
    assert_eq!(r.im, 5);
}

#[test]
fn scalar_mul() {
    let c = Complex { re: 3, im: 1 };
    let r = c.mul_scalar(8);
    assert_eq!(r.re, 24);
    assert_eq!(r.im, 8);
}

#[test]
fn subtraction() {
    let c1 = Complex { re: 3, im: 1 };
    let c2 = Complex { re: 2, im: 4 };
    let r = c1.sub(c2);
    assert_eq!(r.re, 1);
    assert_eq!(r.im, -3);
}

#[test]
fn scalar_div() {
    let c = Complex { re: 9, im: -7 };
    let r = c.div_scalar(2);
    assert_eq!(r.re, 4);
    assert_eq!(r.im, -3);
}

#[test]
fn division_by_self_is_unit() {
    let c = Complex { re: 2, im: -5 };
    let r = c.div(c);
    assert_eq!(r.re, 1);
    assert_eq!(r.im, 0);
}

#[test]
fn division_general() {
    // (7 + 1i) / (2 + 1i): conjugate ratio over modulus 5
    let a = Complex { re: 7, im: 1 };
    let b = Complex { re: 2, im: 1 };
    let r = a.div(b);
    assert_eq!(r.re, 3);
    assert_eq!(r.im, -1);
}
