use sofars::poly::polyval;

#[test]
fn nested_evaluation() {
    assert_eq!(polyval(&[1i64, 2, 3], 10), 321);
    assert_eq!(polyval(&[-4i64, 0, 0, 2], 3), 50);
}

#[test]
fn constant_polynomial() {
    assert_eq!(polyval(&[7i64], 1000), 7);
}

#[test]
fn constant_term_at_zero() {
    assert_eq!(polyval(&[84381i64, -46, -1, 2], 0), 84381);
}
