use sofars::scalar::Scalar;
use sofars::vm::{cr, pdp, ppp, ppsp, pxp, rxr};

#[test]
fn integer_scalar_is_exact_in_range() {
    assert_eq!(3i64.plus(4), 7);
    assert_eq!(3i64.minus(4), -1);
    assert_eq!(6i64.times(-7), -42);
}

#[test]
fn integer_scalar_wraps_out_of_range() {
    assert_eq!(i64::MAX.plus(1), i64::MIN);
    assert_eq!(i64::MIN.minus(1), i64::MAX);
}

#[test]
fn scalar_product() {
    assert_eq!(pdp(&[1i64, 2, 3], &[4, -5, 6]), 12);
    assert_eq!(pdp(&[0i64, 0, 0], &[4, -5, 6]), 0);
}

#[test]
fn vector_product_of_basis_vectors() {
    let x = [1i64, 0, 0];
    let y = [0i64, 1, 0];
    let z = [0i64, 0, 1];
    assert_eq!(pxp(&x, &y), z);
    assert_eq!(pxp(&y, &z), x);
    assert_eq!(pxp(&z, &x), y);
    assert_eq!(pxp(&y, &x), [0, 0, -1]);
}

#[test]
fn vector_product_general() {
    assert_eq!(pxp(&[2i64, 3, 4], &[5, 6, 7]), [-3, 6, -3]);
    assert_eq!(pxp(&[2i64, 3, 4], &[2, 3, 4]), [0, 0, 0]);
}

#[test]
fn vector_sums() {
    assert_eq!(ppp(&[1i64, 2, 3], &[10, 20, 30]), [11, 22, 33]);
    assert_eq!(ppsp(&[1i64, 2, 3], 2, &[10, 20, 30]), [21, 42, 63]);
}

#[test]
fn matrix_copy() {
    let m = [[1i64, 2, 3], [4, 5, 6], [7, 8, 9]];
    assert_eq!(cr(&m), m);
}

#[test]
fn matrix_product() {
    let a = [[1i64, 2, 3], [4, 5, 6], [7, 8, 9]];
    let b = [[9i64, 8, 7], [6, 5, 4], [3, 2, 1]];
    assert_eq!(rxr(&a, &b), [[30, 24, 18], [84, 69, 54], [138, 114, 90]]);
    assert_eq!(rxr(&b, &a), [[90, 114, 138], [54, 69, 84], [18, 24, 30]]);
}

#[test]
fn matrix_product_written_over_operand() {
    let mut a = [[0i64, -1, 0], [1, 0, 0], [0, 0, 1]];
    a = rxr(&a, &a);
    assert_eq!(a, [[-1, 0, 0], [0, -1, 0], [0, 0, 1]]);
}
