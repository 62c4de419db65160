use vstd::prelude::*;

use crate::scalar::Scalar;

verus! {

/// A 3-vector.
pub type Vec3<T> = [T; 3];

/// A 3x3 matrix, stored by rows: `m[i][j]` is row `i`, column `j`.
pub type Mat3<T> = [[T; 3]; 3];

/// Scalar product, summed from the first component to the last.
pub open spec fn dot<T: Scalar>(a: Vec3<T>, b: Vec3<T>) -> T {
    a[0].product(b[0]).sum(a[1].product(b[1])).sum(a[2].product(b[2]))
}

/// Component `i` of the right-handed vector product `a x b`.
pub open spec fn cross_at<T: Scalar>(a: Vec3<T>, b: Vec3<T>, i: int) -> T {
    if i == 0 {
        a[1].product(b[2]).difference(a[2].product(b[1]))
    } else if i == 1 {
        a[2].product(b[0]).difference(a[0].product(b[2]))
    } else {
        a[0].product(b[1]).difference(a[1].product(b[0]))
    }
}

/// The vector product `a x b`.
pub open spec fn cross<T: Scalar>(a: Vec3<T>, b: Vec3<T>) -> Vec3<T> {
    [cross_at(a, b, 0), cross_at(a, b, 1), cross_at(a, b, 2)]
}

/// The vector sum `a + b`.
pub open spec fn vsum<T: Scalar>(a: Vec3<T>, b: Vec3<T>) -> Vec3<T> {
    [a[0].sum(b[0]), a[1].sum(b[1]), a[2].sum(b[2])]
}

/// Entry `(i, j)` of the matrix product `a . b`: row `i` of `a` against
/// column `j` of `b`, summed in the order of the inner index.
pub open spec fn product_at<T: Scalar>(a: Mat3<T>, b: Mat3<T>, i: int, j: int) -> T {
    a[i][0].product(b[0][j]).sum(a[i][1].product(b[1][j])).sum(
        a[i][2].product(b[2][j]),
    )
}

/// `c` is the matrix product `a . b` (apply `b` first, then `a`).
pub open spec fn is_product<T: Scalar>(c: Mat3<T>, a: Mat3<T>, b: Mat3<T>) -> bool {
    forall|i: int, j: int| 0 <= i < 3 && 0 <= j < 3 ==> #[trigger] c[i][j] == product_at(a, b, i, j)
}

/// Scalar product of two 3-vectors.
pub fn pdp<T: Scalar>(a: &Vec3<T>, b: &Vec3<T>) -> (r: T)
    ensures
        r == dot(*a, *b),
{
    a[0].times(b[0]).plus(a[1].times(b[1])).plus(a[2].times(b[2]))
}

/// Right-handed vector product `a x b`.
pub fn pxp<T: Scalar>(a: &Vec3<T>, b: &Vec3<T>) -> (r: Vec3<T>)
    ensures
        r == cross(*a, *b),
{
    let x = a[1].times(b[2]).minus(a[2].times(b[1]));
    let y = a[2].times(b[0]).minus(a[0].times(b[2]));
    let z = a[0].times(b[1]).minus(a[1].times(b[0]));
    [x, y, z]
}

/// Sum of two 3-vectors.
pub fn ppp<T: Scalar>(a: &Vec3<T>, b: &Vec3<T>) -> (r: Vec3<T>)
    ensures
        r == vsum(*a, *b),
{
    [a[0].plus(b[0]), a[1].plus(b[1]), a[2].plus(b[2])]
}

/// `a + s * b`: a vector plus a scaled vector.
pub fn ppsp<T: Scalar>(a: &Vec3<T>, s: T, b: &Vec3<T>) -> (r: Vec3<T>)
    ensures
        forall|i: int| 0 <= i < 3 ==> #[trigger] r[i] == a[i].sum(s.product(b[i])),
{
    [a[0].plus(s.times(b[0])), a[1].plus(s.times(b[1])), a[2].plus(s.times(b[2]))]
}

/// Copy of a matrix.
pub fn cr<T: Scalar>(r: &Mat3<T>) -> (c: Mat3<T>)
    ensures
        c == *r,
{
    *r
}

/// Entry `(i, j)` of `a . b`.
fn rxr_entry<T: Scalar>(a: &Mat3<T>, b: &Mat3<T>, i: usize, j: usize) -> (r: T)
    requires
        i < 3,
        j < 3,
    ensures
        r == product_at(*a, *b, i as int, j as int),
{
    a[i][0].times(b[0][j]).plus(a[i][1].times(b[1][j])).plus(a[i][2].times(b[2][j]))
}

/// Matrix product `a . b`, formed in fresh storage so that the result may be
/// written back over either operand.
pub fn rxr<T: Scalar>(a: &Mat3<T>, b: &Mat3<T>) -> (c: Mat3<T>)
    ensures
        is_product(c, *a, *b),
{
    let c = [
        [rxr_entry(a, b, 0, 0), rxr_entry(a, b, 0, 1), rxr_entry(a, b, 0, 2)],
        [rxr_entry(a, b, 1, 0), rxr_entry(a, b, 1, 1), rxr_entry(a, b, 1, 2)],
        [rxr_entry(a, b, 2, 0), rxr_entry(a, b, 2, 1), rxr_entry(a, b, 2, 2)],
    ];
    assert forall|i: int, j: int| 0 <= i < 3 && 0 <= j < 3 implies #[trigger] c[i][j]
        == product_at(*a, *b, i, j) by {
        if i == 0 {
            if j == 0 {
            } else if j == 1 {
            } else {
            }
        }
    }
    c
}

/// The matrix product is a function of its operands: two matrices that are
/// both `a . b` are the same matrix.
pub proof fn lemma_product_unique<T: Scalar>(c1: Mat3<T>, c2: Mat3<T>, a: Mat3<T>, b: Mat3<T>)
    requires
        is_product(c1, a, b),
        is_product(c2, a, b),
    ensures
        c1 == c2,
{
    assert forall|i: int| 0 <= i < 3 implies #[trigger] c1[i] == c2[i] by {
        assert(c1[i]@ =~= c2[i]@);
    }
    assert(c1@ =~= c2@);
}

} // verus!
