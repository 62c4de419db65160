use vstd::prelude::*;

verus! {

/// The number system in which vectors and rotation matrices are combined.
///
/// Each operation is a function of its operands alone: the same operands
/// always give the same result. Nothing else is assumed (no associativity,
/// no commutativity), so whatever is proved over this trait holds for exact
/// integers and for rounded machine arithmetic alike.
pub trait Scalar: Copy + Sized {
    spec fn sum(self, o: Self) -> Self;

    spec fn difference(self, o: Self) -> Self;

    spec fn product(self, o: Self) -> Self;

    fn plus(self, o: Self) -> (r: Self)
        ensures
            r == self.sum(o),
    ;

    fn minus(self, o: Self) -> (r: Self)
        ensures
            r == self.difference(o),
    ;

    fn times(self, o: Self) -> (r: Self)
        ensures
            r == self.product(o),
    ;
}

/// Integers modulo 2^64: exact for entries that stay in range, such as the
/// signed permutation matrices that rotate by quarter turns.
impl Scalar for i64 {
    open spec fn sum(self, o: i64) -> i64 {
        vstd::wrapping::i64_specs::wrapping_add(self, o)
    }

    open spec fn difference(self, o: i64) -> i64 {
        vstd::wrapping::i64_specs::wrapping_sub(self, o)
    }

    open spec fn product(self, o: i64) -> i64 {
        vstd::wrapping::i64_specs::wrapping_mul(self, o)
    }

    fn plus(self, o: i64) -> (r: i64) {
        self.wrapping_add(o)
    }

    fn minus(self, o: i64) -> (r: i64) {
        self.wrapping_sub(o)
    }

    fn times(self, o: i64) -> (r: i64) {
        self.wrapping_mul(o)
    }
}

} // verus!
