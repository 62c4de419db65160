use vstd::prelude::*;

use crate::scalar::Scalar;

verus! {

/// The polynomial `cs[0] + cs[1] t + ... + cs[n-1] t^(n-1)` in nested form:
/// `cs[0] + (cs[1] + (... + cs[n-1] * t ...) * t) * t`.
pub open spec fn horner<T: Scalar>(cs: Seq<T>, t: T) -> T
    recommends
        cs.len() >= 1,
    decreases cs.len(),
{
    if cs.len() <= 1 {
        cs[0]
    } else {
        cs[0].sum(horner(cs.drop_first(), t).product(t))
    }
}

/// Evaluates the polynomial with coefficients `cs` (constant term first) at
/// `t` by nested multiplication, innermost coefficient first.
pub fn polyval<T: Scalar>(cs: &[T], t: T) -> (r: T)
    requires
        cs@.len() >= 1,
    ensures
        r == horner(cs@, t),
{
    let n = cs.len();
    let mut acc = cs[n - 1];
    let mut i: usize = n - 1;
    assert(cs@.subrange(i as int, n as int) =~= seq![cs@[n - 1]]);
    while i > 0
        invariant
            n == cs@.len(),
            0 <= i < n,
            acc == horner(cs@.subrange(i as int, n as int), t),
        decreases i,
    {
        i = i - 1;
        assert(cs@.subrange(i as int, n as int).drop_first() =~= cs@.subrange(
            (i + 1) as int,
            n as int,
        ));
        acc = cs[i].plus(acc.times(t));
    }
    assert(cs@.subrange(0, n as int) =~= cs@);
    acc
}

} // verus!
