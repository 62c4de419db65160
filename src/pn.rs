use vstd::prelude::*;

use crate::scalar::Scalar;
use crate::vm::{cr, is_product, lemma_product_unique, rxr, Mat3};

verus! {

/// The six results of the bias-precession-nutation chain for one date.
#[derive(Clone, Copy, Debug, PartialEq)]
pub struct PnMatrices<T> {
    /// Mean obliquity, adjusted for the precession-rate correction.
    pub epsa: T,
    /// Frame bias: GCRS to J2000.0 mean equator and equinox.
    pub rb: Mat3<T>,
    /// Precession: J2000.0 to mean equator and equinox of date.
    pub rp: Mat3<T>,
    /// Bias then precession: GCRS to mean of date.
    pub rbp: Mat3<T>,
    /// Nutation: mean of date to true of date.
    pub rn: Mat3<T>,
    /// Bias, precession, then nutation: GCRS to true of date.
    pub rbpn: Mat3<T>,
}

/// What the chain returns, given the raw mean obliquity `obl`, the
/// obliquity-rate adjustment `depspr`, the three bias/precession matrices
/// and the nutation matrix `rn` built for the adjusted obliquity.
pub open spec fn is_chain<T: Scalar>(
    r: PnMatrices<T>,
    obl: T,
    depspr: T,
    rb: Mat3<T>,
    rp: Mat3<T>,
    rbp: Mat3<T>,
    rn: Mat3<T>,
) -> bool {
    &&& r.epsa == obl.sum(depspr)
    &&& r.rb == rb
    &&& r.rp == rp
    &&& r.rbp == rbp
    &&& r.rn == rn
    &&& is_product(r.rbpn, rn, rbp)
}

/// Bias/precession/nutation chain, IAU 2000.
///
/// `obl` is the mean obliquity of the date and `depspr` the obliquity-rate
/// adjustment of the precession model; their sum is the adjusted obliquity
/// `epsa`, and it is `epsa` that `numat` receives to build the nutation
/// matrix. `rb`, `rp` and `rbp` are the frame bias, precession and
/// bias-precession matrices of the date, passed through unchanged. The full
/// matrix is `rn . rbp`: bias first, then precession, then nutation.
///
/// Every result is a fresh value, so no result can share storage with an
/// argument or with another result.
pub fn pn00<T: Scalar, N: Fn(T) -> Mat3<T>>(
    obl: T,
    depspr: T,
    rb: &Mat3<T>,
    rp: &Mat3<T>,
    rbp: &Mat3<T>,
    numat: N,
) -> (r: PnMatrices<T>)
    requires
        forall|e: T| numat.requires((e,)),
    ensures
        numat.ensures((r.epsa,), r.rn),
        is_chain(r, obl, depspr, *rb, *rp, *rbp, r.rn),
{
    let epsa = obl.plus(depspr);
    let rbpw = cr(rbp);
    let rnw = numat(epsa);
    let rbpn = rxr(&rnw, &rbpw);
    PnMatrices { epsa, rb: cr(rb), rp: cr(rp), rbp: cr(&rbpw), rn: cr(&rnw), rbpn }
}

/// The chain is a pure function of its inputs: for the same obliquity,
/// adjustment, bias/precession matrices and nutation matrix, any two results
/// are identical in every field.
pub proof fn lemma_pn00_deterministic<T: Scalar>(
    r1: PnMatrices<T>,
    r2: PnMatrices<T>,
    obl: T,
    depspr: T,
    rb: Mat3<T>,
    rp: Mat3<T>,
    rbp: Mat3<T>,
    rn: Mat3<T>,
)
    requires
        is_chain(r1, obl, depspr, rb, rp, rbp, rn),
        is_chain(r2, obl, depspr, rb, rp, rbp, rn),
    ensures
        r1 == r2,
{
    lemma_product_unique(r1.rbpn, r2.rbpn, rn, rbp);
}

} // verus!
