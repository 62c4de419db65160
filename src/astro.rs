use vstd::prelude::*;

use crate::scalar::Scalar;
use crate::vm::{cross, cross_at, dot, pdp, ppp, ppsp, pxp, vsum, Vec3};

verus! {

/// Light deflection by a single solar-system body.
///
/// `p` is the direction from observer to source, `q` from body to source and
/// `e` from body to observer, all unit vectors. `weight` turns the cosine-like
/// term `q . (q + e)` into the deflection weight `w` (for a body of mass `bm`
/// at distance `em`, with limiter `dlim`: `bm * srs / em / max(q . (q + e), dlim)`).
/// The result is `p + w * (p x (e x q))`, not renormalised.
///
/// Applied once per body; to accumulate several bodies, apply in decreasing
/// order of distance from the observer.
pub fn ld<T: Scalar, W: Fn(T) -> T>(
    p: &Vec3<T>,
    q: &Vec3<T>,
    e: &Vec3<T>,
    weight: W,
) -> (r: Vec3<T>)
    requires
        forall|c: T| weight.requires((c,)),
    ensures
        exists|w: T|
            {
                &&& weight.ensures((dot(*q, vsum(*q, *e)),), w)
                &&& forall|i: int|
                    0 <= i < 3 ==> #[trigger] r[i] == p[i].sum(
                        w.product(cross_at(*p, cross(*e, *q), i)),
                    )
            },
{
    let qpe = ppp(q, e);
    let qdqpe = pdp(q, &qpe);
    let w = weight(qdqpe);
    let eq = pxp(e, q);
    let peq = pxp(p, &eq);
    let p1 = ppsp(p, w, &peq);
    p1
}

} // verus!
