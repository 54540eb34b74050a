//! The two color representations: gamma-corrected RGB as it appears in hex
//! triplets, and a fixed-point rendering of the perceptual (Lab) space in
//! which distances are compared.

use vstd::prelude::*;

verus! {

/// A color in gamma-corrected standard RGB, one byte per channel.
#[derive(Clone, Copy, PartialEq, Eq, Structural, Debug)]
pub struct Rgb {
    pub red: u8,
    pub green: u8,
    pub blue: u8,
}

/// Every perceptual coordinate stays within this bound; it is wide enough for
/// any fixed-point rendering of CIE Lab (L in [0, 100], a and b within about
/// [-128, 128]) scaled by up to two to the twentieth.
pub const LAB_COORD_BOUND: i64 = 0x4000_0000;

/// A color in a perceptually uniform space: lightness `l` and the two chroma
/// axes `a` and `b`, as fixed-point integers. Values are produced outside the
/// library by converting an `Rgb` through the standard sRGB -> XYZ -> CIE Lab
/// transform and scaling each axis by a fixed factor.
#[derive(Clone, Copy, PartialEq, Eq, Structural, Debug)]
pub struct Lab {
    pub l: i64,
    pub a: i64,
    pub b: i64,
}

impl Lab {
    /// The coordinates are small enough that squared distances fit in `u64`.
    pub open spec fn wf(self) -> bool {
        &&& -LAB_COORD_BOUND <= self.l <= LAB_COORD_BOUND
        &&& -LAB_COORD_BOUND <= self.a <= LAB_COORD_BOUND
        &&& -LAB_COORD_BOUND <= self.b <= LAB_COORD_BOUND
    }
}

/// Squared Euclidean distance between two perceptual colors. No square root
/// is taken: only the relative ordering of distances matters.
pub open spec fn dist_sq_spec(x: Lab, y: Lab) -> int {
    (x.l - y.l) * (x.l - y.l) + (x.a - y.a) * (x.a - y.a) + (x.b - y.b) * (x.b - y.b)
}

proof fn lemma_square_bound(d: int, m: int)
    requires
        0 <= m,
        -m <= d <= m,
    ensures
        0 <= d * d <= m * m,
{
    assert(0 <= d * d <= m * m) by (nonlinear_arith)
        requires
            0 <= m,
            -m <= d <= m,
    ;
}

/// Computes the squared distance between two well-formed perceptual colors.
pub fn dist_sq(x: &Lab, y: &Lab) -> (d: u64)
    requires
        x.wf(),
        y.wf(),
    ensures
        d == dist_sq_spec(*x, *y),
{
    proof {
        lemma_square_bound(x.l - y.l, 2 * LAB_COORD_BOUND as int);
        lemma_square_bound(x.a - y.a, 2 * LAB_COORD_BOUND as int);
        lemma_square_bound(x.b - y.b, 2 * LAB_COORD_BOUND as int);
    }
    let dl = x.l - y.l;
    let da = x.a - y.a;
    let db = x.b - y.b;
    (dl * dl) as u64 + (da * da) as u64 + (db * db) as u64
}

/// A perceptual color is at distance zero from itself.
pub proof fn lemma_dist_self_zero(c: Lab)
    ensures
        dist_sq_spec(c, c) == 0,
{
}

} // verus!
