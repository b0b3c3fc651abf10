//! Per-pixel vector lengths and the pointwise projection of a dual
//! variable pair onto the unit Euclidean ball.

use vstd::prelude::*;

use crate::bundle::{bv_div_matrix, bv_vec_len, RgbMatrices};
use crate::matrix::{mv_div, mv_max_one, mv_vec_len, Matrix};

verus! {

/// The per-pixel Euclidean length of the vectors whose two components are
/// drawn from `a` and `b`: `sqrt(a² + b²)` elementwise.
pub fn len_of_vectors(a: &Matrix, b: &Matrix) -> (r: Matrix)
    requires
        a@.same_shape(b@),
    ensures
        r@ == mv_vec_len(a@, b@),
{
    a.squared().add_exact(&b.squared()).sqrt_map()
}

/// The per-pixel Euclidean length of the vectors drawn from two bundles,
/// with the squared components summed across all channels before the
/// square root.
pub fn len_of_vectors_multichannel(a: &RgbMatrices, b: &RgbMatrices) -> (r: Matrix)
    requires
        a@.same_shape(b@),
    ensures
        r@ == bv_vec_len(a@, b@),
{
    proof {
        use_type_invariant(a);
        use_type_invariant(b);
    }
    let l = a.squared().add_exact(&b.squared());
    l.red().add_exact(l.green()).add_exact(l.blue()).sqrt_map()
}

/// The pointwise projection of the vector field `(a, b)` onto the unit
/// Euclidean ball: each component is divided by `max(1, length)`, so
/// vectors inside the ball pass through unchanged.
pub fn ball_projection(a: &Matrix, b: &Matrix) -> (r: (Matrix, Matrix))
    requires
        a@.same_shape(b@),
    ensures
        ({
            let mx = mv_max_one(mv_vec_len(a@, b@));
            r.0@ == mv_div(a@, mx) && r.1@ == mv_div(b@, mx)
        }),
{
    let mx = len_of_vectors(a, b).max_one_map();
    (a.div_exact(&mx), b.div_exact(&mx))
}

/// The pointwise projection of a bundle pair onto the unit Euclidean
/// ball, coupled across channels: one per-pixel length is computed over
/// all channels and the same divisor rescales every channel.
pub fn ball_projection_multichannel(a: &RgbMatrices, b: &RgbMatrices) -> (r: (
    RgbMatrices,
    RgbMatrices,
))
    requires
        a@.same_shape(b@),
    ensures
        ({
            let mx = mv_max_one(bv_vec_len(a@, b@));
            r.0@ == bv_div_matrix(a@, mx) && r.1@ == bv_div_matrix(b@, mx)
        }),
{
    proof {
        use_type_invariant(a);
        use_type_invariant(b);
    }
    let mx = len_of_vectors_multichannel(a, b).max_one_map();
    (a.div_matrix_exact(&mx), b.div_matrix_exact(&mx))
}

} // verus!
