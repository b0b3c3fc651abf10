//! The named derivative operators of the two spatial axes.

use vstd::prelude::*;

use crate::bundle::{bv_neg_grad, bv_pos_grad, RgbMatrices};
use crate::matrix::{mv_neg_grad, mv_pos_grad, Matrix};

verus! {

/// Trait for the wrapping finite differences of the two spatial axes and
/// their adjoints (the transposed differences).
pub trait Derivative: Sized {
    /// Whether both spatial axes are long enough to differentiate.
    spec fn diff_ready(&self) -> bool;

    /// The forward difference along the x axis (axis 0), wrapping.
    fn dx(&self) -> Self
        requires
            self.diff_ready(),
    ;

    /// The transposed (backward) difference along the x axis, wrapping.
    fn dx_transposed(&self) -> Self
        requires
            self.diff_ready(),
    ;

    /// The forward difference along the y axis (axis 1), wrapping.
    fn dy(&self) -> Self
        requires
            self.diff_ready(),
    ;

    /// The transposed (backward) difference along the y axis, wrapping.
    fn dy_transposed(&self) -> Self
        requires
            self.diff_ready(),
    ;
}

impl Derivative for Matrix {
    /// Differentiation asks for at least two samples along each axis.
    open spec fn diff_ready(&self) -> bool {
        self@.width >= 2 && self@.height >= 2
    }

    fn dx(&self) -> (r: Matrix)
        ensures
            r@ == mv_pos_grad(self@, 0),
    {
        self.pos_grad_exact(0)
    }

    fn dx_transposed(&self) -> (r: Matrix)
        ensures
            r@ == mv_neg_grad(self@, 0),
    {
        self.neg_grad_exact(0)
    }

    fn dy(&self) -> (r: Matrix)
        ensures
            r@ == mv_pos_grad(self@, 1),
    {
        self.pos_grad_exact(1)
    }

    fn dy_transposed(&self) -> (r: Matrix)
        ensures
            r@ == mv_neg_grad(self@, 1),
    {
        self.neg_grad_exact(1)
    }
}

impl Derivative for RgbMatrices {
    /// Differentiation asks for at least two samples along each axis.
    open spec fn diff_ready(&self) -> bool {
        self@.red.width >= 2 && self@.red.height >= 2
    }

    fn dx(&self) -> (r: RgbMatrices)
        ensures
            r@ == bv_pos_grad(self@, 0),
    {
        self.pos_grad_exact(0)
    }

    fn dx_transposed(&self) -> (r: RgbMatrices)
        ensures
            r@ == bv_neg_grad(self@, 0),
    {
        self.neg_grad_exact(0)
    }

    fn dy(&self) -> (r: RgbMatrices)
        ensures
            r@ == bv_pos_grad(self@, 1),
    {
        self.pos_grad_exact(1)
    }

    fn dy_transposed(&self) -> (r: RgbMatrices)
        ensures
            r@ == bv_neg_grad(self@, 1),
    {
        self.neg_grad_exact(1)
    }
}

} // verus!
