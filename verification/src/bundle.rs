//! A bundle of exactly three same-shape matrices, one per color channel,
//! with arithmetic lifted elementwise across the channels.

use vstd::prelude::*;

use crate::Error;
use crate::matrix::{
    mv_add, mv_div, mv_mul, mv_neg_grad, mv_pos_grad, mv_powi, mv_scale, mv_sqrt, mv_sub,
    mv_weighted_average, sum_sq, Matrix, MatrixView,
};
use crate::scalar::{add_bits, add_bits_of, sqrt_bits, sqrt_bits_of};

verus! {

/// The mathematical content of a bundle: one matrix view per channel.
#[verifier::ext_equal]
pub ghost struct BundleView {
    pub red: MatrixView,
    pub green: MatrixView,
    pub blue: MatrixView,
}

impl BundleView {
    /// A bundle view is well shaped when its channels share one shape.
    pub open spec fn channels_same_shape(self) -> bool {
        self.red.same_shape(self.green) && self.red.same_shape(self.blue)
    }

    /// The common width of the channels.
    pub open spec fn width(self) -> nat {
        self.red.width
    }

    /// The common height of the channels.
    pub open spec fn height(self) -> nat {
        self.red.height
    }

    /// Whether two bundles have one shape.
    pub open spec fn same_shape(self, other: BundleView) -> bool {
        self.red.same_shape(other.red)
    }
}

/// The channelwise sum of two same-shape bundles.
pub open spec fn bv_add(a: BundleView, b: BundleView) -> BundleView {
    BundleView {
        red: mv_add(a.red, b.red),
        green: mv_add(a.green, b.green),
        blue: mv_add(a.blue, b.blue),
    }
}

/// The channelwise difference of two same-shape bundles.
pub open spec fn bv_sub(a: BundleView, b: BundleView) -> BundleView {
    BundleView {
        red: mv_sub(a.red, b.red),
        green: mv_sub(a.green, b.green),
        blue: mv_sub(a.blue, b.blue),
    }
}

/// The channelwise product of two same-shape bundles.
pub open spec fn bv_mul(a: BundleView, b: BundleView) -> BundleView {
    BundleView {
        red: mv_mul(a.red, b.red),
        green: mv_mul(a.green, b.green),
        blue: mv_mul(a.blue, b.blue),
    }
}

/// The channelwise quotient of two same-shape bundles.
pub open spec fn bv_div(a: BundleView, b: BundleView) -> BundleView {
    BundleView {
        red: mv_div(a.red, b.red),
        green: mv_div(a.green, b.green),
        blue: mv_div(a.blue, b.blue),
    }
}

/// Every channel divided elementwise by the one matrix `m`.
pub open spec fn bv_div_matrix(a: BundleView, m: MatrixView) -> BundleView {
    BundleView { red: mv_div(a.red, m), green: mv_div(a.green, m), blue: mv_div(a.blue, m) }
}

/// Every channel scaled elementwise by the scalar `s` on the left.
pub open spec fn bv_scale(s: u64, a: BundleView) -> BundleView {
    BundleView { red: mv_scale(s, a.red), green: mv_scale(s, a.green), blue: mv_scale(s, a.blue) }
}

/// The channelwise forward wrapping difference along an axis.
pub open spec fn bv_pos_grad(a: BundleView, axis: int) -> BundleView {
    BundleView {
        red: mv_pos_grad(a.red, axis),
        green: mv_pos_grad(a.green, axis),
        blue: mv_pos_grad(a.blue, axis),
    }
}

/// The channelwise backward wrapping difference along an axis.
pub open spec fn bv_neg_grad(a: BundleView, axis: int) -> BundleView {
    BundleView {
        red: mv_neg_grad(a.red, axis),
        green: mv_neg_grad(a.green, axis),
        blue: mv_neg_grad(a.blue, axis),
    }
}

/// The channelwise weighted average pulling `v` back towards `u0`.
pub open spec fn bv_weighted_average(u0: BundleView, v: BundleView, tau: u64, lambda: u64) -> BundleView {
    BundleView {
        red: mv_weighted_average(u0.red, v.red, tau, lambda),
        green: mv_weighted_average(u0.green, v.green, tau, lambda),
        blue: mv_weighted_average(u0.blue, v.blue, tau, lambda),
    }
}

/// The Euclidean norm of a bundle: the square root of the channel sums of
/// squares added red first, then green, then blue.
pub open spec fn bv_norm(a: BundleView) -> u64 {
    sqrt_bits_of(
        add_bits_of(add_bits_of(sum_sq(a.red.elems), sum_sq(a.green.elems)), sum_sq(a.blue.elems)),
    )
}

/// The per-pixel length of the two-component vector field `(a, b)` with
/// the squared components summed across all channels before the root.
pub open spec fn bv_vec_len(a: BundleView, b: BundleView) -> MatrixView {
    let l = bv_add(bv_mul(a, a), bv_mul(b, b));
    mv_sqrt(mv_add(mv_add(l.red, l.green), l.blue))
}

/// Three same-shape matrices, one per color channel.
#[derive(Debug, PartialEq, Eq)]
pub struct RgbMatrices {
    red: Matrix,
    green: Matrix,
    blue: Matrix,
}

impl View for RgbMatrices {
    type V = BundleView;

    closed spec fn view(&self) -> BundleView {
        BundleView { red: self.red@, green: self.green@, blue: self.blue@ }
    }
}

impl RgbMatrices {
    #[verifier::type_invariant]
    pub(crate) open spec fn type_inv(self) -> bool {
        self@.channels_same_shape()
    }

    /// The channelwise forward wrapping difference along an axis whose
    /// length and bound were already checked.
    pub(crate) fn pos_grad_exact(&self, axis: usize) -> (r: RgbMatrices)
        requires
            axis < 2,
            self@.red.axis_len(axis as int) >= 2,
        ensures
            r@ == bv_pos_grad(self@, axis as int),
    {
        proof {
            use_type_invariant(self);
        }
        RgbMatrices {
            red: self.red.pos_grad_exact(axis),
            green: self.green.pos_grad_exact(axis),
            blue: self.blue.pos_grad_exact(axis),
        }
    }

    /// The channelwise backward wrapping difference along an axis whose
    /// length and bound were already checked.
    pub(crate) fn neg_grad_exact(&self, axis: usize) -> (r: RgbMatrices)
        requires
            axis < 2,
            self@.red.axis_len(axis as int) >= 2,
        ensures
            r@ == bv_neg_grad(self@, axis as int),
    {
        proof {
            use_type_invariant(self);
        }
        RgbMatrices {
            red: self.red.neg_grad_exact(axis),
            green: self.green.neg_grad_exact(axis),
            blue: self.blue.neg_grad_exact(axis),
        }
    }

    /// Every channel divided elementwise by the one same-shape matrix.
    pub(crate) fn div_matrix_exact(&self, m: &Matrix) -> (r: RgbMatrices)
        requires
            self@.red.same_shape(m@),
        ensures
            r@ == bv_div_matrix(self@, m@),
    {
        proof {
            use_type_invariant(self);
        }
        RgbMatrices {
            red: self.red.div_exact(m),
            green: self.green.div_exact(m),
            blue: self.blue.div_exact(m),
        }
    }

    /// Builds a bundle from three channels already known to share one
    /// shape.
    pub(crate) fn from_channels_exact(red: Matrix, green: Matrix, blue: Matrix) -> (r: RgbMatrices)
        requires
            red@.same_shape(green@),
            red@.same_shape(blue@),
        ensures
            r@ == (BundleView { red: red@, green: green@, blue: blue@ }),
    {
        RgbMatrices { red, green, blue }
    }

    /// A zero-filled bundle of the given shape.
    pub fn new(shape: (usize, usize)) -> (r: RgbMatrices)
        requires
            shape.0 * shape.1 <= usize::MAX,
        ensures
            r@.width() == shape.0,
            r@.height() == shape.1,
            r@.channels_same_shape(),
            forall|i: int| 0 <= i < r@.red.elems.len() ==> r@.red.elems[i] == crate::scalar::F64_ZERO,
            forall|i: int|
                0 <= i < r@.green.elems.len() ==> r@.green.elems[i] == crate::scalar::F64_ZERO,
            forall|i: int|
                0 <= i < r@.blue.elems.len() ==> r@.blue.elems[i] == crate::scalar::F64_ZERO,
            r@.red.elems.len() == shape.0 * shape.1,
    {
        RgbMatrices {
            red: Matrix::zeros(shape.0, shape.1),
            green: Matrix::zeros(shape.0, shape.1),
            blue: Matrix::zeros(shape.0, shape.1),
        }
    }

    /// Builds a bundle from copies of three matrices; rejects channels of
    /// differing shapes.
    pub fn from_channels(red: &Matrix, green: &Matrix, blue: &Matrix) -> (r: Result<
        RgbMatrices,
        Error,
    >)
        ensures
            match r {
                Ok(b) => {
                    &&& red@.same_shape(green@) && red@.same_shape(blue@)
                    &&& b@ == (BundleView { red: red@, green: green@, blue: blue@ })
                },
                Err(e) => {
                    &&& e == Error::ShapeMismatch
                    &&& !(red@.same_shape(green@) && red@.same_shape(blue@))
                },
            },
    {
        let (rw, rh) = red.shape();
        let (gw, gh) = green.shape();
        let (bw, bh) = blue.shape();
        if rw == gw && rh == gh && rw == bw && rh == bh {
            Ok(RgbMatrices { red: red.dup(), green: green.dup(), blue: blue.dup() })
        } else {
            Err(Error::ShapeMismatch)
        }
    }

    /// The red channel.
    pub fn red(&self) -> (r: &Matrix)
        ensures
            r@ == self@.red,
    {
        &self.red
    }

    /// The green channel.
    pub fn green(&self) -> (r: &Matrix)
        ensures
            r@ == self@.green,
    {
        &self.green
    }

    /// The blue channel.
    pub fn blue(&self) -> (r: &Matrix)
        ensures
            r@ == self@.blue,
    {
        &self.blue
    }

    /// The common shape of the channels as `(width, height)`.
    pub fn shape(&self) -> (r: (usize, usize))
        ensures
            r.0 == self@.width(),
            r.1 == self@.height(),
    {
        self.red.shape()
    }

    /// A channel-for-channel copy.
    pub fn dup(&self) -> (r: RgbMatrices)
        ensures
            r@ == self@,
    {
        proof {
            use_type_invariant(self);
        }
        RgbMatrices { red: self.red.dup(), green: self.green.dup(), blue: self.blue.dup() }
    }

    /// Channelwise sum of two same-shape bundles.
    pub(crate) fn add_exact(&self, other: &RgbMatrices) -> (r: RgbMatrices)
        requires
            self@.same_shape(other@),
        ensures
            r@ == bv_add(self@, other@),
    {
        proof {
            use_type_invariant(self);
            use_type_invariant(other);
        }
        RgbMatrices {
            red: self.red.add_exact(&other.red),
            green: self.green.add_exact(&other.green),
            blue: self.blue.add_exact(&other.blue),
        }
    }

    /// Channelwise difference of two same-shape bundles.
    pub(crate) fn sub_exact(&self, other: &RgbMatrices) -> (r: RgbMatrices)
        requires
            self@.same_shape(other@),
        ensures
            r@ == bv_sub(self@, other@),
    {
        proof {
            use_type_invariant(self);
            use_type_invariant(other);
        }
        RgbMatrices {
            red: self.red.sub_exact(&other.red),
            green: self.green.sub_exact(&other.green),
            blue: self.blue.sub_exact(&other.blue),
        }
    }

    /// Channelwise product of two same-shape bundles.
    pub(crate) fn mul_exact(&self, other: &RgbMatrices) -> (r: RgbMatrices)
        requires
            self@.same_shape(other@),
        ensures
            r@ == bv_mul(self@, other@),
    {
        proof {
            use_type_invariant(self);
            use_type_invariant(other);
        }
        RgbMatrices {
            red: self.red.mul_exact(&other.red),
            green: self.green.mul_exact(&other.green),
            blue: self.blue.mul_exact(&other.blue),
        }
    }

    /// Channelwise quotient of two same-shape bundles.
    pub(crate) fn div_exact(&self, other: &RgbMatrices) -> (r: RgbMatrices)
        requires
            self@.same_shape(other@),
        ensures
            r@ == bv_div(self@, other@),
    {
        proof {
            use_type_invariant(self);
            use_type_invariant(other);
        }
        RgbMatrices {
            red: self.red.div_exact(&other.red),
            green: self.green.div_exact(&other.green),
            blue: self.blue.div_exact(&other.blue),
        }
    }

    /// Channelwise sum; rejects operands of different shapes.
    pub fn add(&self, other: &RgbMatrices) -> (r: Result<RgbMatrices, Error>)
        ensures
            match r {
                Ok(b) => self@.same_shape(other@) && b@ == bv_add(self@, other@),
                Err(e) => e == Error::ShapeMismatch && !self@.same_shape(other@),
            },
    {
        let (sw, sh) = self.shape();
        let (ow, oh) = other.shape();
        if sw == ow && sh == oh {
            Ok(self.add_exact(other))
        } else {
            Err(Error::ShapeMismatch)
        }
    }

    /// Channelwise difference; rejects operands of different shapes.
    pub fn sub(&self, other: &RgbMatrices) -> (r: Result<RgbMatrices, Error>)
        ensures
            match r {
                Ok(b) => self@.same_shape(other@) && b@ == bv_sub(self@, other@),
                Err(e) => e == Error::ShapeMismatch && !self@.same_shape(other@),
            },
    {
        let (sw, sh) = self.shape();
        let (ow, oh) = other.shape();
        if sw == ow && sh == oh {
            Ok(self.sub_exact(other))
        } else {
            Err(Error::ShapeMismatch)
        }
    }

    /// Channelwise product; rejects operands of different shapes.
    pub fn mul(&self, other: &RgbMatrices) -> (r: Result<RgbMatrices, Error>)
        ensures
            match r {
                Ok(b) => self@.same_shape(other@) && b@ == bv_mul(self@, other@),
                Err(e) => e == Error::ShapeMismatch && !self@.same_shape(other@),
            },
    {
        let (sw, sh) = self.shape();
        let (ow, oh) = other.shape();
        if sw == ow && sh == oh {
            Ok(self.mul_exact(other))
        } else {
            Err(Error::ShapeMismatch)
        }
    }

    /// Channelwise quotient; rejects operands of different shapes.
    pub fn div(&self, other: &RgbMatrices) -> (r: Result<RgbMatrices, Error>)
        ensures
            match r {
                Ok(b) => self@.same_shape(other@) && b@ == bv_div(self@, other@),
                Err(e) => e == Error::ShapeMismatch && !self@.same_shape(other@),
            },
    {
        let (sw, sh) = self.shape();
        let (ow, oh) = other.shape();
        if sw == ow && sh == oh {
            Ok(self.div_exact(other))
        } else {
            Err(Error::ShapeMismatch)
        }
    }

    /// Every channel divided elementwise by the one matrix `m`; rejects a
    /// divisor whose shape differs from the channels'.
    pub fn div_matrix(&self, m: &Matrix) -> (r: Result<RgbMatrices, Error>)
        ensures
            match r {
                Ok(b) => self@.red.same_shape(m@) && b@ == bv_div_matrix(self@, m@),
                Err(e) => e == Error::ShapeMismatch && !self@.red.same_shape(m@),
            },
    {
        proof {
            use_type_invariant(self);
        }
        let (sw, sh) = self.shape();
        let (mw, mh) = m.shape();
        if sw == mw && sh == mh {
            Ok(
                RgbMatrices {
                    red: self.red.div_exact(m),
                    green: self.green.div_exact(m),
                    blue: self.blue.div_exact(m),
                },
            )
        } else {
            Err(Error::ShapeMismatch)
        }
    }

    /// Every channel scaled elementwise by the scalar `s` on the left.
    pub fn scale(&self, s: u64) -> (r: RgbMatrices)
        ensures
            r@ == bv_scale(s, self@),
    {
        proof {
            use_type_invariant(self);
        }
        RgbMatrices {
            red: self.red.scale(s),
            green: self.green.scale(s),
            blue: self.blue.scale(s),
        }
    }

    /// The channelwise square, `self ⊙ self`.
    pub fn squared(&self) -> (r: RgbMatrices)
        ensures
            r@ == bv_mul(self@, self@),
    {
        proof {
            use_type_invariant(self);
        }
        self.mul_exact(self)
    }

    /// The channelwise elementwise integer power.
    pub fn powi(&self, n: i32) -> (r: RgbMatrices)
        ensures
            r@.red == mv_powi(self@.red, n as int),
            r@.green == mv_powi(self@.green, n as int),
            r@.blue == mv_powi(self@.blue, n as int),
    {
        proof {
            use_type_invariant(self);
        }
        RgbMatrices {
            red: self.red.powi(n),
            green: self.green.powi(n),
            blue: self.blue.powi(n),
        }
    }

    /// The sum of all elements over all channels: the red sum, plus the
    /// green sum, plus the blue sum.
    pub fn sum(&self) -> (r: u64)
        ensures
            r == add_bits_of(
                add_bits_of(crate::matrix::mv_sum(self@.red), crate::matrix::mv_sum(self@.green)),
                crate::matrix::mv_sum(self@.blue),
            ),
    {
        let rg = add_bits(self.red.sum(), self.green.sum());
        add_bits(rg, self.blue.sum())
    }

    /// The Euclidean norm over all channels: the square root of the
    /// channel sums of squares, added red first, then green, then blue.
    pub fn norm(&self) -> (r: u64)
        ensures
            r == bv_norm(self@),
    {
        let rg = add_bits(self.red.sum_squares(), self.green.sum_squares());
        let total = add_bits(rg, self.blue.sum_squares());
        sqrt_bits(total)
    }

    /// The channelwise forward wrapping difference along the given axis.
    pub fn positive_gradient_on_axis(&self, axis: usize) -> (r: Result<RgbMatrices, Error>)
        ensures
            axis >= 2 ==> r == Err::<RgbMatrices, Error>(Error::AxisOutOfBounds),
            axis < 2 && self@.red.axis_len(axis as int) <= 1 ==> r == Err::<RgbMatrices, Error>(
                Error::AxisTooShort,
            ),
            axis < 2 && self@.red.axis_len(axis as int) >= 2 ==> r is Ok && r->Ok_0@ == bv_pos_grad(
                self@,
                axis as int,
            ),
    {
        proof {
            use_type_invariant(self);
        }
        let red = self.red.positive_gradient_on_axis(axis)?;
        let green = self.green.positive_gradient_on_axis(axis)?;
        let blue = self.blue.positive_gradient_on_axis(axis)?;
        Ok(RgbMatrices { red, green, blue })
    }

    /// The channelwise backward (transposed) wrapping difference along the
    /// given axis.
    pub fn negative_gradient_on_axis(&self, axis: usize) -> (r: Result<RgbMatrices, Error>)
        ensures
            axis >= 2 ==> r == Err::<RgbMatrices, Error>(Error::AxisOutOfBounds),
            axis < 2 && self@.red.axis_len(axis as int) <= 1 ==> r == Err::<RgbMatrices, Error>(
                Error::AxisTooShort,
            ),
            axis < 2 && self@.red.axis_len(axis as int) >= 2 ==> r is Ok && r->Ok_0@ == bv_neg_grad(
                self@,
                axis as int,
            ),
    {
        proof {
            use_type_invariant(self);
        }
        let red = self.red.negative_gradient_on_axis(axis)?;
        let green = self.green.negative_gradient_on_axis(axis)?;
        let blue = self.blue.negative_gradient_on_axis(axis)?;
        Ok(RgbMatrices { red, green, blue })
    }

    /// The channelwise weighted average pulling `other` back towards
    /// `self` (the noisy input).
    pub fn weighted_average(&self, other: &RgbMatrices, tau: u64, lambda: u64) -> (r: RgbMatrices)
        requires
            self@.same_shape(other@),
        ensures
            r@ == bv_weighted_average(self@, other@, tau, lambda),
    {
        proof {
            use_type_invariant(self);
            use_type_invariant(other);
        }
        RgbMatrices {
            red: self.red.weighted_average(&other.red, tau, lambda),
            green: self.green.weighted_average(&other.green, tau, lambda),
            blue: self.blue.weighted_average(&other.blue, tau, lambda),
        }
    }
}

} // verus!
