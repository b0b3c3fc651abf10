//! A dense two-dimensional matrix of binary64-encoded reals.
//!
//! The shape is a pair `(width, height)`; the element at position `(x, y)`
//! lives at flat index `x * height + y`, the layout of a C-order array of
//! shape `(width, height)`.  Every arithmetic operation yields a new matrix
//! and is specified elementwise over the scalar operation names.

use vstd::prelude::*;

use crate::Error;
use crate::scalar::{
    add_bits, add_bits_of, div_bits, div_bits_of, max_one_bits, mul_bits, mul_bits_of, sqrt_bits,
    sqrt_bits_of, sub_bits, sub_bits_of, f_max_one, F64_ONE, F64_ZERO,
};

verus! {

/// The mathematical content of a matrix: its shape and the sequence of its
/// element encodings in `x`-major order.
#[verifier::ext_equal]
pub ghost struct MatrixView {
    pub elems: Seq<u64>,
    pub width: nat,
    pub height: nat,
}

impl MatrixView {
    /// A view is well formed when it holds exactly one element per
    /// position of its shape.
    pub open spec fn wf(self) -> bool {
        self.elems.len() == self.width * self.height
    }

    /// The element at position `(x, y)`.
    pub open spec fn at(self, x: int, y: int) -> u64 {
        self.elems[x * self.height + y]
    }

    /// Whether two views have one shape.
    pub open spec fn same_shape(self, other: MatrixView) -> bool {
        self.width == other.width && self.height == other.height
    }

    /// The length of the given axis: axis 0 runs along the width, axis 1
    /// along the height.
    pub open spec fn axis_len(self, axis: int) -> nat {
        if axis == 0 {
            self.width
        } else {
            self.height
        }
    }
}

/// The elementwise sum of two equally long sequences of encodings.
pub open spec fn add_elems(a: Seq<u64>, b: Seq<u64>) -> Seq<u64> {
    Seq::new(a.len(), |i: int| add_bits_of(a[i], b[i]))
}

/// The elementwise difference of two equally long sequences of encodings.
pub open spec fn sub_elems(a: Seq<u64>, b: Seq<u64>) -> Seq<u64> {
    Seq::new(a.len(), |i: int| sub_bits_of(a[i], b[i]))
}

/// The elementwise product of two equally long sequences of encodings.
pub open spec fn mul_elems(a: Seq<u64>, b: Seq<u64>) -> Seq<u64> {
    Seq::new(a.len(), |i: int| mul_bits_of(a[i], b[i]))
}

/// The elementwise quotient of two equally long sequences of encodings.
pub open spec fn div_elems(a: Seq<u64>, b: Seq<u64>) -> Seq<u64> {
    Seq::new(a.len(), |i: int| div_bits_of(a[i], b[i]))
}

/// The elementwise sum of two same-shape views.
pub open spec fn mv_add(a: MatrixView, b: MatrixView) -> MatrixView {
    MatrixView { elems: add_elems(a.elems, b.elems), width: a.width, height: a.height }
}

/// The elementwise difference of two same-shape views.
pub open spec fn mv_sub(a: MatrixView, b: MatrixView) -> MatrixView {
    MatrixView { elems: sub_elems(a.elems, b.elems), width: a.width, height: a.height }
}

/// The elementwise product of two same-shape views.
pub open spec fn mv_mul(a: MatrixView, b: MatrixView) -> MatrixView {
    MatrixView { elems: mul_elems(a.elems, b.elems), width: a.width, height: a.height }
}

/// The elementwise quotient of two same-shape views.
pub open spec fn mv_div(a: MatrixView, b: MatrixView) -> MatrixView {
    MatrixView { elems: div_elems(a.elems, b.elems), width: a.width, height: a.height }
}

/// The view scaled elementwise by the scalar `s` on the left.
pub open spec fn mv_scale(s: u64, m: MatrixView) -> MatrixView {
    MatrixView {
        elems: Seq::new(m.elems.len(), |i: int| mul_bits_of(s, m.elems[i])),
        width: m.width,
        height: m.height,
    }
}

/// The view divided elementwise by the scalar `s`.
pub open spec fn mv_div_scalar(m: MatrixView, s: u64) -> MatrixView {
    MatrixView {
        elems: Seq::new(m.elems.len(), |i: int| div_bits_of(m.elems[i], s)),
        width: m.width,
        height: m.height,
    }
}

/// The elementwise square root of a view.
pub open spec fn mv_sqrt(m: MatrixView) -> MatrixView {
    MatrixView {
        elems: Seq::new(m.elems.len(), |i: int| sqrt_bits_of(m.elems[i])),
        width: m.width,
        height: m.height,
    }
}

/// The elementwise clamp of a view against one from below.
pub open spec fn mv_max_one(m: MatrixView) -> MatrixView {
    MatrixView {
        elems: Seq::new(m.elems.len(), |i: int| f_max_one(m.elems[i])),
        width: m.width,
        height: m.height,
    }
}

/// A dense matrix of binary64-encoded reals with shape `(width, height)`.
#[derive(Debug, PartialEq, Eq)]
pub struct Matrix {
    data: Vec<u64>,
    width: usize,
    height: usize,
}

impl View for Matrix {
    type V = MatrixView;

    closed spec fn view(&self) -> MatrixView {
        MatrixView { elems: self.data@, width: self.width as nat, height: self.height as nat }
    }
}

impl Matrix {
    #[verifier::type_invariant]
    pub(crate) open spec fn type_inv(self) -> bool {
        self@.wf()
    }

    /// The width of the matrix (the length of axis 0).
    pub fn width(&self) -> (r: usize)
        ensures
            r == self@.width,
    {
        self.width
    }

    /// The height of the matrix (the length of axis 1).
    pub fn height(&self) -> (r: usize)
        ensures
            r == self@.height,
    {
        self.height
    }

    /// The shape of the matrix as `(width, height)`.
    pub fn shape(&self) -> (r: (usize, usize))
        ensures
            r.0 == self@.width,
            r.1 == self@.height,
    {
        (self.width, self.height)
    }

    /// Builds a matrix of the given shape from its elements in `x`-major
    /// order; rejects a vector whose length does not match the shape.
    pub fn from_vec(data: Vec<u64>, width: usize, height: usize) -> (r: Result<Matrix, Error>)
        ensures
            match r {
                Ok(m) => {
                    &&& data@.len() == width * height
                    &&& m@ == (MatrixView {
                        elems: data@,
                        width: width as nat,
                        height: height as nat,
                    })
                },
                Err(e) => {
                    &&& e == Error::ShapeMismatch
                    &&& data@.len() != width * height
                },
            },
    {
        let len: usize = data.len();
        match width.checked_mul(height) {
            Some(n) if n == len => Ok(Matrix { data, width, height }),
            _ => Err(Error::ShapeMismatch),
        }
    }

    /// The number of elements held.
    pub(crate) fn elem_count(&self) -> (r: usize)
        ensures
            r == self@.elems.len(),
    {
        self.data.len()
    }

    /// Builds a matrix from elements already known to match the shape.
    pub(crate) fn from_vec_exact(data: Vec<u64>, width: usize, height: usize) -> (r: Matrix)
        requires
            data@.len() == width * height,
        ensures
            r@ == (MatrixView { elems: data@, width: width as nat, height: height as nat }),
    {
        Matrix { data, width, height }
    }

    /// A zero-filled matrix of the given shape.
    pub fn zeros(width: usize, height: usize) -> (r: Matrix)
        requires
            width * height <= usize::MAX,
        ensures
            r@.width == width,
            r@.height == height,
            r@.elems.len() == width * height,
            forall|i: int| 0 <= i < r@.elems.len() ==> r@.elems[i] == F64_ZERO,
    {
        let n: usize = width * height;
        let mut data: Vec<u64> = Vec::new();
        let mut k: usize = 0;
        while k < n
            invariant
                k <= n,
                data@.len() == k,
                forall|j: int| 0 <= j < k ==> data@[j] == F64_ZERO,
            decreases n - k,
        {
            data.push(F64_ZERO);
            k += 1;
        }
        Matrix { data, width, height }
    }

    /// The element at position `(x, y)`.
    pub fn get(&self, x: usize, y: usize) -> (r: u64)
        requires
            x < self@.width,
            y < self@.height,
        ensures
            r == self@.at(x as int, y as int),
    {
        // materializes the length bound that keeps the index arithmetic
        // within `usize`
        let _count: usize = self.data.len();
        proof {
            use_type_invariant(self);
            assert((x as int) * (self@.height as int) + y < self@.width * self@.height) by (nonlinear_arith)
                requires
                    x < self@.width,
                    y < self@.height,
            ;
        }
        self.data[x * self.height + y]
    }

    /// An element-for-element copy.
    pub fn dup(&self) -> (r: Matrix)
        ensures
            r@ == self@,
    {
        proof {
            use_type_invariant(self);
        }
        let n: usize = self.data.len();
        let mut data: Vec<u64> = Vec::new();
        let mut k: usize = 0;
        while k < n
            invariant
                k <= n,
                n == self@.elems.len(),
                data@.len() == k,
                forall|j: int| 0 <= j < k ==> data@[j] == self@.elems[j],
            decreases n - k,
        {
            data.push(self.data[k]);
            k += 1;
        }
        let r = Matrix { data, width: self.width, height: self.height };
        proof {
            assert(r@.elems =~= self@.elems);
        }
        r
    }

    /// Elementwise sum of two same-shape matrices.
    pub(crate) fn add_exact(&self, other: &Matrix) -> (r: Matrix)
        requires
            self@.same_shape(other@),
        ensures
            r@ == mv_add(self@, other@),
    {
        proof {
            use_type_invariant(self);
            use_type_invariant(other);
        }
        let n: usize = self.data.len();
        let mut data: Vec<u64> = Vec::new();
        let mut k: usize = 0;
        while k < n
            invariant
                k <= n,
                n == self@.elems.len(),
                other@.elems.len() == n,
                data@.len() == k,
                forall|j: int| 0 <= j < k ==> data@[j] == add_bits_of(self@.elems[j], other@.elems[j]),
            decreases n - k,
        {
            let v = add_bits(self.data[k], other.data[k]);
            data.push(v);
            k += 1;
        }
        let r = Matrix { data, width: self.width, height: self.height };
        proof {
            assert(r@.elems =~= mv_add(self@, other@).elems);
        }
        r
    }

    /// Elementwise difference of two same-shape matrices.
    pub(crate) fn sub_exact(&self, other: &Matrix) -> (r: Matrix)
        requires
            self@.same_shape(other@),
        ensures
            r@ == mv_sub(self@, other@),
    {
        proof {
            use_type_invariant(self);
            use_type_invariant(other);
        }
        let n: usize = self.data.len();
        let mut data: Vec<u64> = Vec::new();
        let mut k: usize = 0;
        while k < n
            invariant
                k <= n,
                n == self@.elems.len(),
                other@.elems.len() == n,
                data@.len() == k,
                forall|j: int| 0 <= j < k ==> data@[j] == sub_bits_of(self@.elems[j], other@.elems[j]),
            decreases n - k,
        {
            let v = sub_bits(self.data[k], other.data[k]);
            data.push(v);
            k += 1;
        }
        let r = Matrix { data, width: self.width, height: self.height };
        proof {
            assert(r@.elems =~= mv_sub(self@, other@).elems);
        }
        r
    }

    /// Elementwise product of two same-shape matrices.
    pub(crate) fn mul_exact(&self, other: &Matrix) -> (r: Matrix)
        requires
            self@.same_shape(other@),
        ensures
            r@ == mv_mul(self@, other@),
    {
        proof {
            use_type_invariant(self);
            use_type_invariant(other);
        }
        let n: usize = self.data.len();
        let mut data: Vec<u64> = Vec::new();
        let mut k: usize = 0;
        while k < n
            invariant
                k <= n,
                n == self@.elems.len(),
                other@.elems.len() == n,
                data@.len() == k,
                forall|j: int| 0 <= j < k ==> data@[j] == mul_bits_of(self@.elems[j], other@.elems[j]),
            decreases n - k,
        {
            let v = mul_bits(self.data[k], other.data[k]);
            data.push(v);
            k += 1;
        }
        let r = Matrix { data, width: self.width, height: self.height };
        proof {
            assert(r@.elems =~= mv_mul(self@, other@).elems);
        }
        r
    }

    /// Elementwise quotient of two same-shape matrices.
    pub(crate) fn div_exact(&self, other: &Matrix) -> (r: Matrix)
        requires
            self@.same_shape(other@),
        ensures
            r@ == mv_div(self@, other@),
    {
        proof {
            use_type_invariant(self);
            use_type_invariant(other);
        }
        let n: usize = self.data.len();
        let mut data: Vec<u64> = Vec::new();
        let mut k: usize = 0;
        while k < n
            invariant
                k <= n,
                n == self@.elems.len(),
                other@.elems.len() == n,
                data@.len() == k,
                forall|j: int| 0 <= j < k ==> data@[j] == div_bits_of(self@.elems[j], other@.elems[j]),
            decreases n - k,
        {
            let v = div_bits(self.data[k], other.data[k]);
            data.push(v);
            k += 1;
        }
        let r = Matrix { data, width: self.width, height: self.height };
        proof {
            assert(r@.elems =~= mv_div(self@, other@).elems);
        }
        r
    }

    /// Elementwise sum; rejects operands of different shapes.
    pub fn add(&self, other: &Matrix) -> (r: Result<Matrix, Error>)
        ensures
            match r {
                Ok(m) => self@.same_shape(other@) && m@ == mv_add(self@, other@),
                Err(e) => e == Error::ShapeMismatch && !self@.same_shape(other@),
            },
    {
        if self.width == other.width && self.height == other.height {
            Ok(self.add_exact(other))
        } else {
            Err(Error::ShapeMismatch)
        }
    }

    /// Elementwise difference; rejects operands of different shapes.
    pub fn sub(&self, other: &Matrix) -> (r: Result<Matrix, Error>)
        ensures
            match r {
                Ok(m) => self@.same_shape(other@) && m@ == mv_sub(self@, other@),
                Err(e) => e == Error::ShapeMismatch && !self@.same_shape(other@),
            },
    {
        if self.width == other.width && self.height == other.height {
            Ok(self.sub_exact(other))
        } else {
            Err(Error::ShapeMismatch)
        }
    }

    /// Elementwise product; rejects operands of different shapes.
    pub fn mul(&self, other: &Matrix) -> (r: Result<Matrix, Error>)
        ensures
            match r {
                Ok(m) => self@.same_shape(other@) && m@ == mv_mul(self@, other@),
                Err(e) => e == Error::ShapeMismatch && !self@.same_shape(other@),
            },
    {
        if self.width == other.width && self.height == other.height {
            Ok(self.mul_exact(other))
        } else {
            Err(Error::ShapeMismatch)
        }
    }

    /// Elementwise quotient; rejects operands of different shapes.
    pub fn div(&self, other: &Matrix) -> (r: Result<Matrix, Error>)
        ensures
            match r {
                Ok(m) => self@.same_shape(other@) && m@ == mv_div(self@, other@),
                Err(e) => e == Error::ShapeMismatch && !self@.same_shape(other@),
            },
    {
        if self.width == other.width && self.height == other.height {
            Ok(self.div_exact(other))
        } else {
            Err(Error::ShapeMismatch)
        }
    }

    /// The matrix scaled elementwise by the scalar `s` on the left.
    pub fn scale(&self, s: u64) -> (r: Matrix)
        ensures
            r@ == mv_scale(s, self@),
    {
        proof {
            use_type_invariant(self);
        }
        let n: usize = self.data.len();
        let mut data: Vec<u64> = Vec::new();
        let mut k: usize = 0;
        while k < n
            invariant
                k <= n,
                n == self@.elems.len(),
                data@.len() == k,
                forall|j: int| 0 <= j < k ==> data@[j] == mul_bits_of(s, self@.elems[j]),
            decreases n - k,
        {
            let v = mul_bits(s, self.data[k]);
            data.push(v);
            k += 1;
        }
        let r = Matrix { data, width: self.width, height: self.height };
        proof {
            assert(r@.elems =~= mv_scale(s, self@).elems);
        }
        r
    }

    /// The matrix divided elementwise by the scalar `s`.
    pub fn div_scalar(&self, s: u64) -> (r: Matrix)
        ensures
            r@ == mv_div_scalar(self@, s),
    {
        proof {
            use_type_invariant(self);
        }
        let n: usize = self.data.len();
        let mut data: Vec<u64> = Vec::new();
        let mut k: usize = 0;
        while k < n
            invariant
                k <= n,
                n == self@.elems.len(),
                data@.len() == k,
                forall|j: int| 0 <= j < k ==> data@[j] == div_bits_of(self@.elems[j], s),
            decreases n - k,
        {
            let v = div_bits(self.data[k], s);
            data.push(v);
            k += 1;
        }
        let r = Matrix { data, width: self.width, height: self.height };
        proof {
            assert(r@.elems =~= mv_div_scalar(self@, s).elems);
        }
        r
    }

    /// The elementwise square root.
    pub fn sqrt_map(&self) -> (r: Matrix)
        ensures
            r@ == mv_sqrt(self@),
    {
        proof {
            use_type_invariant(self);
        }
        let n: usize = self.data.len();
        let mut data: Vec<u64> = Vec::new();
        let mut k: usize = 0;
        while k < n
            invariant
                k <= n,
                n == self@.elems.len(),
                data@.len() == k,
                forall|j: int| 0 <= j < k ==> data@[j] == sqrt_bits_of(self@.elems[j]),
            decreases n - k,
        {
            let v = sqrt_bits(self.data[k]);
            data.push(v);
            k += 1;
        }
        let r = Matrix { data, width: self.width, height: self.height };
        proof {
            assert(r@.elems =~= mv_sqrt(self@).elems);
        }
        r
    }

    /// The elementwise clamp against one from below.
    pub fn max_one_map(&self) -> (r: Matrix)
        ensures
            r@ == mv_max_one(self@),
    {
        proof {
            use_type_invariant(self);
        }
        let n: usize = self.data.len();
        let mut data: Vec<u64> = Vec::new();
        let mut k: usize = 0;
        while k < n
            invariant
                k <= n,
                n == self@.elems.len(),
                data@.len() == k,
                forall|j: int| 0 <= j < k ==> data@[j] == f_max_one(self@.elems[j]),
            decreases n - k,
        {
            let v = max_one_bits(self.data[k]);
            data.push(v);
            k += 1;
        }
        let r = Matrix { data, width: self.width, height: self.height };
        proof {
            assert(r@.elems =~= mv_max_one(self@).elems);
        }
        r
    }

    /// The elementwise square, `self ⊙ self`.
    pub fn squared(&self) -> (r: Matrix)
        ensures
            r@ == mv_mul(self@, self@),
    {
        self.mul_exact(self)
    }

    /// The wrapping shift along an axis whose length and bound were
    /// already checked.
    pub(crate) fn shift_exact(&self, axis: usize, positive: bool) -> (r: Matrix)
        requires
            axis < 2,
            self@.axis_len(axis as int) >= 2,
        ensures
            r@ == mv_shift(self@, axis as int, positive),
    {
        proof {
            use_type_invariant(self);
        }
        let n: usize = self.data.len();
        let w: usize = self.width;
        let h: usize = self.height;
        let mut data: Vec<u64> = Vec::new();
        let mut k: usize = 0;
        while k < n
            invariant
                k <= n,
                n == self@.elems.len(),
                self@.width == w,
                self@.height == h,
                n == w * h,
                axis < 2,
                self@.axis_len(axis as int) >= 2,
                data@.len() == k,
                forall|j: int|
                    0 <= j < k ==> data@[j] == self@.elems[shift_src(
                        self@,
                        axis as int,
                        positive,
                        j,
                    )],
            decreases n - k,
        {
            proof {
                assert(h > 0) by (nonlinear_arith)
                    requires
                        k < n,
                        n == w * h,
                ;
            }
            let x: usize = k / h;
            let y: usize = k % h;
            proof {
                assert(x < w) by (nonlinear_arith)
                    requires
                        k < n,
                        n == w * h,
                        h > 0,
                        x == k as int / h as int,
                ;
            }
            let src: usize = if axis == 0 {
                let sx: usize = if positive {
                    if x == 0 {
                        w - 1
                    } else {
                        x - 1
                    }
                } else {
                    if x == w - 1 {
                        0
                    } else {
                        x + 1
                    }
                };
                proof {
                    assert(sx * h + y < n) by (nonlinear_arith)
                        requires
                            sx < w,
                            y < h,
                            n == w * h,
                    ;
                }
                sx * h + y
            } else {
                let sy: usize = if positive {
                    if y == 0 {
                        h - 1
                    } else {
                        y - 1
                    }
                } else {
                    if y == h - 1 {
                        0
                    } else {
                        y + 1
                    }
                };
                proof {
                    assert(x * h + sy < n) by (nonlinear_arith)
                        requires
                            x < w,
                            sy < h,
                            n == w * h,
                    ;
                }
                x * h + sy
            };
            let v = self.data[src];
            data.push(v);
            k += 1;
        }
        let r = Matrix { data, width: self.width, height: self.height };
        proof {
            assert(r@.elems =~= mv_shift(self@, axis as int, positive).elems);
        }
        r
    }

    /// The wrapping shift towards growing indexes on the given axis: index
    /// 0 of the axis receives what was at the last index.
    pub fn positive_shift_on_axis(&self, axis: usize) -> (r: Result<Matrix, Error>)
        ensures
            axis >= 2 ==> r == Err::<Matrix, Error>(Error::AxisOutOfBounds),
            axis < 2 && self@.axis_len(axis as int) <= 1 ==> r == Err::<Matrix, Error>(
                Error::AxisTooShort,
            ),
            axis < 2 && self@.axis_len(axis as int) >= 2 ==> r is Ok && r->Ok_0@ == mv_shift(
                self@,
                axis as int,
                true,
            ),
    {
        if axis >= 2 {
            return Err(Error::AxisOutOfBounds);
        }
        let alen: usize = if axis == 0 {
            self.width
        } else {
            self.height
        };
        if alen <= 1 {
            return Err(Error::AxisTooShort);
        }
        Ok(self.shift_exact(axis, true))
    }

    /// The wrapping shift towards shrinking indexes on the given axis:
    /// the last index of the axis receives what was at index 0.
    pub fn negative_shift_on_axis(&self, axis: usize) -> (r: Result<Matrix, Error>)
        ensures
            axis >= 2 ==> r == Err::<Matrix, Error>(Error::AxisOutOfBounds),
            axis < 2 && self@.axis_len(axis as int) <= 1 ==> r == Err::<Matrix, Error>(
                Error::AxisTooShort,
            ),
            axis < 2 && self@.axis_len(axis as int) >= 2 ==> r is Ok && r->Ok_0@ == mv_shift(
                self@,
                axis as int,
                false,
            ),
    {
        if axis >= 2 {
            return Err(Error::AxisOutOfBounds);
        }
        let alen: usize = if axis == 0 {
            self.width
        } else {
            self.height
        };
        if alen <= 1 {
            return Err(Error::AxisTooShort);
        }
        Ok(self.shift_exact(axis, false))
    }

    /// The forward wrapping difference along an axis whose length and
    /// bound were already checked.
    pub(crate) fn pos_grad_exact(&self, axis: usize) -> (r: Matrix)
        requires
            axis < 2,
            self@.axis_len(axis as int) >= 2,
        ensures
            r@ == mv_pos_grad(self@, axis as int),
    {
        let shifted = self.shift_exact(axis, true);
        self.sub_exact(&shifted)
    }

    /// The backward wrapping difference along an axis whose length and
    /// bound were already checked.
    pub(crate) fn neg_grad_exact(&self, axis: usize) -> (r: Matrix)
        requires
            axis < 2,
            self@.axis_len(axis as int) >= 2,
        ensures
            r@ == mv_neg_grad(self@, axis as int),
    {
        let shifted = self.shift_exact(axis, false);
        self.sub_exact(&shifted)
    }

    /// The forward (positive) wrapping finite difference along the given
    /// axis: the matrix minus its positive shift.
    pub fn positive_gradient_on_axis(&self, axis: usize) -> (r: Result<Matrix, Error>)
        ensures
            axis >= 2 ==> r == Err::<Matrix, Error>(Error::AxisOutOfBounds),
            axis < 2 && self@.axis_len(axis as int) <= 1 ==> r == Err::<Matrix, Error>(
                Error::AxisTooShort,
            ),
            axis < 2 && self@.axis_len(axis as int) >= 2 ==> r is Ok && r->Ok_0@ == mv_pos_grad(
                self@,
                axis as int,
            ),
    {
        match self.positive_shift_on_axis(axis) {
            Ok(shifted) => Ok(self.sub_exact(&shifted)),
            Err(e) => Err(e),
        }
    }

    /// The backward (negative, transposed) wrapping finite difference
    /// along the given axis: the matrix minus its negative shift.
    pub fn negative_gradient_on_axis(&self, axis: usize) -> (r: Result<Matrix, Error>)
        ensures
            axis >= 2 ==> r == Err::<Matrix, Error>(Error::AxisOutOfBounds),
            axis < 2 && self@.axis_len(axis as int) <= 1 ==> r == Err::<Matrix, Error>(
                Error::AxisTooShort,
            ),
            axis < 2 && self@.axis_len(axis as int) >= 2 ==> r is Ok && r->Ok_0@ == mv_neg_grad(
                self@,
                axis as int,
            ),
    {
        match self.negative_shift_on_axis(axis) {
            Ok(shifted) => Ok(self.sub_exact(&shifted)),
            Err(e) => Err(e),
        }
    }

    /// The sum of the squared elements, accumulated from zero in flat
    /// order.
    pub fn sum_squares(&self) -> (r: u64)
        ensures
            r == sum_sq(self@.elems),
    {
        let n: usize = self.data.len();
        let mut acc: u64 = F64_ZERO;
        let mut k: usize = 0;
        while k < n
            invariant
                k <= n,
                n == self@.elems.len(),
                acc == sum_sq(self@.elems.take(k as int)),
            decreases n - k,
        {
            let v = mul_bits(self.data[k], self.data[k]);
            acc = add_bits(acc, v);
            proof {
                assert(self@.elems.take(k + 1).drop_last() =~= self@.elems.take(k as int));
                assert(self@.elems.take(k + 1).last() == self@.elems[k as int]);
            }
            k += 1;
        }
        proof {
            assert(self@.elems.take(n as int) =~= self@.elems);
        }
        acc
    }

    /// The sum of all elements, accumulated from zero in flat order.
    pub fn sum(&self) -> (r: u64)
        ensures
            r == mv_sum(self@),
    {
        let n: usize = self.data.len();
        let mut acc: u64 = F64_ZERO;
        let mut k: usize = 0;
        while k < n
            invariant
                k <= n,
                n == self@.elems.len(),
                acc == sum_elems(self@.elems.take(k as int)),
            decreases n - k,
        {
            acc = add_bits(acc, self.data[k]);
            proof {
                assert(self@.elems.take(k + 1).drop_last() =~= self@.elems.take(k as int));
                assert(self@.elems.take(k + 1).last() == self@.elems[k as int]);
            }
            k += 1;
        }
        proof {
            assert(self@.elems.take(n as int) =~= self@.elems);
        }
        acc
    }

    /// The Euclidean (Frobenius) norm: the square root of the sum of the
    /// squared elements, accumulated in flat order.
    pub fn norm(&self) -> (r: u64)
        ensures
            r == mv_norm(self@),
    {
        let total = self.sum_squares();
        sqrt_bits(total)
    }

    /// The elementwise integer power: repeated multiplication for a
    /// nonnegative exponent, and its reciprocal for a negative one.
    pub fn powi(&self, n: i32) -> (r: Matrix)
        ensures
            r@ == mv_powi(self@, n as int),
    {
        proof {
            use_type_invariant(self);
        }
        let neg: bool = n < 0;
        let mag: u64 = if n >= 0 {
            n as u64
        } else {
            let wide: i64 = n as i64;
            (-wide) as u64
        };
        let len: usize = self.data.len();
        let mut data: Vec<u64> = Vec::new();
        let mut i: usize = 0;
        while i < len
            invariant
                i <= len,
                len == self@.elems.len(),
                neg == (n < 0),
                mag == if n >= 0 {
                    n as int
                } else {
                    -(n as int)
                },
                data@.len() == i,
                forall|j: int| 0 <= j < i ==> data@[j] == powi_elem(self@.elems[j], n as int),
            decreases len - i,
        {
            let x = self.data[i];
            let p: u64 = if mag == 0 {
                F64_ONE
            } else {
                let mut acc: u64 = x;
                let mut j: u64 = 1;
                while j < mag
                    invariant
                        1 <= j <= mag,
                        acc == pow_bits(x, j as nat),
                    decreases mag - j,
                {
                    acc = mul_bits(acc, x);
                    j += 1;
                }
                acc
            };
            let e: u64 = if neg {
                div_bits(F64_ONE, p)
            } else {
                p
            };
            data.push(e);
            i += 1;
        }
        let r = Matrix { data, width: self.width, height: self.height };
        proof {
            assert(r@.elems =~= mv_powi(self@, n as int).elems);
        }
        r
    }

    /// The convex pull of `other` back towards `self` (the noisy input):
    /// `(other + tau·lambda·self) / (1 + tau·lambda)`.
    pub fn weighted_average(&self, other: &Matrix, tau: u64, lambda: u64) -> (r: Matrix)
        requires
            self@.same_shape(other@),
        ensures
            r@ == mv_weighted_average(self@, other@, tau, lambda),
    {
        let tl = mul_bits(tau, lambda);
        let num = other.add_exact(&self.scale(tl));
        num.div_scalar(add_bits(F64_ONE, tl))
    }
}

/// The flat index that feeds position `k` of the wrapping shift of `m`
/// along the given axis (towards growing indexes when `positive`).
pub open spec fn shift_src(m: MatrixView, axis: int, positive: bool, k: int) -> int {
    let x = k / (m.height as int);
    let y = k % (m.height as int);
    if axis == 0 {
        let sx = if positive {
            if x == 0 {
                m.width - 1
            } else {
                x - 1
            }
        } else {
            if x == m.width - 1 {
                0
            } else {
                x + 1
            }
        };
        sx * (m.height as int) + y
    } else {
        let sy = if positive {
            if y == 0 {
                m.height - 1
            } else {
                y - 1
            }
        } else {
            if y == m.height - 1 {
                0
            } else {
                y + 1
            }
        };
        x * (m.height as int) + sy
    }
}

/// The wrapping shift of a view along an axis.
pub open spec fn mv_shift(m: MatrixView, axis: int, positive: bool) -> MatrixView {
    MatrixView {
        elems: Seq::new(m.elems.len(), |k: int| m.elems[shift_src(m, axis, positive, k)]),
        width: m.width,
        height: m.height,
    }
}

/// The forward wrapping difference of a view along an axis.
pub open spec fn mv_pos_grad(m: MatrixView, axis: int) -> MatrixView {
    mv_sub(m, mv_shift(m, axis, true))
}

/// The backward (transposed) wrapping difference of a view along an axis.
pub open spec fn mv_neg_grad(m: MatrixView, axis: int) -> MatrixView {
    mv_sub(m, mv_shift(m, axis, false))
}

/// The left fold of zero by addition of the squares of the elements.
pub open spec fn sum_sq(s: Seq<u64>) -> u64
    decreases s.len(),
{
    if s.len() == 0 {
        F64_ZERO
    } else {
        add_bits_of(sum_sq(s.drop_last()), mul_bits_of(s.last(), s.last()))
    }
}

/// The Euclidean norm of a view.
pub open spec fn mv_norm(m: MatrixView) -> u64 {
    sqrt_bits_of(sum_sq(m.elems))
}

/// The left fold of zero by addition of the elements.
pub open spec fn sum_elems(s: Seq<u64>) -> u64
    decreases s.len(),
{
    if s.len() == 0 {
        F64_ZERO
    } else {
        add_bits_of(sum_elems(s.drop_last()), s.last())
    }
}

/// The sum of all elements of a view.
pub open spec fn mv_sum(m: MatrixView) -> u64 {
    sum_elems(m.elems)
}

/// The per-pixel length of the two-component vector field `(a, b)`:
/// the elementwise square root of the sum of the squared components.
pub open spec fn mv_vec_len(a: MatrixView, b: MatrixView) -> MatrixView {
    mv_sqrt(mv_add(mv_mul(a, a), mv_mul(b, b)))
}

/// The integer power of one encoded real by repeated multiplication.
pub open spec fn pow_bits(x: u64, k: nat) -> u64
    decreases k,
{
    if k == 0 {
        F64_ONE
    } else if k == 1 {
        x
    } else {
        mul_bits_of(pow_bits(x, (k - 1) as nat), x)
    }
}

/// One element of the elementwise integer power: a negative exponent takes
/// the reciprocal of the positive power.
pub open spec fn powi_elem(x: u64, n: int) -> u64 {
    if n >= 0 {
        pow_bits(x, n as nat)
    } else {
        div_bits_of(F64_ONE, pow_bits(x, (-n) as nat))
    }
}

/// The elementwise integer power of a view.
pub open spec fn mv_powi(m: MatrixView, n: int) -> MatrixView {
    MatrixView {
        elems: Seq::new(m.elems.len(), |i: int| powi_elem(m.elems[i], n)),
        width: m.width,
        height: m.height,
    }
}

/// The transposed shift undoes the shift on every matrix: along either
/// axis, the two wrapping shifts are inverse permutations of the
/// elements.  This is the structural core of the adjointness between the
/// forward and the transposed difference operators.
pub proof fn lemma_shift_round_trip(m: MatrixView, axis: int, positive: bool)
    requires
        m.wf(),
        0 <= axis < 2,
        m.height >= 1,
    ensures
        mv_shift(mv_shift(m, axis, positive), axis, !positive) == m,
{
    let s = mv_shift(m, axis, positive);
    let t = mv_shift(s, axis, !positive);
    let w = m.width as int;
    let h = m.height as int;
    assert forall|k: int| 0 <= k < m.elems.len() implies t.elems[k] == m.elems[k] by {
        vstd::arithmetic::div_mod::lemma_fundamental_div_mod(k, h);
        vstd::arithmetic::div_mod::lemma_mod_bound(k, h);
        let x = k / h;
        let y = k % h;
        assert(0 <= x < w) by (nonlinear_arith)
            requires
                0 <= k < w * h,
                h >= 1,
                k == h * x + y,
                0 <= y < h,
        ;
        if axis == 0 {
            let sx = if !positive {
                if x == 0 {
                    w - 1
                } else {
                    x - 1
                }
            } else {
                if x == w - 1 {
                    0
                } else {
                    x + 1
                }
            };
            let j = shift_src(s, axis, !positive, k);
            assert(j == sx * h + y);
            vstd::arithmetic::div_mod::lemma_fundamental_div_mod_converse(j, h, sx, y);
            assert(0 <= j < w * h) by (nonlinear_arith)
                requires
                    0 <= sx < w,
                    0 <= y < h,
                    j == sx * h + y,
                    h >= 1,
            ;
            assert(j / h == sx && j % h == y);
            let back = if positive {
                if sx == 0 {
                    w - 1
                } else {
                    sx - 1
                }
            } else {
                if sx == w - 1 {
                    0
                } else {
                    sx + 1
                }
            };
            assert(back == x);
            assert(shift_src(m, axis, positive, j) == back * h + y);
            assert(x * h + y == k) by {
                vstd::arithmetic::div_mod::lemma_fundamental_div_mod(k, h);
            };
        } else {
            let sy = if !positive {
                if y == 0 {
                    h - 1
                } else {
                    y - 1
                }
            } else {
                if y == h - 1 {
                    0
                } else {
                    y + 1
                }
            };
            let j = shift_src(s, axis, !positive, k);
            assert(j == x * h + sy);
            vstd::arithmetic::div_mod::lemma_fundamental_div_mod_converse(j, h, x, sy);
            assert(0 <= j < w * h) by (nonlinear_arith)
                requires
                    0 <= x < w,
                    0 <= sy < h,
                    j == x * h + sy,
                    h >= 1,
            ;
            assert(j / h == x && j % h == sy);
            let back = if positive {
                if sy == 0 {
                    h - 1
                } else {
                    sy - 1
                }
            } else {
                if sy == h - 1 {
                    0
                } else {
                    sy + 1
                }
            };
            assert(back == y);
            assert(shift_src(m, axis, positive, j) == x * h + back);
            assert(x * h + y == k) by {
                vstd::arithmetic::div_mod::lemma_fundamental_div_mod(k, h);
            };
        }
    };
    assert(t.elems =~= m.elems);
}

/// Power consistency: squaring a matrix elementwise, raising it to the
/// power two, and multiplying it elementwise with itself are one and the
/// same operation, on every matrix.
pub proof fn lemma_power_consistency(a: MatrixView)
    ensures
        mv_powi(a, 2) == mv_mul(a, a),
{
    assert forall|i: int| 0 <= i < a.elems.len() implies mv_powi(a, 2).elems[i] == mv_mul(
        a,
        a,
    ).elems[i] by {
        let x = a.elems[i];
        assert(pow_bits(x, 2) == mul_bits_of(pow_bits(x, 1), x));
        assert(pow_bits(x, 1) == x);
    };
    assert(mv_powi(a, 2).elems =~= mv_mul(a, a).elems);
}

/// The weighted average pulling `v` back towards `u0` with weight
/// `tau·lambda`.
pub open spec fn mv_weighted_average(u0: MatrixView, v: MatrixView, tau: u64, lambda: u64) -> MatrixView {
    let tl = mul_bits_of(tau, lambda);
    mv_div_scalar(mv_add(v, mv_scale(tl, u0)), add_bits_of(F64_ONE, tl))
}

} // verus!
