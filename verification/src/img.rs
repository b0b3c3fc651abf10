//! Packing a raw interleaved RGB raster into a bundle of channel
//! matrices, and back.
//!
//! A raster holds 8-bit channel bytes in the usual row-major interleaved
//! layout: the pixel at `(x, y)` occupies the three bytes starting at
//! `(y * width + x) * 3`.  Widening a byte to a real is exact; narrowing a
//! real back to a byte is the saturating truncation of the encoded value.

use vstd::prelude::*;

use crate::Error;
use crate::bundle::{BundleView, RgbMatrices};
use crate::matrix::{Matrix, MatrixView};
use crate::scalar::{add_bits, add_bits_of, bits_to_u8, bits_u8, lemma_channel_round_trip, u8_bits, u8_to_bits};

verus! {

/// Trait for reading the two components of a shape.
pub trait Shape {
    fn width(&self) -> usize;

    fn height(&self) -> usize;
}

impl Shape for (usize, usize) {
    /// The first component of the pair.
    fn width(&self) -> (r: usize)
        ensures
            r == self.0,
    {
        self.0
    }

    /// The second component of the pair.
    fn height(&self) -> (r: usize)
        ensures
            r == self.1,
    {
        self.1
    }
}

/// A color channel of an RGB image.
#[derive(Debug, Clone, Copy, PartialEq, Eq, Structural)]
pub enum Channel {
    Red,
    Green,
    Blue,
}

/// The byte offset of a channel inside one interleaved pixel.
pub open spec fn channel_offset(c: Channel) -> int {
    match c {
        Channel::Red => 0,
        Channel::Green => 1,
        Channel::Blue => 2,
    }
}

impl Channel {
    /// The byte offset of this channel inside one interleaved pixel.
    pub fn index(&self) -> (r: usize)
        ensures
            r == channel_offset(*self),
    {
        match self {
            Channel::Red => 0,
            Channel::Green => 1,
            Channel::Blue => 2,
        }
    }
}

/// The mathematical content of a raster: its shape and its interleaved
/// channel bytes.
#[verifier::ext_equal]
pub ghost struct RasterView {
    pub bytes: Seq<u8>,
    pub width: nat,
    pub height: nat,
}

/// The elements of one channel of a raster, widened to reals, in the
/// `x`-major order of a matrix of shape `(width, height)`.
pub open spec fn channel_elems(r: RasterView, c: int) -> Seq<u64> {
    Seq::new(
        r.width * r.height,
        |k: int|
            u8_bits(
                r.bytes[((k % (r.height as int)) * (r.width as int) + k / (r.height as int)) * 3
                    + c],
            ),
    )
}

/// The interleaved bytes that a bundle narrows to, channel by channel.
pub open spec fn packed_bytes(b: BundleView) -> Seq<u8> {
    Seq::new(
        3 * b.width() * b.height(),
        |j: int|
            {
                let p = j / 3;
                let c = j % 3;
                let x = p % (b.width() as int);
                let y = p / (b.width() as int);
                let ch = if c == 0 {
                    b.red
                } else if c == 1 {
                    b.green
                } else {
                    b.blue
                };
                bits_u8(ch.elems[x * (b.height() as int) + y])
            },
    )
}

/// The bytes of a raster after one channel is overwritten from a matrix.
pub open spec fn updated_bytes(r: RasterView, c: int, m: MatrixView) -> Seq<u8> {
    Seq::new(
        r.bytes.len(),
        |j: int|
            if j % 3 == c {
                let p = j / 3;
                let x = p % (r.width as int);
                let y = p / (r.width as int);
                bits_u8(m.elems[x * (r.height as int) + y])
            } else {
                r.bytes[j]
            },
    )
}

/// The elements of a matrix widened from the bytes of a gray image in
/// row-major pixel order.
pub open spec fn gray_elems(bytes: Seq<u8>, width: nat, height: nat) -> Seq<u64> {
    Seq::new(
        width * height,
        |k: int| u8_bits(bytes[(k % (height as int)) * (width as int) + k / (height as int)]),
    )
}

/// The gray bytes that a matrix narrows to, pixel by pixel.
pub open spec fn gray_bytes_of(m: MatrixView) -> Seq<u8> {
    Seq::new(
        m.width * m.height,
        |j: int|
            bits_u8(m.elems[(j % (m.width as int)) * (m.height as int) + j / (m.width as int)]),
    )
}

/// The luma bytes of a bundle: per pixel, the saturating truncation of
/// the sum of the three channel values, red and green first.
pub open spec fn luma_bytes_of(b: BundleView) -> Seq<u8> {
    Seq::new(
        b.width() * b.height(),
        |j: int|
            {
                let k = (j % (b.width() as int)) * (b.height() as int) + j / (b.width() as int);
                bits_u8(
                    add_bits_of(add_bits_of(b.red.elems[k], b.green.elems[k]), b.blue.elems[k]),
                )
            },
    )
}

/// Widens the bytes of a gray image into a matrix of reals; rejects a
/// vector whose length does not match the shape.
pub fn gray_to_matrix(bytes: &Vec<u8>, width: usize, height: usize) -> (r: Result<Matrix, Error>)
    ensures
        match r {
            Ok(m) => {
                &&& bytes@.len() == width * height
                &&& m@ == (MatrixView {
                    elems: gray_elems(bytes@, width as nat, height as nat),
                    width: width as nat,
                    height: height as nat,
                })
            },
            Err(e) => {
                &&& e == Error::ShapeMismatch
                &&& bytes@.len() != width * height
            },
        },
{
    let len: usize = bytes.len();
    let n: usize = match width.checked_mul(height) {
        Some(n) if n == len => n,
        _ => {
            return Err(Error::ShapeMismatch);
        },
    };
    let mut data: Vec<u64> = Vec::new();
    let mut k: usize = 0;
    while k < n
        invariant
            k <= n,
            n == width * height,
            n == bytes@.len(),
            data@.len() == k,
            forall|j: int|
                0 <= j < k ==> data@[j] == gray_elems(bytes@, width as nat, height as nat)[j],
        decreases n - k,
    {
        proof {
            assert(height > 0) by (nonlinear_arith)
                requires
                    k < n,
                    n == width * height,
            ;
        }
        let x: usize = k / height;
        let y: usize = k % height;
        proof {
            assert(x < width && y < height) by (nonlinear_arith)
                requires
                    k < n,
                    n == width * height,
                    height > 0,
                    x == k as int / height as int,
                    y == k as int % height as int,
            ;
            assert(y * width + x < n) by (nonlinear_arith)
                requires
                    x < width,
                    y < height,
                    n == width * height,
            ;
        }
        let v: u64 = u8_to_bits(bytes[y * width + x]);
        data.push(v);
        k += 1;
    }
    let m = Matrix::from_vec_exact(data, width, height);
    proof {
        assert(m@.elems =~= gray_elems(bytes@, width as nat, height as nat));
    }
    Ok(m)
}

/// Narrows a matrix of reals into the bytes of a gray image by
/// saturating truncation.
pub fn matrix_to_gray_bytes(m: &Matrix) -> (r: Vec<u8>)
    ensures
        r@ == gray_bytes_of(m@),
{
    let w: usize = m.width();
    let h: usize = m.height();
    proof {
        use_type_invariant(m);
    }
    let n: usize = m.elem_count();
    let mut bytes: Vec<u8> = Vec::new();
    let mut j: usize = 0;
    while j < n
        invariant
            j <= n,
            n == w * h,
            m@.width == w,
            m@.height == h,
            bytes@.len() == j,
            forall|i: int| 0 <= i < j ==> bytes@[i] == gray_bytes_of(m@)[i],
        decreases n - j,
    {
        proof {
            assert(w > 0) by (nonlinear_arith)
                requires
                    j < n,
                    n == w * h,
            ;
            assert(j as int % (w as int) < w && j as int / (w as int) < h) by (nonlinear_arith)
                requires
                    j < n,
                    n == w * h,
                    w > 0,
            ;
        }
        let x: usize = j % w;
        let y: usize = j / w;
        bytes.push(bits_to_u8(m.get(x, y)));
        j += 1;
    }
    proof {
        assert(bytes@ =~= gray_bytes_of(m@));
    }
    bytes
}

/// Narrows a bundle into the bytes of a gray image: each pixel is the
/// saturating truncation of the sum of its three channel values.
pub fn luma_bytes(img_matrices: &RgbMatrices) -> (r: Vec<u8>)
    ensures
        r@ == luma_bytes_of(img_matrices@),
{
    proof {
        use_type_invariant(img_matrices);
    }
    let (w, h) = img_matrices.shape();
    let red_channel = img_matrices.red();
    proof {
        use_type_invariant(red_channel);
    }
    let n: usize = red_channel.elem_count();
    let mut bytes: Vec<u8> = Vec::new();
    let mut j: usize = 0;
    while j < n
        invariant
            j <= n,
            n == w * h,
            img_matrices@.width() == w,
            img_matrices@.height() == h,
            img_matrices@.channels_same_shape(),
            bytes@.len() == j,
            forall|i: int| 0 <= i < j ==> bytes@[i] == luma_bytes_of(img_matrices@)[i],
        decreases n - j,
    {
        proof {
            assert(w > 0) by (nonlinear_arith)
                requires
                    j < n,
                    n == w * h,
            ;
            assert(j as int % (w as int) < w && j as int / (w as int) < h) by (nonlinear_arith)
                requires
                    j < n,
                    n == w * h,
                    w > 0,
            ;
        }
        let x: usize = j % w;
        let y: usize = j / w;
        let rg: u64 = add_bits(
            img_matrices.red().get(x, y),
            img_matrices.green().get(x, y),
        );
        let s: u64 = add_bits(rg, img_matrices.blue().get(x, y));
        bytes.push(bits_to_u8(s));
        j += 1;
    }
    proof {
        assert(bytes@ =~= luma_bytes_of(img_matrices@));
    }
    bytes
}

/// Round trip of the packing: widening a raster into its three channel
/// matrices and narrowing them back yields the very same bytes, for
/// every raster.
pub proof fn lemma_pack_round_trip(r: RasterView)
    requires
        r.bytes.len() == 3 * r.width * r.height,
    ensures
        packed_bytes(
            BundleView {
                red: MatrixView { elems: channel_elems(r, 0), width: r.width, height: r.height },
                green: MatrixView { elems: channel_elems(r, 1), width: r.width, height: r.height },
                blue: MatrixView { elems: channel_elems(r, 2), width: r.width, height: r.height },
            },
        ) == r.bytes,
{
    let b = BundleView {
        red: MatrixView { elems: channel_elems(r, 0), width: r.width, height: r.height },
        green: MatrixView { elems: channel_elems(r, 1), width: r.width, height: r.height },
        blue: MatrixView { elems: channel_elems(r, 2), width: r.width, height: r.height },
    };
    let w = r.width as int;
    let h = r.height as int;
    assert(3 * (w * h) == 3 * w * h) by (nonlinear_arith);
    assert forall|j: int| 0 <= j < r.bytes.len() implies packed_bytes(b)[j] == r.bytes[j] by {
        assert(r.bytes.len() == 3 * (w * h)) by (nonlinear_arith)
            requires
                r.bytes.len() == 3 * r.width * r.height,
                w == r.width as int,
                h == r.height as int,
        ;
        assert(w >= 1 && h >= 1) by (nonlinear_arith)
            requires
                0 <= j < 3 * (w * h),
                w >= 0,
                h >= 0,
        ;
        vstd::arithmetic::div_mod::lemma_fundamental_div_mod(j, 3);
        vstd::arithmetic::div_mod::lemma_mod_bound(j, 3);
        let p = j / 3;
        let c = j % 3;
        assert(0 <= p < w * h) by (nonlinear_arith)
            requires
                0 <= j < 3 * (w * h),
                j == 3 * p + c,
                0 <= c < 3,
        ;
        vstd::arithmetic::div_mod::lemma_fundamental_div_mod(p, w);
        vstd::arithmetic::div_mod::lemma_mod_bound(p, w);
        let x = p % w;
        let y = p / w;
        assert(0 <= y < h) by (nonlinear_arith)
            requires
                0 <= p < w * h,
                w >= 1,
                p == w * y + x,
                0 <= x < w,
        ;
        let k = x * h + y;
        assert(0 <= k < w * h) by (nonlinear_arith)
            requires
                0 <= x < w,
                0 <= y < h,
                k == x * h + y,
        ;
        vstd::arithmetic::div_mod::lemma_fundamental_div_mod_converse(k, h, x, y);
        assert(y * w + x == p) by (nonlinear_arith)
            requires
                p == w * y + x,
        ;
        assert((k % h) * w + k / h == p);
        assert(((k % h) * w + k / h) * 3 + c == j) by (nonlinear_arith)
            requires
                (k % h) * w + k / h == p,
                j == 3 * p + c,
        ;
        lemma_channel_round_trip(r.bytes[j]);
    };
    assert(packed_bytes(b) =~= r.bytes);
}

/// Trait for moving an image representation into a bundle of channel
/// matrices and back.
pub trait Manipulation: Sized {
    /// Whether a bundle is small enough to pack into this image form.
    spec fn pack_fits(img_matrices: &RgbMatrices) -> bool;

    /// The shape of the image as `(width, height)`.
    fn shape(&self) -> (usize, usize);

    /// Widens the image into one matrix of reals per channel.
    fn to_matrices(&self) -> RgbMatrices;

    /// Narrows a bundle back into an image.
    fn from_matrices(img_matrices: &RgbMatrices) -> Self
        requires
            Self::pack_fits(img_matrices),
    ;
}

/// A raw interleaved RGB raster.
#[derive(Debug, PartialEq, Eq)]
pub struct RgbRaster {
    bytes: Vec<u8>,
    width: usize,
    height: usize,
}

impl View for RgbRaster {
    type V = RasterView;

    closed spec fn view(&self) -> RasterView {
        RasterView { bytes: self.bytes@, width: self.width as nat, height: self.height as nat }
    }
}

impl RgbRaster {
    #[verifier::type_invariant]
    pub(crate) open spec fn type_inv(self) -> bool {
        self@.bytes.len() == 3 * self@.width * self@.height
    }

    /// A black raster of the given shape.
    pub fn new(width: usize, height: usize) -> (r: RgbRaster)
        requires
            3 * width * height <= usize::MAX,
        ensures
            r@.width == width,
            r@.height == height,
            r@.bytes.len() == 3 * width * height,
            forall|j: int| 0 <= j < r@.bytes.len() ==> r@.bytes[j] == 0u8,
    {
        proof {
            assert(3 * (width * height) == 3 * width * height && width * height <= 3 * (width
                * height)) by (nonlinear_arith);
        }
        let n: usize = 3 * (width * height);
        let mut bytes: Vec<u8> = Vec::new();
        let mut j: usize = 0;
        while j < n
            invariant
                j <= n,
                n == 3 * width * height,
                bytes@.len() == j,
                forall|i: int| 0 <= i < j ==> bytes@[i] == 0u8,
            decreases n - j,
        {
            bytes.push(0u8);
            j += 1;
        }
        RgbRaster { bytes, width, height }
    }

    /// Builds a raster of the given shape from its interleaved bytes;
    /// rejects a vector whose length does not match the shape.
    pub fn from_bytes(bytes: Vec<u8>, width: usize, height: usize) -> (r: Result<RgbRaster, Error>)
        ensures
            match r {
                Ok(img) => {
                    &&& bytes@.len() == 3 * width * height
                    &&& img@ == (RasterView {
                        bytes: bytes@,
                        width: width as nat,
                        height: height as nat,
                    })
                },
                Err(e) => {
                    &&& e == Error::ShapeMismatch
                    &&& bytes@.len() != 3 * width * height
                },
            },
    {
        proof {
            assert((width * height) * 3 == 3 * width * height && width * height <= (width * height)
                * 3) by (nonlinear_arith);
        }
        let len: usize = bytes.len();
        match width.checked_mul(height) {
            Some(n) => match n.checked_mul(3) {
                Some(total) if total == len => Ok(RgbRaster { bytes, width, height }),
                _ => Err(Error::ShapeMismatch),
            },
            None => Err(Error::ShapeMismatch),
        }
    }

    /// The interleaved bytes of the raster.
    pub fn into_bytes(self) -> (r: Vec<u8>)
        ensures
            r@ == self@.bytes,
    {
        self.bytes
    }

    /// One channel of the raster, widened into a matrix of reals.
    pub fn get_channel(&self, channel: Channel) -> (r: Matrix)
        ensures
            r@ == (MatrixView {
                elems: channel_elems(self@, channel_offset(channel)),
                width: self@.width,
                height: self@.height,
            }),
    {
        self.channel_matrix(channel.index())
    }

    /// One channel of the raster as a matrix, by its byte offset.
    fn channel_matrix(&self, c: usize) -> (r: Matrix)
        requires
            c < 3,
        ensures
            r@ == (MatrixView {
                elems: channel_elems(self@, c as int),
                width: self@.width,
                height: self@.height,
            }),
    {
        proof {
            use_type_invariant(self);
            assert(3 * (self@.width * self@.height) == 3 * self@.width * self@.height && self@.width
                * self@.height <= 3 * (self@.width * self@.height)) by (nonlinear_arith);
        }
        // materializes the length bound that keeps the index arithmetic
        // within `usize`
        let _count: usize = self.bytes.len();
        let w: usize = self.width;
        let h: usize = self.height;
        let n: usize = w * h;
        let mut data: Vec<u64> = Vec::new();
        let mut k: usize = 0;
        while k < n
            invariant
                k <= n,
                n == w * h,
                w == self@.width,
                h == self@.height,
                c < 3,
                self@.bytes.len() == 3 * n,
                3 * n <= usize::MAX,
                data@.len() == k,
                forall|j: int|
                    0 <= j < k ==> data@[j] == channel_elems(self@, c as int)[j],
            decreases n - k,
        {
            proof {
                assert(h > 0) by (nonlinear_arith)
                    requires
                        k < n,
                        n == w * h,
                ;
            }
            let x: usize = k / h;
            let y: usize = k % h;
            proof {
                assert(x < w && y < h) by (nonlinear_arith)
                    requires
                        k < n,
                        n == w * h,
                        h > 0,
                        x == k as int / h as int,
                        y == k as int % h as int,
                ;
                assert(y * w + x < n) by (nonlinear_arith)
                    requires
                        x < w,
                        y < h,
                        n == w * h,
                ;
            }
            let idx: usize = (y * w + x) * 3 + c;
            let v: u64 = u8_to_bits(self.bytes[idx]);
            data.push(v);
            k += 1;
        }
        let r = Matrix::from_vec_exact(data, w, h);
        proof {
            assert(r@.elems =~= channel_elems(self@, c as int));
        }
        r
    }

    /// Overwrites one channel of the raster from a matrix of reals by
    /// saturating truncation; rejects a matrix whose shape differs from
    /// the raster's.
    pub fn update_channel(&mut self, channel: Channel, img: &Matrix) -> (r: Result<(), Error>)
        ensures
            match r {
                Ok(()) => {
                    &&& img@.width == old(self)@.width && img@.height == old(self)@.height
                    &&& final(self)@.width == old(self)@.width && final(self)@.height == old(
                        self,
                    )@.height
                    &&& final(self)@.bytes == updated_bytes(
                        old(self)@,
                        channel_offset(channel),
                        img@,
                    )
                },
                Err(e) => {
                    &&& e == Error::ShapeMismatch
                    &&& !(img@.width == old(self)@.width && img@.height == old(self)@.height)
                    &&& final(self)@ == old(self)@
                },
            },
    {
        proof {
            use_type_invariant(&*self);
            use_type_invariant(img);
            assert(3 * (self@.width * self@.height) == 3 * self@.width * self@.height) by (nonlinear_arith);
        }
        let (mw, mh) = img.shape();
        if !(mw == self.width && mh == self.height) {
            return Err(Error::ShapeMismatch);
        }
        let c: usize = channel.index();
        let w: usize = self.width;
        let h: usize = self.height;
        let n: usize = self.bytes.len();
        let mut bytes: Vec<u8> = Vec::new();
        let mut j: usize = 0;
        while j < n
            invariant
                j <= n,
                n == self@.bytes.len(),
                n == 3 * (w * h),
                w == self@.width,
                h == self@.height,
                img@.width == w,
                img@.height == h,
                c == channel_offset(channel),
                c < 3,
                bytes@.len() == j,
                forall|i: int|
                    0 <= i < j ==> bytes@[i] == updated_bytes(self@, c as int, img@)[i],
            decreases n - j,
        {
            let b: u8 = if j % 3 == c {
                let p: usize = j / 3;
                proof {
                    assert(w > 0 && p < w * h) by (nonlinear_arith)
                        requires
                            j < n,
                            n == 3 * (w * h),
                            p == j as int / 3,
                    ;
                    assert(p as int % (w as int) < w && p as int / (w as int) < h) by (nonlinear_arith)
                        requires
                            p < w * h,
                            w > 0,
                    ;
                }
                let x: usize = p % w;
                let y: usize = p / w;
                bits_to_u8(img.get(x, y))
            } else {
                self.bytes[j]
            };
            bytes.push(b);
            j += 1;
        }
        proof {
            assert(bytes@ =~= updated_bytes(self@, c as int, img@));
        }
        self.bytes = bytes;
        Ok(())
    }
}

impl Manipulation for RgbRaster {
    /// A bundle fits when its three interleaved channels fit in one
    /// allocation.
    open spec fn pack_fits(img_matrices: &RgbMatrices) -> bool {
        3 * img_matrices@.width() * img_matrices@.height() <= usize::MAX
    }

    /// The shape of the raster as `(width, height)`.
    fn shape(&self) -> (r: (usize, usize))
        ensures
            r.0 == self@.width,
            r.1 == self@.height,
    {
        (self.width, self.height)
    }

    /// Widens the raster into one matrix of reals per channel.
    fn to_matrices(&self) -> (r: RgbMatrices)
        ensures
            r@.red == (MatrixView {
                elems: channel_elems(self@, 0),
                width: self@.width,
                height: self@.height,
            }),
            r@.green == (MatrixView {
                elems: channel_elems(self@, 1),
                width: self@.width,
                height: self@.height,
            }),
            r@.blue == (MatrixView {
                elems: channel_elems(self@, 2),
                width: self@.width,
                height: self@.height,
            }),
    {
        let red = self.channel_matrix(0);
        let green = self.channel_matrix(1);
        let blue = self.channel_matrix(2);
        RgbMatrices::from_channels_exact(red, green, blue)
    }

    /// Narrows a bundle back into a raster by saturating truncation of
    /// every element.
    fn from_matrices(img_matrices: &RgbMatrices) -> (r: Self)
        ensures
            r@.width == img_matrices@.width(),
            r@.height == img_matrices@.height(),
            r@.bytes == packed_bytes(img_matrices@),
    {
        proof {
            use_type_invariant(img_matrices);
        }
        let (w, h) = img_matrices.shape();
        proof {
            assert(3 * (w * h) == 3 * w * h && w * h <= 3 * (w * h)) by (nonlinear_arith);
        }
        let n: usize = 3 * (w * h);
        let mut bytes: Vec<u8> = Vec::new();
        let mut j: usize = 0;
        while j < n
            invariant
                j <= n,
                n == 3 * (w * h),
                n == 3 * img_matrices@.width() * img_matrices@.height(),
                img_matrices@.width() == w,
                img_matrices@.height() == h,
                img_matrices@.channels_same_shape(),
                bytes@.len() == j,
                forall|i: int| 0 <= i < j ==> bytes@[i] == packed_bytes(img_matrices@)[i],
            decreases n - j,
        {
            let p: usize = j / 3;
            let c: usize = j % 3;
            proof {
                assert(w > 0 && p < w * h) by (nonlinear_arith)
                    requires
                        j < n,
                        n == 3 * (w * h),
                        p == j as int / 3,
                ;
                assert(p as int % (w as int) < w && p as int / (w as int) < h) by (nonlinear_arith)
                    requires
                        p < w * h,
                        w > 0,
                ;
            }
            let x: usize = p % w;
            let y: usize = p / w;
            let bits: u64 = if c == 0 {
                img_matrices.red().get(x, y)
            } else if c == 1 {
                img_matrices.green().get(x, y)
            } else {
                img_matrices.blue().get(x, y)
            };
            bytes.push(bits_to_u8(bits));
            j += 1;
        }
        let r = RgbRaster { bytes, width: w, height: h };
        proof {
            assert(r@.bytes =~= packed_bytes(img_matrices@));
        }
        r
    }
}

} // verus!
