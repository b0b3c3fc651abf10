//! Total-variation image denoising with an accelerated primal-dual
//! solver, in a single-channel and a channel-coupled multichannel
//! variant.
//!
//! Matrices hold IEEE-754 binary64 reals, carried throughout as their
//! 64-bit encodings.  Everything structural — shapes and their errors,
//! the wrapping shifts and finite differences, the packing of image
//! bytes into channel matrices, the solver loop and its stopping rule —
//! is implemented and verified here exactly.  The five scalar rounding
//! operations (addition, subtraction, multiplication, division, square
//! root) are delegated to a correctly rounded software implementation
//! and named by uninterpreted spec functions of the operand encodings,
//! so the contract of every matrix operation, and of a whole solve, pins
//! its result down elementwise in terms of those five names.

use vstd::prelude::*;

pub mod array_ops;
pub mod bundle;
pub mod img;
pub mod matrix;
pub mod scalar;
pub mod solvers;
pub mod utils;

pub use bundle::RgbMatrices;
pub use img::RgbRaster;
pub use matrix::Matrix;

verus! {

/// The errors that matrix and solver operations can report.
#[derive(Debug, Clone, Copy, PartialEq, Eq, Structural)]
pub enum Error {
    /// A binary operation was given two operands of different shapes.
    ShapeMismatch,
    /// A difference was requested along an axis the matrix does not have.
    AxisOutOfBounds,
    /// A difference was requested along an axis of length at most one.
    AxisTooShort,
}

} // verus!
