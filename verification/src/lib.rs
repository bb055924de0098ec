//! A small convolutional-network training and inference library for
//! handwritten-digit classification.
//!
//! The tensor engine (convolution, pooling, autograd, the AdamW update rule)
//! is provided by the `candle` crates and is reached only through the trusted
//! bindings in [`backend`]. Everything else — the model's layer graph and its
//! shape discipline, the batching arithmetic, the batch-order shuffle, the
//! evaluation count and the training loop — is verified.

use vstd::prelude::*;

pub mod backend;
pub mod eval;
pub mod model;
pub mod pred;
pub mod shuffle;
pub mod train;

verus! {

/// The library's error type; it carries the tensor engine's error through
/// unchanged so that callers can report it.
#[derive(Debug)]
pub enum MnistError {
    /// A failure reported by the tensor engine: device unavailable, shape
    /// mismatch, or an I/O failure while reading or writing tensors.
    Tensor(candle_core::Error),
}

} // verus!
