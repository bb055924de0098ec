//! The fixed-topology convolutional network: two convolution + max-pool
//! stages, a flatten, two fully-connected layers with a ReLU and a dropout
//! between them.
//!
//! The shape discipline of the whole graph is verified: a well-formed model
//! maps any batch of `IMAGE_PIXELS`-wide rows to one row of `LABELS` scores
//! per input image.

use vstd::prelude::*;

use crate::backend;
use crate::backend::{
    conv_kernel_size, conv_out_channels, conv_plain_config, dims_of, linear_in_dim,
    linear_out_dim,
};
use crate::MnistError;

verus! {

/// Number of classes the network scores.
pub const LABELS: usize = 10;

/// Side length of one input image.
pub const IMAGE_DIM: usize = 28;

/// Number of pixels of one flattened input image.
pub const IMAGE_PIXELS: usize = 784;

/// Width of the flattened feature map after the two convolution + pool
/// stages, and of the hidden fully-connected layer: 64 channels of 4 x 4.
pub const HIDDEN: usize = 1024;

pub struct Model {
    conv1: candle_nn::Conv2d,
    conv2: candle_nn::Conv2d,
    fc1: candle_nn::Linear,
    fc2: candle_nn::Linear,
    dropout: candle_nn::Dropout,
}

impl Model {
    /// The structural invariant: the layers carry exactly the fixed topology,
    /// so that the shape chain of [`Model::forward`] goes through.
    pub closed spec fn wf(self) -> bool {
        &&& conv_out_channels(self.conv1) == 32
        &&& conv_kernel_size(self.conv1) == 5
        &&& conv_plain_config(self.conv1)
        &&& conv_out_channels(self.conv2) == 64
        &&& conv_kernel_size(self.conv2) == 5
        &&& conv_plain_config(self.conv2)
        &&& linear_in_dim(self.fc1) == HIDDEN && linear_out_dim(self.fc1) == HIDDEN
        &&& linear_in_dim(self.fc2) == HIDDEN && linear_out_dim(self.fc2) == LABELS
    }

    /// Builds the fixed layer graph, registering every learnable parameter in
    /// `vm` under the names `c1`, `c2`, `fc1` and `fc2`. The dropout layer is
    /// handed in by the caller (its rate is a floating-point quantity, which
    /// this library does not touch); training uses rate one half.
    pub fn new(
        vm: &candle_nn::VarMap,
        dev: &candle_core::Device,
        dropout: candle_nn::Dropout,
    ) -> (r: Result<Model, MnistError>)
        ensures
            r matches Ok(m) ==> m.wf(),
    {
        let conv1 = backend::conv2d_new(1, 32, 5, vm, dev, "c1")?;
        let conv2 = backend::conv2d_new(32, 64, 5, vm, dev, "c2")?;
        let fc1 = backend::linear_new(HIDDEN, HIDDEN, vm, dev, "fc1")?;
        let fc2 = backend::linear_new(HIDDEN, LABELS, vm, dev, "fc2")?;
        Ok(Model { conv1, conv2, fc1, fc2, dropout })
    }

    /// The forward computation: reshape a batch of flattened images to
    /// single-channel `IMAGE_DIM` x `IMAGE_DIM` planes, run the two
    /// convolution + pool stages, flatten, and score through the two
    /// fully-connected layers. `train` gates the dropout between them.
    ///
    /// Whatever the tensor engine decides, any tensor returned holds exactly
    /// one row of `LABELS` class scores per input image.
    pub fn forward(
        &self,
        xs: &candle_core::Tensor,
        train: bool,
    ) -> (r: Result<candle_core::Tensor, MnistError>)
        requires
            self.wf(),
        ensures
            r matches Ok(out) ==> dims_of(*xs).len() == 2
                && dims_of(out) == seq![dims_of(*xs)[0], LABELS as nat],
    {
        let (b_size, _img_dim) = backend::dims2(xs)?;
        let xs = backend::reshape4(xs, b_size, 1, IMAGE_DIM, IMAGE_DIM)?;
        let xs = backend::conv2d_forward(&self.conv1, &xs)?;
        let xs = backend::max_pool2(&xs)?;
        let xs = backend::conv2d_forward(&self.conv2, &xs)?;
        let xs = backend::max_pool2(&xs)?;
        let xs = backend::flatten_from1(&xs)?;
        let xs = backend::linear_forward(&self.fc1, &xs)?;
        let xs = backend::relu(&xs)?;
        let xs = backend::dropout_forward(&self.dropout, &xs, train)?;
        backend::linear_forward(&self.fc2, &xs)
    }
}

} // verus!
