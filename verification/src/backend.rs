//! Trusted bindings to the tensor engine (`candle-core` / `candle-nn`) and to
//! the `rand` pseudo-random generator.
//!
//! Every function here is `external_body`: its contract is believed, not
//! proved. Each contract states only what the called crate's source shows,
//! mostly over two named views of a tensor: its shape (`dims_of`) and, for a
//! rank-1 `u32` tensor, its contents (`u32_vals_of`).

use vstd::prelude::*;

use crate::MnistError;
use candle_nn::Module;
use candle_nn::Optimizer;
use rand::RngExt;

verus! {

// ----- declarations of the outside types that signatures mention -----

#[verifier::external_type_specification]
#[verifier::external_body]
pub struct ExTensor(candle_core::Tensor);

#[verifier::external_type_specification]
#[verifier::external_body]
pub struct ExDevice(candle_core::Device);

#[verifier::external_type_specification]
#[verifier::external_body]
pub struct ExError(candle_core::Error);

#[verifier::external_type_specification]
#[verifier::external_body]
pub struct ExVar(candle_core::Var);

#[verifier::external_type_specification]
#[verifier::external_body]
pub struct ExConv2d(candle_nn::Conv2d);

#[verifier::external_type_specification]
#[verifier::external_body]
pub struct ExLinear(candle_nn::Linear);

#[verifier::external_type_specification]
#[verifier::external_body]
pub struct ExDropout(candle_nn::Dropout);

#[verifier::external_type_specification]
#[verifier::external_body]
pub struct ExVarMap(candle_nn::VarMap);

#[verifier::external_type_specification]
#[verifier::external_body]
pub struct ExAdamW(candle_nn::AdamW);

#[verifier::external_type_specification]
#[verifier::external_body]
pub struct ExStdRng(rand::rngs::StdRng);

// ----- named views of the outside values -----

/// The shape of a tensor: one extent per dimension.
pub uninterp spec fn dims_of(t: candle_core::Tensor) -> Seq<nat>;

/// The contents of a rank-1 `u32` tensor; unconstrained for any other tensor.
pub uninterp spec fn u32_vals_of(t: candle_core::Tensor) -> Seq<u32>;

/// The number of output channels a convolution layer was built with.
pub uninterp spec fn conv_out_channels(c: candle_nn::Conv2d) -> nat;

/// The square kernel size a convolution layer was built with.
pub uninterp spec fn conv_kernel_size(c: candle_nn::Conv2d) -> nat;

/// Whether a convolution layer carries the default configuration:
/// padding 0, stride 1, dilation 1, one group.
pub uninterp spec fn conv_plain_config(c: candle_nn::Conv2d) -> bool;

/// The input width a fully-connected layer was built with.
pub uninterp spec fn linear_in_dim(l: candle_nn::Linear) -> nat;

/// The output width a fully-connected layer was built with.
pub uninterp spec fn linear_out_dim(l: candle_nn::Linear) -> nat;

// ----- layer construction -----

/// Relies on `candle_nn::conv2d`: builds a square-kernel convolution layer
/// with the default `Conv2dConfig` (padding 0, stride 1, dilation 1, one
/// group), registering its weight and bias under `name` in the variable map.
#[verifier::external_body]
pub(crate) fn conv2d_new(
    in_channels: usize,
    out_channels: usize,
    kernel_size: usize,
    vm: &candle_nn::VarMap,
    dev: &candle_core::Device,
    name: &str,
) -> (r: Result<candle_nn::Conv2d, MnistError>)
    ensures
        r matches Ok(c) ==> conv_out_channels(c) == out_channels
            && conv_kernel_size(c) == kernel_size
            && conv_plain_config(c),
{
    let vs = candle_nn::VarBuilder::from_varmap(vm, candle_core::DType::F32, dev);
    candle_nn::conv2d(in_channels, out_channels, kernel_size, Default::default(), vs.pp(name))
        .map_err(MnistError::Tensor)
}

/// Relies on `candle_nn::linear`: builds a fully-connected layer with weight
/// and bias, registering them under `name` in the variable map.
#[verifier::external_body]
pub(crate) fn linear_new(
    in_dim: usize,
    out_dim: usize,
    vm: &candle_nn::VarMap,
    dev: &candle_core::Device,
    name: &str,
) -> (r: Result<candle_nn::Linear, MnistError>)
    ensures
        r matches Ok(l) ==> linear_in_dim(l) == in_dim && linear_out_dim(l) == out_dim,
{
    let vs = candle_nn::VarBuilder::from_varmap(vm, candle_core::DType::F32, dev);
    candle_nn::linear(in_dim, out_dim, vs.pp(name)).map_err(MnistError::Tensor)
}

// ----- layer application -----

/// Relies on `candle_nn::Conv2d::forward` (`Module`). For a layer with the
/// default configuration and input `(b, c, h, w)` with `h, w >= kernel`, any
/// tensor it returns has shape `(b, out_channels, h - kernel + 1,
/// w - kernel + 1)`.
#[verifier::external_body]
pub(crate) fn conv2d_forward(
    c: &candle_nn::Conv2d,
    xs: &candle_core::Tensor,
) -> (r: Result<candle_core::Tensor, MnistError>)
    requires
        dims_of(*xs).len() == 4,
        conv_kernel_size(*c) >= 1,
        dims_of(*xs)[2] >= conv_kernel_size(*c),
        dims_of(*xs)[3] >= conv_kernel_size(*c),
        conv_plain_config(*c),
    ensures
        r matches Ok(out) ==> dims_of(out) == seq![
            dims_of(*xs)[0],
            conv_out_channels(*c),
            (dims_of(*xs)[2] - conv_kernel_size(*c) + 1) as nat,
            (dims_of(*xs)[3] - conv_kernel_size(*c) + 1) as nat,
        ],
{
    c.forward(xs).map_err(MnistError::Tensor)
}

/// Relies on `candle_nn::Linear::forward` (`Module`): on rank-2 input
/// `(b, k)` any tensor it returns has shape `(b, out_dim)`.
#[verifier::external_body]
pub(crate) fn linear_forward(
    l: &candle_nn::Linear,
    xs: &candle_core::Tensor,
) -> (r: Result<candle_core::Tensor, MnistError>)
    requires
        dims_of(*xs).len() == 2,
    ensures
        r matches Ok(out) ==> dims_of(out) == seq![dims_of(*xs)[0], linear_out_dim(*l)],
{
    l.forward(xs).map_err(MnistError::Tensor)
}

/// Relies on `candle_nn::Dropout::forward`: with `train` it multiplies by a
/// random mask of the input's own shape, without it it returns the input
/// unchanged; either way the shape is kept.
#[verifier::external_body]
pub(crate) fn dropout_forward(
    d: &candle_nn::Dropout,
    xs: &candle_core::Tensor,
    train: bool,
) -> (r: Result<candle_core::Tensor, MnistError>)
    ensures
        r matches Ok(out) ==> dims_of(out) == dims_of(*xs),
{
    d.forward(xs, train).map_err(MnistError::Tensor)
}

// ----- tensor operations -----

/// Relies on `candle_core::Tensor::dims2`: returns the two extents of a
/// rank-2 tensor, and fails on any other rank.
#[verifier::external_body]
pub(crate) fn dims2(xs: &candle_core::Tensor) -> (r: Result<(usize, usize), MnistError>)
    ensures
        r matches Ok(p) ==> dims_of(*xs) == seq![p.0 as nat, p.1 as nat],
{
    xs.dims2().map_err(MnistError::Tensor)
}

/// Relies on `candle_core::Tensor::reshape`: on success the result holds the
/// same elements under the four requested extents.
#[verifier::external_body]
pub(crate) fn reshape4(
    xs: &candle_core::Tensor,
    d0: usize,
    d1: usize,
    d2: usize,
    d3: usize,
) -> (r: Result<candle_core::Tensor, MnistError>)
    ensures
        r matches Ok(out) ==> dims_of(out) == seq![d0 as nat, d1 as nat, d2 as nat, d3 as nat],
{
    xs.reshape((d0, d1, d2, d3)).map_err(MnistError::Tensor)
}

/// Relies on `candle_core::Tensor::max_pool2d` with a square kernel of 2 and
/// the same stride: input `(b, c, h, w)` with `h, w >= 2` pools to
/// `(b, c, h / 2, w / 2)`.
#[verifier::external_body]
pub(crate) fn max_pool2(xs: &candle_core::Tensor) -> (r: Result<candle_core::Tensor, MnistError>)
    requires
        dims_of(*xs).len() == 4,
    ensures
        r matches Ok(out) ==> dims_of(out) == seq![
            dims_of(*xs)[0],
            dims_of(*xs)[1],
            (dims_of(*xs)[2] / 2) as nat,
            (dims_of(*xs)[3] / 2) as nat,
        ],
{
    xs.max_pool2d(2).map_err(MnistError::Tensor)
}

/// Relies on `candle_core::Tensor::flatten_from` with start dimension 1: a
/// rank-4 tensor `(b, c, h, w)` flattens to `(b, c * h * w)`.
#[verifier::external_body]
pub(crate) fn flatten_from1(
    xs: &candle_core::Tensor,
) -> (r: Result<candle_core::Tensor, MnistError>)
    requires
        dims_of(*xs).len() == 4,
    ensures
        r matches Ok(out) ==> dims_of(out) == seq![
            dims_of(*xs)[0],
            dims_of(*xs)[1] * dims_of(*xs)[2] * dims_of(*xs)[3],
        ],
{
    xs.flatten_from(1).map_err(MnistError::Tensor)
}

/// Relies on `candle_core::Tensor::relu`: an element-wise operation that
/// keeps the shape.
#[verifier::external_body]
pub(crate) fn relu(xs: &candle_core::Tensor) -> (r: Result<candle_core::Tensor, MnistError>)
    ensures
        r matches Ok(out) ==> dims_of(out) == dims_of(*xs),
{
    xs.relu().map_err(MnistError::Tensor)
}

/// Relies on `candle_core::Tensor::narrow` on dimension 0: on success the
/// requested range lay inside the tensor and only the first extent changes,
/// to `len`.
#[verifier::external_body]
pub(crate) fn narrow0(
    xs: &candle_core::Tensor,
    start: usize,
    len: usize,
) -> (r: Result<candle_core::Tensor, MnistError>)
    ensures
        r matches Ok(out) ==> dims_of(*xs).len() >= 1
            && start + len <= dims_of(*xs)[0]
            && dims_of(out) == dims_of(*xs).update(0, len as nat),
{
    xs.narrow(0, start, len).map_err(MnistError::Tensor)
}

/// Relies on `candle_core::Tensor::to_device`: moves the data to the given
/// device, keeping the shape.
#[verifier::external_body]
pub(crate) fn to_device(
    xs: &candle_core::Tensor,
    dev: &candle_core::Device,
) -> (r: Result<candle_core::Tensor, MnistError>)
    ensures
        r matches Ok(out) ==> dims_of(out) == dims_of(*xs),
{
    xs.to_device(dev).map_err(MnistError::Tensor)
}

/// Relies on `candle_core::Tensor::to_dtype` with target `u32`: converts the
/// element type, keeps the shape.
#[verifier::external_body]
pub(crate) fn to_dtype_u32(
    xs: &candle_core::Tensor,
) -> (r: Result<candle_core::Tensor, MnistError>)
    ensures
        r matches Ok(out) ==> dims_of(out) == dims_of(*xs),
{
    xs.to_dtype(candle_core::DType::U32).map_err(MnistError::Tensor)
}

/// Relies on `candle_core::Tensor::argmax` over the last dimension of a
/// rank-2 tensor: the result is the rank-1 `u32` tensor of row-wise indices
/// of the largest entry, so each value is below the second extent.
#[verifier::external_body]
pub(crate) fn argmax_last(
    xs: &candle_core::Tensor,
) -> (r: Result<candle_core::Tensor, MnistError>)
    requires
        dims_of(*xs).len() == 2,
        dims_of(*xs)[1] >= 1,
    ensures
        r matches Ok(out) ==> dims_of(out) == seq![dims_of(*xs)[0]]
            && u32_vals_of(out).len() == dims_of(*xs)[0]
            && (forall|i: int| 0 <= i < u32_vals_of(out).len()
                ==> (#[trigger] u32_vals_of(out)[i]) < dims_of(*xs)[1]),
{
    xs.argmax(candle_core::D::Minus1).map_err(MnistError::Tensor)
}

/// Relies on `candle_core::Tensor::to_vec1` at element type `u32`: succeeds
/// only on a rank-1 `u32` tensor and then returns exactly its contents.
#[verifier::external_body]
pub(crate) fn to_vec1_u32(xs: &candle_core::Tensor) -> (r: Result<Vec<u32>, MnistError>)
    ensures
        r matches Ok(v) ==> dims_of(*xs).len() == 1
            && v@.len() == dims_of(*xs)[0]
            && v@ == u32_vals_of(*xs),
{
    xs.to_vec1::<u32>().map_err(MnistError::Tensor)
}

/// Relies on `candle_core::Tensor::zeros` at element type `f32`: a scalar
/// (rank-0) zero tensor on the given device.
#[verifier::external_body]
pub(crate) fn zeros_scalar(
    dev: &candle_core::Device,
) -> (r: Result<candle_core::Tensor, MnistError>)
    ensures
        r matches Ok(out) ==> dims_of(out) == Seq::<nat>::empty(),
{
    candle_core::Tensor::zeros((), candle_core::DType::F32, dev).map_err(MnistError::Tensor)
}

/// Relies on the `Add` impl for `&candle_core::Tensor`: element-wise addition
/// of two same-shape tensors keeps that shape.
#[verifier::external_body]
pub(crate) fn tensor_add(
    a: &candle_core::Tensor,
    b: &candle_core::Tensor,
) -> (r: Result<candle_core::Tensor, MnistError>)
    requires
        dims_of(*a) == dims_of(*b),
    ensures
        r matches Ok(out) ==> dims_of(out) == dims_of(*a),
{
    (a + b).map_err(MnistError::Tensor)
}

// ----- loss and optimizer -----

/// Relies on `candle_nn::ops::log_softmax` over the last dimension: an
/// element-wise renormalisation that keeps the shape.
#[verifier::external_body]
pub(crate) fn log_softmax_last(
    xs: &candle_core::Tensor,
) -> (r: Result<candle_core::Tensor, MnistError>)
    ensures
        r matches Ok(out) ==> dims_of(out) == dims_of(*xs),
{
    candle_nn::ops::log_softmax(xs, candle_core::D::Minus1).map_err(MnistError::Tensor)
}

/// Relies on `candle_nn::loss::nll`: the negative-log-likelihood of rank-2
/// log-probabilities against rank-1 `u32` targets, averaged over the batch;
/// any tensor it returns is a scalar.
#[verifier::external_body]
pub(crate) fn nll_loss(
    log_sm: &candle_core::Tensor,
    targets: &candle_core::Tensor,
) -> (r: Result<candle_core::Tensor, MnistError>)
    ensures
        r matches Ok(out) ==> dims_of(out) == Seq::<nat>::empty(),
{
    candle_nn::loss::nll(log_sm, targets).map_err(MnistError::Tensor)
}

/// Relies on `candle_nn::AdamW::new` with `ParamsAdamW::default()`, whose
/// learning rate is one thousandth: an optimizer over the given variables.
#[verifier::external_body]
pub(crate) fn adamw_default(
    vars: Vec<candle_core::Var>,
) -> (r: Result<candle_nn::AdamW, MnistError>)
{
    candle_nn::AdamW::new(vars, candle_nn::ParamsAdamW::default()).map_err(MnistError::Tensor)
}

/// Relies on `candle_nn::Optimizer::backward_step`: computes gradients of the
/// scalar loss and updates every variable the optimizer owns, in place.
#[verifier::external_body]
pub(crate) fn backward_step(
    opt: &mut candle_nn::AdamW,
    loss: &candle_core::Tensor,
) -> (r: Result<(), MnistError>)
{
    opt.backward_step(loss).map_err(MnistError::Tensor)
}

/// Relies on `candle_nn::VarMap::all_vars`: every variable currently stored
/// in the map.
#[verifier::external_body]
pub(crate) fn all_vars(vm: &candle_nn::VarMap) -> Vec<candle_core::Var> {
    vm.all_vars()
}

// ----- randomness -----

/// Relies on `rand::RngExt::random_range` over `0..bound`: a draw from the
/// generator, below the bound. Nothing else can be said of a random draw.
#[verifier::external_body]
pub(crate) fn rand_below(rng: &mut rand::rngs::StdRng, bound: usize) -> (r: usize)
    requires
        bound >= 1,
    ensures
        r < bound,
{
    rng.random_range(0..bound)
}

} // verus!
