//! The training loop: epoch iteration, batch-order shuffling, loss
//! accumulation, optimizer stepping and per-epoch evaluation.
//!
//! The numeric work of a step — forward pass, log-softmax,
//! negative-log-likelihood, the AdamW update — is the tensor engine's, reached
//! through the trusted bindings; the loop itself is verified: how the batches
//! are cut, that every batch lies inside the training set, how often the
//! optimizer steps, and what each per-epoch record holds.

use vstd::prelude::*;
use vstd::arithmetic::div_mod::{lemma_fundamental_div_mod, lemma_mod_bound};
use vstd::arithmetic::mul::lemma_mul_inequality;
use vstd::seq_lib::to_multiset_contains;

use crate::backend;
use crate::backend::dims_of;
use crate::eval::count_matches;
use crate::model::Model;
use crate::shuffle::shuffled;
use crate::MnistError;

verus! {

/// The training configuration; immutable once training starts.
pub struct TrainingArgs {
    /// How many passes over the training set to run.
    pub epochs: usize,
    /// How many examples one batch holds.
    pub batch_size: usize,
    /// The optimizer's learning rate, in millionths. The rate is a
    /// floating-point quantity of the tensor engine, so it is recorded here
    /// as an integer and converted by whoever builds the optimizer.
    pub learning_rate_micros: u64,
    /// Where to persist the parameters after training, if anywhere. Writing
    /// the file is the caller's: this library does no file I/O.
    pub save: Option<String>,
}

/// What one epoch reports — its number, its training loss and the test-set
/// score — kept as plain counts and a scalar loss-sum tensor so that the
/// caller can form the average loss and the accuracy (floating-point work).
pub struct EpochStats {
    /// The epoch's number, counted from 1.
    pub epoch: usize,
    /// Scalar tensor: the sum of the per-batch losses of this epoch.
    pub sum_loss: candle_core::Tensor,
    /// How many batches the epoch ran: `floor(train_set_size / batch_size)`.
    pub n_batches: usize,
    /// How many held-out test examples the model classified correctly.
    pub correct: usize,
    /// How many held-out test examples were scored.
    pub test_count: usize,
}

/// Batches are contiguous slices of the unshuffled training set: batch `i`
/// covers `[i * batch_size, i * batch_size + batch_size)`. For every batch
/// index `i < floor(n / batch_size)` that slice lies within the first
/// `n - n % batch_size` examples: the trailing `n % batch_size` examples of
/// the set are in no batch.
pub proof fn lemma_batch_bounds(n: nat, batch_size: nat, i: nat)
    requires
        batch_size >= 1,
        i < n / batch_size,
    ensures
        n % batch_size < batch_size,
        i * batch_size + batch_size <= n - n % batch_size,
        n - n % batch_size <= n,
{
    let q = n / batch_size;
    let r = n % batch_size;
    lemma_fundamental_div_mod(n as int, batch_size as int);
    lemma_mod_bound(n as int, batch_size as int);
    lemma_mul_inequality(i as int + 1, q as int, batch_size as int);
    assert((i + 1) * batch_size == i * batch_size + batch_size) by (nonlinear_arith);
    assert(batch_size * q == q * batch_size) by (nonlinear_arith);
}

/// How many batches one epoch runs: `floor(train_set_size / batch_size)`.
/// The remainder examples are dropped, as [`lemma_batch_bounds`] states.
pub fn n_batches(train_set_size: usize, batch_size: usize) -> (r: usize)
    requires
        batch_size >= 1,
    ensures
        r as nat == train_set_size as nat / batch_size as nat,
{
    train_set_size / batch_size
}

/// The vector `0, 1, ..., n - 1`: the batch indices in presentation order
/// before any shuffling.
fn range_vec(n: usize) -> (r: Vec<usize>)
    ensures
        r@.len() == n,
        forall|k: int| 0 <= k < n ==> r@[k] == k,
{
    let mut r: Vec<usize> = Vec::new();
    let mut i: usize = 0;
    while i < n
        invariant
            i <= n,
            r@.len() == i,
            forall|k: int| 0 <= k < i ==> r@[k] == k,
        decreases n - i,
    {
        r.push(i);
        i = i + 1;
    }
    r
}

/// Runs mini-batch gradient-descent training for `args.epochs` epochs.
///
/// Each epoch shuffles the order of the `floor(n / batch_size)` contiguous
/// batches, and for each batch runs the forward pass in training mode,
/// log-softmax, negative-log-likelihood loss, and one optimizer step; it then
/// scores the whole held-out test set in inference mode. On success there is
/// one record per epoch, numbered from 1, each with the batch count
/// `floor(train_set_size / batch_size)`, the test-set size, and a number of
/// correct classifications that never exceeds it.
///
/// The caller hands in the model, the optimizer over the model's variables,
/// the four dataset tensors, and the seedable generator that drives the
/// batch-order shuffle; persisting the parameters afterwards (file I/O) is
/// also the caller's.
pub fn train_loop(
    model: &Model,
    opt: &mut candle_nn::AdamW,
    train_images: &candle_core::Tensor,
    train_labels: &candle_core::Tensor,
    test_images: &candle_core::Tensor,
    test_labels: &candle_core::Tensor,
    dev: &candle_core::Device,
    args: &TrainingArgs,
    rng: &mut rand::rngs::StdRng,
) -> (r: Result<Vec<EpochStats>, MnistError>)
    requires
        model.wf(),
        args.batch_size >= 1,
        dims_of(*test_images)[0] == dims_of(*test_labels)[0],
    ensures
        r matches Ok(stats) ==> {
            &&& stats@.len() == args.epochs
            &&& forall|t: int| 0 <= t < stats@.len() ==> {
                &&& (#[trigger] stats@[t]).epoch == t + 1
                &&& stats@[t].n_batches as nat == dims_of(*train_images)[0] / (
                args.batch_size as nat)
                &&& stats@[t].correct <= stats@[t].test_count
                &&& stats@[t].test_count as nat == dims_of(*test_labels)[0]
            }
        },
{
    let train_labels_u32 = backend::to_dtype_u32(train_labels)?;
    let train_labels_dev = backend::to_device(&train_labels_u32, dev)?;
    let train_images_dev = backend::to_device(train_images, dev)?;
    let test_images_dev = backend::to_device(test_images, dev)?;
    let test_labels_u32 = backend::to_dtype_u32(test_labels)?;
    let test_labels_dev = backend::to_device(&test_labels_u32, dev)?;

    let (n_train, _pixels) = backend::dims2(&train_images_dev)?;
    let n_batches = n_batches(n_train, args.batch_size);
    let mut batch_idxs = range_vec(n_batches);
    let mut stats: Vec<EpochStats> = Vec::new();

    let mut e: usize = 0;
    while e < args.epochs
        invariant
            model.wf(),
            args.batch_size >= 1,
            e <= args.epochs,
            dims_of(train_images_dev) == dims_of(*train_images),
            dims_of(train_labels_dev) == dims_of(*train_labels),
            dims_of(test_images_dev) == dims_of(*test_images),
            dims_of(test_labels_dev) == dims_of(*test_labels),
            dims_of(*test_images)[0] == dims_of(*test_labels)[0],
            dims_of(*train_images).len() == 2,
            n_train as nat == dims_of(*train_images)[0],
            n_batches == n_train / args.batch_size,
            batch_idxs@.len() == n_batches,
            forall|k: int| 0 <= k < batch_idxs@.len()
                ==> (#[trigger] batch_idxs@[k]) < n_batches,
            stats@.len() == e,
            forall|t: int| 0 <= t < stats@.len() ==> {
                &&& (#[trigger] stats@[t]).epoch == t + 1
                &&& stats@[t].n_batches as nat == dims_of(*train_images)[0] / (
                args.batch_size as nat)
                &&& stats@[t].correct <= stats@[t].test_count
                &&& stats@[t].test_count as nat == dims_of(*test_labels)[0]
            },
        decreases args.epochs - e,
    {
        let mut sum_loss = backend::zeros_scalar(dev)?;
        let ghost prev = batch_idxs@;
        batch_idxs = shuffled(batch_idxs, rng);
        proof {
            assert forall|k: int| 0 <= k < batch_idxs@.len()
                implies (#[trigger] batch_idxs@[k]) < n_batches by {
                let y = batch_idxs@[k];
                to_multiset_contains(batch_idxs@, y);
                assert(batch_idxs@.contains(y));
                to_multiset_contains(prev, y);
                assert(prev.contains(y));
                let w = choose|w: int| 0 <= w < prev.len() && prev[w] == y;
                assert(prev[w] < n_batches);
            }
        }
        let mut b: usize = 0;
        while b < n_batches
            invariant
                model.wf(),
                args.batch_size >= 1,
                b <= n_batches,
                n_train as nat == dims_of(*train_images)[0],
                n_batches == n_train / args.batch_size,
                batch_idxs@.len() == n_batches,
                forall|k: int| 0 <= k < batch_idxs@.len()
                    ==> (#[trigger] batch_idxs@[k]) < n_batches,
                dims_of(sum_loss) == Seq::<nat>::empty(),
            decreases n_batches - b,
        {
            let batch_idx = batch_idxs[b];
            proof {
                lemma_batch_bounds(n_train as nat, args.batch_size as nat, batch_idx as nat);
            }
            let start = batch_idx * args.batch_size;
            let batch_images = backend::narrow0(&train_images_dev, start, args.batch_size)?;
            let batch_labels = backend::narrow0(&train_labels_dev, start, args.batch_size)?;
            let logits = model.forward(&batch_images, true)?;
            let log_sm = backend::log_softmax_last(&logits)?;
            let loss = backend::nll_loss(&log_sm, &batch_labels)?;
            backend::backward_step(opt, &loss)?;
            sum_loss = backend::tensor_add(&sum_loss, &loss)?;
            b = b + 1;
        }
        let test_logits = model.forward(&test_images_dev, false)?;
        let preds_tensor = backend::argmax_last(&test_logits)?;
        let preds = backend::to_vec1_u32(&preds_tensor)?;
        let labels = backend::to_vec1_u32(&test_labels_dev)?;
        let correct = count_matches(&preds, &labels);
        let test_count = labels.len();
        stats.push(EpochStats { epoch: e + 1, sum_loss, n_batches, correct, test_count });
        e = e + 1;
    }
    Ok(stats)
}

} // verus!
