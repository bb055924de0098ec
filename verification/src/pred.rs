//! Inference: classify a batch of images with a trained model.

use vstd::prelude::*;

use crate::backend;
use crate::backend::dims_of;
use crate::model::Model;
use crate::MnistError;

verus! {

/// Runs the model in inference mode on a batch of flattened images and
/// returns the predicted class index of each one: the arg-max of its row of
/// scores. On success there is exactly one prediction per image and every
/// prediction is a class index, below [`crate::model::LABELS`].
pub fn predict(model: &Model, images: &candle_core::Tensor) -> (r: Result<Vec<u32>, MnistError>)
    requires
        model.wf(),
    ensures
        r matches Ok(preds) ==> dims_of(*images).len() == 2
            && preds@.len() == dims_of(*images)[0]
            && (forall|i: int| 0 <= i < preds@.len()
                ==> (#[trigger] preds@[i]) < crate::model::LABELS),
{
    let logits = model.forward(images, false)?;
    let pred_tensor = backend::argmax_last(&logits)?;
    backend::to_vec1_u32(&pred_tensor)
}

} // verus!
