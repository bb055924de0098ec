use candle_core::{DType, Device, Tensor};
use candle_nn::{Dropout, VarMap};

use mnist_cnn::model::Model;

fn new_model(vm: &VarMap, dev: &Device) -> Model {
    Model::new(vm, dev, Dropout::new(0.5)).expect("model construction failed")
}

#[test]
fn forward_inference_shape_is_batch_by_labels() {
    let dev = Device::Cpu;
    let vm = VarMap::new();
    let model = new_model(&vm, &dev);
    let images = Tensor::zeros((3, 784), DType::F32, &dev).unwrap();
    let logits = model.forward(&images, false).expect("forward failed");
    assert_eq!(logits.dims(), &[3, 10]);
}

#[test]
fn forward_training_shape_is_batch_by_labels() {
    let dev = Device::Cpu;
    let vm = VarMap::new();
    let model = new_model(&vm, &dev);
    let images = Tensor::zeros((5, 784), DType::F32, &dev).unwrap();
    let logits = model.forward(&images, true).expect("forward failed");
    assert_eq!(logits.dims(), &[5, 10]);
}

#[test]
fn forward_rejects_wrong_image_width() {
    let dev = Device::Cpu;
    let vm = VarMap::new();
    let model = new_model(&vm, &dev);
    let images = Tensor::zeros((2, 100), DType::F32, &dev).unwrap();
    assert!(model.forward(&images, false).is_err());
}

#[test]
fn forward_rejects_rank_one_input() {
    let dev = Device::Cpu;
    let vm = VarMap::new();
    let model = new_model(&vm, &dev);
    let images = Tensor::zeros(784, DType::F32, &dev).unwrap();
    assert!(model.forward(&images, false).is_err());
}

#[test]
fn model_registers_all_parameters() {
    let dev = Device::Cpu;
    let vm = VarMap::new();
    let _model = new_model(&vm, &dev);
    // two convolutions and two fully-connected layers, each weight + bias
    assert_eq!(vm.all_vars().len(), 8);
}
