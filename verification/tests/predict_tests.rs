use candle_core::{DType, Device, Tensor};
use candle_nn::{Dropout, Init, VarMap};

use mnist_cnn::model::Model;
use mnist_cnn::pred::predict;

fn new_model(vm: &VarMap, dev: &Device) -> Model {
    Model::new(vm, dev, Dropout::new(0.5)).expect("model construction failed")
}

#[test]
fn predict_ten_images_gives_ten_class_indices() {
    // A freshly initialized (untrained) model must still emit exactly one
    // class index per image, each in 0..=9.
    let dev = Device::Cpu;
    let vm = VarMap::new();
    let model = new_model(&vm, &dev);
    let images = Tensor::rand(0f32, 1f32, (10, 784), &dev).unwrap();
    let preds = predict(&model, &images).expect("predict failed");
    assert_eq!(preds.len(), 10);
    for p in preds {
        assert!(p <= 9);
    }
}

#[test]
fn checkpoint_round_trip_preserves_forward_outputs() {
    // Saving the parameters and loading them into a freshly constructed model
    // of identical structure must reproduce the forward-pass outputs exactly.
    let dev = Device::Cpu;
    let path = "/tmp/mnist_cnn_round_trip.safetensors";

    let vm_a = VarMap::new();
    let model_a = new_model(&vm_a, &dev);
    let images = Tensor::rand(0f32, 1f32, (4, 784), &dev).unwrap();
    let out_a = model_a
        .forward(&images, false)
        .unwrap()
        .to_vec2::<f32>()
        .unwrap();
    vm_a.save(path).expect("save failed");

    let mut vm_b = VarMap::new();
    let model_b = new_model(&vm_b, &dev);
    vm_b.load(path).expect("load failed");
    let out_b = model_b
        .forward(&images, false)
        .unwrap()
        .to_vec2::<f32>()
        .unwrap();

    assert_eq!(out_a, out_b);
}

#[test]
fn loading_mismatched_shapes_fails() {
    // A checkpoint whose parameter shapes do not match the model's must be
    // rejected on load, not silently truncated.
    let dev = Device::Cpu;
    let path = "/tmp/mnist_cnn_bad_shapes.safetensors";

    let bad = VarMap::new();
    for name in [
        "c1.weight",
        "c1.bias",
        "c2.weight",
        "c2.bias",
        "fc1.weight",
        "fc1.bias",
        "fc2.weight",
        "fc2.bias",
    ] {
        bad.get((2, 2), name, Init::Const(0.5), DType::F32, &dev)
            .unwrap();
    }
    bad.save(path).expect("save failed");

    let mut vm = VarMap::new();
    let _model = new_model(&vm, &dev);
    assert!(vm.load(path).is_err());
}
