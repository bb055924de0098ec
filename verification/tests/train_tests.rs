use candle_core::{DType, Device, Tensor};
use candle_nn::{AdamW, Dropout, VarMap};
use rand::rngs::StdRng;
use rand::SeedableRng;

use mnist_cnn::eval::count_matches;
use mnist_cnn::model::Model;
use mnist_cnn::shuffle::shuffled;
use mnist_cnn::train::{n_batches, train_loop, TrainingArgs};

fn new_model(vm: &VarMap, dev: &Device) -> Model {
    Model::new(vm, dev, Dropout::new(0.5)).expect("model construction failed")
}

#[test]
fn batch_count_is_floor_of_size_over_batch_size() {
    // The standard training split: 60000 examples at batch size 64 give 937
    // batches, and the trailing 32 examples fall in no batch.
    assert_eq!(n_batches(60000, 64), 937);
    assert_eq!(937 * 64, 59968);
    assert!(59968 <= 60000 - 32);
    assert_eq!(n_batches(10, 4), 2);
    assert_eq!(n_batches(3, 4), 0);
    assert_eq!(n_batches(64, 64), 1);
}

#[test]
fn shuffled_returns_a_permutation() {
    let mut rng = StdRng::seed_from_u64(3);
    let v: Vec<usize> = (0..50).collect();
    let mut s = shuffled(v, &mut rng);
    assert_eq!(s.len(), 50);
    s.sort();
    let expected: Vec<usize> = (0..50).collect();
    assert_eq!(s, expected);
}

#[test]
fn shuffled_is_deterministic_for_a_fixed_seed() {
    let mut rng_a = StdRng::seed_from_u64(42);
    let mut rng_b = StdRng::seed_from_u64(42);
    let v: Vec<usize> = (0..100).collect();
    let a = shuffled(v.clone(), &mut rng_a);
    let b = shuffled(v, &mut rng_b);
    assert_eq!(a, b);
}

#[test]
fn count_matches_counts_equal_positions() {
    assert_eq!(count_matches(&vec![1, 2, 3], &vec![1, 5, 3]), 2);
    assert_eq!(count_matches(&vec![], &vec![]), 0);
    assert_eq!(count_matches(&vec![7, 7], &vec![7, 7]), 2);
    assert_eq!(count_matches(&vec![0, 1], &vec![1, 0]), 0);
}

fn tiny_dataset(dev: &Device) -> (Tensor, Tensor, Tensor, Tensor) {
    let train_images = Tensor::rand(0f32, 1f32, (10, 784), dev).unwrap();
    let train_labels =
        Tensor::from_vec(vec![0u8, 1, 2, 3, 4, 5, 6, 7, 8, 9], 10, dev).unwrap();
    let test_images = Tensor::rand(0f32, 1f32, (6, 784), dev).unwrap();
    let test_labels = Tensor::from_vec(vec![0u8, 1, 2, 3, 4, 5], 6, dev).unwrap();
    (train_images, train_labels, test_images, test_labels)
}

#[test]
fn train_loop_reports_one_record_per_epoch() {
    let dev = Device::Cpu;
    let vm = VarMap::new();
    let model = new_model(&vm, &dev);
    let mut opt = AdamW::new_lr(vm.all_vars(), 0.001).unwrap();
    let (train_images, train_labels, test_images, test_labels) = tiny_dataset(&dev);
    let args = TrainingArgs {
        epochs: 2,
        batch_size: 4,
        learning_rate_micros: 1000,
        save: None,
    };
    let mut rng = StdRng::seed_from_u64(1);
    let stats = train_loop(
        &model,
        &mut opt,
        &train_images,
        &train_labels,
        &test_images,
        &test_labels,
        &dev,
        &args,
        &mut rng,
    )
    .expect("training failed");

    assert_eq!(stats.len(), 2);
    for (i, s) in stats.iter().enumerate() {
        assert_eq!(s.epoch, i + 1);
        assert_eq!(s.n_batches, 2); // floor(10 / 4)
        assert_eq!(s.test_count, 6);
        assert!(s.correct <= s.test_count);
        let sum_loss = s.sum_loss.to_vec0::<f32>().unwrap();
        assert!(sum_loss.is_finite());
        // two batches of averaged negative-log-likelihood over ten classes
        assert!(sum_loss >= 0.0);
        let avg_loss = sum_loss / s.n_batches as f32;
        assert!(avg_loss.is_finite());
        let accuracy = s.correct as f32 / s.test_count as f32;
        assert!((0.0..=1.0).contains(&accuracy));
    }
}

#[test]
fn train_loop_with_zero_epochs_reports_nothing() {
    let dev = Device::Cpu;
    let vm = VarMap::new();
    let model = new_model(&vm, &dev);
    let mut opt = AdamW::new_lr(vm.all_vars(), 0.001).unwrap();
    let (train_images, train_labels, test_images, test_labels) = tiny_dataset(&dev);
    let args = TrainingArgs {
        epochs: 0,
        batch_size: 4,
        learning_rate_micros: 1000,
        save: None,
    };
    let mut rng = StdRng::seed_from_u64(1);
    let stats = train_loop(
        &model,
        &mut opt,
        &train_images,
        &train_labels,
        &test_images,
        &test_labels,
        &dev,
        &args,
        &mut rng,
    )
    .expect("training failed");
    assert!(stats.is_empty());
}

#[test]
fn training_changes_forward_outputs() {
    // One optimizer step must actually move the parameters: the forward pass
    // after training differs from the one before.
    let dev = Device::Cpu;
    let vm = VarMap::new();
    let model = new_model(&vm, &dev);
    let (train_images, train_labels, test_images, test_labels) = tiny_dataset(&dev);
    let before = model
        .forward(&test_images, false)
        .unwrap()
        .to_vec2::<f32>()
        .unwrap();
    let mut opt = AdamW::new_lr(vm.all_vars(), 0.001).unwrap();
    let args = TrainingArgs {
        epochs: 1,
        batch_size: 2,
        learning_rate_micros: 1000,
        save: None,
    };
    let mut rng = StdRng::seed_from_u64(5);
    train_loop(
        &model,
        &mut opt,
        &train_images,
        &train_labels,
        &test_images,
        &test_labels,
        &dev,
        &args,
        &mut rng,
    )
    .expect("training failed");
    let after = model
        .forward(&test_images, false)
        .unwrap()
        .to_vec2::<f32>()
        .unwrap();
    assert_ne!(before, after);
}
