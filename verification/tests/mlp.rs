use wgpu_learn::mlp::{backward_layout, forward_layout, BackwardBuffer, ForwardBuffer};
use wgpu_learn::mlp::{
    backward_dispatches, forward_dispatches, initial_weight_draws, validate_batch_shape, validate_input_shape,
    validate_weights, BackwardPass, BackwardStageConstants, ForwardPass, ForwardStageConstants, MiniBatch,
    ModelWeights, NeuralNetworkConfig, ShapeError,
};

const CONFIG: NeuralNetworkConfig = NeuralNetworkConfig {
    input_size: 4,
    hidden1_size: 3,
    hidden2_size: 2,
    batch_size: 2,
    learning_rate_bits: 0x3C23_D70A,
};

#[test]
fn config_reports_weight_lengths() {
    assert_eq!(CONFIG.weight1_len(), 15);
    assert_eq!(CONFIG.weight2_len(), 8);
    assert_eq!(CONFIG.weight3_len(), 3);
}

#[test]
fn accepts_matching_minibatch_shape() {
    let inputs = [0.0f32; 8];
    let targets = [0.0f32; 2];
    let batch = MiniBatch { inputs: &inputs, targets: &targets, batch_size: 2 };
    validate_batch_shape(CONFIG, &batch).unwrap();
}

#[test]
fn rejects_mismatched_minibatch_shape() {
    let inputs = [0.0f32; 7];
    let targets = [0.0f32; 2];
    let batch = MiniBatch { inputs: &inputs, targets: &targets, batch_size: 2 };
    assert!(validate_batch_shape(CONFIG, &batch).is_err());
}

#[test]
fn learning_rate_bits_hold_the_rate() {
    assert_eq!(f32::from_bits(CONFIG.learning_rate_bits), 0.01f32);
}

#[test]
fn byte_sizes_follow_the_shape() {
    assert_eq!(CONFIG.batch_bytes(), 8);
    assert_eq!(CONFIG.input_bytes(), 32);
    assert_eq!(CONFIG.hidden1_bytes(), 24);
    assert_eq!(CONFIG.hidden2_bytes(), 16);
    assert_eq!(CONFIG.weight1_bytes(), 60);
    assert_eq!(CONFIG.weight2_bytes(), 32);
    assert_eq!(CONFIG.weight3_bytes(), 12);
}

#[test]
fn batch_size_mismatch_is_reported_first() {
    let inputs = [0.0f32; 7];
    let targets = [0.0f32; 1];
    let batch = MiniBatch { inputs: &inputs, targets: &targets, batch_size: 3 };
    assert_eq!(validate_batch_shape(CONFIG, &batch), Err(ShapeError::BatchSize { actual: 3, expected: 2 }));
}

#[test]
fn input_length_mismatch_is_reported() {
    let inputs = [0u8; 7];
    assert_eq!(validate_input_shape(CONFIG, &inputs, 2), Err(ShapeError::InputLength { actual: 7, expected: 8 }));
    let inputs = [0u8; 8];
    assert_eq!(validate_input_shape(CONFIG, &inputs, 2), Ok(()));
}

#[test]
fn target_length_mismatch_is_reported() {
    let inputs = [0.0f32; 8];
    let targets = [0.0f32; 3];
    let batch = MiniBatch { inputs: &inputs, targets: &targets, batch_size: 2 };
    assert_eq!(validate_batch_shape(CONFIG, &batch), Err(ShapeError::TargetLength { actual: 3, expected: 2 }));
}

#[test]
fn weight_lengths_are_checked_layer_by_layer() {
    let good = ModelWeights { weights1: vec![0.0f32; 15], weights2: vec![0.0f32; 8], weights3: vec![0.0f32; 3] };
    assert_eq!(validate_weights(CONFIG, &good), Ok(()));
    let bad1 = ModelWeights { weights1: vec![0.0f32; 14], weights2: vec![0.0f32; 9], weights3: vec![0.0f32; 3] };
    assert_eq!(validate_weights(CONFIG, &bad1), Err(ShapeError::WeightLength { layer: 1, actual: 14, expected: 15 }));
    let bad2 = ModelWeights { weights1: vec![0.0f32; 15], weights2: vec![0.0f32; 9], weights3: vec![0.0f32; 3] };
    assert_eq!(validate_weights(CONFIG, &bad2), Err(ShapeError::WeightLength { layer: 2, actual: 9, expected: 8 }));
    let bad3 = ModelWeights { weights1: vec![0.0f32; 15], weights2: vec![0.0f32; 8], weights3: vec![0.0f32; 2] };
    assert_eq!(validate_weights(CONFIG, &bad3), Err(ShapeError::WeightLength { layer: 3, actual: 2, expected: 3 }));
}

fn lcg(seed: u32) -> u32 {
    seed.wrapping_mul(1_664_525).wrapping_add(1_013_904_223)
}

#[test]
fn initial_draws_follow_one_generator_across_layers() {
    let w = initial_weight_draws(CONFIG, 7);
    assert_eq!(w.weights1.len(), 15);
    assert_eq!(w.weights2.len(), 8);
    assert_eq!(w.weights3.len(), 3);
    let mut state = 7u32;
    let mut expected = Vec::new();
    for _ in 0..12 {
        state = lcg(state);
        expected.push(Some(state >> 8));
    }
    for _ in 0..3 {
        expected.push(None);
    }
    assert_eq!(w.weights1, expected);
    let mut expected2 = Vec::new();
    for _ in 0..6 {
        state = lcg(state);
        expected2.push(Some(state >> 8));
    }
    expected2.push(None);
    expected2.push(None);
    assert_eq!(w.weights2, expected2);
    state = lcg(state);
    let d1 = state >> 8;
    state = lcg(state);
    let d2 = state >> 8;
    assert_eq!(w.weights3, vec![Some(d1), Some(d2), None]);
    assert!(w.weights1.iter().flatten().all(|&d| d < (1 << 24)));
}

#[test]
fn initial_weights_pass_the_shape_check() {
    for seed in [0u32, 1, 0x6ac6_8e9b] {
        let w = initial_weight_draws(CONFIG, seed);
        assert_eq!(validate_weights(CONFIG, &w), Ok(()));
    }
}

#[test]
fn forward_dispatch_counts() {
    let config = NeuralNetworkConfig { input_size: 1024, hidden1_size: 2048, hidden2_size: 1024, batch_size: 32, learning_rate_bits: 0 };
    let d = forward_dispatches(config);
    assert_eq!(d.len(), 3);
    assert_eq!((d[0].pass, d[0].x, d[0].y, d[0].z), (ForwardPass::Hidden1, 256, 4, 1));
    assert_eq!((d[1].pass, d[1].x, d[1].y, d[1].z), (ForwardPass::Hidden2, 128, 4, 1));
    assert_eq!((d[2].pass, d[2].x, d[2].y, d[2].z), (ForwardPass::Output, 1, 1, 1));
}

#[test]
fn backward_dispatch_counts() {
    let d = backward_dispatches(CONFIG, true);
    let got: Vec<_> = d.iter().map(|d| (d.pass, d.x, d.y, d.z)).collect();
    assert_eq!(
        got,
        vec![
            (BackwardPass::ComputeLoss, 1, 1, 1),
            (BackwardPass::Hidden2, 1, 1, 1),
            (BackwardPass::Hidden1, 1, 1, 1),
            (BackwardPass::Update1, 1, 1, 1),
            (BackwardPass::Update2, 1, 1, 1),
            (BackwardPass::Update3, 1, 1, 1),
        ]
    );
    let config = NeuralNetworkConfig { input_size: 1024, hidden1_size: 2048, hidden2_size: 1024, batch_size: 32, learning_rate_bits: 0 };
    let d = backward_dispatches(config, false);
    let got: Vec<_> = d.iter().map(|d| (d.pass, d.x)).collect();
    assert_eq!(
        got,
        vec![
            (BackwardPass::Hidden2, 128),
            (BackwardPass::Hidden1, 256),
            (BackwardPass::Update1, (2048 * 1024 + 2048 + 63) / 64),
            (BackwardPass::Update2, (1024 * 2048 + 1024 + 63) / 64),
            (BackwardPass::Update3, 17),
        ]
    );
}

#[test]
fn stage_constants_layout() {
    let f = ForwardStageConstants::from(CONFIG);
    assert_eq!(f.words(), vec![4, 3, 2, 2]);
    let b = BackwardStageConstants::from(CONFIG);
    assert_eq!(b.words(), vec![4, 3, 2, 2, 0x3C23_D70A, 0, 0, 0]);
    let bytes = b.to_bytes();
    let expected: Vec<u8> = b.words().iter().flat_map(|w| w.to_ne_bytes()).collect();
    assert_eq!(bytes, expected);
    assert_eq!(f.to_bytes().len(), 16);
}

#[test]
fn stage_layouts_name_their_bindings() {
    let f: Vec<(u32, bool)> = forward_layout(ForwardPass::Hidden2).iter().map(|&(b, ro)| (b.binding(), ro)).collect();
    assert_eq!(f, vec![(2, false), (3, true), (4, false)]);
    assert_eq!(forward_layout(ForwardPass::Output)[2], (ForwardBuffer::Predicts, false));
    let b: Vec<(u32, bool)> = backward_layout(BackwardPass::Hidden2).iter().map(|&(b, ro)| (b.binding(), ro)).collect();
    assert_eq!(b, vec![(1, true), (8, true), (3, true), (9, false), (10, false)]);
    let u1: Vec<u32> = backward_layout(BackwardPass::Update1).iter().map(|&(b, _)| b.binding()).collect();
    assert_eq!(u1, vec![0, 4, 6]);
    assert_eq!(BackwardBuffer::Loss.binding(), 7);
}

#[test]
fn backward_updates_cover_every_parameter() {
    let config = NeuralNetworkConfig { input_size: 1024, hidden1_size: 2048, hidden2_size: 1024, batch_size: 32, learning_rate_bits: 0 };
    let d = backward_dispatches(config, false);
    assert!(d[2].x as usize * 64 >= config.weight1_len());
    assert!(d[3].x as usize * 64 >= config.weight2_len());
    assert!(d[4].x as usize * 64 >= config.weight3_len());
    assert!((d[4].x as usize - 1) * 64 < config.weight3_len());
}

#[test]
fn prediction_binds_weights_read_only() {
    for d in forward_dispatches(CONFIG) {
        for (buffer, read_only) in forward_layout(d.pass) {
            if matches!(buffer, ForwardBuffer::Weights1 | ForwardBuffer::Weights2 | ForwardBuffer::Weights3) {
                assert!(read_only);
            }
        }
    }
}

#[test]
fn loss_dispatch_goes_first() {
    let config = NeuralNetworkConfig { input_size: 1024, hidden1_size: 2048, hidden2_size: 1024, batch_size: 32, learning_rate_bits: 0 };
    for c in [CONFIG, config] {
        let with: Vec<_> = backward_dispatches(c, true).iter().map(|d| (d.pass, d.x, d.y, d.z)).collect();
        let without: Vec<_> = backward_dispatches(c, false).iter().map(|d| (d.pass, d.x, d.y, d.z)).collect();
        assert_eq!(with[0], (BackwardPass::ComputeLoss, 1, 1, 1));
        assert_eq!(with[1..].to_vec(), without);
        assert!(without.iter().all(|d| d.0 != BackwardPass::ComputeLoss));
    }
}
