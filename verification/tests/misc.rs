use wgpu_learn::nn::{backward_layout, forward_layout};
use wgpu_learn::boids::{
    boid_buffer_size, frame_params_bytes, frame_params_words, initial_boid_draws, next_buffer, simulation_workgroups, xorshift_draws,
    BOID_COUNT, BOID_SEED,
};
use wgpu_learn::nn::{
    backward_dispatches, forward_dispatches, preview_dispatches, BackwardPass, BackwardStageConstants, ForwardPass,
    ForwardStageConstants, ModelConfig,
};
use wgpu_learn::raytrace::RaytracePass;
use wgpu_learn::training::{
    check_weight_file, decode_weight_file, should_report, step_seed, weight_file_bytes, WeightFileError,
};
use wgpu_learn::{le_words_from_bytes, words_to_bytes};

fn xorshift(mut seed: u32) -> u32 {
    seed ^= seed << 13;
    seed ^= seed >> 17;
    seed ^= seed << 5;
    seed
}

#[test]
fn boid_draws_follow_xorshift() {
    let draws = initial_boid_draws();
    assert_eq!(draws.len(), 3 * BOID_COUNT as usize);
    let mut s = BOID_SEED;
    for d in &draws {
        s = xorshift(s);
        assert_eq!(*d, s);
    }
    assert_eq!(xorshift_draws(1, 2), vec![xorshift(1), xorshift(xorshift(1))]);
}

#[test]
fn boid_frame_plumbing() {
    assert_eq!(boid_buffer_size(), 16 * 700);
    assert_eq!(simulation_workgroups(), 11);
    assert_eq!(next_buffer(0), 1);
    assert_eq!(next_buffer(1), 0);
    assert_eq!(next_buffer(next_buffer(0)), 0);
    assert_eq!(frame_params_words(0.033f32.to_bits()), vec![0.033f32.to_bits(), 700, 0, 0]);
}

const MODEL: ModelConfig =
    ModelConfig { base_seed: 1, pixel_len: 64, rays_per_pixel: 4, hidden_size: 64, batch_size: 16, learning_rate_bits: 0x3A83_126F };

#[test]
fn model_sizes() {
    assert_eq!(MODEL.input_count(), 4096);
    assert_eq!(MODEL.sample_bytes(), 16 * 3 * 4);
    assert_eq!(MODEL.batch_bytes(), 64);
    assert_eq!(MODEL.image_bytes(), 16 * 4096 * 4);
    assert_eq!(MODEL.hidden_bytes(), 16 * 64 * 4);
    assert_eq!(MODEL.weight1_bytes(), (64 * 4096 + 64) * 4);
    assert_eq!(MODEL.weight2_bytes(), 65 * 4);
    assert_eq!(MODEL.parameter_count(), 64 * 4096 + 64 + 64 + 1);
}

#[test]
fn model_stages() {
    assert_eq!(ForwardStageConstants::from(MODEL).words(), vec![64, 64, 16]);
    assert_eq!(BackwardStageConstants::from(MODEL).words(), vec![64, 64, 16, 0x3A83_126F]);
    let f: Vec<_> = forward_dispatches(MODEL).iter().map(|d| (d.pass, d.x, d.y, d.z)).collect();
    assert_eq!(f, vec![(ForwardPass::Hidden, 8, 2, 1), (ForwardPass::Output, 1, 1, 1)]);
    let b: Vec<_> = backward_dispatches(MODEL, true).iter().map(|d| (d.pass, d.x, d.y, d.z)).collect();
    assert_eq!(
        b,
        vec![
            (BackwardPass::ComputeLoss, 1, 1, 1),
            (BackwardPass::Hidden, 8, 2, 1),
            (BackwardPass::Update, (64 * 4096 + 64 + 64 + 1 + 63) / 64, 1, 1),
        ]
    );
}

#[test]
fn training_schedule() {
    assert_eq!(step_seed(0x6ac6_8e9b, 0), 0x6ac6_8e9b);
    assert_eq!(step_seed(0x6ac6_8e9b, 3), 0x6ac6_8e9bu32.wrapping_add(3u32.wrapping_mul(0x9e37_79b9)));
    assert_eq!(step_seed(u32::MAX, 1), 0x9e37_79b8);
    assert!(should_report(0));
    assert!(!should_report(1));
    assert!(should_report(499));
    assert!(!should_report(500));
    assert!(should_report(999));
}

#[test]
fn weight_file_sizes() {
    assert_eq!(check_weight_file(60, 15), Ok(()));
    assert_eq!(check_weight_file(59, 15), Err(WeightFileError::Size { actual: 59, expected: 60 }));
}

#[test]
fn readback_words_are_little_endian() {
    let values = [1.5f32, -2.0, 0.0, 1e-3];
    let mut bytes: Vec<u8> = values.iter().flat_map(|v| v.to_le_bytes()).collect();
    bytes.push(0xFF);
    let words = le_words_from_bytes(&bytes);
    let back: Vec<f32> = words.iter().map(|&w| f32::from_bits(w)).collect();
    assert_eq!(back, values.to_vec());
}

#[test]
fn words_become_native_bytes() {
    let words = vec![0x0102_0304u32, 0xA0B0_C0D0];
    let bytes = words_to_bytes(&words);
    assert_eq!(bytes, [0x0102_0304u32.to_ne_bytes(), 0xA0B0_C0D0u32.to_ne_bytes()].concat());
}

#[test]
fn nn_layouts() {
    let u: Vec<(u32, bool)> = backward_layout(BackwardPass::Update).iter().map(|&(b, ro)| (b.binding(), ro)).collect();
    assert_eq!(u, vec![(0, true), (1, true), (2, true), (3, true), (4, false), (5, false), (6, false)]);
    let f: Vec<(u32, bool)> = forward_layout(ForwardPass::Output).iter().map(|&(b, ro)| (b.binding(), ro)).collect();
    assert_eq!(f, vec![(2, false), (3, true), (4, false)]);
}

#[test]
fn step_seeds_are_distinct_and_recoverable() {
    let base = 0x6ac6_8e9bu32;
    let mut seen = std::collections::HashSet::new();
    for step in (0..100_000u32).chain([u32::MAX - 1, u32::MAX]) {
        let seed = step_seed(base, step);
        assert!(seen.insert(seed));
        assert_eq!(seed.wrapping_sub(base).wrapping_mul(0x144c_bc89), step);
    }
}

#[test]
fn weight_file_round_trip() {
    let values = [0.25f32, -1.0, 3.5e-4, 0.0, f32::MAX];
    let words: Vec<u32> = values.iter().map(|v| v.to_bits()).collect();
    let bytes = weight_file_bytes(&words);
    assert_eq!(bytes, values.iter().flat_map(|v| v.to_ne_bytes()).collect::<Vec<u8>>());
    if 1u32.to_ne_bytes() == 1u32.to_le_bytes() {
        assert_eq!(decode_weight_file(&bytes, values.len()), Ok(words.clone()));
    }
    assert_eq!(decode_weight_file(&bytes, 4), Err(WeightFileError::Size { actual: 20, expected: 16 }));
    assert_eq!(decode_weight_file(&bytes, 6), Err(WeightFileError::Size { actual: 20, expected: 24 }));
    assert_eq!(decode_weight_file(&[], 0), Ok(vec![]));
}

#[test]
fn weight_file_reads_little_endian() {
    let bytes = [0x00u8, 0x00, 0x80, 0x3F, 0x01, 0x02, 0x03, 0x04];
    assert_eq!(decode_weight_file(&bytes, 2), Ok(vec![0x3F80_0000, 0x0403_0201]));
}

#[test]
fn frame_params_are_four_native_words() {
    let dt = 0.016f32.to_bits();
    let expected: Vec<u8> = [dt, BOID_COUNT, 0, 0].iter().flat_map(|w| w.to_ne_bytes()).collect();
    assert_eq!(frame_params_bytes(dt), expected);
}

#[test]
fn nn_preview_constants_and_dispatches() {
    let config = ModelConfig {
        base_seed: 0x8f31_7a25,
        pixel_len: 64,
        rays_per_pixel: 4,
        hidden_size: 64,
        batch_size: 16,
        learning_rate_bits: 0.001f32.to_bits(),
    };
    assert_eq!(config.preview_words(), vec![0x8f31_7a25, 64, 4, 64, 16, 0.001f32.to_bits()]);
    let bytes: Vec<u8> = config.preview_words().iter().flat_map(|w| w.to_ne_bytes()).collect();
    assert_eq!(config.preview_bytes(), bytes);
    let d = preview_dispatches(config);
    assert_eq!(d.len(), 2);
    assert_eq!((d[0].pass, d[0].x, d[0].y, d[0].z), (RaytracePass::GenerateSamples, 1, 1, 1));
    assert_eq!((d[1].pass, d[1].x, d[1].y, d[1].z), (RaytracePass::Raytrace, 8, 8, 16));
    let odd = ModelConfig { pixel_len: 65, batch_size: 129, ..config };
    let d = preview_dispatches(odd);
    assert_eq!((d[0].x, d[0].y, d[0].z), (3, 1, 1));
    assert_eq!((d[1].x, d[1].y, d[1].z), (9, 9, 129));
}
