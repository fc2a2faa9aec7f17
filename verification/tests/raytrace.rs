use wgpu_learn::raytrace::{raytrace_layout, RaytraceBinding};
use wgpu_learn::mlp::{validate_batch_shape, MiniBatch, NeuralNetworkConfig};
use wgpu_learn::raytrace::{
    batch_from_readback, raytrace_dispatches, raytrace_entry_point, RaytraceConfig, RaytraceEntryPoint, RaytracePass, RaytraceStageConstants,
};

const CONFIG: RaytraceConfig = RaytraceConfig { base_seed: 0x6ac6_8e9b, pixel_len: 32, rays_per_pixel: 1, batch_size: 32 };

#[test]
fn raytrace_sizes() {
    assert_eq!(CONFIG.image_value_count(), 1024);
    assert_eq!(CONFIG.sample_bytes(), 32 * 3 * 4);
    assert_eq!(CONFIG.batch_bytes(), 128);
    assert_eq!(CONFIG.image_bytes(), 32 * 1024 * 4);
    assert_eq!(CONFIG.readback_bytes(), 128 + 32 * 1024 * 4);
}

#[test]
fn stage_constants_and_seed() {
    let c = RaytraceStageConstants::from(CONFIG);
    assert_eq!(c.words(), vec![0x6ac6_8e9b, 32, 1, 32]);
    let s = RaytraceStageConstants::seeded(CONFIG, 99);
    assert_eq!(s.words(), vec![99, 32, 1, 32]);
    let expected: Vec<u8> = s.words().iter().flat_map(|w| w.to_ne_bytes()).collect();
    assert_eq!(s.to_bytes(), expected);
}

#[test]
fn raytrace_dispatch_counts() {
    let d = raytrace_dispatches(CONFIG);
    assert_eq!((d[0].pass, d[0].x, d[0].y, d[0].z), (RaytracePass::GenerateSamples, 1, 1, 1));
    assert_eq!((d[1].pass, d[1].x, d[1].y, d[1].z), (RaytracePass::Raytrace, 4, 128, 1));
    let preview = RaytraceConfig { base_seed: 0, pixel_len: 64, rays_per_pixel: 4, batch_size: 16 };
    let d = raytrace_dispatches(preview);
    assert_eq!((d[1].x, d[1].y), (8, 128));
}

#[test]
fn readback_splits_into_expects_and_images() {
    let config = RaytraceConfig { base_seed: 0, pixel_len: 2, rays_per_pixel: 1, batch_size: 2 };
    let mut bytes = Vec::new();
    let values: Vec<f32> = (0..10).map(|i| i as f32 * 0.5).collect();
    for v in &values {
        bytes.extend_from_slice(&v.to_le_bytes());
    }
    assert_eq!(bytes.len() as u64, config.readback_bytes());
    let batch = batch_from_readback(config, &bytes);
    let expects: Vec<f32> = batch.expects.iter().map(|&b| f32::from_bits(b)).collect();
    let inputs: Vec<f32> = batch.inputs.iter().map(|&b| f32::from_bits(b)).collect();
    assert_eq!(expects, values[..2].to_vec());
    assert_eq!(inputs, values[2..].to_vec());
    assert_eq!(batch.input_size, 4);
    assert_eq!(batch.batch_size, 2);
}

#[test]
fn generated_batch_fits_the_network() {
    let config = RaytraceConfig { base_seed: 0, pixel_len: 3, rays_per_pixel: 1, batch_size: 4 };
    let nn = NeuralNetworkConfig { input_size: 9, hidden1_size: 5, hidden2_size: 3, batch_size: 4, learning_rate_bits: 0 };
    let bytes = vec![0u8; config.readback_bytes() as usize];
    let batch = batch_from_readback(config, &bytes);
    let mini = MiniBatch { inputs: &batch.inputs, targets: &batch.expects, batch_size: batch.batch_size };
    assert_eq!(validate_batch_shape(nn, &mini), Ok(()));
}

#[test]
fn raytrace_layouts() {
    let g: Vec<u32> = raytrace_layout(RaytracePass::GenerateSamples, true).iter().map(|b| b.binding()).collect();
    assert_eq!(g, vec![0, 1]);
    assert_eq!(raytrace_layout(RaytracePass::Raytrace, false), vec![RaytraceBinding::Samples, RaytraceBinding::Images]);
    let r: Vec<u32> = raytrace_layout(RaytracePass::Raytrace, true).iter().map(|b| b.binding()).collect();
    assert_eq!(r, vec![0, 2, 3]);
}

#[test]
fn preview_entry_point_follows_texture() {
    assert_eq!(raytrace_entry_point(true), RaytraceEntryPoint::RaytracePreview);
    assert_eq!(raytrace_entry_point(false), RaytraceEntryPoint::Raytrace);
    assert_eq!(raytrace_entry_point(true).name(), "raytrace_preview");
    assert_eq!(raytrace_entry_point(false).name(), "raytrace");
}
