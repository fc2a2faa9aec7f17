use vstd::prelude::*;

use crate::bytes::{words_encoded, le_words_in, spec_le_word, words_to_bytes, FLOAT_BYTES};
use crate::dispatch::Dispatch;
use crate::math::{covers_exactly, div_ceil_u32, lemma_div_ceil_covers, lemma_div_ceil_exact, spec_div_ceil};
use crate::mlp::{spec_batch_shape, spec_input_shape, NeuralNetworkConfig};

verus! {

/// Number of `f32` values in one generated sample (a 3-component position).
pub const SAMPLE_STRIDE: u64 = 3;

/// Parameters of the ray-traced training-image generator.
#[derive(Clone, Copy)]
pub struct RaytraceConfig {
    pub base_seed: u32,
    pub pixel_len: u32,
    pub rays_per_pixel: u32,
    pub batch_size: u32,
}

impl RaytraceConfig {
    /// Number of pixels of one square image.
    pub open spec fn spec_image_value_count(self) -> int {
        self.pixel_len as int * self.pixel_len as int
    }

    /// Size in bytes of the images of one batch.
    pub open spec fn spec_image_bytes(self) -> int {
        self.batch_size as int * self.spec_image_value_count() * FLOAT_BYTES
    }

    /// Size in bytes of the expected distances of one batch.
    pub open spec fn spec_batch_bytes(self) -> int {
        self.batch_size as int * FLOAT_BYTES
    }

    /// Number of values in one image: `pixel_len * pixel_len`.
    pub fn image_value_count(self) -> (count: u64)
        ensures
            count == self.spec_image_value_count(),
    {
        proof {
            vstd::arithmetic::mul::lemma_mul_upper_bound(
                self.pixel_len as int, u32::MAX as int, self.pixel_len as int, u32::MAX as int);
        }
        self.pixel_len as u64 * self.pixel_len as u64
    }

    /// Bytes of the sample positions of one batch: three `f32` per sample.
    pub fn sample_bytes(self) -> (bytes: u64)
        ensures
            bytes == self.batch_size as int * SAMPLE_STRIDE * FLOAT_BYTES,
    {
        self.batch_size as u64 * SAMPLE_STRIDE * FLOAT_BYTES
    }

    /// Bytes of the expected distances of one batch: one `f32` per sample.
    pub fn batch_bytes(self) -> (bytes: u64)
        ensures
            bytes == self.spec_batch_bytes(),
    {
        self.batch_size as u64 * FLOAT_BYTES
    }

    /// Bytes of the images of one batch: `batch_size` images of `f32` pixels.
    pub fn image_bytes(self) -> (bytes: u64)
        requires
            self.spec_image_bytes() <= u64::MAX,
        ensures
            bytes == self.spec_image_bytes(),
    {
        let count = self.image_value_count();
        proof {
            assert(self.batch_size as int * count * 4 <= u64::MAX);
            assert(self.batch_size as int * count <= u64::MAX) by (nonlinear_arith)
                requires self.batch_size as int * count * 4 <= u64::MAX;
        }
        self.batch_size as u64 * count * FLOAT_BYTES
    }
}

/// The uniform block of the ray-tracing shaders.
#[derive(Clone, Copy)]
pub struct RaytraceStageConstants {
    pub seed: u32,
    pub pixel_len: u32,
    pub rays_per_pixel: u32,
    pub batch_size: u32,
}

impl From<RaytraceConfig> for RaytraceStageConstants {
    fn from(config: RaytraceConfig) -> (c: Self) {
        RaytraceStageConstants {
            seed: config.base_seed,
            pixel_len: config.pixel_len,
            rays_per_pixel: config.rays_per_pixel,
            batch_size: config.batch_size,
        }
    }
}

impl vstd::std_specs::convert::FromSpecImpl<RaytraceConfig> for RaytraceStageConstants {
    open spec fn obeys_from_spec() -> bool {
        true
    }

    open spec fn from_spec(config: RaytraceConfig) -> Self {
        RaytraceStageConstants {
            seed: config.base_seed,
            pixel_len: config.pixel_len,
            rays_per_pixel: config.rays_per_pixel,
            batch_size: config.batch_size,
        }
    }
}

impl RaytraceStageConstants {
    /// The constants of `config` with the generator seed replaced by `seed`,
    /// as `RaytraceStage::set_seed` writes them before a new batch.
    pub fn seeded(config: RaytraceConfig, seed: u32) -> (c: Self)
        ensures
            c == (RaytraceStageConstants {
                seed,
                pixel_len: config.pixel_len,
                rays_per_pixel: config.rays_per_pixel,
                batch_size: config.batch_size,
            }),
    {
        let mut constants = RaytraceStageConstants::from(config);
        constants.seed = seed;
        constants
    }

    /// The block's 32-bit words in declaration order.
    pub fn words(&self) -> (w: Vec<u32>)
        ensures
            w@ == seq![self.seed, self.pixel_len, self.rays_per_pixel, self.batch_size],
    {
        vec![self.seed, self.pixel_len, self.rays_per_pixel, self.batch_size]
    }

    /// The block's bytes as the uniform buffer holds them: its words in turn,
    /// each in the machine's byte order.
    pub fn to_bytes(&self) -> (b: Vec<u8>)
        ensures
            b@.len() == 16,
            exists|le: bool| words_encoded(b@, seq![self.seed, self.pixel_len, self.rays_per_pixel, self.batch_size], le),
    {
        words_to_bytes(&self.words())
    }
}

/// The pipelines of the ray-tracing stage.
#[derive(Clone, Copy, Debug, PartialEq, Eq)]
pub enum RaytracePass {
    /// Draws one camera position and its expected distance per sample.
    GenerateSamples,
    /// Renders the images, 8 x 8 pixels per workgroup.
    Raytrace,
}

/// The shader entry points that the ray-tracing pipeline can run.
#[derive(Clone, Copy, Debug, PartialEq, Eq)]
pub enum RaytraceEntryPoint {
    /// Renders the images into the float image buffer only.
    Raytrace,
    /// Renders the images and also writes each into a layer of the
    /// preview texture array.
    RaytracePreview,
}

impl RaytraceEntryPoint {
    /// The entry point's name in the shader module.
    pub fn name(self) -> (s: &'static str)
        ensures
            self is Raytrace ==> s@ == "raytrace"@,
            self is RaytracePreview ==> s@ == "raytrace_preview"@,
    {
        match self {
            RaytraceEntryPoint::Raytrace => "raytrace",
            RaytraceEntryPoint::RaytracePreview => "raytrace_preview",
        }
    }
}

/// The entry point of the ray-tracing pipeline: the preview one exactly
/// when a preview texture is bound.
pub fn raytrace_entry_point(preview: bool) -> (e: RaytraceEntryPoint)
    ensures
        e == (if preview { RaytraceEntryPoint::RaytracePreview } else { RaytraceEntryPoint::Raytrace }),
{
    if preview {
        RaytraceEntryPoint::RaytracePreview
    } else {
        RaytraceEntryPoint::Raytrace
    }
}

/// The dispatches of the ray-tracing stage: the samples in groups of 64, then
/// the images in 8 x 8 tiles over `pixel_len` columns and
/// `pixel_len * batch_size` stacked rows.
pub open spec fn spec_raytrace_dispatches(config: RaytraceConfig) -> Seq<Dispatch<RaytracePass>> {
    seq![
        Dispatch { pass: RaytracePass::GenerateSamples, x: spec_div_ceil(config.batch_size as int, 64) as u32, y: 1, z: 1 },
        Dispatch { pass: RaytracePass::Raytrace, x: spec_div_ceil(config.pixel_len as int, 8) as u32,
            y: spec_div_ceil(config.pixel_len as int * config.batch_size as int, 8) as u32, z: 1 },
    ]
}

/// The dispatches of `RaytraceStage::encode`.
pub fn raytrace_dispatches(config: RaytraceConfig) -> (d: Vec<Dispatch<RaytracePass>>)
    requires
        config.pixel_len as int * config.batch_size as int <= u32::MAX,
    ensures
        d@ == spec_raytrace_dispatches(config),
{
    let d = vec![
        Dispatch { pass: RaytracePass::GenerateSamples, x: div_ceil_u32(config.batch_size, 64), y: 1, z: 1 },
        Dispatch { pass: RaytracePass::Raytrace, x: div_ceil_u32(config.pixel_len, 8),
            y: div_ceil_u32(config.pixel_len * config.batch_size, 8), z: 1 },
    ];
    proof {
        assert(d@ =~= spec_raytrace_dispatches(config));
    }
    d
}

impl RaytraceConfig {
    /// Bytes of the generator's readback buffer: the expected distances,
    /// then the images.
    pub fn readback_bytes(self) -> (bytes: u64)
        requires
            self.spec_batch_bytes() + self.spec_image_bytes() <= u64::MAX,
        ensures
            bytes == self.spec_batch_bytes() + self.spec_image_bytes(),
    {
        proof {
            assert(self.spec_image_bytes() >= 0) by (nonlinear_arith)
                requires
                    self.batch_size >= 0,
                    self.pixel_len >= 0,
            ;
        }
        self.batch_bytes() + self.image_bytes()
    }
}

/// One generated batch: `batch_size` images of `input_size` values in
/// `inputs`, image by image, and the expected distance of each in `expects`.
pub struct RaytraceBatch<T> {
    pub inputs: Vec<T>,
    pub expects: Vec<T>,
    pub input_size: u32,
    pub batch_size: u32,
}

/// Splits the generator's readback into a batch: the first `batch_bytes`
/// bytes are the expected distances, the rest the images; each is decoded as
/// little-endian `f32` bit patterns. `input_size` is the image's value count
/// cut to 32 bits, as the generator reports it.
pub fn batch_from_readback(config: RaytraceConfig, bytes: &[u8]) -> (batch: RaytraceBatch<u32>)
    requires
        (config.spec_batch_bytes() as usize) as int <= bytes@.len(),
    ensures
        ({
            let split = (config.spec_batch_bytes() as usize) as int;
            &&& batch.expects@.len() == split / 4
            &&& forall|i: int| 0 <= i < batch.expects@.len() ==> #[trigger] batch.expects@[i] == spec_le_word(bytes@, 4 * i)
            &&& batch.inputs@.len() == (bytes@.len() - split) / 4
            &&& forall|i: int| 0 <= i < batch.inputs@.len() ==> #[trigger] batch.inputs@[i] == spec_le_word(bytes@, split + 4 * i)
        }),
        batch.input_size == config.spec_image_value_count() as u32,
        batch.batch_size == config.batch_size,
{
    let split = config.batch_bytes() as usize;
    let expects = le_words_in(bytes, 0, split);
    let inputs = le_words_in(bytes, split, bytes.len());
    RaytraceBatch { inputs, expects, input_size: config.image_value_count() as u32, batch_size: config.batch_size }
}

/// A batch read back from the generator fits a network whose input size
/// is the image's value count and whose batch size is the generator's: the
/// images and expected distances that `batch_from_readback` splits off a
/// full readback pass the network's batch-shape check.
pub proof fn lemma_generated_batch_fits(rt: RaytraceConfig, nn: NeuralNetworkConfig, readback_len: int)
    requires
        nn.input_size as int == rt.spec_image_value_count(),
        nn.batch_size == rt.batch_size,
        readback_len == rt.spec_batch_bytes() + rt.spec_image_bytes(),
        rt.spec_batch_bytes() <= usize::MAX,
    ensures
        ({
            let split = (rt.spec_batch_bytes() as usize) as int;
            spec_batch_shape(nn, (readback_len - split) / 4, split / 4, rt.batch_size) is None
        }),
{
    let b = rt.batch_size as int;
    let n = rt.spec_image_value_count();
    assert(rt.spec_image_bytes() == (b * n) * 4) by (nonlinear_arith)
        requires
            rt.spec_image_bytes() == b * n * 4,
    ;
    assert(nn.input_size as int * b == b * n) by (nonlinear_arith)
        requires
            nn.input_size as int == n,
    ;
    let split = (rt.spec_batch_bytes() as usize) as int;
    assert(split == b * 4);
    assert(readback_len - split == (b * n) * 4);
    assert((readback_len - split) / 4 == b * n);
    assert(split / 4 == b);
    assert(spec_input_shape(nn, b * n, rt.batch_size) is None);
}

/// The resources that the ray-tracing stage binds.
#[derive(Clone, Copy, Debug, PartialEq, Eq)]
pub enum RaytraceBinding {
    Samples,
    Expects,
    Images,
    /// The write-only RGBA texture array of the preview.
    DebugImages,
}

impl RaytraceBinding {
    /// The binding number of the resource in the ray-tracing shader.
    pub open spec fn spec_binding(self) -> u32 {
        match self {
            RaytraceBinding::Samples => 0,
            RaytraceBinding::Expects => 1,
            RaytraceBinding::Images => 2,
            RaytraceBinding::DebugImages => 3,
        }
    }

    /// The binding number of the resource in the ray-tracing shader.
    pub fn binding(self) -> (b: u32)
        ensures
            b == self.spec_binding(),
    {
        match self {
            RaytraceBinding::Samples => 0,
            RaytraceBinding::Expects => 1,
            RaytraceBinding::Images => 2,
            RaytraceBinding::DebugImages => 3,
        }
    }
}

/// The resources each pipeline binds, in order: the sample generator writes
/// samples and expected distances; the renderer reads and writes samples,
/// writes images and, for a preview, the preview texture.
pub open spec fn spec_raytrace_layout(pass: RaytracePass, preview: bool) -> Seq<RaytraceBinding> {
    match pass {
        RaytracePass::GenerateSamples => seq![RaytraceBinding::Samples, RaytraceBinding::Expects],
        RaytracePass::Raytrace => if preview {
            seq![RaytraceBinding::Samples, RaytraceBinding::Images, RaytraceBinding::DebugImages]
        } else {
            seq![RaytraceBinding::Samples, RaytraceBinding::Images]
        },
    }
}

/// The bindings of a ray-tracing pipeline; every storage buffer among them is read-write.
pub fn raytrace_layout(pass: RaytracePass, preview: bool) -> (layout: Vec<RaytraceBinding>)
    ensures
        layout@ == spec_raytrace_layout(pass, preview),
{
    let layout = match pass {
        RaytracePass::GenerateSamples => vec![RaytraceBinding::Samples, RaytraceBinding::Expects],
        RaytracePass::Raytrace => {
            let mut l = vec![RaytraceBinding::Samples, RaytraceBinding::Images];
            if preview {
                l.push(RaytraceBinding::DebugImages);
            }
            l
        },
    };
    proof {
        assert(layout@ =~= spec_raytrace_layout(pass, preview));
    }
    layout
}

/// The ray-tracing dispatches cover their work: one invocation per sample
/// (64 per workgroup) and one per pixel of the `pixel_len` x
/// `pixel_len * batch_size` stack of images (8 x 8 per workgroup).
pub proof fn lemma_raytrace_dispatches_cover(config: RaytraceConfig)
    requires
        config.pixel_len as int * config.batch_size as int <= u32::MAX,
    ensures
        ({
            let d = spec_raytrace_dispatches(config);
            &&& d[0].x as int * 64 >= config.batch_size
            &&& d[1].x as int * 8 >= config.pixel_len
            &&& d[1].y as int * 8 >= config.pixel_len as int * config.batch_size as int
        }),
        ({
            let d = spec_raytrace_dispatches(config);
            &&& d.len() == 2
            &&& d[0].pass == RaytracePass::GenerateSamples && d[0].y == 1 && d[0].z == 1
            &&& covers_exactly(d[0].x as int, config.batch_size as int, 64)
            &&& d[1].pass == RaytracePass::Raytrace && d[1].z == 1
            &&& covers_exactly(d[1].x as int, config.pixel_len as int, 8)
            &&& covers_exactly(d[1].y as int, config.pixel_len as int * config.batch_size as int, 8)
        }),
{
    lemma_div_ceil_covers(config.batch_size as int, 64);
    lemma_div_ceil_covers(config.pixel_len as int, 8);
    let stacked = config.pixel_len as int * config.batch_size as int;
    assert(stacked >= 0) by (nonlinear_arith)
        requires
            stacked == config.pixel_len as int * config.batch_size as int,
            config.pixel_len >= 0,
            config.batch_size >= 0,
    ;
    lemma_div_ceil_covers(stacked, 8);
    lemma_div_ceil_exact(config.batch_size as int, 64);
    lemma_div_ceil_exact(config.pixel_len as int, 8);
    lemma_div_ceil_exact(stacked, 8);
}

} // verus!
