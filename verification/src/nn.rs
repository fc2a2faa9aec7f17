use vstd::prelude::*;

use crate::bytes::{words_encoded, words_to_bytes, FLOAT_BYTES};
use crate::dispatch::Dispatch;
use crate::math::{covers_exactly, div_ceil_u32, lemma_div_ceil_exact, spec_div_ceil};
use crate::raytrace::{RaytracePass, SAMPLE_STRIDE};

verus! {

/// Shape of the single-hidden-layer network trained on ray-traced images of
/// `pixel_len` x `pixel_len` pixels. `learning_rate_bits` holds the bits of
/// the `f32` learning rate.
#[derive(Clone, Copy)]
pub struct ModelConfig {
    pub base_seed: u32,
    pub pixel_len: u32,
    pub rays_per_pixel: u32,
    pub hidden_size: u32,
    pub batch_size: u32,
    pub learning_rate_bits: u32,
}

impl ModelConfig {
    /// Inputs of the network: one per pixel.
    pub open spec fn spec_input_count(self) -> int {
        self.pixel_len as int * self.pixel_len as int
    }

    /// Parameters of the network: a weight per (hidden unit, pixel), a bias
    /// per hidden unit, a weight per hidden unit and the output bias.
    pub open spec fn spec_parameter_count(self) -> int {
        self.hidden_size as int * self.pixel_len as int * self.pixel_len as int + self.hidden_size as int
            + self.hidden_size as int + 1
    }

    /// Number of inputs: `pixel_len * pixel_len`.
    pub fn input_count(self) -> (n: u64)
        ensures
            n == self.spec_input_count(),
    {
        proof {
            assert(self.pixel_len as int * self.pixel_len as int <= u32::MAX as int * u32::MAX as int)
                by (nonlinear_arith)
                requires
                    self.pixel_len <= u32::MAX,
            ;
        }
        self.pixel_len as u64 * self.pixel_len as u64
    }

    /// Bytes of the sample positions of one batch.
    pub fn sample_bytes(self) -> (bytes: u64)
        ensures
            bytes == self.batch_size as int * SAMPLE_STRIDE * FLOAT_BYTES,
    {
        self.batch_size as u64 * SAMPLE_STRIDE * FLOAT_BYTES
    }

    /// Bytes of one batch of expected distances or predictions.
    pub fn batch_bytes(self) -> (bytes: u64)
        ensures
            bytes == self.batch_size as int * FLOAT_BYTES,
    {
        self.batch_size as u64 * FLOAT_BYTES
    }

    /// Bytes of the images of one batch.
    pub fn image_bytes(self) -> (bytes: u64)
        requires
            self.batch_size as int * self.spec_input_count() * FLOAT_BYTES <= u64::MAX,
        ensures
            bytes == self.batch_size as int * self.spec_input_count() * FLOAT_BYTES,
    {
        let count = self.input_count();
        proof {
            assert(self.batch_size as int * count <= u64::MAX) by (nonlinear_arith)
                requires
                    self.batch_size as int * count * 4 <= u64::MAX,
            ;
        }
        self.batch_size as u64 * count * FLOAT_BYTES
    }

    /// Bytes of one batch of hidden activations.
    pub fn hidden_bytes(self) -> (bytes: u64)
        requires
            self.batch_size as int * self.hidden_size as int * FLOAT_BYTES <= u64::MAX,
        ensures
            bytes == self.batch_size as int * self.hidden_size as int * FLOAT_BYTES,
    {
        proof {
            assert(self.batch_size as int * self.hidden_size as int <= u64::MAX) by (nonlinear_arith)
                requires
                    self.batch_size as int * self.hidden_size as int * 4 <= u64::MAX,
            ;
        }
        self.batch_size as u64 * self.hidden_size as u64 * FLOAT_BYTES
    }

    /// Bytes of the first layer's weights and biases.
    pub fn weight1_bytes(self) -> (bytes: u64)
        requires
            (self.hidden_size as int * self.spec_input_count() + self.hidden_size as int) * FLOAT_BYTES <= u64::MAX,
        ensures
            bytes == (self.hidden_size as int * self.spec_input_count() + self.hidden_size as int) * FLOAT_BYTES,
    {
        let count = self.input_count();
        proof {
            assert(self.hidden_size as int * count >= 0) by (nonlinear_arith)
                requires
                    count >= 0,
            ;
        }
        (self.hidden_size as u64 * count + self.hidden_size as u64) * FLOAT_BYTES
    }

    /// Bytes of the output layer's weights and bias.
    pub fn weight2_bytes(self) -> (bytes: u64)
        ensures
            bytes == (self.hidden_size as int + 1) * FLOAT_BYTES,
    {
        (self.hidden_size as u64 + 1) * FLOAT_BYTES
    }

    /// Number of trainable parameters.
    pub fn parameter_count(self) -> (n: u32)
        requires
            self.spec_parameter_count() <= u32::MAX,
        ensures
            n == self.spec_parameter_count(),
    {
        proof {
            assert(self.hidden_size as int * self.pixel_len as int <= self.hidden_size as int
                * self.pixel_len as int * self.pixel_len as int + self.pixel_len as int) by (nonlinear_arith)
                requires
                    self.pixel_len >= 0,
                    self.hidden_size >= 0,
            ;
            assert(self.hidden_size as int * self.pixel_len as int * self.pixel_len as int >= 0)
                by (nonlinear_arith);
            if self.pixel_len > 0 {
                assert(self.hidden_size as int * self.pixel_len as int <= self.hidden_size as int
                    * self.pixel_len as int * self.pixel_len as int) by (nonlinear_arith)
                    requires
                        self.pixel_len >= 1,
                        self.hidden_size >= 0,
                ;
            }
        }
        self.hidden_size * self.pixel_len * self.pixel_len + self.hidden_size + self.hidden_size + 1
    }
}

/// The uniform block of the forward stage's shaders.
#[derive(Clone, Copy)]
pub struct ForwardStageConstants {
    pub pixel_len: u32,
    pub hidden_size: u32,
    pub batch_size: u32,
}

impl From<ModelConfig> for ForwardStageConstants {
    fn from(config: ModelConfig) -> (c: Self) {
        ForwardStageConstants { pixel_len: config.pixel_len, hidden_size: config.hidden_size, batch_size: config.batch_size }
    }
}

impl vstd::std_specs::convert::FromSpecImpl<ModelConfig> for ForwardStageConstants {
    open spec fn obeys_from_spec() -> bool {
        true
    }

    open spec fn from_spec(config: ModelConfig) -> Self {
        ForwardStageConstants { pixel_len: config.pixel_len, hidden_size: config.hidden_size, batch_size: config.batch_size }
    }
}

impl ForwardStageConstants {
    /// The block's 32-bit words in declaration order.
    pub fn words(&self) -> (w: Vec<u32>)
        ensures
            w@ == seq![self.pixel_len, self.hidden_size, self.batch_size],
    {
        vec![self.pixel_len, self.hidden_size, self.batch_size]
    }

    /// The block's bytes as the uniform buffer holds them: its words in turn,
    /// each in the machine's byte order.
    pub fn to_bytes(&self) -> (b: Vec<u8>)
        ensures
            b@.len() == 12,
            exists|le: bool| words_encoded(b@, seq![self.pixel_len, self.hidden_size, self.batch_size], le),
    {
        words_to_bytes(&self.words())
    }
}

/// The uniform block of the backward stage's shaders, with the bits of the
/// `f32` learning rate.
#[derive(Clone, Copy)]
pub struct BackwardStageConstants {
    pub pixel_len: u32,
    pub hidden_size: u32,
    pub batch_size: u32,
    pub rate_bits: u32,
}

impl From<ModelConfig> for BackwardStageConstants {
    fn from(config: ModelConfig) -> (c: Self) {
        BackwardStageConstants {
            pixel_len: config.pixel_len,
            hidden_size: config.hidden_size,
            batch_size: config.batch_size,
            rate_bits: config.learning_rate_bits,
        }
    }
}

impl vstd::std_specs::convert::FromSpecImpl<ModelConfig> for BackwardStageConstants {
    open spec fn obeys_from_spec() -> bool {
        true
    }

    open spec fn from_spec(config: ModelConfig) -> Self {
        BackwardStageConstants {
            pixel_len: config.pixel_len,
            hidden_size: config.hidden_size,
            batch_size: config.batch_size,
            rate_bits: config.learning_rate_bits,
        }
    }
}

impl BackwardStageConstants {
    /// The block's 32-bit words in declaration order.
    pub fn words(&self) -> (w: Vec<u32>)
        ensures
            w@ == seq![self.pixel_len, self.hidden_size, self.batch_size, self.rate_bits],
    {
        vec![self.pixel_len, self.hidden_size, self.batch_size, self.rate_bits]
    }

    /// The block's bytes as the uniform buffer holds them: its words in turn,
    /// each in the machine's byte order.
    pub fn to_bytes(&self) -> (b: Vec<u8>)
        ensures
            b@.len() == 16,
            exists|le: bool| words_encoded(b@, seq![self.pixel_len, self.hidden_size, self.batch_size, self.rate_bits], le),
    {
        words_to_bytes(&self.words())
    }
}

/// The pipelines of the forward stage.
#[derive(Clone, Copy, Debug, PartialEq, Eq)]
pub enum ForwardPass {
    Hidden,
    Output,
}

/// The pipelines of the backward stage.
#[derive(Clone, Copy, Debug, PartialEq, Eq)]
pub enum BackwardPass {
    ComputeLoss,
    Hidden,
    Update,
}

/// The dispatches of the forward stage: the hidden layer in 8 x 8 tiles of
/// (unit, sample), then the output in groups of 64 samples.
pub open spec fn spec_forward_dispatches(config: ModelConfig) -> Seq<Dispatch<ForwardPass>> {
    seq![
        Dispatch { pass: ForwardPass::Hidden, x: spec_div_ceil(config.hidden_size as int, 8) as u32,
            y: spec_div_ceil(config.batch_size as int, 8) as u32, z: 1 },
        Dispatch { pass: ForwardPass::Output, x: spec_div_ceil(config.batch_size as int, 64) as u32, y: 1, z: 1 },
    ]
}

/// The forward pass reaches every (hidden unit, sample) pair in 8 x 8
/// tiles and every sample's prediction in groups of 64, with no workgroup
/// wholly idle.
pub proof fn lemma_forward_dispatches_cover(config: ModelConfig)
    ensures
        ({
            let d = spec_forward_dispatches(config);
            &&& d.len() == 2
            &&& d[0].pass == ForwardPass::Hidden && d[0].z == 1
            &&& covers_exactly(d[0].x as int, config.hidden_size as int, 8)
            &&& covers_exactly(d[0].y as int, config.batch_size as int, 8)
            &&& d[1].pass == ForwardPass::Output && d[1].y == 1 && d[1].z == 1
            &&& covers_exactly(d[1].x as int, config.batch_size as int, 64)
        }),
{
    lemma_div_ceil_exact(config.hidden_size as int, 8);
    lemma_div_ceil_exact(config.batch_size as int, 8);
    lemma_div_ceil_exact(config.batch_size as int, 64);
}

/// The dispatches of `ForwardStage::encode`.
pub fn forward_dispatches(config: ModelConfig) -> (d: Vec<Dispatch<ForwardPass>>)
    ensures
        d@ == spec_forward_dispatches(config),
        d@.len() == 2,
        covers_exactly(d@[0].x as int, config.hidden_size as int, 8),
        covers_exactly(d@[0].y as int, config.batch_size as int, 8),
        covers_exactly(d@[1].x as int, config.batch_size as int, 64),
{
    let d = vec![
        Dispatch { pass: ForwardPass::Hidden, x: div_ceil_u32(config.hidden_size, 8),
            y: div_ceil_u32(config.batch_size, 8), z: 1 },
        Dispatch { pass: ForwardPass::Output, x: div_ceil_u32(config.batch_size, 64), y: 1, z: 1 },
    ];
    proof {
        assert(d@ =~= spec_forward_dispatches(config));
        lemma_forward_dispatches_cover(config);
    }
    d
}

/// The dispatches of the backward stage: the loss (only when asked for),
/// the hidden deltas in 8 x 8 tiles, then the update in groups of 64 parameters.
pub open spec fn spec_backward_dispatches(config: ModelConfig, compute_loss: bool) -> Seq<Dispatch<BackwardPass>> {
    let loss: Seq<Dispatch<BackwardPass>> = if compute_loss {
        seq![Dispatch { pass: BackwardPass::ComputeLoss, x: 1, y: 1, z: 1 }]
    } else {
        Seq::empty()
    };
    loss + seq![
        Dispatch { pass: BackwardPass::Hidden, x: spec_div_ceil(config.hidden_size as int, 8) as u32,
            y: spec_div_ceil(config.batch_size as int, 8) as u32, z: 1 },
        Dispatch { pass: BackwardPass::Update, x: spec_div_ceil(config.spec_parameter_count(), 64) as u32, y: 1, z: 1 },
    ]
}

/// The dispatches of `BackwardStage::encode`.
pub fn backward_dispatches(config: ModelConfig, compute_loss: bool) -> (d: Vec<Dispatch<BackwardPass>>)
    requires
        config.spec_parameter_count() <= u32::MAX,
    ensures
        d@ == spec_backward_dispatches(config, compute_loss),
        ({
            let k = if compute_loss { 1int } else { 0int };
            &&& d@.len() == k + 2
            &&& compute_loss ==> d@[0] == Dispatch { pass: BackwardPass::ComputeLoss, x: 1u32, y: 1u32, z: 1u32 }
            &&& d@[k].pass == BackwardPass::Hidden && d@[k].z == 1
            &&& covers_exactly(d@[k].x as int, config.hidden_size as int, 8)
            &&& covers_exactly(d@[k].y as int, config.batch_size as int, 8)
            &&& d@[k + 1].pass == BackwardPass::Update && d@[k + 1].y == 1 && d@[k + 1].z == 1
            &&& covers_exactly(d@[k + 1].x as int, config.hidden_size as int * config.pixel_len as int
                * config.pixel_len as int + config.hidden_size as int + config.hidden_size as int + 1, 64)
        }),
{
    let mut d: Vec<Dispatch<BackwardPass>> = Vec::new();
    if compute_loss {
        d.push(Dispatch { pass: BackwardPass::ComputeLoss, x: 1, y: 1, z: 1 });
    }
    d.push(Dispatch { pass: BackwardPass::Hidden, x: div_ceil_u32(config.hidden_size, 8),
        y: div_ceil_u32(config.batch_size, 8), z: 1 });
    let parameters = config.parameter_count();
    d.push(Dispatch { pass: BackwardPass::Update, x: div_ceil_u32(parameters, 64), y: 1, z: 1 });
    proof {
        assert(d@ =~= spec_backward_dispatches(config, compute_loss));
        lemma_div_ceil_exact(config.hidden_size as int, 8);
        lemma_div_ceil_exact(config.batch_size as int, 8);
        assert(config.spec_parameter_count() >= 0) by (nonlinear_arith);
        lemma_div_ceil_exact(config.spec_parameter_count(), 64);
    }
    d
}

/// The storage buffers that the forward stage binds.
#[derive(Clone, Copy, Debug, PartialEq, Eq)]
pub enum ForwardBuffer {
    Images,
    Weights1,
    Hidden,
    Weights2,
    Predicts,
}

impl ForwardBuffer {
    /// The binding number of the buffer in the forward shader.
    pub open spec fn spec_binding(self) -> u32 {
        match self {
            ForwardBuffer::Images => 0,
            ForwardBuffer::Weights1 => 1,
            ForwardBuffer::Hidden => 2,
            ForwardBuffer::Weights2 => 3,
            ForwardBuffer::Predicts => 4,
        }
    }

    /// The binding number of the buffer in the forward shader.
    pub fn binding(self) -> (b: u32)
        ensures
            b == self.spec_binding(),
    {
        match self {
            ForwardBuffer::Images => 0,
            ForwardBuffer::Weights1 => 1,
            ForwardBuffer::Hidden => 2,
            ForwardBuffer::Weights2 => 3,
            ForwardBuffer::Predicts => 4,
        }
    }
}

/// The buffers each forward pipeline binds, in order, with whether it only reads them.
pub open spec fn spec_forward_layout(pass: ForwardPass) -> Seq<(ForwardBuffer, bool)> {
    match pass {
        ForwardPass::Hidden => seq![(ForwardBuffer::Images, true), (ForwardBuffer::Weights1, true), (ForwardBuffer::Hidden, false)],
        ForwardPass::Output => seq![(ForwardBuffer::Hidden, false), (ForwardBuffer::Weights2, true), (ForwardBuffer::Predicts, false)],
    }
}

/// The binding table of the forward shader: for each entry point, the
/// binding numbers it declares, in order, and whether each is read-only.
pub open spec fn forward_shader_bindings(pass: ForwardPass) -> Seq<(u32, bool)> {
    match pass {
        ForwardPass::Hidden => seq![(0u32, true), (1u32, true), (2u32, false)],
        ForwardPass::Output => seq![(2u32, false), (3u32, true), (4u32, false)],
    }
}

/// Every forward pipeline binds exactly the shader's bindings for its entry
/// point; the hidden pass writes the activations that the output pass
/// reads, and each reads only its own layer's weights.
pub proof fn lemma_forward_layouts_match_shader(pass: ForwardPass)
    ensures
        spec_forward_layout(pass).map_values(|e: (ForwardBuffer, bool)| (e.0.spec_binding(), e.1))
            == forward_shader_bindings(pass),
        spec_forward_layout(ForwardPass::Hidden)[0].0 == ForwardBuffer::Images,
        spec_forward_layout(ForwardPass::Hidden)[1] == (ForwardBuffer::Weights1, true),
        spec_forward_layout(ForwardPass::Output)[0].0 == spec_forward_layout(ForwardPass::Hidden)[2].0,
        spec_forward_layout(ForwardPass::Output)[1] == (ForwardBuffer::Weights2, true),
        spec_forward_layout(ForwardPass::Output)[2] == (ForwardBuffer::Predicts, false),
{
    assert(spec_forward_layout(pass).map_values(|e: (ForwardBuffer, bool)| (e.0.spec_binding(), e.1))
        =~= forward_shader_bindings(pass));
}

/// The data layout (and bind group) of a forward pipeline.
pub fn forward_layout(pass: ForwardPass) -> (layout: Vec<(ForwardBuffer, bool)>)
    ensures
        layout@ == spec_forward_layout(pass),
        layout@.map_values(|e: (ForwardBuffer, bool)| (e.0.spec_binding(), e.1)) == forward_shader_bindings(pass),
{
    let layout = match pass {
        ForwardPass::Hidden => vec![(ForwardBuffer::Images, true), (ForwardBuffer::Weights1, true), (ForwardBuffer::Hidden, false)],
        ForwardPass::Output => vec![(ForwardBuffer::Hidden, false), (ForwardBuffer::Weights2, true), (ForwardBuffer::Predicts, false)],
    };
    proof {
        assert(layout@ =~= spec_forward_layout(pass));
        lemma_forward_layouts_match_shader(pass);
    }
    layout
}

/// The storage buffers that the backward stage binds.
#[derive(Clone, Copy, Debug, PartialEq, Eq)]
pub enum BackwardBuffer {
    Images,
    Expects,
    Hidden,
    Predicts,
    Weights1,
    Weights2,
    HiddenDelta,
    Loss,
}

impl BackwardBuffer {
    /// The binding number of the buffer in the backward shader.
    pub open spec fn spec_binding(self) -> u32 {
        match self {
            BackwardBuffer::Images => 0,
            BackwardBuffer::Expects => 1,
            BackwardBuffer::Hidden => 2,
            BackwardBuffer::Predicts => 3,
            BackwardBuffer::Weights1 => 4,
            BackwardBuffer::Weights2 => 5,
            BackwardBuffer::HiddenDelta => 6,
            BackwardBuffer::Loss => 7,
        }
    }

    /// The binding number of the buffer in the backward shader.
    pub fn binding(self) -> (b: u32)
        ensures
            b == self.spec_binding(),
    {
        match self {
            BackwardBuffer::Images => 0,
            BackwardBuffer::Expects => 1,
            BackwardBuffer::Hidden => 2,
            BackwardBuffer::Predicts => 3,
            BackwardBuffer::Weights1 => 4,
            BackwardBuffer::Weights2 => 5,
            BackwardBuffer::HiddenDelta => 6,
            BackwardBuffer::Loss => 7,
        }
    }
}

/// The buffers each backward pipeline binds, in order, with whether it only reads them.
pub open spec fn spec_backward_layout(pass: BackwardPass) -> Seq<(BackwardBuffer, bool)> {
    match pass {
        BackwardPass::ComputeLoss => seq![(BackwardBuffer::Expects, true), (BackwardBuffer::Predicts, true), (BackwardBuffer::Loss, false)],
        BackwardPass::Hidden => seq![
            (BackwardBuffer::Expects, true),
            (BackwardBuffer::Hidden, true),
            (BackwardBuffer::Predicts, true),
            (BackwardBuffer::Weights2, false),
            (BackwardBuffer::HiddenDelta, false),
        ],
        BackwardPass::Update => seq![
            (BackwardBuffer::Images, true),
            (BackwardBuffer::Expects, true),
            (BackwardBuffer::Hidden, true),
            (BackwardBuffer::Predicts, true),
            (BackwardBuffer::Weights1, false),
            (BackwardBuffer::Weights2, false),
            (BackwardBuffer::HiddenDelta, false),
        ],
    }
}

/// The binding table of the backward shader: for each entry point, the
/// binding numbers it declares, in order, and whether each is read-only.
pub open spec fn backward_shader_bindings(pass: BackwardPass) -> Seq<(u32, bool)> {
    match pass {
        BackwardPass::ComputeLoss => seq![(1u32, true), (3u32, true), (7u32, false)],
        BackwardPass::Hidden => seq![(1u32, true), (2u32, true), (3u32, true), (5u32, false), (6u32, false)],
        BackwardPass::Update => seq![(0u32, true), (1u32, true), (2u32, true), (3u32, true), (4u32, false),
            (5u32, false), (6u32, false)],
    }
}

/// Every backward pipeline binds exactly the shader's bindings for its
/// entry point; the update writes both layers' weights and reads the hidden
/// delta that the hidden pass writes.
pub proof fn lemma_backward_layouts_match_shader(pass: BackwardPass)
    ensures
        spec_backward_layout(pass).map_values(|e: (BackwardBuffer, bool)| (e.0.spec_binding(), e.1))
            == backward_shader_bindings(pass),
        spec_backward_layout(BackwardPass::Hidden).contains((BackwardBuffer::HiddenDelta, false)),
        spec_backward_layout(BackwardPass::Update).contains((BackwardBuffer::HiddenDelta, false)),
        spec_backward_layout(BackwardPass::Update).contains((BackwardBuffer::Weights1, false)),
        spec_backward_layout(BackwardPass::Update).contains((BackwardBuffer::Weights2, false)),
        spec_backward_layout(BackwardPass::ComputeLoss).contains((BackwardBuffer::Loss, false)),
{
    assert(spec_backward_layout(pass).map_values(|e: (BackwardBuffer, bool)| (e.0.spec_binding(), e.1))
        =~= backward_shader_bindings(pass));
    assert(spec_backward_layout(BackwardPass::Hidden)[4] == (BackwardBuffer::HiddenDelta, false));
    assert(spec_backward_layout(BackwardPass::Update)[6] == (BackwardBuffer::HiddenDelta, false));
    assert(spec_backward_layout(BackwardPass::Update)[4] == (BackwardBuffer::Weights1, false));
    assert(spec_backward_layout(BackwardPass::Update)[5] == (BackwardBuffer::Weights2, false));
    assert(spec_backward_layout(BackwardPass::ComputeLoss)[2] == (BackwardBuffer::Loss, false));
}

/// The data layout (and bind group) of a backward pipeline.
pub fn backward_layout(pass: BackwardPass) -> (layout: Vec<(BackwardBuffer, bool)>)
    ensures
        layout@ == spec_backward_layout(pass),
        layout@.map_values(|e: (BackwardBuffer, bool)| (e.0.spec_binding(), e.1)) == backward_shader_bindings(pass),
{
    let layout = match pass {
        BackwardPass::ComputeLoss => vec![(BackwardBuffer::Expects, true), (BackwardBuffer::Predicts, true), (BackwardBuffer::Loss, false)],
        BackwardPass::Hidden => vec![
            (BackwardBuffer::Expects, true),
            (BackwardBuffer::Hidden, true),
            (BackwardBuffer::Predicts, true),
            (BackwardBuffer::Weights2, false),
            (BackwardBuffer::HiddenDelta, false),
        ],
        BackwardPass::Update => vec![
            (BackwardBuffer::Images, true),
            (BackwardBuffer::Expects, true),
            (BackwardBuffer::Hidden, true),
            (BackwardBuffer::Predicts, true),
            (BackwardBuffer::Weights1, false),
            (BackwardBuffer::Weights2, false),
            (BackwardBuffer::HiddenDelta, false),
        ],
    };
    proof {
        assert(layout@ =~= spec_backward_layout(pass));
        lemma_backward_layouts_match_shader(pass);
    }
    layout
}

/// The buffer holds model parameters.
pub open spec fn is_weight_buffer(b: ForwardBuffer) -> bool {
    b is Weights1 || b is Weights2
}

/// A forward pipeline binds every parameter buffer it uses read-only.
pub open spec fn forward_pass_keeps_weights(pass: ForwardPass) -> bool {
    forall|i: int|
        0 <= i < spec_forward_layout(pass).len() && is_weight_buffer(#[trigger] spec_forward_layout(pass)[i].0)
            ==> spec_forward_layout(pass)[i].1
}

/// Prediction leaves the weights as they were: every pipeline that the
/// forward pass dispatches binds the parameter buffers read-only, so none of
/// its dispatches can write them.
pub proof fn lemma_forward_keeps_weights(config: ModelConfig)
    ensures
        forall|k: int|
            0 <= k < spec_forward_dispatches(config).len() ==> forward_pass_keeps_weights(
                #[trigger] spec_forward_dispatches(config)[k].pass,
            ),
{
    assert forall|k: int| 0 <= k < spec_forward_dispatches(config).len() implies forward_pass_keeps_weights(
        #[trigger] spec_forward_dispatches(config)[k].pass,
    ) by {
        let pass = spec_forward_dispatches(config)[k].pass;
        assert forall|i: int|
            0 <= i < spec_forward_layout(pass).len() && is_weight_buffer(#[trigger] spec_forward_layout(pass)[i].0)
            implies spec_forward_layout(pass)[i].1 by {
        }
    }
}

impl ModelConfig {
    /// The uniform block of the standalone image-preview shader: seed, image
    /// side, rays per pixel, hidden size, batch size and learning-rate bits.
    pub open spec fn spec_preview_words(self) -> Seq<u32> {
        seq![self.base_seed, self.pixel_len, self.rays_per_pixel, self.hidden_size, self.batch_size, self.learning_rate_bits]
    }

    /// The preview shader's uniform block as 32-bit words.
    pub fn preview_words(&self) -> (w: Vec<u32>)
        ensures
            w@ == self.spec_preview_words(),
    {
        let w = vec![self.base_seed, self.pixel_len, self.rays_per_pixel, self.hidden_size, self.batch_size, self.learning_rate_bits];
        proof {
            assert(w@ =~= self.spec_preview_words());
        }
        w
    }

    /// The preview shader's uniform block as the buffer holds it: its words
    /// in turn, each in the machine's byte order.
    pub fn preview_bytes(&self) -> (b: Vec<u8>)
        ensures
            b@.len() == 24,
            exists|le: bool| words_encoded(b@, self.spec_preview_words(), le),
    {
        words_to_bytes(&self.preview_words())
    }
}

/// The dispatches of the standalone image preview: the samples in groups of
/// 64, then one workgroup per 8 x 8 pixel tile of each image in the batch.
pub open spec fn spec_preview_dispatches(config: ModelConfig) -> Seq<Dispatch<RaytracePass>> {
    seq![
        Dispatch { pass: RaytracePass::GenerateSamples, x: spec_div_ceil(config.batch_size as int, 64) as u32, y: 1, z: 1 },
        Dispatch { pass: RaytracePass::Raytrace, x: spec_div_ceil(config.pixel_len as int, 8) as u32,
            y: spec_div_ceil(config.pixel_len as int, 8) as u32, z: config.batch_size },
    ]
}

/// The dispatches of the standalone image preview.
pub fn preview_dispatches(config: ModelConfig) -> (d: Vec<Dispatch<RaytracePass>>)
    ensures
        d@ == spec_preview_dispatches(config),
        d@.len() == 2,
        d@[0].pass == RaytracePass::GenerateSamples && d@[0].y == 1 && d@[0].z == 1,
        covers_exactly(d@[0].x as int, config.batch_size as int, 64),
        d@[1].pass == RaytracePass::Raytrace && d@[1].z == config.batch_size,
        covers_exactly(d@[1].x as int, config.pixel_len as int, 8),
        covers_exactly(d@[1].y as int, config.pixel_len as int, 8),
{
    let tiles = div_ceil_u32(config.pixel_len, 8);
    let d = vec![
        Dispatch { pass: RaytracePass::GenerateSamples, x: div_ceil_u32(config.batch_size, 64), y: 1, z: 1 },
        Dispatch { pass: RaytracePass::Raytrace, x: tiles, y: tiles, z: config.batch_size },
    ];
    proof {
        assert(d@ =~= spec_preview_dispatches(config));
        lemma_div_ceil_exact(config.batch_size as int, 64);
        lemma_div_ceil_exact(config.pixel_len as int, 8);
    }
    d
}

} // verus!
