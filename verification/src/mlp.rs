use vstd::prelude::*;

use crate::bytes::{words_encoded, words_to_bytes, FLOAT_BYTES};
use crate::dispatch::Dispatch;
use crate::math::{covers_exactly, div_ceil_u32, lemma_div_ceil_covers, lemma_div_ceil_exact, spec_div_ceil};
use crate::rng::{lcg_step, lemma_lcg_iter_add, spec_lcg_iter, spec_unit_draw, unit_draw};

verus! {

/// Shape of the three-layer regressor: `input_size` inputs, two hidden
/// layers and one output, trained on batches of `batch_size` samples.
/// `learning_rate_bits` holds the IEEE-754 bits of the `f32` learning rate.
#[derive(Clone, Copy)]
pub struct NeuralNetworkConfig {
    pub input_size: u32,
    pub hidden1_size: u32,
    pub hidden2_size: u32,
    pub batch_size: u32,
    pub learning_rate_bits: u32,
}

impl NeuralNetworkConfig {
    /// Parameters of layer 1: a weight per (hidden unit, input) and a bias per hidden unit.
    pub open spec fn spec_weight1_len(self) -> int {
        self.hidden1_size as int * self.input_size as int + self.hidden1_size as int
    }

    /// Parameters of layer 2.
    pub open spec fn spec_weight2_len(self) -> int {
        self.hidden2_size as int * self.hidden1_size as int + self.hidden2_size as int
    }

    /// Parameters of layer 3: a weight per second-layer unit and one bias.
    pub open spec fn spec_weight3_len(self) -> int {
        self.hidden2_size as int + 1
    }

    /// The layer sizes fit the `u32` arithmetic of the parameter counts.
    pub open spec fn lens_fit(self) -> bool {
        &&& self.spec_weight1_len() <= u32::MAX
        &&& self.spec_weight2_len() <= u32::MAX
        &&& self.spec_weight3_len() <= u32::MAX
    }

    /// Bytes of one batch of targets or predictions.
    pub fn batch_bytes(self) -> (bytes: u64)
        ensures
            bytes == self.batch_size as int * FLOAT_BYTES,
    {
        self.batch_size as u64 * FLOAT_BYTES
    }

    /// Bytes of one batch of inputs.
    pub fn input_bytes(self) -> (bytes: u64)
        requires
            self.batch_size as int * self.input_size as int * FLOAT_BYTES <= u64::MAX,
        ensures
            bytes == self.batch_size as int * self.input_size as int * FLOAT_BYTES,
    {
        proof {
            assert(self.batch_size as int * self.input_size as int <= u64::MAX) by (nonlinear_arith)
                requires
                    self.batch_size as int * self.input_size as int * 4 <= u64::MAX,
            ;
        }
        self.batch_size as u64 * self.input_size as u64 * FLOAT_BYTES
    }

    /// Bytes of one batch of first hidden-layer activations.
    pub fn hidden1_bytes(self) -> (bytes: u64)
        requires
            self.batch_size as int * self.hidden1_size as int * FLOAT_BYTES <= u64::MAX,
        ensures
            bytes == self.batch_size as int * self.hidden1_size as int * FLOAT_BYTES,
    {
        proof {
            assert(self.batch_size as int * self.hidden1_size as int <= u64::MAX) by (nonlinear_arith)
                requires
                    self.batch_size as int * self.hidden1_size as int * 4 <= u64::MAX,
            ;
        }
        self.batch_size as u64 * self.hidden1_size as u64 * FLOAT_BYTES
    }

    /// Bytes of one batch of second hidden-layer activations.
    pub fn hidden2_bytes(self) -> (bytes: u64)
        requires
            self.batch_size as int * self.hidden2_size as int * FLOAT_BYTES <= u64::MAX,
        ensures
            bytes == self.batch_size as int * self.hidden2_size as int * FLOAT_BYTES,
    {
        proof {
            assert(self.batch_size as int * self.hidden2_size as int <= u64::MAX) by (nonlinear_arith)
                requires
                    self.batch_size as int * self.hidden2_size as int * 4 <= u64::MAX,
            ;
        }
        self.batch_size as u64 * self.hidden2_size as u64 * FLOAT_BYTES
    }

    /// Number of layer-1 parameters.
    pub fn weight1_len(self) -> (len: usize)
        requires
            self.spec_weight1_len() <= u32::MAX,
        ensures
            len == self.spec_weight1_len(),
    {
        proof {
            assert(self.hidden1_size as int * self.input_size as int >= 0) by (nonlinear_arith);
        }
        (self.hidden1_size * self.input_size + self.hidden1_size) as usize
    }

    /// Number of layer-2 parameters.
    pub fn weight2_len(self) -> (len: usize)
        requires
            self.spec_weight2_len() <= u32::MAX,
        ensures
            len == self.spec_weight2_len(),
    {
        proof {
            assert(self.hidden2_size as int * self.hidden1_size as int >= 0) by (nonlinear_arith);
        }
        (self.hidden2_size * self.hidden1_size + self.hidden2_size) as usize
    }

    /// Number of layer-3 parameters.
    pub fn weight3_len(self) -> (len: usize)
        requires
            self.spec_weight3_len() <= u32::MAX,
        ensures
            len == self.spec_weight3_len(),
    {
        (self.hidden2_size + 1) as usize
    }

    /// Bytes of the layer-1 parameters.
    pub fn weight1_bytes(self) -> (bytes: u64)
        requires
            self.spec_weight1_len() <= u32::MAX,
        ensures
            bytes == self.spec_weight1_len() * FLOAT_BYTES,
    {
        self.weight1_len() as u64 * FLOAT_BYTES
    }

    /// Bytes of the layer-2 parameters.
    pub fn weight2_bytes(self) -> (bytes: u64)
        requires
            self.spec_weight2_len() <= u32::MAX,
        ensures
            bytes == self.spec_weight2_len() * FLOAT_BYTES,
    {
        self.weight2_len() as u64 * FLOAT_BYTES
    }

    /// Bytes of the layer-3 parameters.
    pub fn weight3_bytes(self) -> (bytes: u64)
        requires
            self.spec_weight3_len() <= u32::MAX,
        ensures
            bytes == self.spec_weight3_len() * FLOAT_BYTES,
    {
        self.weight3_len() as u64 * FLOAT_BYTES
    }
}

/// One training batch: `batch_size` samples of `input_size` values each in
/// `inputs`, row by row, and one target per sample in `targets`.
pub struct MiniBatch<'a, T> {
    pub inputs: &'a [T],
    pub targets: &'a [T],
    pub batch_size: u32,
}

/// The parameters of the three layers, each layer's weights followed by its biases.
pub struct ModelWeights<T> {
    pub weights1: Vec<T>,
    pub weights2: Vec<T>,
    pub weights3: Vec<T>,
}

/// Why a batch or a set of weights does not fit the network's shape.
#[allow(inconsistent_fields)]
#[derive(Debug, Clone, Copy, PartialEq, Eq)]
pub enum ShapeError {
    /// The batch holds `actual` samples where the network expects `expected`.
    BatchSize { actual: u32, expected: u32 },
    /// The inputs hold `actual` values where `expected` are needed.
    InputLength { actual: usize, expected: usize },
    /// The targets hold `actual` values where the batch has `expected` samples.
    TargetLength { actual: usize, expected: u32 },
    /// Layer `layer` (1, 2 or 3) has `actual` parameters where `expected` are needed.
    WeightLength { layer: u32, actual: usize, expected: usize },
}

/// The error, if any, that checking `input_len` inputs of a batch of
/// `batch_size` samples against `config` reports.
pub open spec fn spec_input_shape(config: NeuralNetworkConfig, input_len: int, batch_size: u32) -> Option<ShapeError> {
    if batch_size != config.batch_size {
        Some(ShapeError::BatchSize { actual: batch_size, expected: config.batch_size })
    } else if input_len != config.input_size as int * batch_size as int {
        Some(
            ShapeError::InputLength {
                actual: input_len as usize,
                expected: (config.input_size as int * batch_size as int) as usize,
            },
        )
    } else {
        None
    }
}

/// The error, if any, that checking a batch against `config` reports.
pub open spec fn spec_batch_shape(config: NeuralNetworkConfig, input_len: int, target_len: int, batch_size: u32) -> Option<ShapeError> {
    match spec_input_shape(config, input_len, batch_size) {
        Some(e) => Some(e),
        None => if target_len != batch_size as int {
            Some(ShapeError::TargetLength { actual: target_len as usize, expected: batch_size })
        } else {
            None
        },
    }
}

/// Checks that `inputs` holds `batch_size` samples of the network's input size.
pub fn validate_input_shape<T>(config: NeuralNetworkConfig, inputs: &[T], batch_size: u32) -> (r: Result<(), ShapeError>)
    requires
        batch_size == config.batch_size ==> config.input_size as int * batch_size as int <= usize::MAX,
    ensures
        r is Ok <==> spec_input_shape(config, inputs@.len() as int, batch_size) is None,
        r matches Err(e) ==> spec_input_shape(config, inputs@.len() as int, batch_size) == Some(e),
        r is Ok <==> batch_size == config.batch_size && inputs@.len() == config.input_size as int * batch_size as int,
        batch_size != config.batch_size ==> r == Err::<(), ShapeError>(
            ShapeError::BatchSize { actual: batch_size, expected: config.batch_size },
        ),
        batch_size == config.batch_size && inputs@.len() != config.input_size as int * batch_size as int ==> r
            == Err::<(), ShapeError>(
            ShapeError::InputLength {
                actual: inputs@.len() as usize,
                expected: (config.input_size as int * batch_size as int) as usize,
            },
        ),
{
    if batch_size != config.batch_size {
        return Err(ShapeError::BatchSize { actual: batch_size, expected: config.batch_size });
    }
    let expected = config.input_size as usize * batch_size as usize;
    if inputs.len() != expected {
        return Err(ShapeError::InputLength { actual: inputs.len(), expected });
    }
    Ok(())
}

/// Checks that `batch` holds `config.batch_size` samples of the network's
/// input size and one target per sample.
pub fn validate_batch_shape<T>(config: NeuralNetworkConfig, batch: &MiniBatch<'_, T>) -> (r: Result<(), ShapeError>)
    requires
        batch.batch_size == config.batch_size ==> config.input_size as int * batch.batch_size as int <= usize::MAX,
    ensures
        r is Ok <==> spec_batch_shape(config, batch.inputs@.len() as int, batch.targets@.len() as int, batch.batch_size) is None,
        r matches Err(e) ==> spec_batch_shape(config, batch.inputs@.len() as int, batch.targets@.len() as int, batch.batch_size) == Some(e),
        r is Ok <==> batch.batch_size == config.batch_size
            && batch.inputs@.len() == config.input_size as int * batch.batch_size as int
            && batch.targets@.len() == batch.batch_size,
        batch.batch_size == config.batch_size
            && batch.inputs@.len() == config.input_size as int * batch.batch_size as int
            && batch.targets@.len() != batch.batch_size ==> r == Err::<(), ShapeError>(
            ShapeError::TargetLength { actual: batch.targets@.len() as usize, expected: batch.batch_size },
        ),
{
    match validate_input_shape(config, batch.inputs, batch.batch_size) {
        Err(e) => {
            return Err(e);
        },
        Ok(()) => {},
    }
    if batch.targets.len() != batch.batch_size as usize {
        return Err(ShapeError::TargetLength { actual: batch.targets.len(), expected: batch.batch_size });
    }
    Ok(())
}

/// The error, if any, that checking layer lengths against `config` reports.
pub open spec fn spec_weights_shape(config: NeuralNetworkConfig, len1: int, len2: int, len3: int) -> Option<ShapeError> {
    if len1 != config.spec_weight1_len() {
        Some(ShapeError::WeightLength { layer: 1, actual: len1 as usize, expected: config.spec_weight1_len() as usize })
    } else if len2 != config.spec_weight2_len() {
        Some(ShapeError::WeightLength { layer: 2, actual: len2 as usize, expected: config.spec_weight2_len() as usize })
    } else if len3 != config.spec_weight3_len() {
        Some(ShapeError::WeightLength { layer: 3, actual: len3 as usize, expected: config.spec_weight3_len() as usize })
    } else {
        None
    }
}

/// Checks that each layer of `weights` has the number of parameters that
/// `config` needs, layer by layer; a layer's count is computed only when the
/// layers before it matched.
pub fn validate_weights<T>(config: NeuralNetworkConfig, weights: &ModelWeights<T>) -> (r: Result<(), ShapeError>)
    requires
        config.spec_weight1_len() <= u32::MAX,
        weights.weights1@.len() == config.spec_weight1_len() ==> config.spec_weight2_len() <= u32::MAX,
        weights.weights1@.len() == config.spec_weight1_len() && weights.weights2@.len() == config.spec_weight2_len()
            ==> config.spec_weight3_len() <= u32::MAX,
    ensures
        r is Ok <==> spec_weights_shape(config, weights.weights1@.len() as int, weights.weights2@.len() as int, weights.weights3@.len() as int) is None,
        r matches Err(e) ==> spec_weights_shape(config, weights.weights1@.len() as int, weights.weights2@.len() as int, weights.weights3@.len() as int) == Some(e),
        r is Ok <==> {
            &&& weights.weights1@.len() == config.hidden1_size as int * config.input_size as int + config.hidden1_size as int
            &&& weights.weights2@.len() == config.hidden2_size as int * config.hidden1_size as int + config.hidden2_size as int
            &&& weights.weights3@.len() == config.hidden2_size as int + 1
        },
        weights.weights1@.len() != config.hidden1_size as int * config.input_size as int + config.hidden1_size as int ==> r
            == Err::<(), ShapeError>(ShapeError::WeightLength {
                layer: 1,
                actual: weights.weights1@.len() as usize,
                expected: (config.hidden1_size as int * config.input_size as int + config.hidden1_size as int) as usize,
            }),
        weights.weights1@.len() == config.hidden1_size as int * config.input_size as int + config.hidden1_size as int
            && weights.weights2@.len() != config.hidden2_size as int * config.hidden1_size as int + config.hidden2_size as int
            ==> r == Err::<(), ShapeError>(ShapeError::WeightLength {
                layer: 2,
                actual: weights.weights2@.len() as usize,
                expected: (config.hidden2_size as int * config.hidden1_size as int + config.hidden2_size as int) as usize,
            }),
        weights.weights1@.len() == config.hidden1_size as int * config.input_size as int + config.hidden1_size as int
            && weights.weights2@.len() == config.hidden2_size as int * config.hidden1_size as int + config.hidden2_size as int
            && weights.weights3@.len() != config.hidden2_size as int + 1 ==> r == Err::<(), ShapeError>(
            ShapeError::WeightLength {
                layer: 3,
                actual: weights.weights3@.len() as usize,
                expected: (config.hidden2_size as int + 1) as usize,
            },
        ),
{
    let len1 = config.weight1_len();
    if weights.weights1.len() != len1 {
        return Err(ShapeError::WeightLength { layer: 1, actual: weights.weights1.len(), expected: len1 });
    }
    let len2 = config.weight2_len();
    if weights.weights2.len() != len2 {
        return Err(ShapeError::WeightLength { layer: 2, actual: weights.weights2.len(), expected: len2 });
    }
    let len3 = config.weight3_len();
    if weights.weights3.len() != len3 {
        return Err(ShapeError::WeightLength { layer: 3, actual: weights.weights3.len(), expected: len3 });
    }
    Ok(())
}

/// A batch passes the input check exactly when it has the network's batch
/// size and `input_size` values per sample, no more and no fewer.
pub proof fn lemma_input_shape_exact(config: NeuralNetworkConfig, input_len: int, target_len: int, batch_size: u32)
    ensures
        spec_input_shape(config, input_len, batch_size) is None <==> batch_size == config.batch_size
            && input_len == config.input_size as int * batch_size as int,
        spec_batch_shape(config, input_len, target_len, batch_size) is None <==> batch_size == config.batch_size
            && input_len == config.input_size as int * batch_size as int && target_len == batch_size as int,
{
}

/// Weights pass the shape check exactly when every layer has its exact
/// parameter count: `hidden1 * input + hidden1`, `hidden2 * hidden1 +
/// hidden2` and `hidden2 + 1`.
pub proof fn lemma_weights_shape_exact(config: NeuralNetworkConfig, len1: int, len2: int, len3: int)
    ensures
        spec_weights_shape(config, len1, len2, len3) is None <==> {
            &&& len1 == config.hidden1_size as int * config.input_size as int + config.hidden1_size as int
            &&& len2 == config.hidden2_size as int * config.hidden1_size as int + config.hidden2_size as int
            &&& len3 == config.hidden2_size as int + 1
        },
{
}

/// The draws of one layer: its first `random` parameters take the 24-bit
/// draws of generator steps `first + 1`, `first + 2`, ... from `seed`; the
/// remaining parameters (the biases) take none and start at zero.
pub open spec fn spec_layer_draws(seed: u32, first: nat, random: nat, len: nat) -> Seq<Option<u32>> {
    Seq::new(len, |i: int| if i < random { Some(spec_unit_draw(spec_lcg_iter(seed, (first + i + 1) as nat))) } else { None })
}

/// Number of randomly drawn parameters of layers 1, 2 and 3.
pub open spec fn spec_random1(config: NeuralNetworkConfig) -> nat {
    (config.input_size as int * config.hidden1_size as int) as nat
}

pub open spec fn spec_random2(config: NeuralNetworkConfig) -> nat {
    (config.hidden1_size as int * config.hidden2_size as int) as nat
}

pub open spec fn spec_random3(config: NeuralNetworkConfig) -> nat {
    config.hidden2_size as nat
}

/// The layer sizes fit the `usize` arithmetic of the weight initialiser.
pub open spec fn draws_fit(config: NeuralNetworkConfig) -> bool {
    &&& spec_random1(config) + config.hidden1_size <= usize::MAX
    &&& spec_random2(config) + config.hidden2_size <= usize::MAX
    &&& config.hidden2_size + 1 <= usize::MAX
}

/// Fills one layer: `random` draws continuing from `*seed`, then zeros up to `len`.
fn layer_draws(seed: &mut u32, random: usize, len: usize) -> (layer: Vec<Option<u32>>)
    requires
        random <= len,
    ensures
        layer@ == spec_layer_draws(*old(seed), 0, random as nat, len as nat),
        *final(seed) == spec_lcg_iter(*old(seed), random as nat),
{
    let ghost start = *seed;
    let mut layer: Vec<Option<u32>> = Vec::with_capacity(len);
    let mut i: usize = 0;
    while i < len
        invariant
            random <= len,
            i <= len,
            layer@ == spec_layer_draws(start, 0, random as nat, i as nat),
            *seed == spec_lcg_iter(start, if i < random { i as nat } else { random as nat }),
        decreases len - i,
    {
        if i < random {
            *seed = lcg_step(*seed);
            layer.push(Some(unit_draw(*seed)));
        } else {
            layer.push(None);
        }
        proof {
            assert(layer@ =~= spec_layer_draws(start, 0, random as nat, (i + 1) as nat));
        }
        i += 1;
    }
    proof {
        assert(layer@ =~= spec_layer_draws(start, 0, random as nat, len as nat));
    }
    layer
}

/// The 24-bit draws behind the initial weights of a fresh network seeded
/// with `seed`: each weight takes the next draw of one generator whose state
/// runs on from layer to layer, and each bias takes none (it starts at zero).
/// A draw `d` of a layer with limit `l` becomes the weight `-l + 2l * d / 2^24`.
pub fn initial_weight_draws(config: NeuralNetworkConfig, seed: u32) -> (w: ModelWeights<Option<u32>>)
    requires
        draws_fit(config),
    ensures
        w.weights1@ == spec_layer_draws(seed, 0, spec_random1(config),
            spec_random1(config) + config.hidden1_size as nat),
        w.weights2@ == spec_layer_draws(seed, spec_random1(config), spec_random2(config),
            spec_random2(config) + config.hidden2_size as nat),
        w.weights3@ == spec_layer_draws(seed, spec_random1(config) + spec_random2(config),
            spec_random3(config), spec_random3(config) + 1),
{
    let input = config.input_size as usize;
    let hidden1 = config.hidden1_size as usize;
    let hidden2 = config.hidden2_size as usize;
    proof {
        assert(input as int * hidden1 as int >= 0) by (nonlinear_arith);
        assert(hidden1 as int * hidden2 as int >= 0) by (nonlinear_arith);
    }
    let random1 = input * hidden1;
    let random2 = hidden1 * hidden2;
    let mut state = seed;
    let weights1 = layer_draws(&mut state, random1, random1 + hidden1);
    let ghost s1 = state;
    let weights2 = layer_draws(&mut state, random2, random2 + hidden2);
    let ghost s2 = state;
    let weights3 = layer_draws(&mut state, hidden2, hidden2 + 1);
    proof {
        lemma_lcg_iter_add(seed, random1 as nat, random2 as nat);
        let expected2 = spec_layer_draws(seed, random1 as nat, random2 as nat, (random2 + hidden2) as nat);
        assert forall|i: int| 0 <= i < weights2@.len() implies #[trigger] weights2@[i] == expected2[i] by {
            lemma_lcg_iter_add(seed, random1 as nat, (i + 1) as nat);
        }
        assert(weights2@ =~= expected2);
        let expected3 = spec_layer_draws(seed, (random1 + random2) as nat, hidden2 as nat, (hidden2 + 1) as nat);
        assert forall|i: int| 0 <= i < weights3@.len() implies #[trigger] weights3@[i] == expected3[i] by {
            lemma_lcg_iter_add(seed, (random1 + random2) as nat, (i + 1) as nat);
        }
        assert(weights3@ =~= expected3);
    }
    ModelWeights { weights1, weights2, weights3 }
}

/// The uniform block of the forward stage's shaders.
#[derive(Clone, Copy)]
pub struct ForwardStageConstants {
    pub input_size: u32,
    pub hidden1_size: u32,
    pub hidden2_size: u32,
    pub batch_size: u32,
}

impl From<NeuralNetworkConfig> for ForwardStageConstants {
    fn from(config: NeuralNetworkConfig) -> (c: Self) {
        ForwardStageConstants {
            input_size: config.input_size,
            hidden1_size: config.hidden1_size,
            hidden2_size: config.hidden2_size,
            batch_size: config.batch_size,
        }
    }
}

impl vstd::std_specs::convert::FromSpecImpl<NeuralNetworkConfig> for ForwardStageConstants {
    open spec fn obeys_from_spec() -> bool {
        true
    }

    open spec fn from_spec(config: NeuralNetworkConfig) -> Self {
        ForwardStageConstants {
            input_size: config.input_size,
            hidden1_size: config.hidden1_size,
            hidden2_size: config.hidden2_size,
            batch_size: config.batch_size,
        }
    }
}

impl ForwardStageConstants {
    /// The block's 32-bit words in declaration order.
    pub fn words(&self) -> (w: Vec<u32>)
        ensures
            w@ == seq![self.input_size, self.hidden1_size, self.hidden2_size, self.batch_size],
    {
        vec![self.input_size, self.hidden1_size, self.hidden2_size, self.batch_size]
    }

    /// The block's bytes as the uniform buffer holds them: its words in turn,
    /// each in the machine's byte order.
    pub fn to_bytes(&self) -> (b: Vec<u8>)
        ensures
            b@.len() == 16,
            exists|le: bool| words_encoded(b@, seq![self.input_size, self.hidden1_size, self.hidden2_size, self.batch_size], le),
    {
        words_to_bytes(&self.words())
    }
}

/// The uniform block of the backward stage's shaders: the layer sizes, the
/// batch size, the bits of the `f32` learning rate and three padding words.
#[derive(Clone, Copy)]
pub struct BackwardStageConstants {
    pub input_size: u32,
    pub hidden1_size: u32,
    pub hidden2_size: u32,
    pub batch_size: u32,
    pub rate_bits: u32,
}

impl From<NeuralNetworkConfig> for BackwardStageConstants {
    fn from(config: NeuralNetworkConfig) -> (c: Self) {
        BackwardStageConstants {
            input_size: config.input_size,
            hidden1_size: config.hidden1_size,
            hidden2_size: config.hidden2_size,
            batch_size: config.batch_size,
            rate_bits: config.learning_rate_bits,
        }
    }
}

impl vstd::std_specs::convert::FromSpecImpl<NeuralNetworkConfig> for BackwardStageConstants {
    open spec fn obeys_from_spec() -> bool {
        true
    }

    open spec fn from_spec(config: NeuralNetworkConfig) -> Self {
        BackwardStageConstants {
            input_size: config.input_size,
            hidden1_size: config.hidden1_size,
            hidden2_size: config.hidden2_size,
            batch_size: config.batch_size,
            rate_bits: config.learning_rate_bits,
        }
    }
}

impl BackwardStageConstants {
    /// The block's 32-bit words: the five fields, then three zero padding words.
    pub fn words(&self) -> (w: Vec<u32>)
        ensures
            w@ == seq![self.input_size, self.hidden1_size, self.hidden2_size, self.batch_size,
                self.rate_bits, 0u32, 0u32, 0u32],
    {
        vec![self.input_size, self.hidden1_size, self.hidden2_size, self.batch_size, self.rate_bits, 0, 0, 0]
    }

    /// The block's bytes as the uniform buffer holds them: its words in turn,
    /// each in the machine's byte order.
    pub fn to_bytes(&self) -> (b: Vec<u8>)
        ensures
            b@.len() == 32,
            exists|le: bool| words_encoded(b@, seq![self.input_size, self.hidden1_size, self.hidden2_size, self.batch_size,
                self.rate_bits, 0u32, 0u32, 0u32], le),
    {
        words_to_bytes(&self.words())
    }
}

/// The pipelines of the forward stage.
#[derive(Clone, Copy, Debug, PartialEq, Eq)]
pub enum ForwardPass {
    Hidden1,
    Hidden2,
    Output,
}

/// The pipelines of the backward stage.
#[derive(Clone, Copy, Debug, PartialEq, Eq)]
pub enum BackwardPass {
    ComputeLoss,
    Hidden2,
    Hidden1,
    Update1,
    Update2,
    Update3,
}

/// The dispatches that encode the forward pass, in order: the hidden layers
/// in 8 x 8 tiles of (unit, sample), the output in groups of 64 samples.
pub open spec fn spec_forward_dispatches(config: NeuralNetworkConfig) -> Seq<Dispatch<ForwardPass>> {
    seq![
        Dispatch { pass: ForwardPass::Hidden1, x: spec_div_ceil(config.hidden1_size as int, 8) as u32,
            y: spec_div_ceil(config.batch_size as int, 8) as u32, z: 1 },
        Dispatch { pass: ForwardPass::Hidden2, x: spec_div_ceil(config.hidden2_size as int, 8) as u32,
            y: spec_div_ceil(config.batch_size as int, 8) as u32, z: 1 },
        Dispatch { pass: ForwardPass::Output, x: spec_div_ceil(config.batch_size as int, 64) as u32, y: 1, z: 1 },
    ]
}

/// The forward dispatches reach every (unit, sample) pair of each hidden
/// layer in 8 x 8 tiles and every sample's prediction in groups of 64, with
/// no workgroup wholly idle, in the order hidden 1, hidden 2, output.
pub open spec fn forward_plan_covers(config: NeuralNetworkConfig, d: Seq<Dispatch<ForwardPass>>) -> bool {
    &&& d.len() == 3
    &&& d[0].pass == ForwardPass::Hidden1 && d[0].z == 1
    &&& covers_exactly(d[0].x as int, config.hidden1_size as int, 8)
    &&& covers_exactly(d[0].y as int, config.batch_size as int, 8)
    &&& d[1].pass == ForwardPass::Hidden2 && d[1].z == 1
    &&& covers_exactly(d[1].x as int, config.hidden2_size as int, 8)
    &&& covers_exactly(d[1].y as int, config.batch_size as int, 8)
    &&& d[2].pass == ForwardPass::Output && d[2].y == 1 && d[2].z == 1
    &&& covers_exactly(d[2].x as int, config.batch_size as int, 64)
}

/// The forward pass reaches every hidden unit of every sample and every
/// sample's prediction, one workgroup per tile and none to spare.
pub proof fn lemma_forward_dispatches_cover(config: NeuralNetworkConfig)
    ensures
        forward_plan_covers(config, spec_forward_dispatches(config)),
{
    lemma_div_ceil_exact(config.hidden1_size as int, 8);
    lemma_div_ceil_exact(config.hidden2_size as int, 8);
    lemma_div_ceil_exact(config.batch_size as int, 8);
    lemma_div_ceil_exact(config.batch_size as int, 64);
}

/// The dispatches of `ForwardStage::encode`.
pub fn forward_dispatches(config: NeuralNetworkConfig) -> (d: Vec<Dispatch<ForwardPass>>)
    ensures
        d@ == spec_forward_dispatches(config),
        forward_plan_covers(config, d@),
{
    let batch_tiles = div_ceil_u32(config.batch_size, 8);
    let d = vec![
        Dispatch { pass: ForwardPass::Hidden1, x: div_ceil_u32(config.hidden1_size, 8), y: batch_tiles, z: 1 },
        Dispatch { pass: ForwardPass::Hidden2, x: div_ceil_u32(config.hidden2_size, 8), y: batch_tiles, z: 1 },
        Dispatch { pass: ForwardPass::Output, x: div_ceil_u32(config.batch_size, 64), y: 1, z: 1 },
    ];
    proof {
        assert(d@ =~= spec_forward_dispatches(config));
        lemma_forward_dispatches_cover(config);
    }
    d
}

/// The dispatches that encode the backward pass, in order: the loss (only
/// when asked for), the deltas of the second and first hidden layers in
/// 8 x 8 tiles, then one update per layer in groups of 64 parameters.
pub open spec fn spec_backward_dispatches(config: NeuralNetworkConfig, compute_loss: bool) -> Seq<Dispatch<BackwardPass>> {
    let loss: Seq<Dispatch<BackwardPass>> = if compute_loss {
        seq![Dispatch { pass: BackwardPass::ComputeLoss, x: 1, y: 1, z: 1 }]
    } else {
        Seq::empty()
    };
    loss + seq![
        Dispatch { pass: BackwardPass::Hidden2, x: spec_div_ceil(config.hidden2_size as int, 8) as u32,
            y: spec_div_ceil(config.batch_size as int, 8) as u32, z: 1 },
        Dispatch { pass: BackwardPass::Hidden1, x: spec_div_ceil(config.hidden1_size as int, 8) as u32,
            y: spec_div_ceil(config.batch_size as int, 8) as u32, z: 1 },
        Dispatch { pass: BackwardPass::Update1, x: spec_div_ceil(config.spec_weight1_len(), 64) as u32, y: 1, z: 1 },
        Dispatch { pass: BackwardPass::Update2, x: spec_div_ceil(config.spec_weight2_len(), 64) as u32, y: 1, z: 1 },
        Dispatch { pass: BackwardPass::Update3, x: spec_div_ceil(config.spec_weight3_len(), 64) as u32, y: 1, z: 1 },
    ]
}

/// The dispatches of `BackwardStage::encode`.
pub fn backward_dispatches(config: NeuralNetworkConfig, compute_loss: bool) -> (d: Vec<Dispatch<BackwardPass>>)
    requires
        config.lens_fit(),
    ensures
        d@ == spec_backward_dispatches(config, compute_loss),
{
    let mut d: Vec<Dispatch<BackwardPass>> = Vec::new();
    if compute_loss {
        d.push(Dispatch { pass: BackwardPass::ComputeLoss, x: 1, y: 1, z: 1 });
    }
    let batch_tiles = div_ceil_u32(config.batch_size, 8);
    d.push(Dispatch { pass: BackwardPass::Hidden2, x: div_ceil_u32(config.hidden2_size, 8), y: batch_tiles, z: 1 });
    d.push(Dispatch { pass: BackwardPass::Hidden1, x: div_ceil_u32(config.hidden1_size, 8), y: batch_tiles, z: 1 });
    proof {
        assert(config.hidden1_size as int * config.input_size as int >= 0) by (nonlinear_arith);
        assert(config.hidden2_size as int * config.hidden1_size as int >= 0) by (nonlinear_arith);
    }
    let layer1_parameters = config.hidden1_size * config.input_size + config.hidden1_size;
    let layer2_parameters = config.hidden2_size * config.hidden1_size + config.hidden2_size;
    let layer3_parameters = config.hidden2_size + 1;
    d.push(Dispatch { pass: BackwardPass::Update1, x: div_ceil_u32(layer1_parameters, 64), y: 1, z: 1 });
    d.push(Dispatch { pass: BackwardPass::Update2, x: div_ceil_u32(layer2_parameters, 64), y: 1, z: 1 });
    d.push(Dispatch { pass: BackwardPass::Update3, x: div_ceil_u32(layer3_parameters, 64), y: 1, z: 1 });
    proof {
        assert(d@ =~= spec_backward_dispatches(config, compute_loss));
    }
    d
}

/// Asking for the loss only puts its single-workgroup dispatch in front:
/// the rest of the backward pass is dispatched the same way, in the same
/// order, and the loss pipeline runs exactly when it is asked for.
pub proof fn lemma_loss_dispatch_first(config: NeuralNetworkConfig, compute_loss: bool)
    ensures
        spec_backward_dispatches(config, true) == seq![Dispatch { pass: BackwardPass::ComputeLoss, x: 1u32, y: 1u32, z: 1u32 }]
            + spec_backward_dispatches(config, false),
        (exists|k: int| 0 <= k < spec_backward_dispatches(config, compute_loss).len()
            && #[trigger] spec_backward_dispatches(config, compute_loss)[k].pass == BackwardPass::ComputeLoss) <==> compute_loss,
{
    let with_loss = spec_backward_dispatches(config, true);
    let without = spec_backward_dispatches(config, false);
    assert(with_loss =~= seq![Dispatch { pass: BackwardPass::ComputeLoss, x: 1u32, y: 1u32, z: 1u32 }] + without);
    let d = spec_backward_dispatches(config, compute_loss);
    if compute_loss {
        assert(d[0].pass == BackwardPass::ComputeLoss);
    } else {
        assert forall|k: int| 0 <= k < d.len() implies #[trigger] d[k].pass != BackwardPass::ComputeLoss by {
            assert(d[k] == without[k]);
        }
    }
}

/// A freshly initialised network's weights always have the number of
/// parameters per layer that its configuration needs, so building the
/// regressor from them never fails.
pub proof fn lemma_initial_weights_fit(config: NeuralNetworkConfig, seed: u32)
    ensures
        spec_weights_shape(
            config,
            spec_layer_draws(seed, 0, spec_random1(config), spec_random1(config) + config.hidden1_size as nat).len() as int,
            spec_layer_draws(seed, spec_random1(config), spec_random2(config),
                spec_random2(config) + config.hidden2_size as nat).len() as int,
            spec_layer_draws(seed, spec_random1(config) + spec_random2(config), spec_random3(config),
                spec_random3(config) + 1).len() as int,
        ) is None,
{
    assert(config.input_size as int * config.hidden1_size as int == config.hidden1_size as int
        * config.input_size as int) by (nonlinear_arith);
    assert(config.hidden1_size as int * config.hidden2_size as int == config.hidden2_size as int
        * config.hidden1_size as int) by (nonlinear_arith);
    assert(config.input_size as int * config.hidden1_size as int >= 0) by (nonlinear_arith);
    assert(config.hidden1_size as int * config.hidden2_size as int >= 0) by (nonlinear_arith);
}

/// The storage buffers that the forward stage binds, by binding number.
#[derive(Clone, Copy, Debug, PartialEq, Eq)]
pub enum ForwardBuffer {
    Images,
    Weights1,
    Hidden1,
    Weights2,
    Hidden2,
    Weights3,
    Predicts,
}

impl ForwardBuffer {
    /// The binding number of the buffer in the forward shader.
    pub open spec fn spec_binding(self) -> u32 {
        match self {
            ForwardBuffer::Images => 0,
            ForwardBuffer::Weights1 => 1,
            ForwardBuffer::Hidden1 => 2,
            ForwardBuffer::Weights2 => 3,
            ForwardBuffer::Hidden2 => 4,
            ForwardBuffer::Weights3 => 5,
            ForwardBuffer::Predicts => 6,
        }
    }

    /// The binding number of the buffer in the forward shader.
    pub fn binding(self) -> (b: u32)
        ensures
            b == self.spec_binding(),
    {
        match self {
            ForwardBuffer::Images => 0,
            ForwardBuffer::Weights1 => 1,
            ForwardBuffer::Hidden1 => 2,
            ForwardBuffer::Weights2 => 3,
            ForwardBuffer::Hidden2 => 4,
            ForwardBuffer::Weights3 => 5,
            ForwardBuffer::Predicts => 6,
        }
    }
}

/// The buffers each forward pipeline binds, in order, with whether it only reads them.
pub open spec fn spec_forward_layout(pass: ForwardPass) -> Seq<(ForwardBuffer, bool)> {
    match pass {
        ForwardPass::Hidden1 => seq![(ForwardBuffer::Images, true), (ForwardBuffer::Weights1, true), (ForwardBuffer::Hidden1, false)],
        ForwardPass::Hidden2 => seq![(ForwardBuffer::Hidden1, false), (ForwardBuffer::Weights2, true), (ForwardBuffer::Hidden2, false)],
        ForwardPass::Output => seq![(ForwardBuffer::Hidden2, false), (ForwardBuffer::Weights3, true), (ForwardBuffer::Predicts, false)],
    }
}

/// The binding table of the forward shader: for each entry point, the
/// binding numbers it declares, in order, and whether each is read-only.
pub open spec fn forward_shader_bindings(pass: ForwardPass) -> Seq<(u32, bool)> {
    match pass {
        ForwardPass::Hidden1 => seq![(0u32, true), (1u32, true), (2u32, false)],
        ForwardPass::Hidden2 => seq![(2u32, false), (3u32, true), (4u32, false)],
        ForwardPass::Output => seq![(4u32, false), (5u32, true), (6u32, false)],
    }
}

/// Every forward pipeline binds exactly the shader's bindings for its entry
/// point, and the layers form a chain: each pass reads its input (the
/// images, then the first and second hidden activations) and its own
/// layer's weights read-only, and writes the buffer that the next pass
/// reads, the last writing the predictions.
pub proof fn lemma_forward_layouts_match_shader(pass: ForwardPass)
    ensures
        spec_forward_layout(pass).map_values(|e: (ForwardBuffer, bool)| (e.0.spec_binding(), e.1))
            == forward_shader_bindings(pass),
        spec_forward_layout(ForwardPass::Hidden1)[0].0 == ForwardBuffer::Images,
        spec_forward_layout(ForwardPass::Hidden1)[1] == (ForwardBuffer::Weights1, true),
        spec_forward_layout(ForwardPass::Hidden2)[0].0 == spec_forward_layout(ForwardPass::Hidden1)[2].0,
        spec_forward_layout(ForwardPass::Hidden2)[1] == (ForwardBuffer::Weights2, true),
        spec_forward_layout(ForwardPass::Output)[0].0 == spec_forward_layout(ForwardPass::Hidden2)[2].0,
        spec_forward_layout(ForwardPass::Output)[1] == (ForwardBuffer::Weights3, true),
        spec_forward_layout(ForwardPass::Output)[2] == (ForwardBuffer::Predicts, false),
        spec_forward_layout(ForwardPass::Hidden1)[2] == (ForwardBuffer::Hidden1, false),
        spec_forward_layout(ForwardPass::Hidden2)[2] == (ForwardBuffer::Hidden2, false),
{
    assert(spec_forward_layout(pass).map_values(|e: (ForwardBuffer, bool)| (e.0.spec_binding(), e.1))
        =~= forward_shader_bindings(pass));
}

/// The data layout (and bind group) of a forward pipeline.
pub fn forward_layout(pass: ForwardPass) -> (layout: Vec<(ForwardBuffer, bool)>)
    ensures
        layout@ == spec_forward_layout(pass),
        layout@.map_values(|e: (ForwardBuffer, bool)| (e.0.spec_binding(), e.1)) == forward_shader_bindings(pass),
{
    let layout = match pass {
        ForwardPass::Hidden1 => vec![(ForwardBuffer::Images, true), (ForwardBuffer::Weights1, true), (ForwardBuffer::Hidden1, false)],
        ForwardPass::Hidden2 => vec![(ForwardBuffer::Hidden1, false), (ForwardBuffer::Weights2, true), (ForwardBuffer::Hidden2, false)],
        ForwardPass::Output => vec![(ForwardBuffer::Hidden2, false), (ForwardBuffer::Weights3, true), (ForwardBuffer::Predicts, false)],
    };
    proof {
        assert(layout@ =~= spec_forward_layout(pass));
        lemma_forward_layouts_match_shader(pass);
    }
    layout
}

/// The storage buffers that the backward stage binds, by binding number.
#[derive(Clone, Copy, Debug, PartialEq, Eq)]
pub enum BackwardBuffer {
    Images,
    Expects,
    Hidden1,
    Predicts,
    Weights1,
    Weights2,
    Hidden1Delta,
    Loss,
    Hidden2,
    Weights3,
    Hidden2Delta,
}

impl BackwardBuffer {
    /// The binding number of the buffer in the backward shader.
    pub open spec fn spec_binding(self) -> u32 {
        match self {
            BackwardBuffer::Images => 0,
            BackwardBuffer::Expects => 1,
            BackwardBuffer::Hidden1 => 2,
            BackwardBuffer::Predicts => 3,
            BackwardBuffer::Weights1 => 4,
            BackwardBuffer::Weights2 => 5,
            BackwardBuffer::Hidden1Delta => 6,
            BackwardBuffer::Loss => 7,
            BackwardBuffer::Hidden2 => 8,
            BackwardBuffer::Weights3 => 9,
            BackwardBuffer::Hidden2Delta => 10,
        }
    }

    /// The binding number of the buffer in the backward shader.
    pub fn binding(self) -> (b: u32)
        ensures
            b == self.spec_binding(),
    {
        match self {
            BackwardBuffer::Images => 0,
            BackwardBuffer::Expects => 1,
            BackwardBuffer::Hidden1 => 2,
            BackwardBuffer::Predicts => 3,
            BackwardBuffer::Weights1 => 4,
            BackwardBuffer::Weights2 => 5,
            BackwardBuffer::Hidden1Delta => 6,
            BackwardBuffer::Loss => 7,
            BackwardBuffer::Hidden2 => 8,
            BackwardBuffer::Weights3 => 9,
            BackwardBuffer::Hidden2Delta => 10,
        }
    }
}

/// The buffers each backward pipeline binds, in order, with whether it only reads them.
pub open spec fn spec_backward_layout(pass: BackwardPass) -> Seq<(BackwardBuffer, bool)> {
    match pass {
        BackwardPass::ComputeLoss => seq![(BackwardBuffer::Expects, true), (BackwardBuffer::Predicts, true), (BackwardBuffer::Loss, false)],
        BackwardPass::Hidden2 => seq![
            (BackwardBuffer::Expects, true),
            (BackwardBuffer::Hidden2, true),
            (BackwardBuffer::Predicts, true),
            (BackwardBuffer::Weights3, false),
            (BackwardBuffer::Hidden2Delta, false),
        ],
        BackwardPass::Hidden1 => seq![
            (BackwardBuffer::Hidden1, true),
            (BackwardBuffer::Weights2, false),
            (BackwardBuffer::Hidden2Delta, false),
            (BackwardBuffer::Hidden1Delta, false),
        ],
        BackwardPass::Update1 => seq![(BackwardBuffer::Images, true), (BackwardBuffer::Weights1, false), (BackwardBuffer::Hidden1Delta, false)],
        BackwardPass::Update2 => seq![(BackwardBuffer::Hidden1, true), (BackwardBuffer::Weights2, false), (BackwardBuffer::Hidden2Delta, false)],
        BackwardPass::Update3 => seq![
            (BackwardBuffer::Expects, true),
            (BackwardBuffer::Hidden2, true),
            (BackwardBuffer::Predicts, true),
            (BackwardBuffer::Weights3, false),
        ],
    }
}

/// The binding table of the backward shader: for each entry point, the
/// binding numbers it declares, in order, and whether each is read-only.
pub open spec fn backward_shader_bindings(pass: BackwardPass) -> Seq<(u32, bool)> {
    match pass {
        BackwardPass::ComputeLoss => seq![(1u32, true), (3u32, true), (7u32, false)],
        BackwardPass::Hidden2 => seq![(1u32, true), (8u32, true), (3u32, true), (9u32, false), (10u32, false)],
        BackwardPass::Hidden1 => seq![(2u32, true), (5u32, false), (10u32, false), (6u32, false)],
        BackwardPass::Update1 => seq![(0u32, true), (4u32, false), (6u32, false)],
        BackwardPass::Update2 => seq![(2u32, true), (5u32, false), (10u32, false)],
        BackwardPass::Update3 => seq![(1u32, true), (8u32, true), (3u32, true), (9u32, false)],
    }
}

/// A layout given by buffers, as the binding numbers the shader sees.
pub open spec fn layout_bindings(layout: Seq<(BackwardBuffer, bool)>) -> Seq<(u32, bool)> {
    layout.map_values(|e: (BackwardBuffer, bool)| (e.0.spec_binding(), e.1))
}

/// Every backward pipeline binds exactly the shader's bindings for its
/// entry point, and each weight update binds the error signal of the layer
/// it updates: the first layer's update reads the images and the first
/// hidden delta (not the second's), the second layer's update reads the
/// first hidden activations and the second hidden delta (not the first's),
/// and the output layer's update reads the targets, the predictions and the
/// second hidden activations; each writes only its own layer's weights.
pub proof fn lemma_backward_layouts_match_shader(pass: BackwardPass)
    ensures
        layout_bindings(spec_backward_layout(pass)) == backward_shader_bindings(pass),
        ({
            let u1 = spec_backward_layout(BackwardPass::Update1);
            &&& u1.contains((BackwardBuffer::Images, true))
            &&& u1.contains((BackwardBuffer::Weights1, false))
            &&& u1.contains((BackwardBuffer::Hidden1Delta, false))
            &&& !u1.contains((BackwardBuffer::Hidden2Delta, false))
            &&& !u1.contains((BackwardBuffer::Weights2, false)) && !u1.contains((BackwardBuffer::Weights3, false))
        }),
        ({
            let u2 = spec_backward_layout(BackwardPass::Update2);
            &&& u2.contains((BackwardBuffer::Hidden1, true))
            &&& u2.contains((BackwardBuffer::Weights2, false))
            &&& u2.contains((BackwardBuffer::Hidden2Delta, false))
            &&& !u2.contains((BackwardBuffer::Hidden1Delta, false))
            &&& !u2.contains((BackwardBuffer::Weights1, false)) && !u2.contains((BackwardBuffer::Weights3, false))
        }),
        ({
            let u3 = spec_backward_layout(BackwardPass::Update3);
            &&& u3.contains((BackwardBuffer::Expects, true))
            &&& u3.contains((BackwardBuffer::Predicts, true))
            &&& u3.contains((BackwardBuffer::Hidden2, true))
            &&& u3.contains((BackwardBuffer::Weights3, false))
            &&& !u3.contains((BackwardBuffer::Weights1, false)) && !u3.contains((BackwardBuffer::Weights2, false))
        }),
{
    assert(layout_bindings(spec_backward_layout(pass)) =~= backward_shader_bindings(pass));
    let u1 = spec_backward_layout(BackwardPass::Update1);
    let u2 = spec_backward_layout(BackwardPass::Update2);
    let u3 = spec_backward_layout(BackwardPass::Update3);
    assert(u1[0] == (BackwardBuffer::Images, true));
    assert(u1[1] == (BackwardBuffer::Weights1, false));
    assert(u1[2] == (BackwardBuffer::Hidden1Delta, false));
    assert(u2[0] == (BackwardBuffer::Hidden1, true));
    assert(u2[1] == (BackwardBuffer::Weights2, false));
    assert(u2[2] == (BackwardBuffer::Hidden2Delta, false));
    assert(u3[0] == (BackwardBuffer::Expects, true));
    assert(u3[1] == (BackwardBuffer::Hidden2, true));
    assert(u3[2] == (BackwardBuffer::Predicts, true));
    assert(u3[3] == (BackwardBuffer::Weights3, false));
}

/// The data layout (and bind group) of a backward pipeline.
pub fn backward_layout(pass: BackwardPass) -> (layout: Vec<(BackwardBuffer, bool)>)
    ensures
        layout@ == spec_backward_layout(pass),
        layout_bindings(layout@) == backward_shader_bindings(pass),
{
    let layout = match pass {
        BackwardPass::ComputeLoss => vec![(BackwardBuffer::Expects, true), (BackwardBuffer::Predicts, true), (BackwardBuffer::Loss, false)],
        BackwardPass::Hidden2 => vec![
            (BackwardBuffer::Expects, true),
            (BackwardBuffer::Hidden2, true),
            (BackwardBuffer::Predicts, true),
            (BackwardBuffer::Weights3, false),
            (BackwardBuffer::Hidden2Delta, false),
        ],
        BackwardPass::Hidden1 => vec![
            (BackwardBuffer::Hidden1, true),
            (BackwardBuffer::Weights2, false),
            (BackwardBuffer::Hidden2Delta, false),
            (BackwardBuffer::Hidden1Delta, false),
        ],
        BackwardPass::Update1 => vec![(BackwardBuffer::Images, true), (BackwardBuffer::Weights1, false), (BackwardBuffer::Hidden1Delta, false)],
        BackwardPass::Update2 => vec![(BackwardBuffer::Hidden1, true), (BackwardBuffer::Weights2, false), (BackwardBuffer::Hidden2Delta, false)],
        BackwardPass::Update3 => vec![
            (BackwardBuffer::Expects, true),
            (BackwardBuffer::Hidden2, true),
            (BackwardBuffer::Predicts, true),
            (BackwardBuffer::Weights3, false),
        ],
    };
    proof {
        assert(layout@ =~= spec_backward_layout(pass));
        lemma_backward_layouts_match_shader(pass);
    }
    layout
}

/// The backward pass reaches every parameter: each layer's update runs one
/// invocation (64 per workgroup) per weight and bias of that layer, and the
/// delta passes one per (unit, sample) in 8 x 8 tiles.
pub proof fn lemma_backward_dispatches_cover(config: NeuralNetworkConfig, compute_loss: bool)
    requires
        config.lens_fit(),
    ensures
        ({
            let d = spec_backward_dispatches(config, compute_loss);
            let k = if compute_loss { 1int } else { 0int };
            &&& d[k].x as int * 8 >= config.hidden2_size && d[k].y as int * 8 >= config.batch_size
            &&& d[k + 1].x as int * 8 >= config.hidden1_size && d[k + 1].y as int * 8 >= config.batch_size
            &&& d[k + 2].x as int * 64 >= config.spec_weight1_len()
            &&& d[k + 3].x as int * 64 >= config.spec_weight2_len()
            &&& d[k + 4].x as int * 64 >= config.spec_weight3_len()
        }),
        ({
            let d = spec_backward_dispatches(config, compute_loss);
            let k = if compute_loss { 1int } else { 0int };
            let b = config.batch_size as int;
            &&& d.len() == k + 5
            &&& d[k].pass == BackwardPass::Hidden2 && d[k].z == 1
            &&& covers_exactly(d[k].x as int, config.hidden2_size as int, 8) && covers_exactly(d[k].y as int, b, 8)
            &&& d[k + 1].pass == BackwardPass::Hidden1 && d[k + 1].z == 1
            &&& covers_exactly(d[k + 1].x as int, config.hidden1_size as int, 8) && covers_exactly(d[k + 1].y as int, b, 8)
            &&& d[k + 2].pass == BackwardPass::Update1 && d[k + 2].y == 1 && d[k + 2].z == 1
            &&& covers_exactly(d[k + 2].x as int,
                config.hidden1_size as int * config.input_size as int + config.hidden1_size as int, 64)
            &&& d[k + 3].pass == BackwardPass::Update2 && d[k + 3].y == 1 && d[k + 3].z == 1
            &&& covers_exactly(d[k + 3].x as int,
                config.hidden2_size as int * config.hidden1_size as int + config.hidden2_size as int, 64)
            &&& d[k + 4].pass == BackwardPass::Update3 && d[k + 4].y == 1 && d[k + 4].z == 1
            &&& covers_exactly(d[k + 4].x as int, config.hidden2_size as int + 1, 64)
        }),
{
    assert(config.hidden1_size as int * config.input_size as int >= 0) by (nonlinear_arith);
    assert(config.hidden2_size as int * config.hidden1_size as int >= 0) by (nonlinear_arith);
    lemma_div_ceil_exact(config.hidden2_size as int, 8);
    lemma_div_ceil_exact(config.hidden1_size as int, 8);
    lemma_div_ceil_exact(config.batch_size as int, 8);
    lemma_div_ceil_exact(config.spec_weight1_len(), 64);
    lemma_div_ceil_exact(config.spec_weight2_len(), 64);
    lemma_div_ceil_exact(config.spec_weight3_len(), 64);
    lemma_div_ceil_covers(config.hidden2_size as int, 8);
    lemma_div_ceil_covers(config.hidden1_size as int, 8);
    lemma_div_ceil_covers(config.batch_size as int, 8);
    lemma_div_ceil_covers(config.spec_weight1_len(), 64);
    lemma_div_ceil_covers(config.spec_weight2_len(), 64);
    lemma_div_ceil_covers(config.spec_weight3_len(), 64);
}

/// The buffer holds model parameters.
pub open spec fn is_weight_buffer(b: ForwardBuffer) -> bool {
    b is Weights1 || b is Weights2 || b is Weights3
}

/// A forward pipeline binds every parameter buffer it uses read-only.
pub open spec fn forward_pass_keeps_weights(pass: ForwardPass) -> bool {
    forall|i: int|
        0 <= i < spec_forward_layout(pass).len() && is_weight_buffer(#[trigger] spec_forward_layout(pass)[i].0)
            ==> spec_forward_layout(pass)[i].1
}

/// Prediction leaves the weights as they were: every pipeline that the
/// forward pass dispatches binds the parameter buffers read-only, so none of
/// its dispatches can write them.
pub proof fn lemma_forward_keeps_weights(config: NeuralNetworkConfig)
    ensures
        forall|k: int|
            0 <= k < spec_forward_dispatches(config).len() ==> forward_pass_keeps_weights(
                #[trigger] spec_forward_dispatches(config)[k].pass,
            ),
{
    assert forall|k: int| 0 <= k < spec_forward_dispatches(config).len() implies forward_pass_keeps_weights(
        #[trigger] spec_forward_dispatches(config)[k].pass,
    ) by {
        let pass = spec_forward_dispatches(config)[k].pass;
        assert forall|i: int|
            0 <= i < spec_forward_layout(pass).len() && is_weight_buffer(#[trigger] spec_forward_layout(pass)[i].0)
            implies spec_forward_layout(pass)[i].1 by {
        }
    }
}

} // verus!
