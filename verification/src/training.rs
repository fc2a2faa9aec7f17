use vstd::prelude::*;

use crate::bytes::{
    le_words_from_bytes, lemma_le_round_trip, spec_le_words, words_encoded, words_to_bytes, FLOAT_BYTES,
};

verus! {

/// Number of training steps between two loss reports.
pub const REPORT_INTERVAL: u32 = 500;

/// Odd multiplier that spreads the per-step generator seeds.
pub const SEED_STRIDE: u32 = 0x9e37_79b9;

/// The generator seed of training step `step`: `base + step * 0x9e3779b9`
/// modulo 2^32.
pub open spec fn spec_step_seed(base: u32, step: u32) -> u32 {
    ((base as int + step as int * SEED_STRIDE as int) % 0x1_0000_0000) as u32
}

/// The generator seed of training step `step`.
pub fn step_seed(base: u32, step: u32) -> (seed: u32)
    ensures
        seed == spec_step_seed(base, step),
{
    let spread = step.wrapping_mul(SEED_STRIDE);
    let seed = base.wrapping_add(spread);
    proof {
        let m = (step as int * SEED_STRIDE as int) % 0x1_0000_0000;
        assert(spread == m);
        assert((base as int + m) % 0x1_0000_0000 == (base as int + step as int * SEED_STRIDE as int) % 0x1_0000_0000)
            by {
            vstd::arithmetic::div_mod::lemma_add_mod_noop(base as int, step as int * SEED_STRIDE as int, 0x1_0000_0000);
            vstd::arithmetic::div_mod::lemma_small_mod(base as nat, 0x1_0000_0000nat);
            vstd::arithmetic::div_mod::lemma_mod_twice(step as int * SEED_STRIDE as int, 0x1_0000_0000);
        }
    }
    seed
}

/// Training step `step` reports its loss: the first step and every
/// `REPORT_INTERVAL`-th one after it.
pub fn should_report(step: u32) -> (report: bool)
    requires
        step < u32::MAX,
    ensures
        report == (step == 0 || (step as int + 1) % REPORT_INTERVAL as int == 0),
{
    step == 0 || (step + 1) % REPORT_INTERVAL == 0
}

/// Why a saved weight file does not fit the model.
#[derive(Debug, Clone, Copy, PartialEq, Eq)]
pub enum WeightFileError {
    /// The file holds `actual` bytes where `expected` are needed.
    Size { actual: usize, expected: usize },
}

/// Checks that a weight file of `byte_len` bytes holds exactly
/// `expected_len` `f32` values.
pub fn check_weight_file(byte_len: usize, expected_len: usize) -> (r: Result<(), WeightFileError>)
    requires
        expected_len * FLOAT_BYTES <= usize::MAX,
    ensures
        r is Ok <==> byte_len == expected_len * FLOAT_BYTES,
        r matches Err(e) ==> e == (WeightFileError::Size { actual: byte_len, expected: (expected_len * FLOAT_BYTES) as usize }),
{
    let expected_size = expected_len * 4;
    if byte_len != expected_size {
        return Err(WeightFileError::Size { actual: byte_len, expected: expected_size });
    }
    Ok(())
}

/// The bytes of a weight file holding the `f32` values whose bits are
/// `words`: each value's four bytes in turn, in the machine's byte order.
pub fn weight_file_bytes(words: &Vec<u32>) -> (bytes: Vec<u8>)
    ensures
        exists|le: bool| words_encoded(bytes@, words@, le),
        bytes@.len() == 4 * words@.len(),
{
    words_to_bytes(words)
}

/// Reads a weight file of `expected_len` values: refused unless it holds
/// exactly `expected_len * 4` bytes, else its little-endian words (the bits
/// of its `f32` values).
pub fn decode_weight_file(bytes: &[u8], expected_len: usize) -> (r: Result<Vec<u32>, WeightFileError>)
    requires
        expected_len * FLOAT_BYTES <= usize::MAX,
    ensures
        r is Ok <==> bytes@.len() == expected_len * FLOAT_BYTES,
        r matches Ok(words) ==> words@ == spec_le_words(bytes@),
        r matches Err(e) ==> e == (WeightFileError::Size { actual: bytes@.len() as usize, expected: (expected_len * FLOAT_BYTES) as usize }),
{
    match check_weight_file(bytes.len(), expected_len) {
        Err(e) => Err(e),
        Ok(()) => {
            let words = le_words_from_bytes(bytes);
            proof {
                assert(words@ =~= spec_le_words(bytes@));
            }
            Ok(words)
        },
    }
}

/// A weight file written on a little-endian machine reads back the same
/// values, and only as a file of exactly that many values.
pub proof fn lemma_weight_file_round_trip(bytes: Seq<u8>, words: Seq<u32>, expected_len: int)
    requires
        words_encoded(bytes, words, true),
    ensures
        spec_le_words(bytes) == words,
        bytes.len() == expected_len * FLOAT_BYTES <==> expected_len == words.len(),
{
    lemma_le_round_trip(bytes, words);
}

/// The multiplicative inverse of `SEED_STRIDE` modulo 2^32.
pub open spec fn seed_stride_inverse() -> int {
    0x144c_bc89
}

/// Distinct training steps draw distinct generator seeds: the step can be
/// recovered from its seed, `(seed - base) * 0x144cbc89` modulo 2^32, since
/// the stride is odd.
pub proof fn lemma_step_seeds_distinct(base: u32, s1: u32, s2: u32)
    ensures
        ((spec_step_seed(base, s1) as int - base as int) * seed_stride_inverse()) % 0x1_0000_0000 == s1,
        s1 != s2 ==> spec_step_seed(base, s1) != spec_step_seed(base, s2),
{
    lemma_seed_recovers_step(base, s1);
    lemma_seed_recovers_step(base, s2);
}

proof fn lemma_seed_recovers_step(base: u32, s: u32)
    ensures
        ((spec_step_seed(base, s) as int - base as int) * seed_stride_inverse()) % 0x1_0000_0000 == s,
{
    let m: int = 0x1_0000_0000;
    let k: int = SEED_STRIDE as int;
    let inv = seed_stride_inverse();
    let x = base as int + s as int * k;
    vstd::arithmetic::div_mod::lemma_fundamental_div_mod(x, m);
    let t = x / m;
    let r = x % m;
    assert(0 <= r < m);
    assert(spec_step_seed(base, s) as int == r);
    assert(k * inv == 1 + 210485888 * m);
    let z = s as int * 210485888 - t * inv;
    assert((r - base as int) * inv == s as int + m * z) by (nonlinear_arith)
        requires
            x == m * t + r,
            x == base as int + s as int * k,
            k * inv == 1 + 210485888 * m,
            z == s as int * 210485888 - t * inv,
    ;
    vstd::arithmetic::div_mod::lemma_mod_multiples_vanish(z, s as int, m);
    vstd::arithmetic::div_mod::lemma_small_mod(s as nat, m as nat);
}

} // verus!
