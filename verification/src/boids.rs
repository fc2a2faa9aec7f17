use vstd::prelude::*;

use crate::bytes::{words_encoded, words_to_bytes};
use crate::math::{div_ceil_u32, spec_div_ceil};
use crate::rng::{spec_xorshift_iter, xorshift};

verus! {

/// Width of the window in pixels.
pub const WIDTH: u32 = 1000;

/// Height of the window in pixels.
pub const HEIGHT: u32 = 700;

/// Number of simulated boids.
pub const BOID_COUNT: u32 = 700;

/// Bytes of one boid: position and velocity, two `f32` each.
pub const BOID_SIZE: u64 = 16;

/// Invocations per workgroup of the simulation shader.
pub const WORKGROUP_SIZE: u32 = 64;

/// Seed of the generator that places the boids.
pub const BOID_SEED: u32 = 0x1234_5678;

/// Bytes of one boid buffer.
pub fn boid_buffer_size() -> (bytes: u64)
    ensures
        bytes == BOID_SIZE * BOID_COUNT,
{
    BOID_SIZE * BOID_COUNT as u64
}

/// Workgroups of one simulation step: enough groups of 64 for every boid.
pub fn simulation_workgroups() -> (groups: u32)
    ensures
        groups == spec_div_ceil(BOID_COUNT as int, WORKGROUP_SIZE as int),
{
    div_ceil_u32(BOID_COUNT, WORKGROUP_SIZE)
}

/// The states of the xorshift32 generator after 1, 2, ..., `count` steps
/// from `seed`. The boid initialiser takes three per boid, in order: its
/// heading angle, then its x and y position, each as `state / u32::MAX`.
pub fn xorshift_draws(seed: u32, count: usize) -> (draws: Vec<u32>)
    ensures
        draws@.len() == count,
        forall|i: int| 0 <= i < count ==> #[trigger] draws@[i] == spec_xorshift_iter(seed, (i + 1) as nat),
{
    let mut draws: Vec<u32> = Vec::with_capacity(count);
    let mut state = seed;
    let mut i: usize = 0;
    while i < count
        invariant
            i <= count,
            draws@.len() == i,
            state == spec_xorshift_iter(seed, i as nat),
            forall|k: int| 0 <= k < i ==> #[trigger] draws@[k] == spec_xorshift_iter(seed, (k + 1) as nat),
        decreases count - i,
    {
        state = xorshift(state);
        draws.push(state);
        i += 1;
    }
    draws
}

/// The generator draws behind the initial boids: three per boid, from `BOID_SEED`.
pub fn initial_boid_draws() -> (draws: Vec<u32>)
    ensures
        draws@.len() == 3 * BOID_COUNT,
        forall|i: int| 0 <= i < 3 * BOID_COUNT ==> #[trigger] draws@[i] == spec_xorshift_iter(BOID_SEED, (i + 1) as nat),
{
    xorshift_draws(BOID_SEED, 3 * BOID_COUNT as usize)
}

/// The other buffer of the pair.
pub open spec fn spec_next_buffer(current: int) -> int {
    1 - current
}

/// The buffer that a frame's simulation writes and its render pass draws:
/// the other one of the pair that it reads.
pub fn next_buffer(current: usize) -> (next: usize)
    requires
        current < 2,
    ensures
        next == spec_next_buffer(current as int),
{
    1 - current
}

/// The uniform parameters of one simulation step as 32-bit words: the bits
/// of the `f32` time step, the boid count, two padding zeros.
pub fn frame_params_words(dt_bits: u32) -> (w: Vec<u32>)
    ensures
        w@ == seq![dt_bits, BOID_COUNT, 0u32, 0u32],
{
    vec![dt_bits, BOID_COUNT, 0, 0]
}

/// The bytes of a simulation step's uniform parameters: the words of
/// `frame_params_words`, four bytes each in the machine's byte order.
pub fn frame_params_bytes(dt_bits: u32) -> (b: Vec<u8>)
    ensures
        b@.len() == 16,
        exists|le: bool| words_encoded(b@, seq![dt_bits, BOID_COUNT, 0u32, 0u32], le),
{
    words_to_bytes(&frame_params_words(dt_bits))
}

/// The boid buffers take turns: a frame writes and draws the buffer that it
/// does not read, which is the one the next frame reads, and every second
/// frame reads the same buffer again.
pub proof fn lemma_boid_ping_pong(current: int)
    requires
        0 <= current < 2,
    ensures
        0 <= spec_next_buffer(current) < 2,
        spec_next_buffer(current) != current,
        spec_next_buffer(spec_next_buffer(current)) == current,
{
}

} // verus!
