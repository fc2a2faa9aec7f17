use vstd::prelude::*;

verus! {

/// One step of the linear congruential generator that seeds the initial
/// network weights: `seed * 1664525 + 1013904223` modulo 2^32.
pub open spec fn spec_lcg_step(seed: u32) -> u32 {
    ((seed as int * 1664525 + 1013904223) % 0x1_0000_0000) as u32
}

/// The generator state after `n` steps from `seed`.
pub open spec fn spec_lcg_iter(seed: u32, n: nat) -> u32
    decreases n,
{
    if n == 0 {
        seed
    } else {
        spec_lcg_step(spec_lcg_iter(seed, (n - 1) as nat))
    }
}

/// The 24-bit draw that a generator state yields: its upper 24 bits. The
/// weight initialiser maps it to `draw / 2^24` in `[0, 1)`.
pub open spec fn spec_unit_draw(state: u32) -> u32 {
    state / 256
}

/// Advances the generator by one step.
pub fn lcg_step(seed: u32) -> (next: u32)
    ensures
        next == spec_lcg_step(seed),
{
    let product = seed.wrapping_mul(1_664_525);
    let next = product.wrapping_add(1_013_904_223);
    proof {
        let s = seed as int;
        let m = (s * 1664525) % 0x1_0000_0000;
        assert(product == m);
        assert((m + 1013904223) % 0x1_0000_0000 == (s * 1664525 + 1013904223) % 0x1_0000_0000) by {
            vstd::arithmetic::div_mod::lemma_add_mod_noop(s * 1664525, 1013904223, 0x1_0000_0000);
            vstd::arithmetic::div_mod::lemma_mod_twice(s * 1664525, 0x1_0000_0000);
            vstd::arithmetic::div_mod::lemma_small_mod(1013904223nat, 0x1_0000_0000nat);
        }
        assert(0 <= m < 0x1_0000_0000);
    }
    next
}

/// The upper 24 bits of a generator state.
pub fn unit_draw(state: u32) -> (draw: u32)
    ensures
        draw == spec_unit_draw(state),
        draw < 0x100_0000,
{
    state / 256
}

/// The xorshift32 step of the boid initialiser:
/// `x ^= x << 13; x ^= x >> 17; x ^= x << 5`, shifts truncated to 32 bits.
pub open spec fn spec_xorshift(x: u32) -> u32 {
    let a = x ^ ((x as int * 8192) % 0x1_0000_0000) as u32;
    let b = a ^ (a / 131072);
    b ^ ((b as int * 32) % 0x1_0000_0000) as u32
}

/// The xorshift state after `n` steps from `seed`.
pub open spec fn spec_xorshift_iter(seed: u32, n: nat) -> u32
    decreases n,
{
    if n == 0 {
        seed
    } else {
        spec_xorshift(spec_xorshift_iter(seed, (n - 1) as nat))
    }
}

/// Advances the xorshift32 generator by one step.
pub fn xorshift(x: u32) -> (next: u32)
    ensures
        next == spec_xorshift(x),
{
    let a = x ^ (x << 13u32);
    let b = a ^ (a >> 17u32);
    let c = b ^ (b << 5u32);
    proof {
        assert((x << 13u32) == ((x as int * 8192) % 0x1_0000_0000) as u32) by (bit_vector);
        assert((a >> 17u32) == a / 131072) by (bit_vector);
        assert((b << 5u32) == ((b as int * 32) % 0x1_0000_0000) as u32) by (bit_vector);
    }
    c
}

/// Stepping `a` times and then `b` times is stepping `a + b` times.
pub proof fn lemma_lcg_iter_add(seed: u32, a: nat, b: nat)
    ensures
        spec_lcg_iter(spec_lcg_iter(seed, a), b) == spec_lcg_iter(seed, a + b),
    decreases b,
{
    if b > 0 {
        lemma_lcg_iter_add(seed, a, (b - 1) as nat);
        assert(spec_lcg_iter(seed, a + b) == spec_lcg_step(spec_lcg_iter(seed, (a + b - 1) as nat)));
    }
}

} // verus!
