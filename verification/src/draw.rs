//! Timeout draws: the deterministic xorshift generator and the random
//! timeout of the local timers.
use vstd::prelude::*;
use rand::Rng;
use crate::config::{CONST_VAL_MS, MS_USE_CONSTANT_TIMEOUT, RANDOM_VAL_MAX_MS, RANDOM_VAL_MIN_MS};

verus! {

/// One step of Marsaglia's 64-bit xorshift generator (shifts 13, 7, 17).
pub open spec fn xorshift64_spec(x: u64) -> u64 {
    let a = x ^ (x << 13u64);
    let b = a ^ (a >> 7u64);
    b ^ (b << 17u64)
}

/// Advances the generator state by one xorshift step and returns the new state.
pub fn xorshift64(state: &mut u64) -> (x: u64)
    ensures
        x == xorshift64_spec(*old(state)),
        *final(state) == x,
{
    let mut x = *state;
    x ^= x << 13u64;
    x ^= x >> 7u64;
    x ^= x << 17u64;
    *state = x;
    x
}


/// An xorshift step maps every nonzero state to a nonzero state: each of its
/// three shift-and-xor stages keeps either the lowest or the highest set bit
/// of its input, so a generator seeded with a nonzero value never gets stuck
/// at zero.
pub proof fn lemma_xorshift64_nonzero(x: u64)
    requires
        x != 0,
    ensures
        xorshift64_spec(x) != 0,
{
    let a = x ^ (x << 13u64);
    assert(a != 0) by (bit_vector)
        requires
            x != 0,
            a == x ^ (x << 13u64),
    ;
    let b = a ^ (a >> 7u64);
    assert(b != 0) by (bit_vector)
        requires
            a != 0,
            b == a ^ (a >> 7u64),
    ;
    let c = b ^ (b << 17u64);
    assert(c != 0) by (bit_vector)
        requires
            b != 0,
            c == b ^ (b << 17u64),
    ;
}

/// The generator state after `n` steps from `seed`.
pub open spec fn xorshift64_iter(seed: u64, n: nat) -> u64
    decreases n,
{
    if n == 0 {
        seed
    } else {
        xorshift64_spec(xorshift64_iter(seed, (n - 1) as nat))
    }
}

/// A generator seeded with a nonzero value stays nonzero at every step.
pub proof fn lemma_xorshift64_iter_nonzero(seed: u64, n: nat)
    requires
        seed != 0,
    ensures
        xorshift64_iter(seed, n) != 0,
    decreases n,
{
    if n > 0 {
        lemma_xorshift64_iter_nonzero(seed, (n - 1) as nat);
        lemma_xorshift64_nonzero(xorshift64_iter(seed, (n - 1) as nat));
    }
}

/// The draw that a generator state yields: the next state modulo 100.
pub open spec fn next_draw_ms_spec(state: u64) -> u64 {
    xorshift64_spec(state) % 100
}

/// Advances the generator and returns a timeout in `0..=99` milliseconds.
pub fn next_draw_ms(state: &mut u64) -> (ms: u64)
    ensures
        *final(state) == xorshift64_spec(*old(state)),
        ms == next_draw_ms_spec(*old(state)),
        RANDOM_VAL_MIN_MS <= ms <= RANDOM_VAL_MAX_MS,
{
    xorshift64(state) % 100
}

/// Draws a number from `low..=high` with the thread-local generator of `rand`
/// (`rand::rng().random_range(low..=high)`).  The contract claims only that
/// the result lies in the range, which holds of every outcome of the draw;
/// `rand` panics on an empty range, which `requires` leaves out.
#[verifier::external_body]
pub(crate) fn random_in_range(low: u64, high: u64) -> (r: u64)
    requires
        low <= high,
    ensures
        low <= r <= high,
{
    rand::rng().random_range(low..=high)
}

/// The next timeout of a local timer, in milliseconds: `CONST_VAL_MS` when the
/// timers use a constant period, else a random draw from
/// `RANDOM_VAL_MIN_MS..=RANDOM_VAL_MAX_MS`.
pub fn get_next_timeout_ms() -> (ms: u64)
    ensures
        MS_USE_CONSTANT_TIMEOUT ==> ms == CONST_VAL_MS,
        !MS_USE_CONSTANT_TIMEOUT ==> RANDOM_VAL_MIN_MS <= ms <= RANDOM_VAL_MAX_MS,
{
    if MS_USE_CONSTANT_TIMEOUT {
        CONST_VAL_MS
    } else {
        random_in_range(RANDOM_VAL_MIN_MS, RANDOM_VAL_MAX_MS)
    }
}

} // verus!
