//! The pseudo-random generator that draws backoff delays.
//!
//! A 32-bit xorshift generator: each step mixes the state with itself shifted
//! left by 13, right by 17 and left by 5. Bits shifted out of the word are
//! lost.
use vstd::prelude::*;
use crate::bitfield::low_bits;
use crate::constants::{IEEE802154_BACKOFF_PERIOD, IEEE802154_MAX_BE, NONCE_SEED};

verus! {

/// The state that follows `x`, which is also the number drawn.
pub open spec fn xorshift(x: u32) -> u32 {
    let a = x ^ (x << 13u32);
    let b = a ^ (a >> 17u32);
    b ^ (b << 5u32)
}

/// The state after `n` draws from `seed`.
pub open spec fn nonce_after(seed: u32, n: nat) -> u32
    decreases n,
{
    if n == 0 {
        seed
    } else {
        xorshift(nonce_after(seed, (n - 1) as nat))
    }
}

/// The number of backoff periods to wait: the low `be` bits of a nonce, a
/// number from 0 to `2^be - 1`.
pub open spec fn backoff_periods(nonce: u32, be: u8) -> u32 {
    nonce & low_bits(be as u32)
}

/// The backoff delay in microseconds.
pub open spec fn backoff_delay(nonce: u32, be: u8) -> int {
    backoff_periods(nonce, be) * IEEE802154_BACKOFF_PERIOD
}

/// Advances the generator by one step.
pub fn next_nonce(x: u32) -> (next: u32)
    ensures
        next == xorshift(x),
{
    let mut next: u32 = x;
    next ^= next << 13;
    next ^= next >> 17;
    next ^= next << 5;
    next
}

/// The delay, in microseconds, that `nonce` selects under exponent `be`.
pub fn backoff_microseconds(nonce: u32, be: u8) -> (dt: u32)
    requires
        be <= IEEE802154_MAX_BE,
    ensures
        dt == backoff_delay(nonce, be),
        backoff_periods(nonce, be) <= 31,
        dt <= 31 * IEEE802154_BACKOFF_PERIOD,
{
    let width: u32 = be as u32;
    assert(1 <= (1u32 << width) <= 32 && (nonce & (((1u32 << width) - 1) as u32)) <= 31)
        by (bit_vector)
        requires
            width <= 5,
    ;
    let periods: u32 = nonce & ((1u32 << width) - 1);
    let unit: u32 = IEEE802154_BACKOFF_PERIOD as u32;
    assert(unit == 320);
    periods * unit
}

/// The generator is a function of its seed alone, and the first three numbers
/// drawn from the driver's seed are these.
pub proof fn lemma_nonce_sequence()
    ensures
        nonce_after(NONCE_SEED, 1) == 0x477d_20b7u32,
        nonce_after(NONCE_SEED, 2) == 0x8e1d_9142u32,
        nonce_after(NONCE_SEED, 3) == 0xba8c_2458u32,
{
    reveal_with_fuel(nonce_after, 4);
    assert(xorshift(0xdead_beefu32) == 0x477d_20b7u32) by (bit_vector);
    assert(xorshift(0x477d_20b7u32) == 0x8e1d_9142u32) by (bit_vector);
    assert(xorshift(0x8e1d_9142u32) == 0xba8c_2458u32) by (bit_vector);
}

/// Two generators that start from the same seed stay in step.
pub proof fn lemma_nonce_deterministic(seed_a: u32, seed_b: u32, n: nat)
    requires
        seed_a == seed_b,
    ensures
        nonce_after(seed_a, n) == nonce_after(seed_b, n),
        nonce_after(seed_a, n + 1) == xorshift(nonce_after(seed_a, n)),
{
}

} // verus!
