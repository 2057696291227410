//! Splitting a 64-bit timestamp-counter deadline into the two 32-bit halves
//! that the wait instructions take, and joining them back.
use vstd::prelude::*;

verus! {

/// The number of distinct values of one half: `2^32`.
pub open spec fn half_base() -> int {
    0x1_0000_0000
}

/// The upper 32 bits of a deadline: `counter >> 32`.
pub open spec fn high_half(counter: u64) -> u32 {
    (counter >> 32u64) as u32
}

/// The lower 32 bits of a deadline: `counter & 0xFFFF_FFFF`.
pub open spec fn low_half(counter: u64) -> u32 {
    (counter & 0xFFFF_FFFFu64) as u32
}

/// The deadline whose upper half is `high` and whose lower half is `low`.
pub open spec fn joined(high: u32, low: u32) -> u64 {
    ((high as u64) << 32u64) | (low as u64)
}

/// A deadline in the form the wait instructions take it.
#[derive(Clone, Copy, Debug, PartialEq, Eq, Structural)]
pub struct CounterHalves {
    pub high: u32,
    pub low: u32,
}

proof fn lemma_halves_value(counter: u64)
    ensures
        high_half(counter) as int == counter as int / half_base(),
        low_half(counter) as int == counter as int % half_base(),
{
    assert((counter >> 32u64) as u32 == counter / 0x1_0000_0000u64) by (bit_vector);
    assert((counter & 0xFFFF_FFFFu64) as u32 == counter % 0x1_0000_0000u64) by (bit_vector);
}

proof fn lemma_joined_value(high: u32, low: u32)
    ensures
        joined(high, low) as int == high as int * half_base() + low as int,
{
    assert(((high as u64) << 32u64) | (low as u64) == (high as u64) * 0x1_0000_0000u64
        + (low as u64)) by (bit_vector);
}

/// Splits `counter` into its upper and lower 32-bit halves.
pub fn split_counter(counter: u64) -> (r: CounterHalves)
    ensures
        r.high == high_half(counter),
        r.low == low_half(counter),
        r.high as int == counter as int / half_base(),
        r.low as int == counter as int % half_base(),
{
    proof {
        lemma_halves_value(counter);
    }
    CounterHalves { high: (counter >> 32u64) as u32, low: (counter & 0xFFFF_FFFFu64) as u32 }
}

/// Joins two 32-bit halves back into the deadline they stand for.
pub fn join_counter(halves: CounterHalves) -> (r: u64)
    ensures
        r == joined(halves.high, halves.low),
        r as int == halves.high as int * half_base() + halves.low as int,
{
    proof {
        lemma_joined_value(halves.high, halves.low);
    }
    ((halves.high as u64) << 32u64) | (halves.low as u64)
}

/// Splitting a deadline and joining the halves gives back the same deadline,
/// for every 64-bit value.
pub proof fn lemma_split_join_round_trip(counter: u64)
    ensures
        joined(high_half(counter), low_half(counter)) == counter,
{
    assert((((counter >> 32u64) as u32) as u64) << 32u64 | (((counter & 0xFFFF_FFFFu64) as u32)
        as u64) == counter) by (bit_vector);
}

/// Joining two halves and splitting the result gives back the same halves:
/// no two pairs of halves stand for the same deadline.
pub proof fn lemma_join_split_round_trip(high: u32, low: u32)
    ensures
        high_half(joined(high, low)) == high,
        low_half(joined(high, low)) == low,
{
    assert(((((high as u64) << 32u64) | (low as u64)) >> 32u64) as u32 == high) by (bit_vector);
    assert(((((high as u64) << 32u64) | (low as u64)) & 0xFFFF_FFFFu64) as u32 == low)
        by (bit_vector);
}

} // verus!
