use vstd::prelude::*;

use crate::timer::NANOS_PER_MILLI;

verus! {

/// Milliseconds between two blinks of the board's status LED.
pub const FLOP_PERIOD_MILLIS: u64 = 500;

/// Milliseconds between two checks of the free heap.
pub const WRITE_PERIOD_MILLIS: u64 = 3000;

/// Whether `elapsed_nanos` nanoseconds reach a period of `period_millis`
/// milliseconds.
pub open spec fn period_reached(elapsed_nanos: u128, period_millis: u64) -> bool {
    elapsed_nanos >= period_millis as int * NANOS_PER_MILLI
}

/// Whether the status LED is due to blink, `elapsed_nanos` nanoseconds after
/// its last blink.
pub fn should_flop(elapsed_nanos: u128) -> (r: bool)
    ensures
        r == period_reached(elapsed_nanos, FLOP_PERIOD_MILLIS),
{
    elapsed_nanos >= FLOP_PERIOD_MILLIS as u128 * NANOS_PER_MILLI
}

/// Whether the free heap is due to be checked, `elapsed_nanos` nanoseconds
/// after the last check.
pub fn could_write(elapsed_nanos: u128) -> (r: bool)
    ensures
        r == period_reached(elapsed_nanos, WRITE_PERIOD_MILLIS),
{
    elapsed_nanos >= WRITE_PERIOD_MILLIS as u128 * NANOS_PER_MILLI
}

/// Records a new reading of the free heap: the lowest reading seen so far
/// goes down to `now_free` when that is lower. Whether it went down, in which
/// case the new low is worth persisting.
pub fn record_heap_low(min_free: &mut usize, now_free: usize) -> (lowered: bool)
    ensures
        lowered == (now_free < *old(min_free)),
        *final(min_free) == if lowered { now_free } else { *old(min_free) },
{
    if now_free < *min_free {
        *min_free = now_free;
        true
    } else {
        false
    }
}

/// The number that bytes `s` hold, read least significant byte first.
pub open spec fn little_endian_value(s: Seq<u8>) -> nat
    decreases s.len(),
{
    if s.len() == 0 {
        0
    } else {
        s[0] as nat + 256 * little_endian_value(s.drop_first())
    }
}

/// `usize::from_ne_bytes` on a slice of exactly the width of a `usize`: the
/// number those bytes hold in the machine's own byte order, which std
/// documents as the little-endian or the big-endian reading. Which of the two
/// depends on the machine, so the contract allows both.
#[verifier::external_body]
fn usize_from_ne_bytes(bytes: &[u8]) -> (r: usize)
    requires
        bytes@.len() == vstd::layout::size_of::<usize>(),
    ensures
        r == little_endian_value(bytes@) || r == little_endian_value(bytes@.reverse()),
{
    usize::from_ne_bytes(bytes.try_into().unwrap())
}

/// `usize::to_ne_bytes`, as a vector: the bytes of `v` in the machine's own
/// byte order, which std documents as little-endian or big-endian; the
/// contract allows both.
#[verifier::external_body]
fn usize_to_ne_bytes(v: usize) -> (r: Vec<u8>)
    ensures
        r@.len() == vstd::layout::size_of::<usize>(),
        little_endian_value(r@) == v || little_endian_value(r@.reverse()) == v,
{
    v.to_ne_bytes().to_vec()
}

/// Reads a stored lowest free-heap reading back: a stored item of exactly
/// the width of a `usize` is such a reading, the number its bytes hold in the
/// machine's byte order; anything else is not, and the storage is then to be
/// erased.
pub fn decode_heap_low(raw: &[u8]) -> (r: Option<usize>)
    ensures
        r is Some <==> raw@.len() == vstd::layout::size_of::<usize>(),
        r matches Some(v) ==> v == little_endian_value(raw@) || v == little_endian_value(raw@.reverse()),
{
    let width = core::mem::size_of::<usize>();
    if raw.len() == width {
        Some(usize_from_ne_bytes(raw))
    } else {
        None
    }
}

/// The bytes under which the lowest free-heap reading `min_free` is stored:
/// one `usize` wide, in the machine's byte order.
pub fn encode_heap_low(min_free: usize) -> (r: Vec<u8>)
    ensures
        r@.len() == vstd::layout::size_of::<usize>(),
        little_endian_value(r@) == min_free || little_endian_value(r@.reverse()) == min_free,
{
    usize_to_ne_bytes(min_free)
}

} // verus!
