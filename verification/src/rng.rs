//! The xorshift32 generator behind the idle jitter modifiers, and the draws
//! they make from it.
use vstd::prelude::*;

verus! {

/// One xorshift32 step: `x ^= x << 13; x ^= x >> 17; x ^= x << 5`.
pub open spec fn xorshift32(x: u32) -> u32 {
    let a = x ^ (x << 13u32);
    let b = a ^ (a >> 17u32);
    b ^ (b << 5u32)
}

/// One xorshift32 step.
pub fn xorshift32_next(x: u32) -> (r: u32)
    ensures
        r == xorshift32(x),
{
    let mut v: u32 = x;
    v = v ^ (v << 13u32);
    v = v ^ (v >> 17u32);
    v = v ^ (v << 5u32);
    v
}

/// A non-zero state never steps to zero, so a non-zero seed keeps the
/// generator alive forever.
pub proof fn lemma_xorshift32_nonzero(x: u32)
    requires
        x != 0,
    ensures
        xorshift32(x) != 0,
{
    let a = x ^ (x << 13u32);
    assert(a != 0) by (bit_vector)
        requires
            x != 0,
            a == x ^ (x << 13u32),
    ;
    let b = a ^ (a >> 17u32);
    assert(b != 0) by (bit_vector)
        requires
            a != 0,
            b == a ^ (a >> 17u32),
    ;
    let c = b ^ (b << 5u32);
    assert(c != 0) by (bit_vector)
        requires
            b != 0,
            c == b ^ (b << 5u32),
    ;
}

/// The number of distinct offsets in `[-max, max]`, `2 * max + 1`,
/// saturating at `i32::MAX` as the signed arithmetic does.
pub open spec fn span_for(max: i32) -> u32 {
    (if 2 * max + 1 <= i32::MAX { 2 * max + 1 } else { i32::MAX as int }) as u32
}

/// The offset drawn from raw generator output `raw`: `raw % span - max`,
/// and 0 for a non-positive `max`.
pub open spec fn offset_from(raw: u32, max: i32) -> i32 {
    if max <= 0 { 0 } else { ((raw % span_for(max)) - max) as i32 }
}

/// The offset drawn from `raw` for bound `max`.
pub fn offset_from_raw(raw: u32, max: i32) -> (r: i32)
    requires
        max > 0,
    ensures
        r == offset_from(raw, max),
{
    let span: u32 = if max <= (i32::MAX - 1) / 2 { (2 * max + 1) as u32 } else { i32::MAX as u32 };
    let m: u32 = raw % span;
    m as i32 - max
}

/// Every drawn offset lies in `[-max, max]`.
pub proof fn lemma_offset_in_range(raw: u32, max: i32)
    ensures
        max <= 0 ==> offset_from(raw, max) == 0,
        max > 0 ==> -max <= offset_from(raw, max) <= max,
{
}

/// The delay drawn from raw generator output `raw` for the window
/// `[min, max]`: `min + raw % (max - min + 1)`, and `min` itself when the
/// window is empty or a single point.
pub open spec fn delay_from(raw: u32, min: u64, max: u64) -> u64 {
    if max <= min { min } else { (min + (raw as int) % ((max - min) + 1)) as u64 }
}

/// The delay drawn from `raw` for the window `[min, max]`, which must be
/// non-degenerate.
pub fn delay_from_raw(raw: u32, min: u64, max: u64) -> (r: u64)
    requires
        min < max,
    ensures
        r == delay_from(raw, min, max),
        min <= r <= max,
{
    let span: u64 = max - min;
    let r: u64 = raw as u64;
    let m: u64 = if span < u64::MAX {
        r % (span + 1)
    } else {
        proof {
            vstd::arithmetic::div_mod::lemma_small_mod(r as nat, (span + 1) as nat);
        }
        r
    };
    min + m
}

} // verus!
