use vstd::arithmetic::div_mod::lemma_mod_mod;
use vstd::prelude::*;

verus! {

/// Ticks of the free-running system timer per microsecond.
pub const TICKS_PER_MICROSECOND: u64 = 16;

/// Round-trip time of sound, in microseconds, for one centimetre of distance.
pub const MICROSECONDS_PER_CM: u64 = 58;

/// Largest value of the system timer's counter, which is 52 bits wide; past it the counter
/// wraps to zero.
pub const TIMER_MAX: u64 = 0xF_FFFF_FFFF_FFFF;

/// Number of distinct values of the tick counter.
pub open spec fn tick_modulus() -> int {
    TIMER_MAX as int + 1
}

/// The number of ticks from `start` to `end` on a counter that wraps at its maximum.
pub open spec fn elapsed_spec(start: u64, end: u64) -> int {
    (end as int - start as int) % tick_modulus()
}

/// Distance in whole centimetres for an echo that took `elapsed` ticks.
pub open spec fn distance_spec(elapsed: int) -> int {
    elapsed / (TICKS_PER_MICROSECOND as int) / (MICROSECONDS_PER_CM as int)
}

/// Ticks between two snapshots of the free-running timer, wraparound included: the
/// difference modulo the counter's width.
pub fn elapsed_ticks(start: u64, end: u64) -> (r: u64)
    ensures
        r as int == elapsed_spec(start, end),
{
    let w = end.wrapping_sub(start);
    let r = w & TIMER_MAX;
    assert(w & 0xF_FFFF_FFFF_FFFFu64 == w % 0x10_0000_0000_0000u64) by (bit_vector);
    proof {
        let d = end as int - start as int;
        assert(w as int == d % 0x1_0000_0000_0000_0000);
        lemma_mod_mod(d, 0x10_0000_0000_0000, 0x1000);
        assert(0x10_0000_0000_0000int * 0x1000 == 0x1_0000_0000_0000_0000int);
    }
    r
}

/// Converts an echo duration in ticks to centimetres (ticks to microseconds to centimetres).
pub fn distance_cm(elapsed: u64) -> (r: u64)
    ensures
        r as int == distance_spec(elapsed as int),
{
    elapsed / TICKS_PER_MICROSECOND / MICROSECONDS_PER_CM
}

/// The wrapping difference of two snapshots is the one value in the counter's range that,
/// added to `start` modulo the counter width, gives `end`; when no wrap happened it is the
/// plain difference.
pub proof fn lemma_elapsed_is_modular_difference(start: u64, end: u64)
    requires
        start <= TIMER_MAX,
        end <= TIMER_MAX,
    ensures
        0 <= elapsed_spec(start, end) < tick_modulus(),
        (start as int + elapsed_spec(start, end)) % tick_modulus() == end as int,
        start <= end ==> elapsed_spec(start, end) == end - start,
        end < start ==> elapsed_spec(start, end) == tick_modulus() - start + end,
{
}

/// Distance conversion keeps the order of durations: a longer echo never gives a shorter
/// distance.
pub proof fn lemma_distance_monotonic(e1: u64, e2: u64)
    requires
        e1 <= e2,
    ensures
        distance_spec(e1 as int) <= distance_spec(e2 as int),
{
    assert(e1 as int / 16 <= e2 as int / 16) by (nonlinear_arith)
        requires e1 <= e2;
    assert((e1 as int / 16) / 58 <= (e2 as int / 16) / 58) by (nonlinear_arith)
        requires e1 as int / 16 <= e2 as int / 16;
}

/// Distance conversion depends on the duration alone: equal durations give equal
/// distances, and the result is the one that `distance_spec` names.
pub proof fn lemma_distance_deterministic(e1: u64, e2: u64)
    requires
        e1 == e2,
    ensures
        distance_spec(e1 as int) == distance_spec(e2 as int),
        0 <= distance_spec(e1 as int) <= e1,
{
    assert(0 <= (e1 as int / 16) / 58 <= e1) by (nonlinear_arith)
        requires e1 >= 0;
}

} // verus!
