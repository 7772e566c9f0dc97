//! HPET: the millisecond time read from the main counter, and the decision
//! that ends a busy wait.  Mapping the registers and polling them is done by
//! the caller.
use vstd::prelude::*;

verus! {

/// Configure the HPET.  Nothing to program until ACPI tables are parsed.
pub fn init() {
}

/// Femtoseconds per millisecond.
pub const FS_PER_MS: u128 = 1_000_000_000_000;

/// Milliseconds since the counter started: `counter` ticks of `period_fs`
/// femtoseconds each (the period is bits 32..63 of the capabilities
/// register), truncated to whole milliseconds and to 64 bits.
pub open spec fn spec_counter_ms(counter: u64, period_fs: u32) -> u64 {
    ((counter as int * period_fs as int) / FS_PER_MS as int) as u64
}

/// Convert a main-counter reading to milliseconds.
pub fn counter_ms(counter: u64, period_fs: u32) -> (r: u64)
    ensures
        r == spec_counter_ms(counter, period_fs),
{
    let c = counter as u128;
    let p = period_fs as u128;
    assert(c * p <= 0xFFFF_FFFF_FFFF_FFFFu128 * 0xFFFF_FFFFu128) by (nonlinear_arith)
        requires
            c <= 0xFFFF_FFFF_FFFF_FFFFu128,
            p <= 0xFFFF_FFFFu128,
    ;
    let product = c * p;
    #[verifier::truncate]
    let r = (product / FS_PER_MS) as u64;
    r
}

/// Milliseconds from reading `start` to reading `now` of a 64-bit
/// millisecond clock that wraps around.
pub open spec fn elapsed_ms(start: u64, now: u64) -> int {
    if now >= start {
        now - start
    } else {
        now + 0x1_0000_0000_0000_0000 - start
    }
}

/// One poll of the busy wait for `millis` milliseconds that began at time
/// `start`: whether the wait is over at time `now`.
pub fn sleep_ms(millis: u64, start: u64, now: u64) -> (done: bool)
    ensures
        done == (elapsed_ms(start, now) >= millis),
{
    if now >= start {
        now - start >= millis
    } else {
        (u64::MAX - start) + now + 1 >= millis
    }
}

/// A wait of zero milliseconds is over at once; a wait is never over
/// before `millis` milliseconds have passed.
pub proof fn lemma_sleep_at_least(millis: u64, start: u64, now: u64)
    ensures
        millis == 0 ==> elapsed_ms(start, now) >= millis,
        now >= start && now - start < millis ==> !(elapsed_ms(start, now) >= millis),
{
}

/// The millisecond time is the number of whole milliseconds the counter
/// has run: `ms * 10^12 <= counter * period_fs < (ms + 1) * 10^12`.
pub proof fn lemma_counter_ms_whole_milliseconds(counter: u64, period_fs: u32)
    ensures
        spec_counter_ms(counter, period_fs) * 1_000_000_000_000 <= (counter as int) * (period_fs as int),
        (counter as int) * (period_fs as int) < (spec_counter_ms(counter, period_fs) + 1) * 1_000_000_000_000,
{
    let t = counter as int * period_fs as int;
    assert(0 <= t <= 0xFFFF_FFFF_FFFF_FFFF * 0xFFFF_FFFF) by (nonlinear_arith)
        requires
            t == counter as int * period_fs as int,
            0 <= counter <= 0xFFFF_FFFF_FFFF_FFFF,
            0 <= period_fs <= 0xFFFF_FFFF,
    ;
    let q = t / 1_000_000_000_000;
    assert(q * 1_000_000_000_000 <= t < (q + 1) * 1_000_000_000_000);
    assert(q < 0x1_0000_0000_0000_0000);
}

} // verus!
