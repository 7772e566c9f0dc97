//! Local APIC register arithmetic.
use vstd::prelude::*;

verus! {

/// Machine-specific register holding the APIC base address.
pub const IA32_APIC_BASE: u32 = 0x1B;
/// Global enable bit of `IA32_APIC_BASE`.
pub const APIC_ENABLE: u64 = 0x800;
/// Offset of the end-of-interrupt register.
pub const LAPIC_EOI_OFFSET: usize = 0x0B0;
/// Offset of the timer divide configuration register.
pub const LAPIC_TIMER_DIV: usize = 0x3E0;
/// Offset of the timer initial count register.
pub const LAPIC_TIMER_INIT: usize = 0x380;
/// Offset of the timer current count register.
pub const LAPIC_TIMER_CURR: usize = 0x390;

/// Divide-configuration value the timer is programmed with (divide by 1).
pub const LAPIC_TIMER_DIVIDE_BY_1: u32 = 0b1011;
/// Initial count the timer is programmed with.
pub const LAPIC_TIMER_INITIAL_COUNT: u32 = 0x00FF_FFFF;

/// The value written back to `IA32_APIC_BASE` to enable the xAPIC, and the
/// register base it yields, from the value read from that MSR.
pub fn enable_xapic(msr_value: u64) -> (r: (u64, usize))
    ensures
        r.0 == msr_value | APIC_ENABLE,
        r.1 == ((msr_value | APIC_ENABLE) as usize) & 0xFFFF_F000usize,
{
    let base = msr_value | APIC_ENABLE;
    (base, (base as usize) & 0xFFFF_F000usize)
}

/// Address of the end-of-interrupt register, or `None` while the APIC base
/// is unknown (zero).
pub fn eoi_address(lapic_base: usize) -> (r: Option<usize>)
    requires
        lapic_base <= 0xFFFF_F000,
    ensures
        lapic_base == 0 ==> r is None,
        lapic_base != 0 ==> r == Some((lapic_base + LAPIC_EOI_OFFSET) as usize),
{
    if lapic_base != 0 {
        Some(lapic_base + LAPIC_EOI_OFFSET)
    } else {
        None
    }
}

/// Timer programming for the APIC at `lapic_base`: the divide register and
/// its value, the initial-count register and its value, and the
/// current-count register to sample.  `None` while the base is unknown.
pub fn program_timer(lapic_base: usize) -> (r: Option<(usize, u32, usize, u32, usize)>)
    requires
        lapic_base <= 0xFFFF_F000,
    ensures
        lapic_base == 0 ==> r is None,
        lapic_base != 0 ==> r == Some(
            (
                (lapic_base + LAPIC_TIMER_DIV) as usize,
                LAPIC_TIMER_DIVIDE_BY_1,
                (lapic_base + LAPIC_TIMER_INIT) as usize,
                LAPIC_TIMER_INITIAL_COUNT,
                (lapic_base + LAPIC_TIMER_CURR) as usize,
            ),
        ),
{
    if lapic_base == 0 {
        return None;
    }
    Some(
        (
            lapic_base + LAPIC_TIMER_DIV,
            LAPIC_TIMER_DIVIDE_BY_1,
            lapic_base + LAPIC_TIMER_INIT,
            LAPIC_TIMER_INITIAL_COUNT,
            lapic_base + LAPIC_TIMER_CURR,
        ),
    )
}

} // verus!
