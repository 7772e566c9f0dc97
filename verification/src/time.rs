//! Timer management (HPET and local APIC).
use vstd::prelude::*;

pub mod apic;
pub mod hpet;

verus! {

/// Initialise the timers.  The HPET needs no set-up yet; programming the
/// local APIC is done by the caller with the register values that
/// `apic::xapic_setup` computes.
pub fn init() {
    hpet::init();
}

/// Timer tick hook; the scheduler keeps no clock yet.
pub fn tick() {
}

} // verus!
