//! Window bridge between guest surfaces and the compositor.
use vstd::prelude::*;

verus! {

/// Register overlay surfaces.  No guest surface exists yet.
pub fn init() {
}

/// Map the guest surface at `guest_phys` into the host framebuffer.  Guest
/// memory translation does not exist yet, so nothing is mapped.
pub fn map_surface(guest_phys: u64) {
}

} // verus!
