//! PS/2 keyboard controller polling.
use vstd::prelude::*;

verus! {

/// The controller's latch of the last scancode; 0 means none pending.
#[derive(Clone, Copy, Debug, PartialEq, Eq, Structural)]
pub struct Ps2Controller {
    pub last_scancode: u8,
}

impl Ps2Controller {
    /// A controller with no pending scancode.
    pub fn new() -> (c: Self)
        ensures
            c.last_scancode == 0,
    {
        Ps2Controller { last_scancode: 0 }
    }
}

/// Set up the controller.  The command byte is left as firmware set it.
pub fn init() {
}

/// A poll of `c`: the scancode taken, if any, and the controller afterwards.
pub open spec fn polled(c: Ps2Controller) -> (Option<u8>, Ps2Controller) {
    if c.last_scancode == 0 {
        (None, c)
    } else {
        (Some(c.last_scancode), Ps2Controller { last_scancode: 0 })
    }
}

/// Take the pending scancode, if any; the latch is cleared.
pub fn poll_scancode(ctrl: &mut Ps2Controller) -> (r: Option<u8>)
    ensures
        old(ctrl).last_scancode == 0 ==> r is None && *final(ctrl) == *old(ctrl),
        old(ctrl).last_scancode != 0 ==> r == Some(old(ctrl).last_scancode) && final(ctrl).last_scancode == 0,
        (r, *final(ctrl)) == polled(*old(ctrl)),
{
    let scancode = ctrl.last_scancode;
    if scancode == 0 {
        None
    } else {
        ctrl.last_scancode = 0;
        Some(scancode)
    }
}

/// Latch `scancode` as pending, replacing any earlier one.
pub fn inject_scancode(ctrl: &mut Ps2Controller, scancode: u8)
    ensures
        final(ctrl).last_scancode == scancode,
{
    ctrl.last_scancode = scancode;
}

/// A poll returns the scancode injected last, once: the poll after it
/// finds nothing.  Scancode 0 stands for "none" and is never returned.
pub proof fn lemma_inject_then_poll(scancode: u8)
    ensures
        scancode != 0 ==> polled(Ps2Controller { last_scancode: scancode }).0 == Some(scancode),
        polled(polled(Ps2Controller { last_scancode: scancode }).1).0 is None,
{
}

} // verus!
