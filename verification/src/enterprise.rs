//! Enterprise management (directory services, device management).
use vstd::prelude::*;

verus! {

/// Start enterprise management.  No directory or device-management agent
/// is present, so there is nothing to start.
pub fn init() {
}

} // verus!
