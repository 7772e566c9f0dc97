//! Real-time profiles and checkpoints.
use vstd::prelude::*;

verus! {

/// Install the default real-time profiles.  None are defined yet.
pub fn init() {
}

} // verus!
