//! Radiation tolerance: memory scrubbing and watchdogs.
use vstd::prelude::*;

verus! {

/// Schedule the memory scrubber.  No scrubber is present yet.
pub fn init() {
}

} // verus!
