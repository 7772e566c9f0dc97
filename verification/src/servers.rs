//! Request handling of the user-space servers.
use vstd::prelude::*;

pub mod audio;
pub mod display;
pub mod fs;
pub mod input;
pub mod net;

verus! {
} // verus!
