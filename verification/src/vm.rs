//! Virtual machine support: vCPU set-up, overlays and virtio-fs.
use vstd::prelude::*;

pub mod overlay;
pub mod virtiofs;
pub mod vmm;

verus! {
} // verus!
