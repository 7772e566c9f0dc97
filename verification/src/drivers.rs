//! Device drivers used during early boot.
use vstd::prelude::*;

pub mod framebuffer;
pub mod nvme;
pub mod ps2;
pub mod virtio_net;

verus! {
} // verus!
