//! Attestation hub bridging hypervisor state to a remote verifier.
use vstd::prelude::*;

verus! {

/// Record the measurement of a guest launch.  No TPM quote is taken yet.
pub fn record_launch_digest() {
}

/// Provide the attestation report to the guest agent.  No measurement is
/// serialised yet.
pub fn report() {
}

} // verus!
