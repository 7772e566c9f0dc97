//! virtio-net feature negotiation and the transmit copy.
use vstd::prelude::*;

verus! {

/// Feature bits negotiated with the device.
#[derive(Clone, Copy, Debug, PartialEq, Eq, Structural)]
pub struct Features {
    pub negotiate: u64,
}

/// The feature bits the driver negotiates.
pub const NEGOTIATED_FEATURES: u64 = 0x21;

/// Negotiate the driver's feature bits.
pub fn init(features: &mut Features)
    ensures
        final(features).negotiate == NEGOTIATED_FEATURES,
{
    features.negotiate = 0x1 | 0x20;
    assert(0x1u64 | 0x20u64 == 0x21u64) by (bit_vector);
}

/// Bytes in the transmit scratch area.
pub const TX_SCRATCH_BYTES: usize = 2048;

/// Copy `buffer` into the start of the transmit scratch area; the rest of
/// the area is left as it was.  The buffer must fit.
pub fn submit_tx(buffer: &[u8], scratch: &mut [u8; 2048])
    requires
        buffer@.len() <= TX_SCRATCH_BYTES,
    ensures
        final(scratch)@ == buffer@ + old(scratch)@.skip(buffer@.len() as int),
{
    let n = buffer.len();
    let mut i: usize = 0;
    while i < n
        invariant
            0 <= i <= n,
            n == buffer@.len(),
            n <= 2048,
            scratch@.len() == 2048,
            forall|j: int| 0 <= j < i ==> scratch@[j] == buffer@[j],
            forall|j: int| i <= j < 2048 ==> scratch@[j] == old(scratch)@[j],
        decreases n - i,
    {
        scratch[i] = buffer[i];
        i = i + 1;
    }
    assert(scratch@ =~= buffer@ + old(scratch)@.skip(n as int));
}

} // verus!
