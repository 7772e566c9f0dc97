//! NVMe controller model exposing Identify and Read.
use vstd::prelude::*;

verus! {

/// Failures of the NVMe controller.
#[derive(Clone, Copy, Debug, PartialEq, Eq, Structural)]
pub enum NvmeError {
    ControllerMissing,
    IoError,
}

/// The Identify Controller data the driver reports.
#[derive(Clone, Copy, Debug)]
pub struct IdentifyController {
    pub vendor_id: u16,
    pub model_number: [u8; 40],
    pub serial_number: [u8; 20],
}

/// PCI vendor id the controller reports.
pub const NVME_VENDOR_ID: u16 = 0x1234;

/// Model number reported: "FXIG08OUH NVME MODEL............." padded with
/// spaces to 40 bytes.
pub open spec fn model_number_bytes() -> Seq<u8> {
    seq![
        70u8, 88, 73, 71, 48, 56, 79, 85, 72, 32, 78, 86, 77, 69, 32, 77, 79, 68, 69, 76, 46, 46, 46, 46,
        46, 46, 46, 46, 46, 46, 46, 46, 46, 32, 32, 32, 32, 32, 32, 32,
    ]
}

/// Serial number reported: "FXIG08OUHNVME0000" padded with spaces to 20 bytes.
pub open spec fn serial_number_bytes() -> Seq<u8> {
    seq![70u8, 88, 73, 71, 48, 56, 79, 85, 72, 78, 86, 77, 69, 48, 48, 48, 48, 32, 32, 32]
}

/// The controller's Identify data.  The model always answers.
pub fn identify_controller() -> (r: Result<IdentifyController, NvmeError>)
    ensures
        r matches Ok(id) && id.vendor_id == NVME_VENDOR_ID && id.model_number@ == model_number_bytes()
            && id.serial_number@ == serial_number_bytes(),
{
    let model_number: [u8; 40] = [
        70u8, 88, 73, 71, 48, 56, 79, 85, 72, 32, 78, 86, 77, 69, 32, 77, 79, 68, 69, 76, 46, 46, 46, 46,
        46, 46, 46, 46, 46, 46, 46, 46, 46, 32, 32, 32, 32, 32, 32, 32,
    ];
    let serial_number: [u8; 20] = [
        70u8, 88, 73, 71, 48, 56, 79, 85, 72, 78, 86, 77, 69, 48, 48, 48, 48, 32, 32, 32,
    ];
    assert(model_number@ =~= model_number_bytes());
    assert(serial_number@ =~= serial_number_bytes());
    Ok(IdentifyController { vendor_id: NVME_VENDOR_ID, model_number, serial_number })
}

/// The test pattern a block read yields: byte `i` is `i mod 256`.
pub open spec fn block_pattern(len: nat) -> Seq<u8> {
    Seq::new(len, |i: int| (i % 256) as u8)
}

/// Read block `lba` into `buffer`.  The model fills the buffer with the
/// test pattern whatever the block, and always succeeds.
pub fn read_block(lba: u64, buffer: &mut [u8]) -> (r: Result<(), NvmeError>)
    ensures
        r is Ok,
        final(buffer)@ == block_pattern(old(buffer)@.len()),
{
    let n = buffer.len();
    let mut idx: usize = 0;
    while idx < n
        invariant
            0 <= idx <= n,
            n == buffer@.len(),
            n == old(buffer)@.len(),
            forall|j: int| 0 <= j < idx ==> buffer@[j] == (j % 256) as u8,
        decreases n - idx,
    {
        buffer[idx] = (idx & 0xFF) as u8;
        assert((idx & 0xFF) as u8 == (idx % 256) as u8) by (bit_vector);
        idx = idx + 1;
    }
    assert(buffer@ =~= block_pattern(old(buffer)@.len()));
    Ok(())
}

/// The leading bytes of a sector shown in the log: at most the first 16.
pub fn sector_preview(buffer: &[u8]) -> (r: Vec<u8>)
    ensures
        r@ == buffer@.take(if buffer@.len() < 16 { buffer@.len() as int } else { 16 }),
{
    let n = if buffer.len() < 16 { buffer.len() } else { 16 };
    let mut out: Vec<u8> = Vec::new();
    let mut i: usize = 0;
    while i < n
        invariant
            0 <= i <= n,
            n <= buffer@.len(),
            out@ == buffer@.take(i as int),
        decreases n - i,
    {
        out.push(buffer[i]);
        assert(buffer@.take(i + 1) =~= buffer@.take(i as int).push(buffer@[i as int]));
        i = i + 1;
    }
    out
}

/// A block read fills the whole buffer, byte `i` with `i mod 256`: it
/// counts 0, 1, ..., 255 and starts again.
pub proof fn lemma_block_pattern(len: nat, i: int)
    requires
        0 <= i < len,
    ensures
        block_pattern(len).len() == len,
        block_pattern(len)[i] == i % 256,
        i >= 256 ==> block_pattern(len)[i] == block_pattern(len)[i - 256],
{
}

} // verus!
