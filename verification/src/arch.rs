//! x86_64 register arithmetic used when programming control registers and
//! model-specific registers.  The register accesses themselves are
//! instructions issued by the caller; this module computes what is written.
use vstd::prelude::*;

verus! {

pub const IA32_EFER: u32 = 0xC000_0080;
pub const IA32_STAR: u32 = 0xC000_0081;
pub const IA32_LSTAR: u32 = 0xC000_0082;
pub const IA32_FMASK: u32 = 0xC000_0084;
pub const IA32_SYSENTER_CS: u32 = 0x0000_0174;
pub const IA32_SYSENTER_ESP: u32 = 0x0000_0175;
pub const IA32_SYSENTER_EIP: u32 = 0x0000_0176;
pub const IA32_FS_BASE: u32 = 0xC000_0100;
pub const IA32_GS_BASE: u32 = 0xC000_0101;
pub const IA32_KERNEL_GS_BASE: u32 = 0xC000_0102;

/// CR0: paging.
pub const CR0_PG: u64 = 0x8000_0000;
/// CR0: protected mode.
pub const CR0_PE: u64 = 0x1;
/// CR0: write protect.
pub const CR0_WP: u64 = 0x1_0000;
/// CR4: physical address extension.
pub const CR4_PAE: u64 = 0x20;
/// CR4: global pages.
pub const CR4_PGE: u64 = 0x80;
/// EFER: long mode enable.
pub const EFER_LME: u64 = 0x100;
/// EFER: no-execute enable.
pub const EFER_NXE: u64 = 0x800;

/// Kernel code segment selector placed in STAR bits 32..47.
pub const STAR_KERNEL_CS: u64 = 0x08;
/// User code segment selector placed in STAR bits 48..63.
pub const STAR_USER_CS: u64 = 0x1B;

/// The limit and base address that `sgdt` and `sidt` store.
#[derive(Clone, Copy, Debug, PartialEq, Eq, Structural)]
pub struct DescriptorTable {
    pub limit: u16,
    pub base: u64,
}

/// The 64-bit MSR value made of the halves returned in EDX (`high`) and EAX (`low`).
pub open spec fn msr_from_halves(high: u32, low: u32) -> u64 {
    ((high as u64) << 32u64) | (low as u64)
}

/// Combine the EDX:EAX halves that `rdmsr` returns.
pub fn rdmsr_value(high: u32, low: u32) -> (v: u64)
    ensures
        v == msr_from_halves(high, low),
        v as int == high as int * 0x1_0000_0000 + low as int,
{
    let v = ((high as u64) << 32u64) | (low as u64);
    assert(((high as u64) << 32u64) | (low as u64) == (high as u64) * 0x1_0000_0000u64 + (low as u64)) by (bit_vector);
    v
}

/// Split `value` into the EAX (low) and EDX (high) halves that `wrmsr` takes.
pub fn wrmsr_halves(value: u64) -> (r: (u32, u32))
    ensures
        r.0 == (value % 0x1_0000_0000) as u32,
        r.1 == (value / 0x1_0000_0000) as u32,
{
    let low = value as u32;
    let high = (value >> 32u64) as u32;
    assert(value as u32 == (value % 0x1_0000_0000) as u32) by (bit_vector);
    assert((value >> 32u64) as u32 == (value / 0x1_0000_0000) as u32) by (bit_vector);
    (low, high)
}

/// Splitting a value for `wrmsr` and combining the halves as `rdmsr` does
/// gives the value back.
pub proof fn lemma_msr_halves_roundtrip(value: u64)
    ensures
        msr_from_halves((value / 0x1_0000_0000) as u32, (value % 0x1_0000_0000) as u32) == value,
{
    assert(((((value / 0x1_0000_0000) as u32) as u64) << 32u64) | (((value % 0x1_0000_0000) as u32) as u64) == value) by (bit_vector);
}

/// Combining halves and splitting the result gives the halves back.
pub proof fn lemma_msr_combine_roundtrip(high: u32, low: u32)
    ensures
        (msr_from_halves(high, low) % 0x1_0000_0000) as u32 == low,
        (msr_from_halves(high, low) / 0x1_0000_0000) as u32 == high,
{
    assert(((((high as u64) << 32u64) | (low as u64)) % 0x1_0000_0000) as u32 == low) by (bit_vector);
    assert(((((high as u64) << 32u64) | (low as u64)) / 0x1_0000_0000) as u32 == high) by (bit_vector);
}

/// The STAR value programmed at syscall installation: kernel code segment
/// in bits 32..47, user code segment in bits 48..63.
pub fn syscall_star() -> (v: u64)
    ensures
        v == (STAR_KERNEL_CS << 32u64) | (STAR_USER_CS << 48u64),
        v == 0x001B_0008_0000_0000,
{
    let v = (STAR_KERNEL_CS << 32u64) | (STAR_USER_CS << 48u64);
    assert((0x08u64 << 32u64) | (0x1Bu64 << 48u64) == 0x001B_0008_0000_0000u64) by (bit_vector);
    v
}

/// CR4 with physical address extension and global pages enabled.
pub fn long_mode_cr4(cr4: u64) -> (v: u64)
    ensures
        v == cr4 | CR4_PAE | CR4_PGE,
{
    cr4 | CR4_PAE | CR4_PGE
}

/// EFER with long mode and no-execute enabled.
pub fn long_mode_efer(efer: u64) -> (v: u64)
    ensures
        v == efer | EFER_LME | EFER_NXE,
{
    efer | EFER_LME | EFER_NXE
}

/// CR0 with protected mode, paging and write protection enabled.
pub fn long_mode_cr0(cr0: u64) -> (v: u64)
    ensures
        v == cr0 | CR0_PE | CR0_PG | CR0_WP,
{
    cr0 | CR0_PE | CR0_PG | CR0_WP
}

/// Long-mode enabling sets exactly the required bits and keeps the others.
pub proof fn lemma_long_mode_bits(cr4: u64, efer: u64, cr0: u64)
    ensures
        (cr4 | CR4_PAE | CR4_PGE) & CR4_PAE == CR4_PAE,
        (cr4 | CR4_PAE | CR4_PGE) & CR4_PGE == CR4_PGE,
        (cr4 | CR4_PAE | CR4_PGE) & !(CR4_PAE | CR4_PGE) == cr4 & !(CR4_PAE | CR4_PGE),
        (efer | EFER_LME | EFER_NXE) & EFER_LME == EFER_LME,
        (efer | EFER_LME | EFER_NXE) & EFER_NXE == EFER_NXE,
        (cr0 | CR0_PE | CR0_PG | CR0_WP) & CR0_PG == CR0_PG,
        (cr0 | CR0_PE | CR0_PG | CR0_WP) & CR0_PE == CR0_PE,
        (cr0 | CR0_PE | CR0_PG | CR0_WP) & CR0_WP == CR0_WP,
{
    assert((cr4 | 0x20u64 | 0x80u64) & 0x20u64 == 0x20u64) by (bit_vector);
    assert((cr4 | 0x20u64 | 0x80u64) & 0x80u64 == 0x80u64) by (bit_vector);
    assert((cr4 | 0x20u64 | 0x80u64) & !(0x20u64 | 0x80u64) == cr4 & !(0x20u64 | 0x80u64)) by (bit_vector);
    assert((efer | 0x100u64 | 0x800u64) & 0x100u64 == 0x100u64) by (bit_vector);
    assert((efer | 0x100u64 | 0x800u64) & 0x800u64 == 0x800u64) by (bit_vector);
    assert((cr0 | 0x1u64 | 0x8000_0000u64 | 0x1_0000u64) & 0x8000_0000u64 == 0x8000_0000u64) by (bit_vector);
    assert((cr0 | 0x1u64 | 0x8000_0000u64 | 0x1_0000u64) & 0x1u64 == 0x1u64) by (bit_vector);
    assert((cr0 | 0x1u64 | 0x8000_0000u64 | 0x1_0000u64) & 0x1_0000u64 == 0x1_0000u64) by (bit_vector);
}

/// Hook called once the kernel subsystems are up; there is no observer to
/// notify yet.
pub fn announce_ready() {
}

} // verus!
