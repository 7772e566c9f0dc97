//! AMD SVM: detection from CPUID, and the VMCB set-up hook.
use vstd::prelude::*;

verus! {

/// The CPUID leaf 0 vendor string of AMD processors, "AuthenticAMD".
pub open spec fn amd_vendor() -> Seq<u8> {
    seq![65u8, 117, 116, 104, 101, 110, 116, 105, 99, 65, 77, 68]
}

/// CPUID leaf 0x8000_0001 ECX: the SVM feature bit.
pub const CPUID_EXT_ECX_SVM: u32 = 0x4;

/// The processor is an AMD one (`vendor`, the 12 bytes of EBX, EDX, ECX of
/// CPUID leaf 0) and advertises SVM in ECX of leaf 0x8000_0001.
pub open spec fn spec_svm_supported(vendor: [u8; 12], ext_ecx: u32) -> bool {
    vendor@ == amd_vendor() && ext_ecx & CPUID_EXT_ECX_SVM != 0
}

/// Check the CPUID vendor string for "AuthenticAMD" and the SVM bit.
pub fn is_supported(vendor: [u8; 12], ext_ecx: u32) -> (r: bool)
    ensures
        r == spec_svm_supported(vendor, ext_ecx),
{
    let amd: [u8; 12] = [65u8, 117, 116, 104, 101, 110, 116, 105, 99, 65, 77, 68];
    let mut i: usize = 0;
    while i < 12
        invariant
            0 <= i <= 12,
            amd@ == amd_vendor(),
            forall|j: int| 0 <= j < i ==> vendor@[j] == amd_vendor()[j],
        decreases 12 - i,
    {
        if vendor[i] != amd[i] {
            return false;
        }
        i = i + 1;
    }
    assert(vendor@ =~= amd_vendor());
    ext_ecx & CPUID_EXT_ECX_SVM != 0
}

/// SVM is reported exactly for the vendor string "AuthenticAMD" with bit 2
/// of leaf 0x8000_0001 ECX set.
pub proof fn lemma_svm_detection(vendor: [u8; 12], ext_ecx: u32)
    ensures
        spec_svm_supported(vendor, ext_ecx) == (vendor@ == seq![
            'A' as u8, 'u' as u8, 't' as u8, 'h' as u8, 'e' as u8, 'n' as u8, 't' as u8, 'i' as u8, 'c' as u8, 'A' as u8,
            'M' as u8, 'D' as u8,
        ] && ext_ecx & 0b100 != 0),
{
    assert(amd_vendor() =~= seq![
        'A' as u8, 'u' as u8, 't' as u8, 'h' as u8, 'e' as u8, 'n' as u8, 't' as u8, 'i' as u8, 'c' as u8, 'A' as u8,
        'M' as u8, 'D' as u8,
    ]);
}

/// Prepare the VMCB.  No control block is allocated yet.
pub fn init() {
}

} // verus!
