//! Hardware virtualization: choice of backend (Intel VT-x or AMD SVM).
use vstd::prelude::*;

pub mod attest;
pub mod svm;
pub mod vmx;

verus! {

/// The virtualization extension that start-up enables.
#[derive(Clone, Copy, Debug, PartialEq, Eq, Structural)]
pub enum Backend {
    Vmx,
    Svm,
    Unsupported,
}

/// Choose the extension to enable: VT-x when CPUID leaf 1 ECX advertises
/// it, else SVM when the vendor (CPUID leaf 0) is AMD and ECX of leaf
/// 0x8000_0001 advertises it, else none.
pub fn init(leaf1_ecx: u32, vendor: [u8; 12], ext_ecx: u32) -> (r: Backend)
    ensures
        vmx::spec_vmx_supported(leaf1_ecx) ==> r == Backend::Vmx,
        !vmx::spec_vmx_supported(leaf1_ecx) && svm::spec_svm_supported(vendor, ext_ecx) ==> r == Backend::Svm,
        !vmx::spec_vmx_supported(leaf1_ecx) && !svm::spec_svm_supported(vendor, ext_ecx) ==> r
            == Backend::Unsupported,
{
    if vmx::is_supported(leaf1_ecx) {
        Backend::Vmx
    } else if svm::is_supported(vendor, ext_ecx) {
        Backend::Svm
    } else {
        Backend::Unsupported
    }
}

} // verus!
