//! VM manager: the vCPU and the choice of how to launch it.
use vstd::prelude::*;

verus! {

/// A virtual CPU: its id and the addresses of its VMX control structure
/// and SVM control block (0 when absent).
#[derive(Clone, Copy, Debug, PartialEq, Eq, Structural)]
pub struct Vcpu {
    pub id: u16,
    pub vmcs_region: usize,
    pub vmcb_region: usize,
}

impl Vcpu {
    /// A vCPU with id 0 and no control structure.
    pub fn new() -> (v: Self)
        ensures
            v == (Vcpu { id: 0, vmcs_region: 0, vmcb_region: 0 }),
    {
        Vcpu { id: 0, vmcs_region: 0, vmcb_region: 0 }
    }
}

/// The vCPU after start-up: with VMX active it takes the VMCS region (when
/// one is available); otherwise with SVM active it takes the VMCB.
pub fn bootstrap(vmx_active: bool, vmcs_region: Option<usize>, svm_active: bool, vmcb: Option<usize>) -> (v: Vcpu)
    ensures
        v.id == 0,
        v.vmcs_region == (if vmx_active && vmcs_region is Some { vmcs_region.unwrap() } else { 0 }),
        v.vmcb_region == (if !vmx_active && svm_active && vmcb is Some { vmcb.unwrap() } else { 0 }),
{
    let mut vcpu = Vcpu::new();
    if vmx_active {
        if let Some(region) = vmcs_region {
            vcpu.vmcs_region = region;
        }
    } else if svm_active {
        if let Some(block) = vmcb {
            vcpu.vmcb_region = block;
        }
    }
    vcpu
}

/// How a vCPU is launched.
#[derive(Clone, Copy, Debug, PartialEq, Eq, Structural)]
pub enum LaunchTarget {
    Vmx(usize),
    Svm(usize),
    Idle,
}

/// Launch through VMX when the vCPU has a VMCS, else through SVM when it
/// has a VMCB, else not at all.
pub fn launch(vcpu: &Vcpu) -> (r: LaunchTarget)
    ensures
        vcpu.vmcs_region != 0 ==> r == LaunchTarget::Vmx(vcpu.vmcs_region),
        vcpu.vmcs_region == 0 && vcpu.vmcb_region != 0 ==> r == LaunchTarget::Svm(vcpu.vmcb_region),
        vcpu.vmcs_region == 0 && vcpu.vmcb_region == 0 ==> r == LaunchTarget::Idle,
{
    if vcpu.vmcs_region != 0 {
        LaunchTarget::Vmx(vcpu.vmcs_region)
    } else if vcpu.vmcb_region != 0 {
        LaunchTarget::Svm(vcpu.vmcb_region)
    } else {
        LaunchTarget::Idle
    }
}

} // verus!
