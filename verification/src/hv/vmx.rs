//! Intel VT-x: support detection, VMXON preconditions and the VMCS
//! contents.  The VMX instructions themselves are issued by the caller with
//! the values computed here.
use vstd::prelude::*;
use vstd::bytes::{spec_u32_to_le_bytes, u32_to_le_bytes};

verus! {

pub const IA32_FEATURE_CONTROL: u32 = 0x3A;
pub const IA32_VMX_BASIC: u32 = 0x480;
pub const IA32_VMX_PINBASED_CTLS: u32 = 0x481;
pub const IA32_VMX_PROCBASED_CTLS: u32 = 0x482;
pub const IA32_VMX_EXIT_CTLS: u32 = 0x483;
pub const IA32_VMX_ENTRY_CTLS: u32 = 0x484;

/// CR4 bit enabling VMX operation.
pub const CR4_VMXE: u64 = 0x2000;
/// Feature-control lock bit.
pub const FEATURE_CONTROL_LOCK: u64 = 0x1;
/// Feature-control bit allowing VMXON outside SMX.
pub const FEATURE_CONTROL_VMXON_OUTSIDE_SMX: u64 = 0x4;
/// CPUID.1:ECX bit advertising VMX.
pub const CPUID_ECX_VMX: u32 = 0x20;

pub const VMCS_EXIT_REASON: u64 = 0x4402;
pub const VMCS_PINBASED_CTLS: u64 = 0x4000;
pub const VMCS_CPU_BASED_CTLS: u64 = 0x4002;
pub const VMCS_EXIT_CTLS_FIELD: u64 = 0x400C;
pub const VMCS_ENTRY_CTLS_FIELD: u64 = 0x4012;
pub const VMCS_HOST_CR0: u64 = 0x6C00;
pub const VMCS_HOST_CR3: u64 = 0x6C02;
pub const VMCS_HOST_CR4: u64 = 0x6C04;
pub const VMCS_HOST_RSP: u64 = 0x6C14;
pub const VMCS_HOST_RIP: u64 = 0x6C16;
pub const VMCS_HOST_CS_SELECTOR: u64 = 0x0C02;
pub const VMCS_HOST_SS_SELECTOR: u64 = 0x0C04;
pub const VMCS_HOST_DS_SELECTOR: u64 = 0x0C06;
pub const VMCS_HOST_ES_SELECTOR: u64 = 0x0C00;
pub const VMCS_HOST_FS_SELECTOR: u64 = 0x0C08;
pub const VMCS_HOST_GS_SELECTOR: u64 = 0x0C0A;
pub const VMCS_HOST_TR_SELECTOR: u64 = 0x0C0C;
pub const VMCS_GUEST_CR0: u64 = 0x6800;
pub const VMCS_GUEST_CR3: u64 = 0x6802;
pub const VMCS_GUEST_CR4: u64 = 0x6804;
pub const VMCS_GUEST_RSP: u64 = 0x681C;
pub const VMCS_GUEST_RIP: u64 = 0x681E;
pub const VMCS_GUEST_RFLAGS: u64 = 0x6820;
pub const VMCS_GUEST_CS_SELECTOR: u64 = 0x0802;
pub const VMCS_GUEST_SS_SELECTOR: u64 = 0x0804;
pub const VMCS_GUEST_DS_SELECTOR: u64 = 0x0806;
pub const VMCS_GUEST_ES_SELECTOR: u64 = 0x0800;
pub const VMCS_GUEST_FS_SELECTOR: u64 = 0x0808;
pub const VMCS_GUEST_GS_SELECTOR: u64 = 0x080A;
pub const VMCS_GUEST_TR_SELECTOR: u64 = 0x080C;

/// Why VMX could not be entered or an instruction failed.
#[derive(Clone, Copy, Debug)]
pub enum VmError {
    Unsupported,
    FeatureControlLocked,
    VmxonFailed,
    InstructionFailure(&'static str),
}

/// Host register state loaded on VM exit.
#[derive(Clone, Copy, Debug, PartialEq, Eq, Structural)]
pub struct HostState {
    pub cr0: u64,
    pub cr3: u64,
    pub cr4: u64,
    pub rip: u64,
    pub rsp: u64,
}

/// Guest register state loaded on VM entry.
#[derive(Clone, Copy, Debug, PartialEq, Eq, Structural)]
pub struct GuestState {
    pub cr0: u64,
    pub cr3: u64,
    pub cr4: u64,
    pub rip: u64,
    pub rsp: u64,
}

/// CPUID.1:ECX advertises VMX.
pub open spec fn spec_vmx_supported(leaf1_ecx: u32) -> bool {
    leaf1_ecx & CPUID_ECX_VMX != 0
}

/// Whether the CPU whose CPUID leaf 1 returned `leaf1_ecx` in ECX supports VMX.
pub fn is_supported(leaf1_ecx: u32) -> (r: bool)
    ensures
        r == spec_vmx_supported(leaf1_ecx),
{
    leaf1_ecx & CPUID_ECX_VMX != 0
}

/// What to do with `IA32_FEATURE_CONTROL` holding `value` before VMXON:
/// write back `value` with the lock and VMXON-outside-SMX bits when it is
/// unlocked (`Ok(Some(new))`); nothing when it is locked with VMXON allowed
/// (`Ok(None)`); fail when it is locked with VMXON forbidden.
pub fn feature_control_update(value: u64) -> (r: Result<Option<u64>, VmError>)
    ensures
        value & FEATURE_CONTROL_LOCK == 0 ==> r == Ok::<Option<u64>, VmError>(
            Some(value | FEATURE_CONTROL_LOCK | FEATURE_CONTROL_VMXON_OUTSIDE_SMX),
        ),
        value & FEATURE_CONTROL_LOCK != 0 && value & FEATURE_CONTROL_VMXON_OUTSIDE_SMX == 0 ==> r
            == Err::<Option<u64>, VmError>(VmError::FeatureControlLocked),
        value & FEATURE_CONTROL_LOCK != 0 && value & FEATURE_CONTROL_VMXON_OUTSIDE_SMX != 0 ==> r
            == Ok::<Option<u64>, VmError>(None),
{
    if value & FEATURE_CONTROL_LOCK == 0 {
        Ok(Some(value | FEATURE_CONTROL_LOCK | FEATURE_CONTROL_VMXON_OUTSIDE_SMX))
    } else if value & FEATURE_CONTROL_VMXON_OUTSIDE_SMX == 0 {
        Err(VmError::FeatureControlLocked)
    } else {
        Ok(None)
    }
}

/// CR4 with VMX operation enabled.
pub fn cr4_with_vmx(cr4: u64) -> (r: u64)
    ensures
        r == cr4 | CR4_VMXE,
{
    cr4 | CR4_VMXE
}

/// The VMCS revision identifier: bits 0..31 of `IA32_VMX_BASIC`.
pub fn revision_id(vmx_basic: u64) -> (r: u32)
    ensures
        r == (vmx_basic % 0x1_0000_0000) as u32,
{
    let r = (vmx_basic & 0xFFFF_FFFFu64) as u32;
    assert((vmx_basic & 0xFFFF_FFFFu64) as u32 == (vmx_basic % 0x1_0000_0000) as u32) by (bit_vector);
    r
}

/// The first four bytes of the VMXON and VMCS regions: the revision
/// identifier, little endian.
pub fn region_header(revision: u32) -> (r: Vec<u8>)
    ensures
        r@ == spec_u32_to_le_bytes(revision),
{
    u32_to_le_bytes(revision)
}

/// The outcome of VMXON given the flag that `setna` recorded.
pub fn vmxon_result(status: u8) -> (r: Result<(), VmError>)
    ensures
        status == 0 ==> r is Ok,
        status != 0 ==> r == Err::<(), VmError>(VmError::VmxonFailed),
{
    if status == 0 {
        Ok(())
    } else {
        Err(VmError::VmxonFailed)
    }
}

/// The outcome of the VMX instruction `instruction` given the flag that
/// `setna` recorded.
pub fn instruction_result(status: u8, instruction: &'static str) -> (r: Result<(), VmError>)
    ensures
        status == 0 ==> r is Ok,
        status != 0 ==> r == Err::<(), VmError>(VmError::InstructionFailure(instruction)),
{
    if status == 0 {
        Ok(())
    } else {
        Err(VmError::InstructionFailure(instruction))
    }
}

/// A VMX control value: the requested bits plus those the capability MSR
/// (`msr_value`) forces to one, restricted to those it allows to be one.
pub open spec fn spec_adjust_controls(msr_value: u64, requested: u32) -> u32 {
    (requested | (msr_value % 0x1_0000_0000) as u32) & (msr_value / 0x1_0000_0000) as u32
}

/// Adjust `requested` control bits to what the capability MSR value allows.
pub fn adjust_controls(msr_value: u64, requested: u32) -> (r: u32)
    ensures
        r == spec_adjust_controls(msr_value, requested),
{
    let allowed0 = msr_value as u32;
    let allowed1 = (msr_value >> 32u64) as u32;
    assert(msr_value as u32 == (msr_value % 0x1_0000_0000) as u32) by (bit_vector);
    assert((msr_value >> 32u64) as u32 == (msr_value / 0x1_0000_0000) as u32) by (bit_vector);
    (requested | allowed0) & allowed1
}

/// The VMCS writes, in order, that configure a guest: the four execution
/// controls, then host state and selectors, then guest state, RFLAGS and
/// selectors.
pub open spec fn vmcs_plan(host: HostState, guest: GuestState, pin: u32, cpu: u32, exit: u32, entry: u32) -> Seq<(u64, u64)> {
    seq![
        (VMCS_PINBASED_CTLS, pin as u64),
        (VMCS_CPU_BASED_CTLS, cpu as u64),
        (VMCS_EXIT_CTLS_FIELD, exit as u64),
        (VMCS_ENTRY_CTLS_FIELD, entry as u64),
        (VMCS_HOST_CR0, host.cr0),
        (VMCS_HOST_CR3, host.cr3),
        (VMCS_HOST_CR4, host.cr4),
        (VMCS_HOST_RSP, host.rsp),
        (VMCS_HOST_RIP, host.rip),
        (VMCS_HOST_CS_SELECTOR, 0x08u64),
        (VMCS_HOST_SS_SELECTOR, 0x10u64),
        (VMCS_HOST_DS_SELECTOR, 0x10u64),
        (VMCS_HOST_ES_SELECTOR, 0x10u64),
        (VMCS_HOST_FS_SELECTOR, 0u64),
        (VMCS_HOST_GS_SELECTOR, 0u64),
        (VMCS_HOST_TR_SELECTOR, 0u64),
        (VMCS_GUEST_CR0, guest.cr0),
        (VMCS_GUEST_CR3, guest.cr3),
        (VMCS_GUEST_CR4, guest.cr4),
        (VMCS_GUEST_RSP, guest.rsp),
        (VMCS_GUEST_RIP, guest.rip),
        (VMCS_GUEST_RFLAGS, 0x2u64),
        (VMCS_GUEST_CS_SELECTOR, 0x08u64),
        (VMCS_GUEST_SS_SELECTOR, 0x10u64),
        (VMCS_GUEST_DS_SELECTOR, 0x10u64),
        (VMCS_GUEST_ES_SELECTOR, 0x10u64),
        (VMCS_GUEST_FS_SELECTOR, 0u64),
        (VMCS_GUEST_GS_SELECTOR, 0u64),
        (VMCS_GUEST_TR_SELECTOR, 0u64),
    ]
}

/// The (field, value) pairs to write, in order, to configure the VMCS for
/// `host` and `guest`; the four controls are adjusted against the
/// pin-based, processor-based, exit and entry capability MSR values with
/// nothing requested beyond what they force.
pub fn configure_vmcs(
    host: &HostState,
    guest: &GuestState,
    pinbased_msr: u64,
    procbased_msr: u64,
    exit_msr: u64,
    entry_msr: u64,
) -> (r: Vec<(u64, u64)>)
    ensures
        r@ == vmcs_plan(
            *host,
            *guest,
            spec_adjust_controls(pinbased_msr, 0),
            spec_adjust_controls(procbased_msr, 0),
            spec_adjust_controls(exit_msr, 0),
            spec_adjust_controls(entry_msr, 0),
        ),
{
    let pin = adjust_controls(pinbased_msr, 0);
    let cpu = adjust_controls(procbased_msr, 0);
    let exit = adjust_controls(exit_msr, 0);
    let entry = adjust_controls(entry_msr, 0);
    let mut w: Vec<(u64, u64)> = Vec::new();
    w.push((VMCS_PINBASED_CTLS, pin as u64));
    w.push((VMCS_CPU_BASED_CTLS, cpu as u64));
    w.push((VMCS_EXIT_CTLS_FIELD, exit as u64));
    w.push((VMCS_ENTRY_CTLS_FIELD, entry as u64));
    w.push((VMCS_HOST_CR0, host.cr0));
    w.push((VMCS_HOST_CR3, host.cr3));
    w.push((VMCS_HOST_CR4, host.cr4));
    w.push((VMCS_HOST_RSP, host.rsp));
    w.push((VMCS_HOST_RIP, host.rip));
    w.push((VMCS_HOST_CS_SELECTOR, 0x08));
    w.push((VMCS_HOST_SS_SELECTOR, 0x10));
    w.push((VMCS_HOST_DS_SELECTOR, 0x10));
    w.push((VMCS_HOST_ES_SELECTOR, 0x10));
    w.push((VMCS_HOST_FS_SELECTOR, 0));
    w.push((VMCS_HOST_GS_SELECTOR, 0));
    w.push((VMCS_HOST_TR_SELECTOR, 0));
    w.push((VMCS_GUEST_CR0, guest.cr0));
    w.push((VMCS_GUEST_CR3, guest.cr3));
    w.push((VMCS_GUEST_CR4, guest.cr4));
    w.push((VMCS_GUEST_RSP, guest.rsp));
    w.push((VMCS_GUEST_RIP, guest.rip));
    w.push((VMCS_GUEST_RFLAGS, 0x2));
    w.push((VMCS_GUEST_CS_SELECTOR, 0x08));
    w.push((VMCS_GUEST_SS_SELECTOR, 0x10));
    w.push((VMCS_GUEST_DS_SELECTOR, 0x10));
    w.push((VMCS_GUEST_ES_SELECTOR, 0x10));
    w.push((VMCS_GUEST_FS_SELECTOR, 0));
    w.push((VMCS_GUEST_GS_SELECTOR, 0));
    w.push((VMCS_GUEST_TR_SELECTOR, 0));
    assert(w@ =~= vmcs_plan(*host, *guest, pin, cpu, exit, entry));
    w
}

/// What configuring the VMCS does next: issue a write, or finish.
#[derive(Clone, Copy, Debug)]
pub enum VmcsStep {
    /// Write `value` to the VMCS field `field`.
    Write(u64, u64),
    /// Stop with this result.
    Done(Result<(), VmError>),
}

/// Every write issued so far succeeded.
pub open spec fn all_written(results: Seq<bool>) -> bool {
    forall|i: int| 0 <= i < results.len() ==> #[trigger] results[i]
}

/// The step after the writes of `plan` whose outcomes are `results` (one
/// per write issued, in order): the first failed write ends the
/// configuration with the `vmwrite` error, else the next planned write is
/// issued, and when every write succeeded the configuration is done.
pub open spec fn vmcs_next(plan: Seq<(u64, u64)>, results: Seq<bool>) -> VmcsStep {
    if !all_written(results) {
        VmcsStep::Done(Err(VmError::InstructionFailure("vmwrite")))
    } else if results.len() < plan.len() {
        VmcsStep::Write(plan[results.len() as int].0, plan[results.len() as int].1)
    } else {
        VmcsStep::Done(Ok(()))
    }
}

/// Decide the next step of writing `plan` (see `vmcs_next`).
pub fn vmcs_step(plan: &[(u64, u64)], results: &[bool]) -> (r: VmcsStep)
    ensures
        r == vmcs_next(plan@, results@),
{
    let mut i: usize = 0;
    while i < results.len()
        invariant
            0 <= i <= results@.len(),
            forall|j: int| 0 <= j < i ==> results@[j],
        decreases results@.len() - i,
    {
        if !results[i] {
            return VmcsStep::Done(Err(VmError::InstructionFailure("vmwrite")));
        }
        i = i + 1;
    }
    if results.len() < plan.len() {
        let (field, value) = plan[results.len()];
        VmcsStep::Write(field, value)
    } else {
        VmcsStep::Done(Ok(()))
    }
}

/// Once a write has failed nothing more is written, whatever else is
/// reported: the configuration ends with the `vmwrite` error.
pub proof fn lemma_vmcs_stops_at_failure(plan: Seq<(u64, u64)>, results: Seq<bool>, later: Seq<bool>)
    requires
        !all_written(results),
    ensures
        vmcs_next(plan, results + later) == VmcsStep::Done(Err(VmError::InstructionFailure("vmwrite"))),
{
    let i = choose|i: int| 0 <= i < results.len() && !results[i];
    assert((results + later)[i] == results[i]);
}

/// While every write succeeds the planned writes are issued one by one, in
/// order, and after the last the configuration succeeds.
pub proof fn lemma_vmcs_writes_in_order(plan: Seq<(u64, u64)>, n: nat)
    requires
        n <= plan.len(),
    ensures
        n < plan.len() ==> vmcs_next(plan, Seq::new(n, |i: int| true)) == VmcsStep::Write(plan[n as int].0, plan[n as int].1),
        n == plan.len() ==> vmcs_next(plan, Seq::new(n, |i: int| true)) == VmcsStep::Done(Ok(())),
{
}

/// Each register field of the VMCS is written from its own source: the
/// host fields (0x6Cxx) from `host`, the guest fields (0x68xx) from
/// `guest`, the four execution controls from their adjusted values; the
/// selectors are the kernel code (0x08) and data (0x10) segments and 0,
/// guest RFLAGS is 0x2; and no field is written twice.
pub proof fn lemma_vmcs_plan_sources(host: HostState, guest: GuestState, pin: u32, cpu: u32, exit: u32, entry: u32)
    ensures
        ({
            let p = vmcs_plan(host, guest, pin, cpu, exit, entry);
            &&& p.len() == 29
            &&& forall|i: int, j: int| 0 <= i < 29 && 0 <= j < 29 && i != j ==> #[trigger] p[i].0 != #[trigger] p[j].0
            &&& forall|i: int|
                0 <= i < 29 ==> {
                    let (f, v) = #[trigger] p[i];
                    &&& f == 0x4000 ==> v == pin as u64
                    &&& f == 0x4002 ==> v == cpu as u64
                    &&& f == 0x400C ==> v == exit as u64
                    &&& f == 0x4012 ==> v == entry as u64
                    &&& f == 0x6C00 ==> v == host.cr0
                    &&& f == 0x6C02 ==> v == host.cr3
                    &&& f == 0x6C04 ==> v == host.cr4
                    &&& f == 0x6C14 ==> v == host.rsp
                    &&& f == 0x6C16 ==> v == host.rip
                    &&& f == 0x6800 ==> v == guest.cr0
                    &&& f == 0x6802 ==> v == guest.cr3
                    &&& f == 0x6804 ==> v == guest.cr4
                    &&& f == 0x681C ==> v == guest.rsp
                    &&& f == 0x681E ==> v == guest.rip
                    &&& f == 0x6820 ==> v == 0x2
                    &&& (f == 0x0C02 || f == 0x0802) ==> v == 0x08
                    &&& (f == 0x0C04 || f == 0x0C06 || f == 0x0C00 || f == 0x0804 || f == 0x0806 || f == 0x0800) ==> v
                        == 0x10
                    &&& (f == 0x0C08 || f == 0x0C0A || f == 0x0C0C || f == 0x0808 || f == 0x080A || f == 0x080C) ==> v
                        == 0
                }
        }),
{
}

/// A control value never sets a bit that the capability MSR's allowed-1
/// half (bits 32..63) forbids, sets every bit that its allowed-0 half (bits
/// 0..31) forces when allowed, keeps every requested bit that is allowed,
/// and sets no bit that was neither requested nor forced.
pub proof fn lemma_adjust_controls_bits(msr_value: u64, requested: u32)
    ensures
        ({
            let r = spec_adjust_controls(msr_value, requested);
            let low = (msr_value % 0x1_0000_0000) as u32;
            let high = (msr_value / 0x1_0000_0000) as u32;
            &&& r & !high == 0
            &&& r & (low & high) == low & high
            &&& r & (requested & high) == requested & high
            &&& r & !(requested | low) == 0
        }),
{
    let low = (msr_value % 0x1_0000_0000) as u32;
    let high = (msr_value / 0x1_0000_0000) as u32;
    let r = (requested | low) & high;
    assert(r & !high == 0 && r & (low & high) == low & high && r & (requested & high) == requested & high && r & !(
    requested | low) == 0) by (bit_vector)
        requires
            r == (requested | low) & high,
    ;
}

} // verus!
