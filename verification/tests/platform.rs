use aegis_mk::arch::{long_mode_cr0, long_mode_cr4, long_mode_efer, rdmsr_value, syscall_star, wrmsr_halves};
use aegis_mk::boot::{FrameBufferInfo, PixelFormat};
use aegis_mk::drivers::framebuffer::FrameBuffer;
use aegis_mk::drivers::nvme::{identify_controller, read_block, sector_preview, NVME_VENDOR_ID};
use aegis_mk::drivers::ps2::{inject_scancode, poll_scancode, Ps2Controller};
use aegis_mk::drivers::virtio_net::{self, Features, NEGOTIATED_FEATURES};
use aegis_mk::hv::{self, svm, vmx, Backend};
use aegis_mk::hv::vmx::{GuestState, HostState, VmError, VmcsStep};
use aegis_mk::time::hpet;
use aegis_mk::time::apic::{enable_xapic, eoi_address, program_timer};
use aegis_mk::vm::vmm::{bootstrap, launch, LaunchTarget, Vcpu};

#[test]
fn msr_halves_round_trip() {
    assert_eq!(rdmsr_value(0x1234_5678, 0x9abc_def0), 0x1234_5678_9abc_def0);
    assert_eq!(wrmsr_halves(0x1234_5678_9abc_def0), (0x9abc_def0, 0x1234_5678));
    let (low, high) = wrmsr_halves(0xFFFF_0000_0000_FFFF);
    assert_eq!(rdmsr_value(high, low), 0xFFFF_0000_0000_FFFF);
}

#[test]
fn long_mode_bits() {
    assert_eq!(syscall_star(), 0x001B_0008_0000_0000);
    assert_eq!(long_mode_cr4(0), 0xA0);
    assert_eq!(long_mode_cr4(0x2000), 0x20A0);
    assert_eq!(long_mode_efer(0x1), 0x901);
    assert_eq!(long_mode_cr0(0x10), 0x8001_0011);
}

#[test]
fn apic_addresses() {
    assert_eq!(enable_xapic(0xFEE0_0100), (0xFEE0_0900, 0xFEE0_0000));
    assert_eq!(eoi_address(0), None);
    assert_eq!(eoi_address(0xFEE0_0000), Some(0xFEE0_00B0));
    assert_eq!(program_timer(0), None);
    assert_eq!(
        program_timer(0xFEE0_0000),
        Some((0xFEE0_03E0, 0b1011, 0xFEE0_0380, 0x00FF_FFFF, 0xFEE0_0390))
    );
}

#[test]
fn vmx_support_and_backend() {
    assert!(vmx::is_supported(0x20));
    assert!(!vmx::is_supported(0xFFFF_FFDF));
    let amd = *b"AuthenticAMD";
    let intel = *b"GenuineIntel";
    assert!(svm::is_supported(amd, 0x4));
    assert!(!svm::is_supported(amd, 0x3));
    assert!(!svm::is_supported(intel, 0x4));
    assert_eq!(hv::init(0x20, amd, 0x4), Backend::Vmx);
    assert_eq!(hv::init(0, amd, 0x4), Backend::Svm);
    assert_eq!(hv::init(0, intel, 0x4), Backend::Unsupported);
    assert_eq!(hv::init(0, amd, 0), Backend::Unsupported);
}

#[test]
fn feature_control_decisions() {
    assert!(matches!(vmx::feature_control_update(0), Ok(Some(0x5))));
    assert!(matches!(vmx::feature_control_update(0x100), Ok(Some(0x105))));
    assert!(matches!(vmx::feature_control_update(0x5), Ok(None)));
    assert!(matches!(vmx::feature_control_update(0x1), Err(VmError::FeatureControlLocked)));
}

#[test]
fn vmx_helpers() {
    assert_eq!(vmx::cr4_with_vmx(0x20), 0x2020);
    assert_eq!(vmx::revision_id(0xDEAD_0000_0000_0011), 0x11);
    assert_eq!(vmx::region_header(0x0403_0201), vec![1, 2, 3, 4]);
    assert!(vmx::vmxon_result(0).is_ok());
    assert!(matches!(vmx::vmxon_result(1), Err(VmError::VmxonFailed)));
    assert!(vmx::instruction_result(0, "vmclear").is_ok());
    assert!(matches!(vmx::instruction_result(1, "vmptrld"), Err(VmError::InstructionFailure("vmptrld"))));
    assert!(matches!(VmError::Unsupported, VmError::Unsupported));
}

#[test]
fn control_adjustment() {
    // Allowed-0 bits (low half) are forced on, allowed-1 bits (high half) bound the rest.
    assert_eq!(vmx::adjust_controls(0x0000_00FF_0000_0016, 0x81), 0x97);
    assert_eq!(vmx::adjust_controls(0x0000_000F_0000_0001, 0xF0), 0x1);
}

#[test]
fn vmcs_configuration_plan() {
    let host = HostState { cr0: 1, cr3: 2, cr4: 3, rip: 4, rsp: 5 };
    let guest = GuestState { cr0: 6, cr3: 7, cr4: 8, rip: 9, rsp: 10 };
    let plan = vmx::configure_vmcs(&host, &guest, 0x0000_00FF_0000_0016, 0x0000_FFFF_0000_0000, 0x0000_0003_0000_0002, 0);
    assert_eq!(plan.len(), 29);
    assert_eq!(plan[0], (vmx::VMCS_PINBASED_CTLS, 0x16));
    assert_eq!(plan[1], (vmx::VMCS_CPU_BASED_CTLS, 0));
    assert_eq!(plan[2], (vmx::VMCS_EXIT_CTLS_FIELD, 0x2));
    assert_eq!(plan[3], (vmx::VMCS_ENTRY_CTLS_FIELD, 0));
    assert_eq!(plan[4], (vmx::VMCS_HOST_CR0, 1));
    assert_eq!(plan[8], (vmx::VMCS_HOST_RIP, 4));
    assert_eq!(plan[9], (vmx::VMCS_HOST_CS_SELECTOR, 0x08));
    assert_eq!(plan[7], (vmx::VMCS_HOST_RSP, 5));
    assert_eq!(plan[16], (vmx::VMCS_GUEST_CR0, 6));
    assert_eq!(plan[19], (vmx::VMCS_GUEST_RSP, 10));
    assert_eq!(plan[20], (vmx::VMCS_GUEST_RIP, 9));
    assert_eq!(plan[21], (vmx::VMCS_GUEST_RFLAGS, 0x2));
    assert_eq!(plan[28], (vmx::VMCS_GUEST_TR_SELECTOR, 0));
}

#[test]
fn vmcs_writes_stop_at_first_failure() {
    let plan = [(1u64, 10u64), (2, 20), (3, 30)];
    assert!(matches!(vmx::vmcs_step(&plan, &[]), VmcsStep::Write(1, 10)));
    assert!(matches!(vmx::vmcs_step(&plan, &[true, true]), VmcsStep::Write(3, 30)));
    assert!(matches!(vmx::vmcs_step(&plan, &[true, true, true]), VmcsStep::Done(Ok(()))));
    assert!(matches!(
        vmx::vmcs_step(&plan, &[true, false]),
        VmcsStep::Done(Err(VmError::InstructionFailure("vmwrite")))
    ));
    assert!(matches!(
        vmx::vmcs_step(&plan, &[false, true, true, true]),
        VmcsStep::Done(Err(VmError::InstructionFailure("vmwrite")))
    ));
}

#[test]
fn hpet_time_and_waits() {
    // A 10 ns period: 100_000 ticks per millisecond.
    assert_eq!(hpet::counter_ms(250_000, 10_000_000), 2);
    assert_eq!(hpet::counter_ms(u64::MAX, u32::MAX), 79_228_162_495_817_593);
    assert!(hpet::sleep_ms(0, 5, 5));
    assert!(!hpet::sleep_ms(10, 100, 109));
    assert!(hpet::sleep_ms(10, 100, 110));
    assert!(hpet::sleep_ms(10, u64::MAX - 2, 7));
    assert!(!hpet::sleep_ms(10, u64::MAX - 2, 6));
}

#[test]
fn transmit_copy() {
    let mut scratch = [0xEEu8; 2048];
    virtio_net::submit_tx(&[1, 2, 3], &mut scratch);
    assert_eq!(&scratch[..4], &[1, 2, 3, 0xEE]);
    virtio_net::submit_tx(&[9; 2048], &mut scratch);
    assert!(scratch.iter().all(|&b| b == 9));
}

#[test]
fn vcpu_bootstrap_and_launch() {
    assert_eq!(Vcpu::new(), Vcpu { id: 0, vmcs_region: 0, vmcb_region: 0 });
    let vmx_cpu = bootstrap(true, Some(0x5000), true, Some(0x6000));
    assert_eq!(vmx_cpu, Vcpu { id: 0, vmcs_region: 0x5000, vmcb_region: 0 });
    assert_eq!(launch(&vmx_cpu), LaunchTarget::Vmx(0x5000));
    let svm_cpu = bootstrap(false, Some(0x5000), true, Some(0x6000));
    assert_eq!(launch(&svm_cpu), LaunchTarget::Svm(0x6000));
    let idle = bootstrap(true, None, false, None);
    assert_eq!(launch(&idle), LaunchTarget::Idle);
}

#[test]
fn nvme_model() {
    let id = identify_controller().unwrap();
    assert_eq!(id.vendor_id, NVME_VENDOR_ID);
    assert!(id.model_number.starts_with(b"FXIG08OUH NVME MODEL"));
    assert_eq!(id.model_number.len(), 40);
    assert_eq!(id.model_number[39], b' ');
    assert!(id.serial_number.starts_with(b"FXIG08OUHNVME0000"));
    let mut buffer = [0xAAu8; 300];
    assert!(read_block(7, &mut buffer).is_ok());
    assert_eq!(buffer[0], 0);
    assert_eq!(buffer[255], 255);
    assert_eq!(buffer[256], 0);
    assert_eq!(buffer[299], 43);
    assert_eq!(sector_preview(&buffer), (0..16u8).collect::<Vec<u8>>());
    assert_eq!(sector_preview(&buffer[..3]), vec![0, 1, 2]);
}

#[test]
fn ps2_scancodes() {
    let mut ctrl = Ps2Controller::new();
    assert_eq!(poll_scancode(&mut ctrl), None);
    inject_scancode(&mut ctrl, 0x1E);
    inject_scancode(&mut ctrl, 0x30);
    assert_eq!(poll_scancode(&mut ctrl), Some(0x30));
    assert_eq!(poll_scancode(&mut ctrl), None);
    inject_scancode(&mut ctrl, 0);
    assert_eq!(poll_scancode(&mut ctrl), None);
}

#[test]
fn virtio_features_and_pixel_offsets() {
    let mut features = Features { negotiate: 0xFFFF };
    virtio_net::init(&mut features);
    assert_eq!(features.negotiate, NEGOTIATED_FEATURES);
    assert_eq!(NEGOTIATED_FEATURES, 0x21);
    let fb = FrameBuffer {
        addr: 0x8000_0000,
        info: FrameBufferInfo { width: 800, height: 600, pixel_format: PixelFormat::Rgb, size: 800 * 600 * 4, phys_addr: 0 },
    };
    assert_eq!(fb.pixel_offset(0, 0), 0);
    assert_eq!(fb.pixel_offset(3, 2), 2 * 3200 + 12);
}
