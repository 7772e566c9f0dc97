use aegis_mk::boot::{
    boot_info_encoding, build_boot_info, digest_boot_info, first_usable, frame_alloc, frame_init, frame_range,
    heap_region, translate_memory_type, usable_regions, BootInfo, FirmwareDescriptor, FrameAllocator,
    FrameBufferInfo, MemoryRegion, MemoryRegionKind, PixelFormat, FRAME_SIZE, MAX_HEAP_BYTES,
};
use aegis_mk::boot_console::{
    blit_glyph, current, draw_banner, framebuffer_console, install, BootFrameBuffer, EarlyConsole,
};

fn desc(phys_start: u64, page_count: u64, ty: u32) -> FirmwareDescriptor {
    FirmwareDescriptor { phys_start, page_count, ty }
}

fn fb_info(width: usize, height: usize) -> FrameBufferInfo {
    FrameBufferInfo { width, height, pixel_format: PixelFormat::Bgr, size: width * height * 4, phys_addr: 0x8000_0000 }
}

fn hex(bytes: &[u8]) -> String {
    bytes.iter().map(|b| format!("{:02x}", b)).collect()
}

#[test]
fn memory_types_translate() {
    assert_eq!(translate_memory_type(7), MemoryRegionKind::Usable);
    for ty in [3u32, 4, 5, 6] {
        assert_eq!(translate_memory_type(ty), MemoryRegionKind::Reserved);
    }
    assert_eq!(translate_memory_type(9), MemoryRegionKind::AcpiReclaimable);
    assert_eq!(translate_memory_type(10), MemoryRegionKind::AcpiNvs);
    assert_eq!(translate_memory_type(11), MemoryRegionKind::Mmio);
    assert_eq!(translate_memory_type(0), MemoryRegionKind::FirmwareReserved);
    assert_eq!(translate_memory_type(14), MemoryRegionKind::FirmwareReserved);
}

#[test]
fn boot_info_from_memory_map() {
    let map = [desc(0x1000, 2, 4), desc(0x10_0000, 0x100, 7), desc(0xFEE0_0000, 1, 11)];
    let info = build_boot_info(&map, Some(fb_info(640, 480)), Some(0xE0000));
    let regions: Vec<MemoryRegion> = info.memory_regions.iter().copied().collect();
    assert_eq!(
        regions,
        vec![
            MemoryRegion { base: 0x1000, length: 0x2000, kind: MemoryRegionKind::Reserved },
            MemoryRegion { base: 0x10_0000, length: 0x10_0000, kind: MemoryRegionKind::Usable },
            MemoryRegion { base: 0xFEE0_0000, length: 0x1000, kind: MemoryRegionKind::Mmio },
        ]
    );
    assert_eq!(info.framebuffer, Some(fb_info(640, 480)));
    assert_eq!(info.rsdp_addr, Some(0xE0000));
}

#[test]
fn boot_info_keeps_first_256_descriptors() {
    let map: Vec<FirmwareDescriptor> = (0..300u64).map(|i| desc(i * 0x1000, 1, 7)).collect();
    let info = build_boot_info(&map, None, None);
    assert_eq!(info.memory_regions.len(), 256);
    assert_eq!(info.memory_regions[255].base, 255 * 0x1000);
}

#[test]
fn usable_regions_in_order() {
    let map = [desc(0, 1, 7), desc(0x1000, 1, 3), desc(0x2000, 4, 7)];
    let info = build_boot_info(&map, None, None);
    let usable = usable_regions(&info);
    assert_eq!(usable.len(), 2);
    assert_eq!(usable[1], MemoryRegion { base: 0x2000, length: 0x4000, kind: MemoryRegionKind::Usable });
    assert_eq!(first_usable(&info), Some(0));
    let none = build_boot_info(&[desc(0, 1, 3)], None, None);
    assert_eq!(first_usable(&none), None);
    assert!(usable_regions(&none).is_empty());
}

#[test]
fn encoding_of_boot_info() {
    let map = [desc(0x1000, 1, 7)];
    let info = build_boot_info(&map, Some(fb_info(2, 1)), Some(0x55));
    let bytes = boot_info_encoding(&info);
    let mut expected = Vec::new();
    expected.extend_from_slice(&0x1000u64.to_le_bytes());
    expected.extend_from_slice(&0x1000u64.to_le_bytes());
    expected.extend_from_slice(&0u32.to_le_bytes());
    expected.extend_from_slice(&2u64.to_le_bytes());
    expected.extend_from_slice(&1u64.to_le_bytes());
    expected.extend_from_slice(&1u32.to_le_bytes());
    expected.extend_from_slice(&8u64.to_le_bytes());
    expected.extend_from_slice(&0x8000_0000u64.to_le_bytes());
    expected.extend_from_slice(&0x55u64.to_le_bytes());
    assert_eq!(bytes, expected);
}

#[test]
fn digest_of_empty_boot_info() {
    let info = build_boot_info(&[], None, None);
    assert!(boot_info_encoding(&info).is_empty());
    assert_eq!(hex(&digest_boot_info(&info)), "e3b0c44298fc1c149afbf4c8996fb92427ae41e4649b934ca495991b7852b855");
}

#[test]
fn digest_of_rsdp_only() {
    let info = build_boot_info(&[], None, Some(0x6162_6364_6566_6768));
    // The encoding is the little-endian rsdp, the ASCII bytes "hgfedcba".
    assert_eq!(boot_info_encoding(&info), b"hgfedcba".to_vec());
    assert_eq!(hex(&digest_boot_info(&info)), "40dae3179d7a6ebf98ccb90f8f69753cd0a6aaaf3366b8588bc2e3becd1c14b5");
}

#[test]
fn frames_are_handed_out_in_order() {
    let map = [desc(0, 1, 3), desc(0x20_0000, 2, 7)];
    let info = build_boot_info(&map, None, None);
    let mut alloc = FrameAllocator::new();
    assert_eq!(frame_alloc(&mut alloc), None);
    frame_init(&mut alloc, &info);
    assert_eq!(frame_range(&alloc), (0x20_0000, 0x20_2000));
    assert_eq!(frame_alloc(&mut alloc), Some(0x20_0000));
    assert_eq!(frame_alloc(&mut alloc), Some(0x20_0000 + FRAME_SIZE));
    assert_eq!(frame_alloc(&mut alloc), None);
    assert_eq!(frame_range(&alloc), (0x20_2000, 0x20_2000));
}

#[test]
fn frame_init_without_usable_memory() {
    let info = build_boot_info(&[desc(0x1000, 4, 11)], None, None);
    let mut alloc = FrameAllocator { next_frame: 0x5000, limit: 0x6000 };
    frame_init(&mut alloc, &info);
    assert_eq!(frame_range(&alloc), (0x5000, 0x6000));
}

#[test]
fn heap_is_first_usable_region_capped() {
    let small = build_boot_info(&[desc(0x1000, 1, 3), desc(0x40_0000, 16, 7)], None, None);
    assert_eq!(heap_region(&small), Some((0x40_0000, 0x1_0000)));
    let large = build_boot_info(&[desc(0x100_0000, 0x10_0000, 7)], None, None);
    assert_eq!(heap_region(&large), Some((0x100_0000, MAX_HEAP_BYTES)));
    let none = build_boot_info(&[desc(0x1000, 1, 3)], None, None);
    assert_eq!(heap_region(&none), None);
}

#[test]
fn console_install_and_banner() {
    let mut console = EarlyConsole::new();
    assert!(current(&console).is_none());
    assert!(framebuffer_console(&console).is_none());
    assert!(draw_banner(&console).is_empty());
    let fb = BootFrameBuffer { base: 0x8000_0000, stride: 1024, info: fb_info(1024, 768) };
    install(&mut console, fb);
    assert_eq!(current(&console), Some(fb));
    assert_eq!(framebuffer_console(&console).unwrap().fb, fb);
    let pixels = draw_banner(&console);
    // 24 visible characters of 8x16 pixels each.
    assert_eq!(pixels.len(), 24 * 8 * 16);
    let stride_bytes = 1024 * 4;
    assert_eq!(pixels[0], (8 * stride_bytes + 8 * 4, [0x30 + (b'A' % 200), 0x30 + (b'A' % 200), 0xff, 0xff]));
}

#[test]
fn glyph_blit_clips_to_framebuffer() {
    let all = blit_glyph(16, 16, 20, 0, 0, b'A');
    assert_eq!(all.len(), 8 * 16);
    assert_eq!(all[1], (4, [0x30 + 65, 0x30 + 65, 0xff, 0xff]));
    assert_eq!(all[8], (16 * 4, [0x30 + 65, 0x30 + 65, 0xff, 0xff]));
    let clipped = blit_glyph(16, 12, 18, 8, 10, 250);
    assert_eq!(clipped.len(), 4 * 8);
    assert_eq!(clipped[0], (10 * 64 + 8 * 4, [0x30 + 50, 0x30 + 50, 0xff, 0xff]));
    assert!(blit_glyph(16, 16, 16, 16, 0, b'x').is_empty());
    assert!(blit_glyph(16, 16, 16, 0, 16, b'x').is_empty());
}

#[test]
fn writer_lays_out_lines() {
    let fb = BootFrameBuffer { base: 0, stride: 64, info: fb_info(64, 64) };
    let mut console = EarlyConsole::new();
    install(&mut console, fb);
    let writer = framebuffer_console(&console).unwrap();
    let pixels = writer.write_str(&['a', '\n', 'b']);
    assert_eq!(pixels.len(), 2 * 8 * 16);
    assert_eq!(pixels[0], (8 * 256 + 8 * 4, [0x30 + b'a', 0x30 + b'a', 0xff, 0xff]));
    assert_eq!(pixels[128], (24 * 256 + 8 * 4, [0x30 + b'b', 0x30 + b'b', 0xff, 0xff]));
}
