//! Boot-time description of the machine handed from the loader to the
//! kernel, its construction from the firmware memory map, and its digest
//! for measured boot.
use vstd::prelude::*;
use vstd::bytes::{spec_u32_from_le_bytes, spec_u32_to_le_bytes, spec_u64_from_le_bytes, spec_u64_to_le_bytes, u32_to_le_bytes, u64_to_le_bytes};

use sha2::Digest;

use crate::bounded::{region_vec_as_slice, region_vec_items, region_vec_new, region_vec_push};

verus! {

/// Upper bound on the descriptors kept from the firmware memory map.
pub const MAX_MEMORY_REGIONS: usize = 256;

/// Boot-time framebuffer description provided by the loader.
#[derive(Clone, Copy, Debug, PartialEq, Eq, Structural)]
pub struct FrameBufferInfo {
    pub width: usize,
    pub height: usize,
    pub pixel_format: PixelFormat,
    pub size: usize,
    pub phys_addr: u64,
}

/// Pixel formats supported during bring-up.
#[derive(Clone, Copy, Debug, PartialEq, Eq, Structural)]
pub enum PixelFormat {
    Rgb,
    Bgr,
    Bitmask,
    BltOnly,
}

/// Firmware-reported memory classification.
#[derive(Clone, Copy, Debug, PartialEq, Eq, Structural)]
pub enum MemoryRegionKind {
    Usable,
    Reserved,
    AcpiReclaimable,
    AcpiNvs,
    Mmio,
    FirmwareReserved,
}

/// A physical memory range and its classification.
#[derive(Clone, Copy, Debug, PartialEq, Eq, Structural)]
pub struct MemoryRegion {
    pub base: u64,
    pub length: u64,
    pub kind: MemoryRegionKind,
}

/// The boot payload consumed by the kernel.
pub struct BootInfo {
    pub memory_regions: heapless::Vec<MemoryRegion, 256>,
    pub framebuffer: Option<FrameBufferInfo>,
    pub rsdp_addr: Option<u64>,
}

/// One entry of the firmware memory map: start address, size in 4 KiB
/// pages and UEFI memory type.
#[derive(Clone, Copy, Debug, PartialEq, Eq, Structural)]
pub struct FirmwareDescriptor {
    pub phys_start: u64,
    pub page_count: u64,
    pub ty: u32,
}

/// UEFI memory types that the loader distinguishes.
pub const EFI_BOOT_SERVICES_CODE: u32 = 3;
pub const EFI_BOOT_SERVICES_DATA: u32 = 4;
pub const EFI_RUNTIME_SERVICES_CODE: u32 = 5;
pub const EFI_RUNTIME_SERVICES_DATA: u32 = 6;
pub const EFI_CONVENTIONAL_MEMORY: u32 = 7;
pub const EFI_ACPI_RECLAIM_MEMORY: u32 = 9;
pub const EFI_ACPI_MEMORY_NVS: u32 = 10;
pub const EFI_MEMORY_MAPPED_IO: u32 = 11;

/// Size of a UEFI page.
pub const EFI_PAGE_SIZE: u64 = 4096;

/// The kernel's classification of UEFI memory type `ty`.
pub open spec fn memory_kind(ty: u32) -> MemoryRegionKind {
    if ty == EFI_CONVENTIONAL_MEMORY {
        MemoryRegionKind::Usable
    } else if ty == EFI_BOOT_SERVICES_CODE || ty == EFI_BOOT_SERVICES_DATA || ty
        == EFI_RUNTIME_SERVICES_CODE || ty == EFI_RUNTIME_SERVICES_DATA {
        MemoryRegionKind::Reserved
    } else if ty == EFI_ACPI_RECLAIM_MEMORY {
        MemoryRegionKind::AcpiReclaimable
    } else if ty == EFI_ACPI_MEMORY_NVS {
        MemoryRegionKind::AcpiNvs
    } else if ty == EFI_MEMORY_MAPPED_IO {
        MemoryRegionKind::Mmio
    } else {
        MemoryRegionKind::FirmwareReserved
    }
}

/// The region describing firmware descriptor `d`.
pub open spec fn region_of(d: FirmwareDescriptor) -> MemoryRegion {
    MemoryRegion {
        base: d.phys_start,
        length: (d.page_count * EFI_PAGE_SIZE) as u64,
        kind: memory_kind(d.ty),
    }
}

/// Code of a region kind in the measured-boot encoding (declaration order).
pub open spec fn kind_code(kind: MemoryRegionKind) -> u32 {
    match kind {
        MemoryRegionKind::Usable => 0,
        MemoryRegionKind::Reserved => 1,
        MemoryRegionKind::AcpiReclaimable => 2,
        MemoryRegionKind::AcpiNvs => 3,
        MemoryRegionKind::Mmio => 4,
        MemoryRegionKind::FirmwareReserved => 5,
    }
}

/// Code of a pixel format in the measured-boot encoding (declaration order).
pub open spec fn pixel_format_code(format: PixelFormat) -> u32 {
    match format {
        PixelFormat::Rgb => 0,
        PixelFormat::Bgr => 1,
        PixelFormat::Bitmask => 2,
        PixelFormat::BltOnly => 3,
    }
}

/// Bytes hashed for one memory region: base, length, kind code, little endian.
pub open spec fn region_bytes(r: MemoryRegion) -> Seq<u8> {
    spec_u64_to_le_bytes(r.base) + spec_u64_to_le_bytes(r.length) + spec_u32_to_le_bytes(kind_code(r.kind))
}

/// Bytes hashed for a list of regions, in order.
pub open spec fn regions_bytes(s: Seq<MemoryRegion>) -> Seq<u8>
    decreases s.len(),
{
    if s.len() == 0 {
        Seq::empty()
    } else {
        regions_bytes(s.drop_last()) + region_bytes(s.last())
    }
}

/// Bytes hashed for a framebuffer description.
pub open spec fn framebuffer_bytes(fb: FrameBufferInfo) -> Seq<u8> {
    spec_u64_to_le_bytes(fb.width as u64) + spec_u64_to_le_bytes(fb.height as u64) + spec_u32_to_le_bytes(
        pixel_format_code(fb.pixel_format),
    ) + spec_u64_to_le_bytes(fb.size as u64) + spec_u64_to_le_bytes(fb.phys_addr)
}

/// The byte stream measured for a boot payload: every region, then the
/// framebuffer description if any, then the RSDP address if any.
pub open spec fn boot_info_bytes(regions: Seq<MemoryRegion>, fb: Option<FrameBufferInfo>, rsdp: Option<u64>) -> Seq<u8> {
    regions_bytes(regions) + match fb {
        Some(f) => framebuffer_bytes(f),
        None => Seq::empty(),
    } + match rsdp {
        Some(a) => spec_u64_to_le_bytes(a),
        None => Seq::empty(),
    }
}

/// SHA-256 of a byte string.
pub uninterp spec fn sha256(data: Seq<u8>) -> Seq<u8>;

/// `sha2::Sha256::digest`: the SHA-256 digest of `data`.  The contract
/// names the result `sha256(data)` and states its 32-byte length; the hash
/// function itself is not restated.
#[verifier::external_body]
fn sha256_digest(data: &[u8]) -> (r: [u8; 32])
    ensures
        r@ == sha256(data@),
{
    <sha2::Sha256 as Digest>::digest(data).into()
}

impl BootInfo {
    /// The memory regions, in firmware order.
    pub open spec fn regions(&self) -> Seq<MemoryRegion> {
        region_vec_items(self.memory_regions)
    }
}

/// The kernel's classification of UEFI memory type `ty`: conventional
/// memory is usable, boot and runtime services code and data are reserved,
/// ACPI reclaim, ACPI NVS and MMIO keep their kind, the rest is firmware
/// reserved.
pub fn translate_memory_type(ty: u32) -> (r: MemoryRegionKind)
    ensures
        r == memory_kind(ty),
{
    if ty == EFI_CONVENTIONAL_MEMORY {
        MemoryRegionKind::Usable
    } else if ty == EFI_BOOT_SERVICES_CODE || ty == EFI_BOOT_SERVICES_DATA || ty
        == EFI_RUNTIME_SERVICES_CODE || ty == EFI_RUNTIME_SERVICES_DATA {
        MemoryRegionKind::Reserved
    } else if ty == EFI_ACPI_RECLAIM_MEMORY {
        MemoryRegionKind::AcpiReclaimable
    } else if ty == EFI_ACPI_MEMORY_NVS {
        MemoryRegionKind::AcpiNvs
    } else if ty == EFI_MEMORY_MAPPED_IO {
        MemoryRegionKind::Mmio
    } else {
        MemoryRegionKind::FirmwareReserved
    }
}

/// Translate the firmware memory map (at most its first 256 descriptors)
/// into the kernel's boot payload.
pub fn build_boot_info(
    memory_map: &[FirmwareDescriptor],
    framebuffer: Option<FrameBufferInfo>,
    rsdp: Option<u64>,
) -> (info: BootInfo)
    requires
        forall|i: int|
            0 <= i < memory_map@.len() && i < MAX_MEMORY_REGIONS ==> #[trigger] memory_map@[i].page_count
                * EFI_PAGE_SIZE <= u64::MAX,
    ensures
        info.regions() == memory_map@.take(
            if memory_map@.len() < MAX_MEMORY_REGIONS { memory_map@.len() as int } else { MAX_MEMORY_REGIONS as int },
        ).map_values(|d: FirmwareDescriptor| region_of(d)),
        info.framebuffer == framebuffer,
        info.rsdp_addr == rsdp,
{
    let mut regions = region_vec_new();
    let n = if memory_map.len() < MAX_MEMORY_REGIONS { memory_map.len() } else { MAX_MEMORY_REGIONS };
    let mut i: usize = 0;
    while i < n
        invariant
            0 <= i <= n,
            n <= memory_map@.len(),
            n <= MAX_MEMORY_REGIONS,
            n == if memory_map@.len() < MAX_MEMORY_REGIONS { memory_map@.len() as int } else { MAX_MEMORY_REGIONS as int },
            forall|k: int|
                0 <= k < memory_map@.len() && k < MAX_MEMORY_REGIONS ==> #[trigger] memory_map@[k].page_count
                    * EFI_PAGE_SIZE <= u64::MAX,
            region_vec_items(regions) == memory_map@.take(i as int).map_values(|d: FirmwareDescriptor| region_of(d)),
        decreases n - i,
    {
        let desc = memory_map[i];
        let region = MemoryRegion {
            base: desc.phys_start,
            length: desc.page_count * EFI_PAGE_SIZE,
            kind: translate_memory_type(desc.ty),
        };
        let _ = region_vec_push(&mut regions, region);
        proof {
            assert(memory_map@.take(i + 1).map_values(|d: FirmwareDescriptor| region_of(d)) =~= memory_map@.take(
                i as int,
            ).map_values(|d: FirmwareDescriptor| region_of(d)).push(region));
        }
        i = i + 1;
    }
    BootInfo { memory_regions: regions, framebuffer, rsdp_addr: rsdp }
}

fn append_u64(out: &mut Vec<u8>, v: u64)
    ensures
        final(out)@ == old(out)@ + spec_u64_to_le_bytes(v),
{
    let mut b = u64_to_le_bytes(v);
    out.append(&mut b);
}

fn append_u32(out: &mut Vec<u8>, v: u32)
    ensures
        final(out)@ == old(out)@ + spec_u32_to_le_bytes(v),
{
    let mut b = u32_to_le_bytes(v);
    out.append(&mut b);
}

fn kind_code_of(kind: MemoryRegionKind) -> (r: u32)
    ensures
        r == kind_code(kind),
{
    match kind {
        MemoryRegionKind::Usable => 0,
        MemoryRegionKind::Reserved => 1,
        MemoryRegionKind::AcpiReclaimable => 2,
        MemoryRegionKind::AcpiNvs => 3,
        MemoryRegionKind::Mmio => 4,
        MemoryRegionKind::FirmwareReserved => 5,
    }
}

fn pixel_format_code_of(format: PixelFormat) -> (r: u32)
    ensures
        r == pixel_format_code(format),
{
    match format {
        PixelFormat::Rgb => 0,
        PixelFormat::Bgr => 1,
        PixelFormat::Bitmask => 2,
        PixelFormat::BltOnly => 3,
    }
}

/// The byte stream that measured boot hashes for `info` (see `boot_info_bytes`).
pub fn boot_info_encoding(info: &BootInfo) -> (out: Vec<u8>)
    ensures
        out@ == boot_info_bytes(info.regions(), info.framebuffer, info.rsdp_addr),
{
    let mut out: Vec<u8> = Vec::new();
    let regions = region_vec_as_slice(&info.memory_regions);
    let mut i: usize = 0;
    while i < regions.len()
        invariant
            0 <= i <= regions@.len(),
            regions@ == info.regions(),
            out@ == regions_bytes(regions@.take(i as int)),
        decreases regions@.len() - i,
    {
        let region = regions[i];
        append_u64(&mut out, region.base);
        append_u64(&mut out, region.length);
        append_u32(&mut out, kind_code_of(region.kind));
        proof {
            assert(regions@.take(i + 1).drop_last() =~= regions@.take(i as int));
            assert(out@ =~= regions_bytes(regions@.take(i as int)) + region_bytes(region));
        }
        i = i + 1;
    }
    assert(regions@.take(regions@.len() as int) =~= regions@);
    let ghost regions_part = out@;
    if let Some(fb) = info.framebuffer {
        append_u64(&mut out, fb.width as u64);
        append_u64(&mut out, fb.height as u64);
        append_u32(&mut out, pixel_format_code_of(fb.pixel_format));
        append_u64(&mut out, fb.size as u64);
        append_u64(&mut out, fb.phys_addr);
        assert(out@ =~= regions_part + framebuffer_bytes(fb));
    } else {
        assert(out@ =~= regions_part + Seq::<u8>::empty());
    }
    let ghost fb_part = out@;
    if let Some(rsdp) = info.rsdp_addr {
        append_u64(&mut out, rsdp);
    } else {
        assert(out@ =~= fb_part + Seq::<u8>::empty());
    }
    out
}

/// SHA-256 digest of the boot payload, as extended into the TPM log.
pub fn digest_boot_info(info: &BootInfo) -> (r: [u8; 32])
    ensures
        r@ == sha256(boot_info_bytes(info.regions(), info.framebuffer, info.rsdp_addr)),
{
    let bytes = boot_info_encoding(info);
    sha256_digest(bytes.as_slice())
}

/// The memory regions that firmware marks as usable, in order.
pub fn usable_regions(boot_info: &BootInfo) -> (r: Vec<MemoryRegion>)
    ensures
        r@ == boot_info.regions().filter(|m: MemoryRegion| m.kind == MemoryRegionKind::Usable),
{
    let regions = region_vec_as_slice(&boot_info.memory_regions);
    let mut out: Vec<MemoryRegion> = Vec::new();
    let mut i: usize = 0;
    while i < regions.len()
        invariant
            0 <= i <= regions@.len(),
            regions@ == boot_info.regions(),
            out@ == regions@.take(i as int).filter(|m: MemoryRegion| m.kind == MemoryRegionKind::Usable),
        decreases regions@.len() - i,
    {
        let region = regions[i];
        proof {
            reveal(Seq::filter);
            assert(regions@.take(i + 1).drop_last() =~= regions@.take(i as int));
        }
        if region.kind == MemoryRegionKind::Usable {
            out.push(region);
        }
        i = i + 1;
    }
    assert(regions@.take(regions@.len() as int) =~= regions@);
    out
}

/// `i` is the position of the first usable region of `s`.
pub open spec fn is_first_usable(s: Seq<MemoryRegion>, i: int) -> bool {
    &&& 0 <= i < s.len()
    &&& s[i].kind == MemoryRegionKind::Usable
    &&& forall|j: int| 0 <= j < i ==> #[trigger] s[j].kind != MemoryRegionKind::Usable
}

/// Some region of `s` is usable.
pub open spec fn has_usable(s: Seq<MemoryRegion>) -> bool {
    exists|i: int| 0 <= i < s.len() && #[trigger] s[i].kind == MemoryRegionKind::Usable
}

/// Position of the first usable region of `boot_info`, if any.
pub fn first_usable(boot_info: &BootInfo) -> (r: Option<usize>)
    ensures
        r is None <==> !has_usable(boot_info.regions()),
        r matches Some(i) ==> is_first_usable(boot_info.regions(), i as int),
{
    let regions = region_vec_as_slice(&boot_info.memory_regions);
    let mut i: usize = 0;
    while i < regions.len()
        invariant
            0 <= i <= regions@.len(),
            regions@ == boot_info.regions(),
            forall|j: int| 0 <= j < i ==> #[trigger] regions@[j].kind != MemoryRegionKind::Usable,
        decreases regions@.len() - i,
    {
        if regions[i].kind == MemoryRegionKind::Usable {
            return Some(i);
        }
        i = i + 1;
    }
    None
}

/// Size of a physical frame.
pub const FRAME_SIZE: u64 = 0x1000;

/// Bump allocator of physical frames inside the first usable region.
pub struct FrameAllocator {
    pub next_frame: u64,
    pub limit: u64,
}

impl FrameAllocator {
    /// An allocator with no memory to hand out.
    pub fn new() -> (a: Self)
        ensures
            a.next_frame == 0,
            a.limit == 0,
    {
        FrameAllocator { next_frame: 0, limit: 0 }
    }
}

/// Point the allocator at the first usable region of `boot_info`; with no
/// usable region the allocator is left as it was.
pub fn frame_init(alloc: &mut FrameAllocator, boot_info: &BootInfo)
    requires
        forall|i: int| #[trigger] is_first_usable(boot_info.regions(), i) ==> boot_info.regions()[i].base
            + boot_info.regions()[i].length <= u64::MAX,
    ensures
        has_usable(boot_info.regions()) ==> exists|i: int|
            #[trigger] is_first_usable(boot_info.regions(), i) && final(alloc).next_frame
                == boot_info.regions()[i].base && final(alloc).limit == boot_info.regions()[i].base
                + boot_info.regions()[i].length,
        !has_usable(boot_info.regions()) ==> *final(alloc) == *old(alloc),
{
    if let Some(i) = first_usable(boot_info) {
        let regions = region_vec_as_slice(&boot_info.memory_regions);
        let region = regions[i];
        alloc.next_frame = region.base;
        alloc.limit = region.base + region.length;
        assert(is_first_usable(boot_info.regions(), i as int));
    }
}

/// Hand out the next frame, or `None` when the allocator was never pointed
/// at memory (next frame 0) or is exhausted.
pub fn frame_alloc(alloc: &mut FrameAllocator) -> (r: Option<u64>)
    requires
        old(alloc).next_frame == 0 || old(alloc).next_frame >= old(alloc).limit || old(alloc).next_frame
            + FRAME_SIZE <= u64::MAX,
    ensures
        (old(alloc).next_frame == 0 || old(alloc).next_frame >= old(alloc).limit) ==> r is None
            && *final(alloc) == *old(alloc),
        (old(alloc).next_frame != 0 && old(alloc).next_frame < old(alloc).limit) ==> r == Some(
            old(alloc).next_frame,
        ) && final(alloc).next_frame == old(alloc).next_frame + FRAME_SIZE && final(alloc).limit
            == old(alloc).limit,
        (r, *final(alloc)) == frame_step(*old(alloc)),
{
    if alloc.next_frame == 0 || alloc.next_frame >= alloc.limit {
        return None;
    }
    let frame = alloc.next_frame;
    alloc.next_frame = alloc.next_frame + FRAME_SIZE;
    Some(frame)
}

/// One allocation from `a`: the frame handed out, if any, and the
/// allocator afterwards.
pub open spec fn frame_step(a: FrameAllocator) -> (Option<u64>, FrameAllocator) {
    if a.next_frame == 0 || a.next_frame >= a.limit {
        (None, a)
    } else {
        (Some(a.next_frame), FrameAllocator { next_frame: (a.next_frame + FRAME_SIZE) as u64, limit: a.limit })
    }
}

/// The allocator after `k` allocations from `a`.
pub open spec fn frames_after(a: FrameAllocator, k: nat) -> FrameAllocator
    decreases k,
{
    if k == 0 {
        a
    } else {
        frame_step(frames_after(a, (k - 1) as nat)).1
    }
}

/// Frames come out one after another: while the region lasts, the
/// allocation after `k` others hands out the frame `k` frames past the
/// first one.
pub proof fn lemma_frames_consecutive(a: FrameAllocator, k: nat)
    requires
        a.next_frame != 0,
        a.next_frame + k * FRAME_SIZE < a.limit,
    ensures
        frames_after(a, k) == (FrameAllocator { next_frame: (a.next_frame + k * FRAME_SIZE) as u64, limit: a.limit }),
        frame_step(frames_after(a, k)).0 == Some((a.next_frame + k * FRAME_SIZE) as u64),
    decreases k,
{
    if k > 0 {
        let j = (k - 1) as nat;
        assert(a.next_frame + j * FRAME_SIZE + FRAME_SIZE == a.next_frame + k * FRAME_SIZE) by (nonlinear_arith)
            requires
                j + 1 == k,
        ;
        lemma_frames_consecutive(a, j);
    }
}

/// No frame is handed out twice: two different allocations within the
/// region return different frames, both inside the region.
pub proof fn lemma_frames_distinct(a: FrameAllocator, j: nat, k: nat)
    requires
        a.next_frame != 0,
        j < k,
        a.next_frame + k * FRAME_SIZE < a.limit,
    ensures
        frame_step(frames_after(a, j)).0 != frame_step(frames_after(a, k)).0,
        a.next_frame <= frame_step(frames_after(a, j)).0.unwrap() < a.limit,
{
    assert(j * FRAME_SIZE < k * FRAME_SIZE) by (nonlinear_arith)
        requires
            j < k,
    ;
    lemma_frames_consecutive(a, j);
    lemma_frames_consecutive(a, k);
}

/// The frames not yet handed out, as an inclusive range of addresses.
pub fn frame_range(alloc: &FrameAllocator) -> (r: (u64, u64))
    ensures
        r == (alloc.next_frame, alloc.limit),
{
    (alloc.next_frame, alloc.limit)
}

/// Bootstrap page tables: the identity mapping set up by the firmware is
/// kept for now, so nothing is changed.
pub fn init_identity(boot_info: &BootInfo) {
}

/// Upper bound on the bootstrap heap.
pub const MAX_HEAP_BYTES: usize = 16 * 1024 * 1024;

/// Start and size of the bootstrap heap: the first usable region, capped
/// at `MAX_HEAP_BYTES`; `None` without a usable region.
pub fn heap_region(boot_info: &BootInfo) -> (r: Option<(usize, usize)>)
    ensures
        !has_usable(boot_info.regions()) ==> r is None,
        has_usable(boot_info.regions()) ==> exists|i: int|
            #[trigger] is_first_usable(boot_info.regions(), i) && r == Some(
                (
                    boot_info.regions()[i].base as usize,
                    if (boot_info.regions()[i].length as usize) < MAX_HEAP_BYTES {
                        boot_info.regions()[i].length as usize
                    } else {
                        MAX_HEAP_BYTES
                    },
                ),
            ),
{
    match first_usable(boot_info) {
        Some(i) => {
            let regions = region_vec_as_slice(&boot_info.memory_regions);
            let region = regions[i];
            let start = region.base as usize;
            let len = region.length as usize;
            let size = if len < MAX_HEAP_BYTES { len } else { MAX_HEAP_BYTES };
            assert(is_first_usable(boot_info.regions(), i as int));
            Some((start, size))
        },
        None => None,
    }
}

/// Only conventional memory (UEFI type 7) is usable; boot and runtime
/// services code and data (3 to 6) are reserved; ACPI reclaim (9), ACPI
/// NVS (10) and MMIO (11) keep their kind; every other type, the loader's
/// own code and data (1, 2) among them, is firmware reserved.
pub proof fn lemma_memory_kind_classification(ty: u32)
    ensures
        (memory_kind(ty) == MemoryRegionKind::Usable) == (ty == 7),
        (memory_kind(ty) == MemoryRegionKind::Reserved) == (3 <= ty <= 6),
        (memory_kind(ty) == MemoryRegionKind::AcpiReclaimable) == (ty == 9),
        (memory_kind(ty) == MemoryRegionKind::AcpiNvs) == (ty == 10),
        (memory_kind(ty) == MemoryRegionKind::Mmio) == (ty == 11),
        (memory_kind(ty) == MemoryRegionKind::FirmwareReserved) == !(3 <= ty <= 7 || 9 <= ty <= 11),
{
}

/// A region of the boot payload is usable exactly when the firmware
/// descriptor it comes from is conventional memory: the payload built from
/// `memory_map` hands out no memory the firmware did not mark free.
pub proof fn lemma_boot_regions_usable_only_conventional(memory_map: Seq<FirmwareDescriptor>, i: int)
    requires
        0 <= i < memory_map.len(),
        i < MAX_MEMORY_REGIONS,
    ensures
        ({
            let n = if memory_map.len() < MAX_MEMORY_REGIONS { memory_map.len() as int } else { MAX_MEMORY_REGIONS as int };
            let regions = memory_map.take(n).map_values(|d: FirmwareDescriptor| region_of(d));
            &&& regions.len() == n
            &&& regions[i].base == memory_map[i].phys_start
            &&& (memory_map[i].page_count * 4096 <= u64::MAX ==> regions[i].length == memory_map[i].page_count * 4096)
            &&& (regions[i].kind == MemoryRegionKind::Usable) == (memory_map[i].ty == 7)
        }),
{
    lemma_memory_kind_classification(memory_map[i].ty);
}

/// The measured encoding tells every region kind and pixel format apart,
/// and has a fixed layout: 20 bytes per region, 36 for the framebuffer
/// description, 8 for the RSDP address.
pub proof fn lemma_boot_encoding_layout(
    regions: Seq<MemoryRegion>,
    fb: Option<FrameBufferInfo>,
    rsdp: Option<u64>,
    k1: MemoryRegionKind,
    k2: MemoryRegionKind,
    f1: PixelFormat,
    f2: PixelFormat,
)
    ensures
        k1 != k2 ==> kind_code(k1) != kind_code(k2),
        f1 != f2 ==> pixel_format_code(f1) != pixel_format_code(f2),
        boot_info_bytes(regions, fb, rsdp).len() == 20 * regions.len() + (if fb is Some { 36int } else { 0 }) + (
        if rsdp is Some { 8int } else { 0 }),
{
    vstd::bytes::lemma_auto_spec_u64_to_from_le_bytes();
    vstd::bytes::lemma_auto_spec_u32_to_from_le_bytes();
    lemma_regions_bytes_len(regions);
}

/// Each region contributes 20 bytes.
proof fn lemma_regions_bytes_len(regions: Seq<MemoryRegion>)
    ensures
        regions_bytes(regions).len() == 20 * regions.len(),
    decreases regions.len(),
{
    vstd::bytes::lemma_auto_spec_u64_to_from_le_bytes();
    vstd::bytes::lemma_auto_spec_u32_to_from_le_bytes();
    if regions.len() > 0 {
        lemma_regions_bytes_len(regions.drop_last());
        let r = regions.last();
        assert(spec_u64_to_le_bytes(r.base).len() == 8);
        assert(spec_u64_to_le_bytes(r.length).len() == 8);
        assert(spec_u32_to_le_bytes(kind_code(r.kind)).len() == 4);
    }
}

/// The 20 bytes of region `i` sit at offset `20 i` of the regions' bytes.
proof fn lemma_regions_bytes_at(regions: Seq<MemoryRegion>, i: int)
    requires
        0 <= i < regions.len(),
    ensures
        regions_bytes(regions).subrange(20 * i, 20 * i + 20) == region_bytes(regions[i]),
    decreases regions.len(),
{
    vstd::bytes::lemma_auto_spec_u64_to_from_le_bytes();
    vstd::bytes::lemma_auto_spec_u32_to_from_le_bytes();
    let prefix = regions.drop_last();
    lemma_regions_bytes_len(prefix);
    let r = regions.last();
    assert(region_bytes(r).len() == 20);
    let whole = regions_bytes(regions);
    assert(whole == regions_bytes(prefix) + region_bytes(r));
    if i == regions.len() - 1 {
        assert(whole.subrange(20 * i, 20 * i + 20) =~= region_bytes(r));
    } else {
        lemma_regions_bytes_at(prefix, i);
        assert(prefix[i] == regions[i]);
        assert(whole.subrange(20 * i, 20 * i + 20) =~= regions_bytes(prefix).subrange(20 * i, 20 * i + 20));
    }
}

/// The measured encoding can be read back: the base, length and kind code
/// of region `i` are the little-endian numbers at bytes `20 i`, `20 i + 8`
/// and `20 i + 16`; the framebuffer's width, height, format code, size and
/// address follow the regions; the RSDP address comes last.
pub proof fn lemma_boot_encoding_decodes(regions: Seq<MemoryRegion>, fb: Option<FrameBufferInfo>, rsdp: Option<u64>, i: int)
    requires
        0 <= i < regions.len(),
    ensures
        ({
            let b = boot_info_bytes(regions, fb, rsdp);
            let n: int = 20 * (regions.len() as int);
            &&& spec_u64_from_le_bytes(b.subrange(20 * i, 20 * i + 8)) == regions[i].base
            &&& spec_u64_from_le_bytes(b.subrange(20 * i + 8, 20 * i + 16)) == regions[i].length
            &&& spec_u32_from_le_bytes(b.subrange(20 * i + 16, 20 * i + 20)) == kind_code(regions[i].kind)
            &&& (fb matches Some(f) ==> {
                &&& spec_u64_from_le_bytes(b.subrange(n, n + 8)) == f.width as u64
                &&& spec_u64_from_le_bytes(b.subrange(n + 8, n + 16)) == f.height as u64
                &&& spec_u32_from_le_bytes(b.subrange(n + 16, n + 20)) == pixel_format_code(f.pixel_format)
                &&& spec_u64_from_le_bytes(b.subrange(n + 20, n + 28)) == f.size as u64
                &&& spec_u64_from_le_bytes(b.subrange(n + 28, n + 36)) == f.phys_addr
            })
            &&& (rsdp matches Some(a) ==> spec_u64_from_le_bytes(b.subrange(b.len() - 8, b.len() as int)) == a)
        }),
{
    vstd::bytes::lemma_auto_spec_u64_to_from_le_bytes();
    vstd::bytes::lemma_auto_spec_u32_to_from_le_bytes();
    lemma_regions_bytes_len(regions);
    lemma_regions_bytes_at(regions, i);
    let rb = regions_bytes(regions);
    let b = boot_info_bytes(regions, fb, rsdp);
    let fbb: Seq<u8> = match fb {
        Some(f) => framebuffer_bytes(f),
        None => Seq::empty(),
    };
    let rs: Seq<u8> = match rsdp {
        Some(a) => spec_u64_to_le_bytes(a),
        None => Seq::empty(),
    };
    assert(b == rb + fbb + rs);
    let r = regions[i];
    let one = region_bytes(r);
    assert(b.subrange(20 * i, 20 * i + 20) =~= one);
    assert(b.subrange(20 * i, 20 * i + 8) =~= spec_u64_to_le_bytes(r.base));
    let base_b = spec_u64_to_le_bytes(r.base);
    let len_b = spec_u64_to_le_bytes(r.length);
    let kind_b = spec_u32_to_le_bytes(kind_code(r.kind));
    assert(one == base_b + len_b + kind_b);
    assert(one.subrange(8, 16) =~= len_b);
    assert(one.subrange(16, 20) =~= kind_b);
    assert(b.subrange(20 * i + 8, 20 * i + 16) =~= one.subrange(8, 16));
    assert(b.subrange(20 * i + 16, 20 * i + 20) =~= one.subrange(16, 20));
    let n: int = 20 * (regions.len() as int);
    if let Some(f) = fb {
        assert(fbb.len() == 36);
        assert(b.subrange(n, n + 8) =~= spec_u64_to_le_bytes(f.width as u64));
        assert(b.subrange(n + 8, n + 16) =~= spec_u64_to_le_bytes(f.height as u64));
        assert(b.subrange(n + 16, n + 20) =~= spec_u32_to_le_bytes(pixel_format_code(f.pixel_format)));
        assert(b.subrange(n + 20, n + 28) =~= spec_u64_to_le_bytes(f.size as u64));
        assert(b.subrange(n + 28, n + 36) =~= spec_u64_to_le_bytes(f.phys_addr));
    }
    if let Some(a) = rsdp {
        assert(b.subrange(b.len() - 8, b.len() as int) =~= spec_u64_to_le_bytes(a));
    }
}

} // verus!
