use aegis_mk::boot::{FrameBufferInfo, PixelFormat};
use aegis_mk::caps::{self, CapTable, Capability, CapabilityClass};
use aegis_mk::gfx::{self, Compositor, CursorShape, DisplayCommand, DrawOp};
use aegis_mk::ipc::{self, IpcQueue, Message, MessageType};
use aegis_mk::posix::{log_write, log_write_chunks, sleep_ms};
use aegis_mk::sched::TaskId;
use aegis_mk::security::{
    approve, default_manifest, grant_manifest_caps, install_default_manifest, policy_check, register_tasks,
    Manifest, ManifestEntry,
};
use aegis_mk::servers::{display, fs, input};
use aegis_mk::task::{profile, TaskRegistry, TaskState};

type Policy = fn(TaskId, Capability) -> bool;

fn allow_all(_: TaskId, _: Capability) -> bool {
    true
}

fn default_policy(task: TaskId, cap: Capability) -> bool {
    policy_check(&default_manifest(), task, cap)
}

fn info(width: usize, height: usize) -> FrameBufferInfo {
    FrameBufferInfo { width, height, pixel_format: PixelFormat::Rgb, size: width * height * 4, phys_addr: 0 }
}

fn compositor(width: usize, height: usize) -> Compositor {
    let mut comp = Compositor::new();
    gfx::init(&mut comp, Some(info(width, height)));
    comp
}

fn send(payload: [u64; 4]) -> Message {
    Message { ty: MessageType::Send, src: 2, dst: 1, payload }
}

#[test]
fn installed_manifest_refuses_other_grants() {
    let mut tasks = TaskRegistry::new();
    let mut table: CapTable<Policy> = CapTable::new();
    install_default_manifest(&mut tasks, &mut table, default_policy as Policy);
    assert!(!caps::grant(&mut table, Capability { owner: TaskId(2), class: CapabilityClass::GPU(), object: 0 }));
    assert!(!caps::grant(&mut table, Capability { owner: TaskId(4), class: CapabilityClass::empty(), object: 0 }));
    assert!(!caps::has(&table, TaskId(4), CapabilityClass::empty()));
    assert!(caps::grant(&mut table, Capability { owner: TaskId(1), class: CapabilityClass::GPU(), object: 1 }));
}

#[test]
fn approval_rule() {
    let entry = |bits: u32| ManifestEntry { task: 1, capabilities: CapabilityClass::from_bits(bits).unwrap() };
    assert!(approve(&entry(0b0111_1101)));
    assert!(approve(&entry(0b0000_0100)));
    assert!(approve(&entry(0)));
    assert!(!approve(&entry(0b0000_0010)));
    assert!(!approve(&entry(0b0111_1111)));
}

#[test]
fn manifest_first_entry_decides() {
    let mut manifest = Manifest::new();
    assert!(!manifest.allowed(1, CapabilityClass::GPU()));
    assert!(manifest.add(ManifestEntry { task: 1, capabilities: CapabilityClass::GPU() }));
    assert!(manifest.add(ManifestEntry { task: 1, capabilities: CapabilityClass::all() }));
    assert!(manifest.allowed(1, CapabilityClass::GPU()));
    assert!(!manifest.allowed(1, CapabilityClass::NET()));
    assert!(!manifest.allowed(2, CapabilityClass::GPU()));
    for i in 0..6 {
        assert!(manifest.add(ManifestEntry { task: 10 + i, capabilities: CapabilityClass::empty() }));
    }
    assert!(!manifest.add(ManifestEntry { task: 99, capabilities: CapabilityClass::all() }));
    assert!(!manifest.allowed(99, CapabilityClass::empty()));
}

#[test]
fn default_manifest_entries() {
    let m = default_manifest();
    assert_eq!(
        m.entries.as_slice(),
        &[
            ManifestEntry { task: 1, capabilities: CapabilityClass::GPU() | CapabilityClass::INPUT() | CapabilityClass::TIME() },
            ManifestEntry { task: 2, capabilities: CapabilityClass::INPUT() },
            ManifestEntry { task: 3, capabilities: CapabilityClass::FILE() | CapabilityClass::MM() },
        ]
    );
    let cap = |class: CapabilityClass| Capability { owner: TaskId(1), class, object: 0 };
    assert!(policy_check(&m, TaskId(1), cap(CapabilityClass::TIME())));
    assert!(!policy_check(&m, TaskId(1), cap(CapabilityClass::NET())));
    assert!(!policy_check(&m, TaskId(4), cap(CapabilityClass::empty())));
}

#[test]
fn default_manifest_installation() {
    let mut tasks = TaskRegistry::new();
    let mut table: CapTable<Policy> = CapTable::new();
    let m = install_default_manifest(&mut tasks, &mut table, default_policy as Policy);
    assert_eq!(m.entries.len(), 3);
    let display = profile(&tasks, TaskId(1)).unwrap();
    assert_eq!(&display.name[..7], b"display");
    assert_eq!(display.state, TaskState::Registered);
    assert_eq!(&profile(&tasks, TaskId(2)).unwrap().name[..5], b"input");
    assert_eq!(&profile(&tasks, TaskId(3)).unwrap().name[..3], b"fs\0");
    assert!(caps::has(&table, TaskId(1), CapabilityClass::GPU()));
    assert!(caps::has(&table, TaskId(1), CapabilityClass::TIME()));
    assert!(caps::has(&table, TaskId(3), CapabilityClass::MM()));
    assert!(!caps::has(&table, TaskId(2), CapabilityClass::GPU()));
    // The installed policy now refuses what the manifest does not cover.
    assert!(!caps::grant(&mut table, Capability { owner: TaskId(2), class: CapabilityClass::NET(), object: 0 }));
    assert!(caps::grant(&mut table, Capability { owner: TaskId(2), class: CapabilityClass::INPUT(), object: 5 }));
}

#[test]
fn manifest_registration_and_grants() {
    let mut tasks = TaskRegistry::new();
    let mut table: CapTable<Policy> = CapTable::new();
    caps::register_policy(&mut table, allow_all as Policy);
    let mut manifest = Manifest::new();
    assert!(manifest.add(ManifestEntry { task: 7, capabilities: CapabilityClass::IRQ() }));
    register_tasks(&mut tasks, &mut table, &manifest);
    assert_eq!(&profile(&tasks, TaskId(7)).unwrap().name[..4], b"task");
    assert!(caps::has(&table, TaskId(7), CapabilityClass::IRQ()));
    caps::init(&mut table);
    grant_manifest_caps(&mut table, &manifest);
    assert!(caps::has(&table, TaskId(7), CapabilityClass::IRQ()));
}

#[test]
fn payload_commands() {
    assert!(matches!(
        DisplayCommand::from_payload([0, 10, 20, 30]),
        Some(DisplayCommand::DrawRect { x: 10, y: 20, w: 30, h: 32, color: [0x50, 0x50, 0xf0, 0xff] })
    ));
    assert!(matches!(
        DisplayCommand::from_payload([1, 4, 5, 0x41]),
        Some(DisplayCommand::BlitText { x: 4, y: 5, ch: 'A', color: [0xff, 0xff, 0xff, 0xff] })
    ));
    assert!(matches!(DisplayCommand::from_payload([1, 0, 0, 0xD800]), Some(DisplayCommand::BlitText { ch: '?', .. })));
    assert!(matches!(
        DisplayCommand::from_payload([1, 0, 0, 0x1_0000_00E9]),
        Some(DisplayCommand::BlitText { ch: '\u{e9}', .. })
    ));
    assert!(matches!(
        DisplayCommand::from_payload([2, 7, 8, 0]),
        Some(DisplayCommand::SetCursor { x: 7, y: 8, shape: CursorShape::Arrow })
    ));
    assert!(DisplayCommand::from_payload([3, 0, 0, 0]).is_none());
}

#[test]
fn rectangles_are_clipped() {
    let spans = gfx::draw_rect(&info(100, 50), 90, 40, 30, 20, [1, 2, 3, 4]);
    assert_eq!(spans.len(), 10);
    assert!(matches!(spans[0], DrawOp::Span(s) if s.y == 40 && s.x_start == 90 && s.x_end == 100 && s.color == [1, 2, 3, 4]));
    assert!(matches!(spans[9], DrawOp::Span(s) if s.y == 49));
    assert!(gfx::draw_rect(&info(100, 50), 0, 60, 10, 10, [0; 4]).is_empty());
}

#[test]
fn glyph_rasterisation() {
    let ops = gfx::draw_char(10, 20, &[0b1000_0001, 0b0001_0000], [9, 9, 9, 9]);
    let pixels: Vec<(usize, usize)> = ops
        .iter()
        .map(|op| match op {
            DrawOp::Pixel(p) => (p.x, p.y),
            _ => panic!("not a pixel"),
        })
        .collect();
    assert_eq!(pixels, vec![(10, 20), (17, 20), (13, 21)]);
    assert!(gfx::draw_char(0, 0, &[], [0; 4]).is_empty());
}

#[test]
fn strings_and_cursor() {
    let ops = gfx::draw_string(5, 6, &['h', 'i'], [1; 4]);
    assert_eq!(ops.len(), 2);
    assert!(matches!(ops[1], DrawOp::Glyph(g) if g.x == 13 && g.y == 6 && g.ch == 'i'));
    let cursor = gfx::draw_cursor(3, 4);
    assert_eq!(cursor.len(), 16);
    assert!(matches!(cursor[15], DrawOp::Pixel(p) if p.x == 18 && p.y == 19 && p.color == [0xff; 4]));
}

#[test]
fn compositor_dispatch() {
    let none = Compositor::new();
    assert!(gfx::dispatch(&none, DisplayCommand::SetCursor { x: 0, y: 0, shape: CursorShape::Crosshair }).is_empty());
    assert!(gfx::draw_banner_window(&none).is_empty());
    let comp = compositor(640, 480);
    let text = gfx::dispatch(&comp, DisplayCommand::BlitText { x: 1, y: 2, ch: 'z', color: [0; 4] });
    assert!(matches!(text[0], DrawOp::Glyph(g) if g.ch == 'z'));
    assert_eq!(gfx::dispatch(&comp, DisplayCommand::DrawRect { x: 0, y: 0, w: 4, h: 3, color: [0; 4] }).len(), 3);
    let banner = gfx::draw_banner_window(&comp);
    assert_eq!(banner.len(), 200 + 23);
    assert!(matches!(banner[200], DrawOp::Glyph(g) if g.x == 64 && g.y == 64 && g.ch == 'A'));
    let mut kept = compositor(10, 10);
    gfx::init(&mut kept, None);
    assert_eq!(kept.framebuffer, Some(info(10, 10)));
}

#[test]
fn display_server_draws_requests() {
    let comp = compositor(320, 240);
    assert_eq!(display::handle_message(&comp, send([0, 0, 0, 16])).len(), 32);
    assert!(matches!(display::handle_message(&comp, send([1, 8, 8, 0x42]))[0], DrawOp::Glyph(g) if g.ch == 'B'));
    assert_eq!(display::handle_message(&comp, send([2, 1, 1, 0])).len(), 16);
    assert!(display::handle_message(&comp, send([9, 1, 1, 0])).is_empty());
    let recv = Message { ty: MessageType::Recv, src: 2, dst: 1, payload: [0, 0, 0, 16] };
    assert!(display::handle_message(&comp, recv).is_empty());
    assert!(display::handle_message(&Compositor::new(), send([0, 0, 0, 16])).is_empty());
}

#[test]
fn input_server_forwards_scancodes() {
    let mut queue = IpcQueue::new();
    input::dispatch_key(&mut queue, 0x1C);
    let m = ipc::recv(&mut queue).unwrap();
    assert_eq!((m.ty, m.src, m.dst), (MessageType::Send, 2, 1));
    assert_eq!(m.payload, [0x1C, 0, 0, 0]);
}

#[test]
fn file_server_requests() {
    let mut store = fs::KvStore::new();
    match fs::handle_message(&mut store, send([0, 3, 0, 0])) {
        fs::FsOutcome::SectorRead(buf) => {
            assert_eq!(buf.len(), 256);
            assert_eq!(buf[200], 200);
        },
        other => panic!("unexpected {:?}", other),
    }
    for _ in 0..16 {
        assert!(matches!(fs::handle_message(&mut store, send([1, 0x61, 0, 0])), fs::FsOutcome::KeyStored(true)));
    }
    assert!(matches!(fs::handle_message(&mut store, send([1, 0x62, 0, 0])), fs::FsOutcome::KeyStored(false)));
    assert!(matches!(fs::handle_message(&mut store, send([5, 0, 0, 0])), fs::FsOutcome::Ignored));
}

#[test]
fn log_chunks_carry_message() {
    assert!(log_write_chunks(b"").is_empty());
    assert_eq!(log_write_chunks(b"hi"), vec![(u64::from_le_bytes(*b"hi\0\0\0\0\0\0"), 2)]);
    let chunks = log_write_chunks(b"hello, kernel");
    assert_eq!(chunks, vec![(u64::from_le_bytes(*b"hello, k"), 8), (u64::from_le_bytes(*b"ernel\0\0\0"), 5)]);
    let mut back = Vec::new();
    for (value, len) in &chunks {
        back.extend_from_slice(&value.to_le_bytes()[..*len as usize]);
    }
    assert_eq!(back, b"hello, kernel".to_vec());
    assert_eq!(log_write_chunks(&[7u8; 16]).len(), 2);
    assert!(log_write("").is_empty());
    assert_eq!(
        log_write("Hello from user task\n"),
        vec![
            (4, u64::from_le_bytes(*b"Hello fr"), 8, 0, 0),
            (4, u64::from_le_bytes(*b"om user "), 8, 0, 0),
            (4, u64::from_le_bytes(*b"task\n\0\0\0"), 5, 0, 0),
        ]
    );
    assert_eq!(sleep_ms(1000), (3, 1000, 0, 0, 0));
}
