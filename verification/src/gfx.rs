//! Immediate-mode compositor: decodes display commands and turns them into
//! the drawing operations to perform on the firmware framebuffer.
use vstd::prelude::*;

use crate::boot::FrameBufferInfo;

verus! {

/// A request to the display server.
#[derive(Clone, Copy, Debug)]
pub enum DisplayCommand {
    DrawRect { x: usize, y: usize, w: usize, h: usize, color: [u8; 4] },
    BlitText { x: usize, y: usize, ch: char, color: [u8; 4] },
    SetCursor { x: usize, y: usize, shape: CursorShape },
}

/// Shape of the pointer.
#[derive(Clone, Copy, Debug, PartialEq, Eq, Structural)]
pub enum CursorShape {
    Arrow,
    Crosshair,
}

/// `v` is a Unicode scalar value.
pub open spec fn is_scalar_value(v: u32) -> bool {
    v < 0xD800 || (0xE000 <= v && v <= 0x10FFFF)
}

/// `char::from_u32`: the character with code `v`, or `None` when `v` is a
/// surrogate or above U+10FFFF (as std documents).
#[verifier::external_body]
fn char_from_u32(v: u32) -> (r: Option<char>)
    ensures
        is_scalar_value(v) ==> (r is Some && r.unwrap() as u32 == v),
        !is_scalar_value(v) ==> r is None,
{
    core::char::from_u32(v)
}

/// Height of the bars drawn by `DrawRect` requests.
pub const RECT_HEIGHT: usize = 32;

/// The command encoded in an IPC payload: word 0 selects a rectangle
/// (x, y, width from words 1..3, height 32, blue), a character (x, y, code
/// point from words 1..3, white; an invalid code point becomes '?') or the
/// cursor position (words 1, 2, arrow shape).
pub open spec fn command_of(payload: [u64; 4], ch: char) -> Option<DisplayCommand> {
    if payload[0] == 0 {
        Some(
            DisplayCommand::DrawRect {
                x: payload[1] as usize,
                y: payload[2] as usize,
                w: payload[3] as usize,
                h: RECT_HEIGHT,
                color: [0x50u8, 0x50u8, 0xf0u8, 0xffu8],
            },
        )
    } else if payload[0] == 1 {
        Some(
            DisplayCommand::BlitText {
                x: payload[1] as usize,
                y: payload[2] as usize,
                ch,
                color: [0xffu8, 0xffu8, 0xffu8, 0xffu8],
            },
        )
    } else if payload[0] == 2 {
        Some(
            DisplayCommand::SetCursor {
                x: payload[1] as usize,
                y: payload[2] as usize,
                shape: CursorShape::Arrow,
            },
        )
    } else {
        None
    }
}

/// The character a `BlitText` payload word names: its low 32 bits as a
/// code point, or '?' when they are not a scalar value.
pub open spec fn payload_char(word: u64, ch: char) -> bool {
    if is_scalar_value(word as u32) {
        ch as u32 == word as u32
    } else {
        ch == '?'
    }
}

impl DisplayCommand {
    /// Decode the command carried by an IPC payload (see `command_of`).
    pub fn from_payload(payload: [u64; 4]) -> (r: Option<Self>)
        ensures
            exists|ch: char| #[trigger] payload_char(payload[3], ch) && r == command_of(payload, ch),
    {
        let ch = match char_from_u32(payload[3] as u32) {
            Some(c) => c,
            None => '?',
        };
        assert(payload_char(payload[3], ch));
        match payload[0] {
            0 => Some(
                DisplayCommand::DrawRect {
                    x: payload[1] as usize,
                    y: payload[2] as usize,
                    w: payload[3] as usize,
                    h: RECT_HEIGHT,
                    color: [0x50, 0x50, 0xf0, 0xff],
                },
            ),
            1 => Some(
                DisplayCommand::BlitText {
                    x: payload[1] as usize,
                    y: payload[2] as usize,
                    ch,
                    color: [0xff, 0xff, 0xff, 0xff],
                },
            ),
            2 => Some(
                DisplayCommand::SetCursor {
                    x: payload[1] as usize,
                    y: payload[2] as usize,
                    shape: CursorShape::Arrow,
                },
            ),
            _ => None,
        }
    }
}

/// What a display request asks for, by its first payload word: 0 a
/// 32-pixel-high bar in blue (0x50, 0x50, 0xf0, 0xff) at `(p[1], p[2])`,
/// `p[3]` wide; 1 the character `ch` in white at `(p[1], p[2])`; 2 the
/// arrow cursor at `(p[1], p[2])`; anything else nothing.
pub proof fn lemma_payload_commands(payload: [u64; 4], ch: char)
    ensures
        payload[0] == 0 ==> (command_of(payload, ch) matches Some(DisplayCommand::DrawRect { x, y, w, h, color })
            && x == payload[1] as usize && y == payload[2] as usize && w == payload[3] as usize && h == 32 && color
            == [0x50u8, 0x50u8, 0xf0u8, 0xffu8]),
        payload[0] == 1 ==> (command_of(payload, ch) matches Some(DisplayCommand::BlitText { x, y, ch: c, color }) && x
            == payload[1] as usize && y == payload[2] as usize && c == ch && color == [0xffu8, 0xffu8, 0xffu8, 0xffu8]),
        payload[0] == 2 ==> (command_of(payload, ch) matches Some(DisplayCommand::SetCursor { x, y, shape }) && x
            == payload[1] as usize && y == payload[2] as usize && shape == CursorShape::Arrow),
        payload[0] > 2 ==> command_of(payload, ch) is None,
{
}

/// The pixels `x_start <= x < x_end` of row `y`, all of colour `color`.
#[derive(Clone, Copy, Debug)]
pub struct PixelSpan {
    pub y: usize,
    pub x_start: usize,
    pub x_end: usize,
    pub color: [u8; 4],
}

/// One pixel.
#[derive(Clone, Copy, Debug)]
pub struct PixelWrite {
    pub x: usize,
    pub y: usize,
    pub color: [u8; 4],
}

/// A character to rasterise with the font, its top-left corner at `(x, y)`.
#[derive(Clone, Copy, Debug)]
pub struct GlyphPlacement {
    pub x: usize,
    pub y: usize,
    pub ch: char,
    pub color: [u8; 4],
}

/// One drawing operation on the framebuffer.
#[derive(Clone, Copy, Debug)]
pub enum DrawOp {
    Span(PixelSpan),
    Glyph(GlyphPlacement),
    Pixel(PixelWrite),
}

/// The compositor's framebuffer, once known.
pub struct Compositor {
    pub framebuffer: Option<FrameBufferInfo>,
}

impl Compositor {
    /// A compositor without framebuffer; it draws nothing.
    pub fn new() -> (c: Self)
        ensures
            c.framebuffer is None,
    {
        Compositor { framebuffer: None }
    }
}

/// Take the framebuffer described at boot, when there is one; otherwise
/// the compositor keeps what it had.
pub fn init(comp: &mut Compositor, info: Option<FrameBufferInfo>)
    ensures
        info is Some ==> final(comp).framebuffer == info,
        info is None ==> final(comp).framebuffer == old(comp).framebuffer,
{
    if let Some(info) = info {
        comp.framebuffer = Some(info);
    }
}

pub open spec fn min(a: int, b: int) -> int {
    if a < b { a } else { b }
}

/// The rows of a `w` by `h` rectangle at `(x, y)`, clipped to the
/// framebuffer: one span per row from `y` up to `min(y + h, height)`, each
/// from `x` to `min(x + w, width)`.
pub open spec fn rect_spans(info: FrameBufferInfo, x: usize, y: usize, w: usize, h: usize, color: [u8; 4]) -> Seq<DrawOp> {
    let max_y = min(y + h, info.height as int);
    let max_x = min(x + w, info.width as int);
    Seq::new(
        if max_y > y { (max_y - y) as nat } else { 0 },
        |r: int| DrawOp::Span(PixelSpan { y: (y + r) as usize, x_start: x, x_end: max_x as usize, color }),
    )
}

/// Fill a rectangle, clipped to the framebuffer.
pub fn draw_rect(info: &FrameBufferInfo, x: usize, y: usize, w: usize, h: usize, color: [u8; 4]) -> (r: Vec<DrawOp>)
    requires
        x + w <= usize::MAX,
        y + h <= usize::MAX,
    ensures
        r@ == rect_spans(*info, x, y, w, h, color),
{
    let max_x = if x + w < info.width { x + w } else { info.width };
    let max_y = if y + h < info.height { y + h } else { info.height };
    let mut out: Vec<DrawOp> = Vec::new();
    if y < max_y {
        let mut py = y;
        while py < max_y
            invariant
                y <= py <= max_y,
                max_x == min(x + w, info.width as int),
                max_y == min(y + h, info.height as int),
                out@ =~= rect_spans(*info, x, y, w, h, color).take((py - y) as int),
            decreases max_y - py,
        {
            out.push(DrawOp::Span(PixelSpan { y: py, x_start: x, x_end: max_x, color }));
            py = py + 1;
        }
    }
    assert(out@ =~= rect_spans(*info, x, y, w, h, color));
    out
}

/// A filled rectangle paints exactly the requested pixels that lie on the
/// framebuffer: one span per row `y + k` for the rows below both `y + h`
/// and the height, each from column `x` up to (not including) the smaller
/// of `x + w` and the width, in the requested colour.  No span is wider
/// than `w`.
pub proof fn lemma_rect_spans_clipped(info: FrameBufferInfo, x: usize, y: usize, w: usize, h: usize, color: [u8; 4])
    requires
        x + w <= usize::MAX,
        y + h <= usize::MAX,
    ensures
        rect_spans(info, x, y, w, h, color).len() == (if y + h <= info.height { h as int } else if y < info.height {
            info.height - y
        } else {
            0
        }),
        forall|k: int|
            0 <= k < rect_spans(info, x, y, w, h, color).len() ==> {
                &&& #[trigger] rect_spans(info, x, y, w, h, color)[k] matches DrawOp::Span(s)
                &&& s.y == y + k
                &&& s.y < y + h
                &&& s.y < info.height
                &&& s.x_start == x
                &&& s.x_end == (if x + w <= info.width { x + w } else { info.width as int })
                &&& s.x_end <= x + w
                &&& s.color == color
            },
{
}

/// Bit `bit` (0 = leftmost) of glyph row `row` is set.
pub open spec fn glyph_bit(row: u8, bit: int) -> bool {
    (row >> ((7 - bit) as u8)) & 1u8 == 1u8
}

/// The pixels lit by the first `k` cells of `glyph` read row by row, eight
/// cells per row, for a glyph whose top-left corner is at `(x, y)`.
pub open spec fn glyph_pixels(glyph: Seq<u8>, x: usize, y: usize, color: [u8; 4], k: nat) -> Seq<DrawOp>
    decreases k,
{
    if k == 0 {
        Seq::empty()
    } else {
        let prev = glyph_pixels(glyph, x, y, color, (k - 1) as nat);
        let row = (k - 1) / 8;
        let bit = (k - 1) % 8;
        if glyph_bit(glyph[row], bit) {
            prev.push(DrawOp::Pixel(PixelWrite { x: (x + bit) as usize, y: (y + row) as usize, color }))
        } else {
            prev
        }
    }
}

/// Rasterise a glyph (one byte per row, most significant bit leftmost) with
/// its top-left corner at `(x, y)`: one pixel per set bit, row by row.
pub fn draw_char(x: usize, y: usize, glyph: &[u8], color: [u8; 4]) -> (r: Vec<DrawOp>)
    requires
        x + 8 <= usize::MAX,
        y + glyph@.len() <= usize::MAX,
        glyph@.len() * 8 <= usize::MAX,
    ensures
        r@ == glyph_pixels(glyph@, x, y, color, (glyph@.len() * 8) as nat),
{
    let n = glyph.len() * 8;
    let mut out: Vec<DrawOp> = Vec::new();
    let mut k: usize = 0;
    while k < n
        invariant
            0 <= k <= n,
            n == glyph@.len() * 8,
            x + 8 <= usize::MAX,
            y + glyph@.len() <= usize::MAX,
            out@ == glyph_pixels(glyph@, x, y, color, k as nat),
        decreases n - k,
    {
        let row_idx = k / 8;
        let bit = k % 8;
        let row = glyph[row_idx];
        let shift = (7 - bit) as u8;
        if (row >> shift) & 1 == 1 {
            out.push(DrawOp::Pixel(PixelWrite { x: x + bit, y: y + row_idx, color }));
        }
        k = k + 1;
    }
    out
}

/// Width of a glyph cell.
pub const GLYPH_WIDTH: usize = 8;

/// The glyph placements for `text` starting at `(x, y)`: character `i` at
/// `x + 8 i`.
pub open spec fn string_glyphs(text: Seq<char>, x: usize, y: usize, color: [u8; 4]) -> Seq<DrawOp>
    decreases text.len(),
{
    if text.len() == 0 {
        Seq::empty()
    } else {
        string_glyphs(text.drop_last(), x, y, color).push(
            DrawOp::Glyph(GlyphPlacement { x: (x + (text.len() - 1) * 8) as usize, y, ch: text.last(), color }),
        )
    }
}

/// Glyph rows are read most significant bit first: cell `k` (row `k / 8`,
/// column `k % 8`) lights the pixel `(x + k % 8, y + k / 8)` exactly when
/// bit `0x80 >> (k % 8)` of row `k / 8` is set, and adds nothing otherwise.
pub proof fn lemma_glyph_cell(glyph: Seq<u8>, x: usize, y: usize, color: [u8; 4], k: nat)
    requires
        k < glyph.len() * 8,
    ensures
        ({
            let before = glyph_pixels(glyph, x, y, color, k);
            let after = glyph_pixels(glyph, x, y, color, k + 1);
            let row = glyph[k as int / 8];
            let lit = row & (0x80u8 >> ((k % 8) as u8)) != 0;
            &&& lit ==> after == before.push(
                DrawOp::Pixel(PixelWrite { x: (x + k % 8) as usize, y: (y + k / 8) as usize, color }),
            )
            &&& !lit ==> after == before
        }),
{
    let row = glyph[k as int / 8];
    let bit = (k % 8) as u8;
    assert(bit < 8);
    assert((((row >> ((7 - bit) as u8)) & 1u8) == 1u8) == (row & (0x80u8 >> bit) != 0)) by (bit_vector)
        requires
            bit < 8,
    ;
    assert(glyph_bit(row, (k % 8) as int) == (((row >> ((7 - bit) as u8)) & 1u8) == 1u8));
}

/// Every pixel of a rasterised glyph lies in its 8-pixel-wide cell, on one
/// of the glyph's rows, and has the requested colour.
pub proof fn lemma_glyph_pixels_in_cell(glyph: Seq<u8>, x: usize, y: usize, color: [u8; 4], k: nat)
    requires
        k <= glyph.len() * 8,
        x + 8 <= usize::MAX,
        y + glyph.len() <= usize::MAX,
    ensures
        forall|i: int|
            0 <= i < glyph_pixels(glyph, x, y, color, k).len() ==> {
                &&& #[trigger] glyph_pixels(glyph, x, y, color, k)[i] matches DrawOp::Pixel(p)
                &&& x <= p.x < x + 8
                &&& y <= p.y < y + glyph.len()
                &&& p.color == color
            },
        glyph_pixels(glyph, x, y, color, k).len() <= k,
    decreases k,
{
    if k > 0 {
        lemma_glyph_pixels_in_cell(glyph, x, y, color, (k - 1) as nat);
        let row = (k - 1) / 8;
        let bit = (k - 1) % 8;
        assert(row < glyph.len()) by (nonlinear_arith)
            requires
                k <= glyph.len() * 8,
                row == (k - 1) / 8,
                k > 0,
        ;
        assert(0 <= bit < 8);
        let prev = glyph_pixels(glyph, x, y, color, (k - 1) as nat);
        let next = glyph_pixels(glyph, x, y, color, k);
        let px = DrawOp::Pixel(PixelWrite { x: (x + bit) as usize, y: (y + row) as usize, color });
        if glyph_bit(glyph[row], bit) {
            assert(next == prev.push(px));
            assert forall|i: int| 0 <= i < next.len() implies {
                &&& #[trigger] next[i] matches DrawOp::Pixel(p)
                &&& x <= p.x < x + 8
                &&& y <= p.y < y + glyph.len()
                &&& p.color == color
            } by {
                if i < prev.len() {
                    assert(next[i] == prev[i]);
                } else {
                    assert(next[i] == px);
                }
            }
        } else {
            assert(next == prev);
        }
    }
}

/// Place the characters of `text` on one line from `(x, y)`.
pub fn draw_string(x: usize, y: usize, text: &[char], color: [u8; 4]) -> (r: Vec<DrawOp>)
    requires
        x + text@.len() * 8 <= usize::MAX,
    ensures
        r@ == string_glyphs(text@, x, y, color),
{
    let mut out: Vec<DrawOp> = Vec::new();
    let mut idx: usize = 0;
    while idx < text.len()
        invariant
            0 <= idx <= text@.len(),
            x + text@.len() * 8 <= usize::MAX,
            out@ == string_glyphs(text@.take(idx as int), x, y, color),
        decreases text@.len() - idx,
    {
        let op = DrawOp::Glyph(GlyphPlacement { x: x + idx * 8, y, ch: text[idx], color });
        out.push(op);
        assert(text@.take(idx + 1).drop_last() =~= text@.take(idx as int));
        idx = idx + 1;
    }
    assert(text@.take(text@.len() as int) =~= text@);
    out
}


/// The cursor: a 16-pixel white diagonal from `(x, y)`.
pub open spec fn cursor_pixels(x: usize, y: usize) -> Seq<DrawOp> {
    Seq::new(
        16,
        |d: int| DrawOp::Pixel(PixelWrite { x: (x + d) as usize, y: (y + d) as usize, color: [0xffu8, 0xffu8, 0xffu8, 0xffu8] }),
    )
}

/// The cursor is 16 white pixels on the diagonal going down and right
/// from `(x, y)`, the `d`-th at `(x + d, y + d)`.
pub proof fn lemma_cursor_diagonal(x: usize, y: usize)
    requires
        x + 16 <= usize::MAX,
        y + 16 <= usize::MAX,
    ensures
        cursor_pixels(x, y).len() == 16,
        forall|d: int|
            0 <= d < 16 ==> (#[trigger] cursor_pixels(x, y)[d] matches DrawOp::Pixel(p) && p.x == x + d && p.y == y + d
                && p.color == [0xffu8, 0xffu8, 0xffu8, 0xffu8]),
{
}

/// Draw the cursor at `(x, y)`.
pub fn draw_cursor(x: usize, y: usize) -> (r: Vec<DrawOp>)
    requires
        x + 16 <= usize::MAX,
        y + 16 <= usize::MAX,
    ensures
        r@ == cursor_pixels(x, y),
{
    let mut out: Vec<DrawOp> = Vec::new();
    let mut d: usize = 0;
    while d < 16
        invariant
            0 <= d <= 16,
            x + 16 <= usize::MAX,
            y + 16 <= usize::MAX,
            out@ =~= cursor_pixels(x, y).take(d as int),
        decreases 16 - d,
    {
        out.push(DrawOp::Pixel(PixelWrite { x: x + d, y: y + d, color: [0xff, 0xff, 0xff, 0xff] }));
        d = d + 1;
    }
    assert(out@ =~= cursor_pixels(x, y));
    out
}

/// Coordinates of `cmd` leave room for its drawing (no address overflow).
pub open spec fn command_fits(cmd: DisplayCommand) -> bool {
    match cmd {
        DisplayCommand::DrawRect { x, y, w, h, .. } => x + w <= usize::MAX && y + h <= usize::MAX,
        DisplayCommand::BlitText { .. } => true,
        DisplayCommand::SetCursor { x, y, .. } => x + 16 <= usize::MAX && y + 16 <= usize::MAX,
    }
}

/// The drawing `cmd` asks for on framebuffer `info`.
pub open spec fn command_ops(info: FrameBufferInfo, cmd: DisplayCommand) -> Seq<DrawOp> {
    match cmd {
        DisplayCommand::DrawRect { x, y, w, h, color } => rect_spans(info, x, y, w, h, color),
        DisplayCommand::BlitText { x, y, ch, color } => seq![DrawOp::Glyph(GlyphPlacement { x, y, ch, color })],
        DisplayCommand::SetCursor { x, y, .. } => cursor_pixels(x, y),
    }
}

/// The drawing operations for `cmd`; nothing until a framebuffer is known.
pub fn dispatch(comp: &Compositor, cmd: DisplayCommand) -> (r: Vec<DrawOp>)
    requires
        command_fits(cmd),
    ensures
        comp.framebuffer is None ==> r@ == Seq::<DrawOp>::empty(),
        comp.framebuffer matches Some(info) ==> r@ == command_ops(info, cmd),
{
    match &comp.framebuffer {
        Some(info) => match cmd {
            DisplayCommand::DrawRect { x, y, w, h, color } => draw_rect(info, x, y, w, h, color),
            DisplayCommand::BlitText { x, y, ch, color } => {
                let mut out: Vec<DrawOp> = Vec::new();
                out.push(DrawOp::Glyph(GlyphPlacement { x, y, ch, color }));
                assert(out@ =~= seq![DrawOp::Glyph(GlyphPlacement { x, y, ch, color })]);
                out
            },
            DisplayCommand::SetCursor { x, y, shape: _ } => draw_cursor(x, y),
        },
        None => Vec::new(),
    }
}

/// The banner text, "AegisOS fxig08ouh ready".
pub open spec fn banner_text() -> Seq<char> {
    seq!['A', 'e', 'g', 'i', 's', 'O', 'S', ' ', 'f', 'x', 'i', 'g', '0', '8', 'o', 'u', 'h', ' ', 'r', 'e', 'a', 'd', 'y']
}

/// The start-up window: a 320 by 200 dark blue panel at (40, 40) and the
/// banner text in white at (64, 64); nothing until a framebuffer is known.
pub fn draw_banner_window(comp: &Compositor) -> (r: Vec<DrawOp>)
    ensures
        comp.framebuffer is None ==> r@ == Seq::<DrawOp>::empty(),
        comp.framebuffer matches Some(info) ==> r@ == rect_spans(info, 40, 40, 320, 200, [0x20u8, 0x20u8, 0x90u8, 0xffu8])
            + string_glyphs(banner_text(), 64, 64, [0xffu8, 0xffu8, 0xffu8, 0xffu8]),
{
    match &comp.framebuffer {
        Some(info) => {
            let mut out = draw_rect(info, 40, 40, 320, 200, [0x20, 0x20, 0x90, 0xff]);
            let text: [char; 23] = [
                'A', 'e', 'g', 'i', 's', 'O', 'S', ' ', 'f', 'x', 'i', 'g', '0', '8', 'o', 'u', 'h', ' ', 'r',
                'e', 'a', 'd', 'y',
            ];
            assert(text@ =~= banner_text());
            let mut glyphs = draw_string(64, 64, text.as_slice(), [0xff, 0xff, 0xff, 0xff]);
            out.append(&mut glyphs);
            out
        },
        None => Vec::new(),
    }
}

} // verus!
