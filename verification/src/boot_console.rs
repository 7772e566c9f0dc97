//! Early boot console on the firmware framebuffer: text is laid out in 8x16
//! cells and each character is blitted as a coloured block.
use vstd::prelude::*;

use crate::boot::{FrameBufferInfo, PixelFormat};

verus! {

/// The framebuffer found through UEFI GOP: address of the first byte,
/// pixels per scan line, and its description.
#[derive(Clone, Copy, Debug, PartialEq, Eq, Structural)]
pub struct BootFrameBuffer {
    pub base: usize,
    pub stride: usize,
    pub info: FrameBufferInfo,
}

impl BootFrameBuffer {
    /// The framebuffer that GOP reports: its first byte at `base` (also its
    /// physical address), `stride` pixels per scan line, the current
    /// mode's resolution and pixel format, and `size` bytes in all.
    pub fn new(base: usize, stride: usize, resolution: (usize, usize), pixel_format: PixelFormat, size: usize) -> (fb: Self)
        ensures
            fb == (BootFrameBuffer {
                base,
                stride,
                info: FrameBufferInfo {
                    width: resolution.0,
                    height: resolution.1,
                    pixel_format,
                    size,
                    phys_addr: base as u64,
                },
            }),
    {
        BootFrameBuffer {
            base,
            stride,
            info: FrameBufferInfo {
                width: resolution.0,
                height: resolution.1,
                pixel_format,
                size,
                phys_addr: base as u64,
            },
        }
    }
}

/// The framebuffer installed for early output, if any.
pub struct EarlyConsole {
    pub fb: Option<BootFrameBuffer>,
}

impl EarlyConsole {
    /// A console without framebuffer.
    pub fn new() -> (c: Self)
        ensures
            c.fb is None,
    {
        EarlyConsole { fb: None }
    }
}

/// Writer that lays out text on a framebuffer.
#[derive(Clone, Copy, Debug, PartialEq, Eq, Structural)]
pub struct FrameBufferWriter {
    pub fb: BootFrameBuffer,
}

/// Install `fb` for later output (banner, panic messages).
pub fn install(console: &mut EarlyConsole, fb: BootFrameBuffer)
    ensures
        final(console).fb == Some(fb),
{
    console.fb = Some(fb);
}

/// The installed framebuffer, if any.
pub fn current(console: &EarlyConsole) -> (r: Option<BootFrameBuffer>)
    ensures
        r == console.fb,
{
    console.fb
}

/// A writer on the installed framebuffer, if any.
pub fn framebuffer_console(console: &EarlyConsole) -> (r: Option<FrameBufferWriter>)
    ensures
        console.fb is None ==> r is None,
        console.fb matches Some(fb) ==> r == Some(FrameBufferWriter { fb }),
{
    match console.fb {
        Some(fb) => Some(FrameBufferWriter { fb }),
        None => None,
    }
}

/// Width and height of a glyph cell.
pub const CELL_WIDTH: usize = 8;
pub const CELL_HEIGHT: usize = 16;

/// The blue and green byte of a glyph block for character byte `ch`.
pub open spec fn glyph_color(ch: u8) -> u8 {
    (0x30 + ch % 200) as u8
}

/// Addresses in the framebuffer cannot overflow: every pixel offset fits,
/// and coordinates near the edges can be advanced by a cell.
pub open spec fn fb_geometry_ok(stride: usize, width: usize, height: usize) -> bool {
    &&& height + 16 <= usize::MAX
    &&& width + 8 <= usize::MAX
    &&& stride * 4 <= usize::MAX
    &&& height * (stride * 4) + width * 4 <= usize::MAX
}

/// The four bytes (blue, green, red, alpha) of a glyph pixel whose blue
/// and green bytes are `color`.
pub open spec fn glyph_pixel(color: u8) -> [u8; 4] {
    [color, color, 0xffu8, 0xffu8]
}

/// Pixels `0..cols` of the glyph row at pixel row `row_y`, from column `x`:
/// each pixel's byte offset and its four bytes.
pub open spec fn blit_row(stride: usize, x: usize, row_y: int, cols: nat, color: u8) -> Seq<(usize, [u8; 4])> {
    Seq::new(cols, |c: int| ((row_y * (stride * 4) + (x + c) * 4) as usize, glyph_pixel(color)))
}

/// Columns of a glyph at `x` that fall inside a framebuffer `width` wide.
pub open spec fn glyph_cols(width: usize, x: usize) -> nat {
    if x + 8 <= width { 8 } else { (width - x) as nat }
}

/// Rows of a glyph at `y` that fall inside a framebuffer `height` high.
pub open spec fn glyph_rows(height: usize, y: usize) -> nat {
    if y + 16 <= height { 16 } else { (height - y) as nat }
}

/// The first `n` rows of the glyph block at `(x, y)`.
pub open spec fn blit_rows(stride: usize, width: usize, x: usize, y: usize, color: u8, n: nat) -> Seq<(usize, [u8; 4])>
    decreases n,
{
    if n == 0 {
        Seq::empty()
    } else {
        blit_rows(stride, width, x, y, color, (n - 1) as nat) + blit_row(stride, x, y + n - 1, glyph_cols(width, x), color)
    }
}

/// The pixels written for character byte `ch` with its cell at `(x, y)`:
/// nothing when the cell starts outside the framebuffer, else the 8x16
/// block clipped to the framebuffer, row by row.
pub open spec fn glyph_blit(stride: usize, width: usize, height: usize, x: usize, y: usize, ch: u8) -> Seq<(usize, [u8; 4])> {
    if x >= width || y >= height {
        Seq::empty()
    } else {
        blit_rows(stride, width, x, y, glyph_color(ch), glyph_rows(height, y))
    }
}

/// Blit the block for character byte `ch` with its cell at `(x, y)`: the
/// byte offset of each pixel to paint and its four bytes, blue and green
/// `0x30 + ch % 200`, red and alpha 0xff.
pub fn blit_glyph(stride: usize, width: usize, height: usize, x: usize, y: usize, ch: u8) -> (r: Vec<(usize, [u8; 4])>)
    requires
        fb_geometry_ok(stride, width, height),
    ensures
        r@ == glyph_blit(stride, width, height, x, y, ch),
{
    let mut out: Vec<(usize, [u8; 4])> = Vec::new();
    if x >= width || y >= height {
        return out;
    }
    let stride_bytes = stride * 4;
    let color = 0x30 + (ch % 200);
    let mut row: usize = 0;
    while row < CELL_HEIGHT
        invariant
            fb_geometry_ok(stride, width, height),
            x < width,
            y < height,
            stride_bytes == stride * 4,
            color == glyph_color(ch),
            0 <= row <= CELL_HEIGHT,
            row <= glyph_rows(height, y),
            out@ == blit_rows(stride, width, x, y, color, row as nat),
        ensures
            row == glyph_rows(height, y),
            out@ == blit_rows(stride, width, x, y, color, row as nat),
        decreases CELL_HEIGHT - row,
    {
        if y + row >= height {
            break;
        }
        proof {
            assert((y + row) * stride_bytes <= (height - 1) * stride_bytes) by (nonlinear_arith)
                requires
                    y + row <= height - 1,
                    stride_bytes >= 0,
            ;
            assert((height - 1) * stride_bytes + stride_bytes == height * stride_bytes) by (nonlinear_arith);
        }
        let row_off = (y + row) * stride_bytes + x * 4;
        let ghost before = out@;
        let mut col: usize = 0;
        while col < CELL_WIDTH
            invariant
                fb_geometry_ok(stride, width, height),
                x < width,
                y + row < height,
                stride_bytes == stride * 4,
                row_off == (y + row) * stride_bytes + x * 4,
                (y + row) * stride_bytes + stride_bytes <= height * stride_bytes,
                0 <= col <= CELL_WIDTH,
                col <= glyph_cols(width, x),
                out@ == before + blit_row(stride, x, y + row, col as nat, color),
            ensures
                col == glyph_cols(width, x),
                out@ == before + blit_row(stride, x, y + row, col as nat, color),
            decreases CELL_WIDTH - col,
        {
            if x + col >= width {
                break;
            }
            let off = row_off + col * 4;
            let pixel: [u8; 4] = [color, color, 0xff, 0xff];
            assert(pixel@ =~= glyph_pixel(color)@);
            out.push((off, pixel));
            assert(blit_row(stride, x, y + row, (col + 1) as nat, color) =~= blit_row(stride, x, y + row, col as nat, color).push(
                (off, pixel),
            ));
            col = col + 1;
        }
        row = row + 1;
    }
    out
}

/// The byte offset of the pixel at `col`, `row` of the cell at `(x, y)`
/// on a framebuffer with `stride` pixels per line.
pub open spec fn cell_offset(stride: usize, x: usize, y: usize, row: int, col: int) -> int {
    ((y + row) * stride + x + col) * 4
}

/// The first `n` rows of a glyph block: `n` rows of the clipped width.
proof fn lemma_blit_rows_len(stride: usize, width: usize, height: usize, x: usize, y: usize, color: u8, n: nat)
    ensures
        blit_rows(stride, width, x, y, color, n).len() == n * glyph_cols(width, x),
    decreases n,
{
    let cols = glyph_cols(width, x);
    if n > 0 {
        lemma_blit_rows_len(stride, width, height, x, y, color, (n - 1) as nat);
        assert((n - 1) * cols + cols == n * cols) by (nonlinear_arith)
            requires
                n >= 1,
        ;
    } else {
        assert(n * cols == 0) by (nonlinear_arith)
            requires
                n == 0,
        ;
    }
}

/// In the first `n` rows of a glyph block, the pixel at `row`, `col` of
/// the block is at index `row * cols + col`.
proof fn lemma_blit_rows_pixel(
    stride: usize,
    width: usize,
    height: usize,
    x: usize,
    y: usize,
    color: u8,
    n: nat,
    row: int,
    col: int,
)
    requires
        0 <= row < n,
        0 <= col < glyph_cols(width, x),
    ensures
        blit_rows(stride, width, x, y, color, n)[row * glyph_cols(width, x) + col].0 == cell_offset(stride, x, y, row, col) as usize,
        blit_rows(stride, width, x, y, color, n)[row * glyph_cols(width, x) + col].1 == glyph_pixel(color),
    decreases n,
{
    let cols = glyph_cols(width, x);
    let m = (n - 1) as nat;
    lemma_blit_rows_len(stride, width, height, x, y, color, m);
    let prev = blit_rows(stride, width, x, y, color, m);
    let line = blit_row(stride, x, y + m, cols, color);
    let all = blit_rows(stride, width, x, y, color, n);
    assert(all == prev + line);
    assert(0 <= row * cols) by (nonlinear_arith)
        requires
            0 <= row,
            0 <= cols,
    ;
    if row < m {
        assert(row * cols + col < m * cols) by (nonlinear_arith)
            requires
                0 <= row < m,
                0 <= col < cols,
        ;
        lemma_blit_rows_pixel(stride, width, height, x, y, color, m, row, col);
        assert(all[row * cols + col] == prev[row * cols + col]);
    } else {
        assert(all[row * cols + col] == line[col]);
        assert((y + m) * (stride * 4) + (x + col) * 4 == cell_offset(stride, x, y, m as int, col)) by (nonlinear_arith);
    }
}

/// A glyph is painted as the 8x16 block at `(x, y)` clipped to the
/// framebuffer (`rows` rows of `cols` pixels, row by row), and nothing
/// outside the framebuffer's bytes is written: the pixel at `row`, `col` of
/// the block is at byte offset `((y + row) * stride + x + col) * 4`, below
/// `height * stride * 4`, with blue and green `0x30 + ch % 200` and red and
/// alpha 0xff.  A cell that starts outside the framebuffer paints nothing.
pub proof fn lemma_glyph_blit_pixels(stride: usize, width: usize, height: usize, x: usize, y: usize, ch: u8)
    requires
        fb_geometry_ok(stride, width, height),
        width <= stride,
    ensures
        (x >= width || y >= height) ==> glyph_blit(stride, width, height, x, y, ch).len() == 0,
        (x < width && y < height) ==> ({
            let rows: int = if y + 16 <= height { 16 } else { height - y };
            let cols: int = if x + 8 <= width { 8 } else { width - x };
            let r = glyph_blit(stride, width, height, x, y, ch);
            &&& r.len() == rows * cols
            &&& forall|row: int, col: int|
                0 <= row < rows && 0 <= col < cols ==> {
                    &&& y + row < height && x + col < width
                    &&& r[row * cols + col].0 == #[trigger] cell_offset(stride, x, y, row, col)
                    &&& cell_offset(stride, x, y, row, col) + 4 <= height * stride * 4
                    &&& r[row * cols + col].1 == [(0x30 + ch % 200) as u8, (0x30 + ch % 200) as u8, 0xffu8, 0xffu8]
                }
        }),
{
    if x < width && y < height {
        let rows = glyph_rows(height, y);
        let cols = glyph_cols(width, x);
        lemma_blit_rows_len(stride, width, height, x, y, glyph_color(ch), rows);
        let r = glyph_blit(stride, width, height, x, y, ch);
        assert forall|row: int, col: int| 0 <= row < rows && 0 <= col < cols implies {
            &&& y + row < height && x + col < width
            &&& r[row * cols + col].0 == #[trigger] cell_offset(stride, x, y, row, col)
            &&& cell_offset(stride, x, y, row, col) + 4 <= height * stride * 4
            &&& r[row * cols + col].1 == [(0x30 + ch % 200) as u8, (0x30 + ch % 200) as u8, 0xffu8, 0xffu8]
        } by {
            lemma_blit_rows_pixel(stride, width, height, x, y, glyph_color(ch), rows, row, col);
            assert(cell_offset(stride, x, y, row, col) + 4 <= height * stride * 4) by (nonlinear_arith)
                requires
                    0 <= y + row <= height - 1,
                    0 <= x + col <= width - 1,
                    width <= stride,
                    cell_offset(stride, x, y, row, col) == ((y + row) * stride + x + col) * 4,
            ;
            assert(height * stride * 4 == height * (stride * 4)) by (nonlinear_arith);
            assert(0 <= cell_offset(stride, x, y, row, col)) by (nonlinear_arith)
                requires
                    0 <= y + row,
                    0 <= x + col,
                    cell_offset(stride, x, y, row, col) == ((y + row) * stride + x + col) * 4,
            ;
        }
    }
}

/// Where the text cursor stands after laying out `text`, starting at
/// (8, 8): a newline returns to column 8 one cell lower, any other
/// character advances one cell; both saturate at `usize::MAX`.
pub open spec fn text_cursor(text: Seq<char>) -> (usize, usize)
    decreases text.len(),
{
    if text.len() == 0 {
        (8, 8)
    } else {
        let (x, y) = text_cursor(text.drop_last());
        if text.last() == '\n' {
            (8, y.saturating_add(16))
        } else {
            (x.saturating_add(8), y)
        }
    }
}

/// The pixels written when `text` is drawn on `fb`: each character other
/// than a newline is blitted at the cursor position reached before it,
/// using the low byte of its code point.
pub open spec fn text_blits(fb: BootFrameBuffer, text: Seq<char>) -> Seq<(usize, [u8; 4])>
    decreases text.len(),
{
    if text.len() == 0 {
        Seq::empty()
    } else {
        let prev = text_blits(fb, text.drop_last());
        if text.last() == '\n' {
            prev
        } else {
            let (x, y) = text_cursor(text.drop_last());
            prev + glyph_blit(fb.stride, fb.info.width, fb.info.height, x, y, (text.last() as u32 % 256) as u8)
        }
    }
}

impl FrameBufferWriter {
    /// Lay out and blit `text`: the pixel offsets and the pixels to paint
    /// there (see `text_blits`).
    pub fn write_str(&self, text: &[char]) -> (r: Vec<(usize, [u8; 4])>)
        requires
            fb_geometry_ok(self.fb.stride, self.fb.info.width, self.fb.info.height),
        ensures
            r@ == text_blits(self.fb, text@),
    {
        let fb = self.fb;
        let mut out: Vec<(usize, [u8; 4])> = Vec::new();
        let mut cursor_x: usize = 8;
        let mut cursor_y: usize = 8;
        let mut i: usize = 0;
        while i < text.len()
            invariant
                0 <= i <= text@.len(),
                fb == self.fb,
                fb_geometry_ok(fb.stride, fb.info.width, fb.info.height),
                (cursor_x, cursor_y) == text_cursor(text@.take(i as int)),
                out@ == text_blits(fb, text@.take(i as int)),
            decreases text@.len() - i,
        {
            let ch = text[i];
            proof {
                assert(text@.take(i + 1).drop_last() =~= text@.take(i as int));
            }
            if ch == '\n' {
                cursor_y = cursor_y.saturating_add(16);
                cursor_x = 8;
            } else {
                let byte = ((ch as u32) % 256) as u8;
                let mut glyph = blit_glyph(fb.stride, fb.info.width, fb.info.height, cursor_x, cursor_y, byte);
                out.append(&mut glyph);
                cursor_x = cursor_x.saturating_add(8);
            }
            i = i + 1;
        }
        assert(text@.take(text@.len() as int) =~= text@);
        out
    }
}

/// The boot banner, "AegisOS fxig08ouh (UEFI)" followed by a newline.
pub open spec fn boot_banner() -> Seq<char> {
    seq!['A', 'e', 'g', 'i', 's', 'O', 'S', ' ', 'f', 'x', 'i', 'g', '0', '8', 'o', 'u', 'h', ' ', '(', 'U', 'E', 'F', 'I', ')', '\n']
}

/// The boot banner as drawn on the installed framebuffer; nothing without one.
pub fn draw_banner(console: &EarlyConsole) -> (r: Vec<(usize, [u8; 4])>)
    requires
        console.fb matches Some(fb) ==> fb_geometry_ok(fb.stride, fb.info.width, fb.info.height),
    ensures
        console.fb is None ==> r@ == Seq::<(usize, [u8; 4])>::empty(),
        console.fb matches Some(fb) ==> r@ == text_blits(fb, boot_banner()),
{
    match framebuffer_console(console) {
        Some(writer) => {
            let text: [char; 25] = [
                'A', 'e', 'g', 'i', 's', 'O', 'S', ' ', 'f', 'x', 'i', 'g', '0', '8', 'o', 'u', 'h', ' ', '(',
                'U', 'E', 'F', 'I', ')', '\n',
            ];
            assert(text@ =~= boot_banner());
            writer.write_str(text.as_slice())
        },
        None => Vec::new(),
    }
}

} // verus!
