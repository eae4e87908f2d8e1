//! The screen on which the frames of a stream are laid, one over the other.
//!
//! A frame of a GIF file covers a part of the screen and may leave pixels of
//! that part open. What is to be seen while it is shown is the screen as the
//! earlier frames left it, with the frame's pixels over it. The screen is
//! held as RGBA bytes, row by row, as the frames of this library are.

use crate::stream::Disposal;
use crate::stream::RawFrame;
use crate::stream::RawFrameView;
use vstd::prelude::*;

verus! {

/// The number of bytes of a screen of this size.
pub open spec fn canvas_len(width: u16, height: u16) -> nat {
    width as nat * height as nat * 4
}

/// The length that the pixel buffer of a frame of this size must have.
pub open spec fn expected_len(raw: RawFrameView) -> nat {
    raw.width as nat * raw.height as nat * 4
}

/// Whether the frame's pixel buffer has the length its size asks for.
pub open spec fn sized(raw: RawFrameView) -> bool {
    raw.buffer.len() == expected_len(raw)
}

/// Whether the frame covers the pixel in column `x` and row `y` of the
/// screen.
pub open spec fn covers(raw: RawFrameView, x: int, y: int) -> bool {
    raw.left <= x < raw.left + raw.width && raw.top <= y < raw.top + raw.height
}

/// The place, in the frame's buffer, of byte `c` of the pixel that the frame
/// has for column `x` and row `y` of the screen.
pub open spec fn source(raw: RawFrameView, x: int, y: int, c: int) -> int {
    ((y - raw.top) * raw.width + (x - raw.left)) * 4 + c
}

/// The column of the pixel that byte `k` of a screen of this width belongs to.
pub open spec fn column(width: u16, k: int) -> int {
    (k / 4) % (width as int)
}

/// The row of the pixel that byte `k` of a screen of this width belongs to.
pub open spec fn row(width: u16, k: int) -> int {
    (k / 4) / (width as int)
}

/// Byte `k` of the screen once the frame is drawn over `under`: the frame's
/// byte where the frame covers the pixel and its alpha there is not 0, else
/// the byte that was there.
pub open spec fn drawn_byte(under: Seq<u8>, width: u16, raw: RawFrameView, k: int) -> u8 {
    let x = column(width, k);
    let y = row(width, k);
    if covers(raw, x, y) && raw.buffer[source(raw, x, y, 3)] != 0 {
        raw.buffer[source(raw, x, y, k % 4)]
    } else {
        under[k]
    }
}

/// Byte `k` of the screen once the frame's part of `under` is cleared: 0
/// where the frame covers the pixel, else the byte that was there.
pub open spec fn cleared_byte(under: Seq<u8>, width: u16, raw: RawFrameView, k: int) -> u8 {
    if covers(raw, column(width, k), row(width, k)) {
        0
    } else {
        under[k]
    }
}

/// A screen with nothing on it: every pixel black and fully transparent.
pub open spec fn blank(len: nat) -> Seq<u8> {
    Seq::new(len, |k: int| 0u8)
}

/// The screen `under` with the frame drawn over it.
pub open spec fn drawn(under: Seq<u8>, width: u16, raw: RawFrameView) -> Seq<u8> {
    Seq::new(under.len(), |k: int| drawn_byte(under, width, raw, k))
}

/// The screen `under` with the frame's part of it cleared.
pub open spec fn cleared(under: Seq<u8>, width: u16, raw: RawFrameView) -> Seq<u8> {
    Seq::new(under.len(), |k: int| cleared_byte(under, width, raw, k))
}

/// The screen on which the next frame is drawn, where `before` was the
/// screen before this frame and `shown` the screen with it: `before` for a
/// frame that gives way to what was there, `shown` with the frame's part
/// cleared for one that is cleared, and `shown` for any other.
pub open spec fn settled(before: Seq<u8>, shown: Seq<u8>, width: u16, raw: RawFrameView) -> Seq<
    u8,
> {
    match raw.dispose {
        Disposal::Previous => before,
        Disposal::Background => cleared(shown, width, raw),
        Disposal::Keep | Disposal::Any => shown,
    }
}

/// Byte `k` of the screen with the frame's part cleared, or with the frame
/// drawn over it.
pub open spec fn relaid_byte(
    under: Seq<u8>,
    width: u16,
    raw: RawFrameView,
    clear: bool,
    k: int,
) -> u8 {
    if clear {
        cleared_byte(under, width, raw, k)
    } else {
        drawn_byte(under, width, raw, k)
    }
}

/// The buffer of the largest frame still has a length that fits 64 bits,
/// and so has the largest screen.
pub proof fn lemma_lengths_fit(width: u16, height: u16)
    ensures
        width as nat * height as nat * 4 <= 4 * 0xffff * 0xffff,
{
    assert(width as nat * height as nat <= 0xffff * 0xffff) by (nonlinear_arith)
        requires
            width <= 0xffff,
            height <= 0xffff,
    ;
}

/// Byte `c` of the pixel in column `x` and row `y` has its place within the
/// screen, and that place leads back to the column and the row.
proof fn lemma_pixel_place(width: u16, height: u16, x: int, y: int, c: int)
    requires
        0 <= x < width,
        0 <= y < height,
        0 <= c < 4,
    ensures
        0 <= (y * width + x) * 4 + c < canvas_len(width, height),
        column(width, (y * width + x) * 4 + c) == x,
        row(width, (y * width + x) * 4 + c) == y,
        ((y * width + x) * 4 + c) % 4 == c,
{
    let p = y * width + x;
    let k = p * 4 + c;
    assert(0 <= p < width * height) by (nonlinear_arith)
        requires
            p == y * width + x,
            0 <= x < width,
            0 <= y < height,
    ;
    vstd::arithmetic::div_mod::lemma_fundamental_div_mod_converse(k, 4, p, c);
    vstd::arithmetic::div_mod::lemma_fundamental_div_mod_converse(p, width as int, y, x);
    assert(width as nat * height as nat * 4 == (width * height) * 4) by (nonlinear_arith);
}

/// The pixel that a well sized frame has for a place it covers lies within
/// its buffer.
proof fn lemma_source_place(raw: RawFrameView, x: int, y: int, c: int)
    requires
        sized(raw),
        covers(raw, x, y),
        0 <= c < 4,
    ensures
        0 <= source(raw, x, y, 0),
        source(raw, x, y, c) == source(raw, x, y, 0) + c,
        source(raw, x, y, 0) + 3 < raw.buffer.len(),
        0 <= (y - raw.top) * raw.width <= raw.buffer.len(),
{
    let fx = x - raw.left;
    let fy = y - raw.top;
    let w = raw.width as int;
    let h = raw.height as int;
    assert(0 <= fy * w && fy * w + fx < w * h) by (nonlinear_arith)
        requires
            0 <= fx < w,
            0 <= fy < h,
    ;
    assert(raw.width as nat * raw.height as nat * 4 == (w * h) * 4) by (nonlinear_arith)
        requires
            w == raw.width,
            h == raw.height,
    ;
}

/// A screen of this size with nothing on it, or nothing where this machine
/// cannot address so many bytes.
pub fn blank_canvas(width: u16, height: u16) -> (canvas: Option<Vec<u8>>)
    ensures
        match canvas {
            Some(bytes) => canvas_len(width, height) <= usize::MAX && bytes@ == blank(
                canvas_len(width, height),
            ),
            None => canvas_len(width, height) > usize::MAX,
        },
{
    proof {
        lemma_lengths_fit(width, height);
    }
    let len: u64 = (width as u64) * (height as u64) * 4;
    if len > usize::MAX as u64 {
        return None;
    }
    let bytes = vec![0u8; len as usize];
    assert(bytes@ == blank(canvas_len(width, height)));
    Some(bytes)
}

/// The screen `under` with the frame drawn over it, or with the frame's
/// part cleared.
fn relaid(under: &Vec<u8>, width: u16, height: u16, raw: &RawFrame, clear: bool) -> (out: Vec<u8>)
    requires
        under@.len() == canvas_len(width, height),
        sized(raw@),
    ensures
        out@.len() == under@.len(),
        forall|k: int|
            0 <= k < out@.len() ==> out@[k] == relaid_byte(under@, width, raw@, clear, k),
{
    let columns: usize = width as usize;
    let rows: usize = height as usize;
    let left: usize = raw.left as usize;
    let top: usize = raw.top as usize;
    let right: usize = left + raw.width as usize;
    let bottom: usize = top + raw.height as usize;
    let mut out: Vec<u8> = Vec::new();
    let mut y: usize = 0;
    while y < rows
        invariant
            y <= rows,
            columns == width,
            rows == height,
            left == raw.left,
            top == raw.top,
            right == raw.left + raw.width,
            bottom == raw.top + raw.height,
            under@.len() == canvas_len(width, height),
            sized(raw@),
            out@.len() == y * columns * 4,
            forall|k: int|
                0 <= k < out@.len() ==> out@[k] == relaid_byte(under@, width, raw@, clear, k),
        decreases rows - y,
    {
        let mut x: usize = 0;
        while x < columns
            invariant
                y < rows,
                x <= columns,
                columns == width,
                rows == height,
                left == raw.left,
                top == raw.top,
                right == raw.left + raw.width,
                bottom == raw.top + raw.height,
                under@.len() == canvas_len(width, height),
                sized(raw@),
                out@.len() == (y * columns + x) * 4,
                forall|k: int|
                    0 <= k < out@.len() ==> out@[k] == relaid_byte(under@, width, raw@, clear, k),
            decreases columns - x,
        {
            let at: usize = out.len();
            let inside = left <= x && x < right && top <= y && y < bottom;
            proof {
                lemma_pixel_place(width, height, x as int, y as int, 0);
                lemma_pixel_place(width, height, x as int, y as int, 1);
                lemma_pixel_place(width, height, x as int, y as int, 2);
                lemma_pixel_place(width, height, x as int, y as int, 3);
                if inside {
                    lemma_source_place(raw@, x as int, y as int, 0);
                    lemma_source_place(raw@, x as int, y as int, 1);
                    lemma_source_place(raw@, x as int, y as int, 2);
                    lemma_source_place(raw@, x as int, y as int, 3);
                }
            }
            let mut pixel: [u8; 4] = [under[at], under[at + 1], under[at + 2], under[at + 3]];
            if inside {
                if clear {
                    pixel = [0, 0, 0, 0];
                } else {
                    let across: usize = x - left;
                    let down: usize = y - top;
                    let wide: usize = raw.width as usize;
                    assert(0 <= down * wide && (down * wide + across) * 4 + 3
                        < raw.buffer.len() && (down * wide + across) * 4 == source(
                        raw@,
                        x as int,
                        y as int,
                        0,
                    )) by (nonlinear_arith)
                        requires
                            0 <= across < wide,
                            0 <= down < raw.height,
                            wide == raw.width,
                            across == x - raw.left,
                            down == y - raw.top,
                            sized(raw@),
                    ;
                    let from: usize = (down * wide + across) * 4;
                    if raw.buffer[from + 3] != 0 {
                        pixel =
                        [
                            raw.buffer[from],
                            raw.buffer[from + 1],
                            raw.buffer[from + 2],
                            raw.buffer[from + 3],
                        ];
                    }
                }
            }
            out.push(pixel[0]);
            out.push(pixel[1]);
            out.push(pixel[2]);
            out.push(pixel[3]);
            x += 1;
            assert((y * columns + x) * 4 == at + 4) by (nonlinear_arith)
                requires
                    at == (y * columns + (x - 1)) * 4,
            ;
        }
        y += 1;
        assert(y * columns * 4 == ((y - 1) * columns + columns) * 4) by (nonlinear_arith);
    }
    assert(out@.len() == under@.len()) by (nonlinear_arith)
        requires
            out@.len() == rows * columns * 4,
            under@.len() == width as nat * height as nat * 4,
            columns == width,
            rows == height,
    ;
    out
}

/// What is to be seen while the frame is shown: the screen `canvas` with the
/// frame over it.
pub fn compose_frame(canvas: &Vec<u8>, width: u16, height: u16, raw: &RawFrame) -> (shown: Vec<u8>)
    requires
        canvas@.len() == canvas_len(width, height),
        sized(raw@),
    ensures
        shown@ == drawn(canvas@, width, raw@),
{
    relaid(canvas, width, height, raw, false)
}

/// The screen for the next frame, once the frame has been shown: `before`
/// was the screen before the frame, `shown` is the screen with it.
pub fn next_canvas(
    before: Vec<u8>,
    shown: &Vec<u8>,
    width: u16,
    height: u16,
    raw: &RawFrame,
) -> (canvas: Vec<u8>)
    requires
        before@.len() == canvas_len(width, height),
        shown@.len() == canvas_len(width, height),
        sized(raw@),
    ensures
        canvas@ == settled(before@, shown@, width, raw@),
{
    match raw.dispose {
        Disposal::Previous => before,
        Disposal::Background => relaid(shown, width, height, raw, true),
        Disposal::Keep | Disposal::Any => {
            let copy = shown.clone();
            assert(copy@ == shown@);
            copy
        },
    }
}

} // verus!
