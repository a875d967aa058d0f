//! Drawing a filled rectangle into a linear framebuffer.

use vstd::prelude::*;

verus! {

/// The request code that reads the variable screen information.
pub const FBIOGET_VSCREENINFO: u32 = 0x4600;

/// Opaque orange as a 32-bit pixel: alpha, red, green, blue.
pub const ORANGE_ARGB8888: u32 = 0xFFFF8800;

/// The 16-bit pixel that is drawn for orange: five bits of red, six of
/// green, five of blue. Its red is full and its blue empty; its green is
/// darker than that of the 32-bit pixel.
pub const ORANGE_RGB565: u16 = 0xF880;

/// How one colour channel lies within a pixel.
#[allow(non_camel_case_types)]
#[derive(Clone, Copy, Debug, PartialEq, Eq, Structural)]
pub struct fb_bitfield {
    pub offset: u32,
    pub length: u32,
    pub msb_right: u32,
}

/// The variable screen information of a framebuffer device.
#[allow(non_camel_case_types)]
#[derive(Clone, Copy, Debug)]
pub struct fb_var_screeninfo {
    pub xres: u32,
    pub yres: u32,
    pub xres_virtual: u32,
    pub yres_virtual: u32,
    pub xoffset: u32,
    pub yoffset: u32,
    pub bits_per_pixel: u32,
    pub grayscale: u32,
    pub red: fb_bitfield,
    pub green: fb_bitfield,
    pub blue: fb_bitfield,
    pub transp: fb_bitfield,
    pub nonstd: u32,
    pub activate: u32,
    pub height: u32,
    pub width: u32,
    pub accel_flags: u32,
    pub pixclock: u32,
    pub left_margin: u32,
    pub right_margin: u32,
    pub upper_margin: u32,
    pub lower_margin: u32,
    pub hsync_len: u32,
    pub vsync_len: u32,
    pub sync: u32,
    pub vmode: u32,
    pub rotate: u32,
    pub colorspace: u32,
    pub reserved: [u32; 4],
}

/// The channels of a 32-bit pixel.
#[derive(Clone, Copy, Debug, PartialEq, Eq, Structural)]
pub struct Argb {
    pub alpha: u32,
    pub red: u32,
    pub green: u32,
    pub blue: u32,
}

/// Splits a 32-bit pixel into its channels.
pub fn argb_channels(pixel: u32) -> (out: Argb)
    ensures
        out.alpha == (pixel >> 24) & 0xFF,
        out.red == (pixel >> 16) & 0xFF,
        out.green == (pixel >> 8) & 0xFF,
        out.blue == pixel & 0xFF,
{
    Argb {
        alpha: (pixel >> 24) & 0xFF,
        red: (pixel >> 16) & 0xFF,
        green: (pixel >> 8) & 0xFF,
        blue: pixel & 0xFF,
    }
}

/// The channels of a 16-bit pixel.
#[derive(Clone, Copy, Debug, PartialEq, Eq, Structural)]
pub struct Rgb565 {
    pub red: u16,
    pub green: u16,
    pub blue: u16,
}

/// Splits a 16-bit pixel into its channels.
pub fn rgb565_channels(pixel: u16) -> (out: Rgb565)
    ensures
        out.red == (pixel >> 11) & 0x1F,
        out.green == (pixel >> 5) & 0x3F,
        out.blue == pixel & 0x1F,
{
    Rgb565 { red: (pixel >> 11) & 0x1F, green: (pixel >> 5) & 0x3F, blue: pixel & 0x1F }
}

/// A rectangle in pixels.
#[derive(Clone, Copy, Debug, PartialEq, Eq, Structural)]
pub struct Rect {
    pub x: usize,
    pub y: usize,
    pub width: usize,
    pub height: usize,
}

/// The rectangle of half the width and half the height of the screen,
/// centred on it.
pub fn centered_rect(width: usize, height: usize) -> (rect: Rect)
    ensures
        rect.width == width / 2,
        rect.height == height / 2,
        rect.x == (width - width / 2) / 2,
        rect.y == (height - height / 2) / 2,
        rect.x + rect.width <= width,
        rect.y + rect.height <= height,
{
    let rect_width = width / 2;
    let rect_height = height / 2;
    Rect {
        x: (width - rect_width) / 2,
        y: (height - rect_height) / 2,
        width: rect_width,
        height: rect_height,
    }
}

/// How the pixels of a framebuffer lie in memory.
#[derive(Clone, Copy, Debug, PartialEq, Eq, Structural)]
pub struct Layout {
    pub bytes_per_pixel: usize,
    /// The bytes from one line to the next.
    pub line_length: usize,
    /// The bytes of the whole buffer.
    pub buffer_size: usize,
}

/// Computes the layout of a framebuffer from its virtual resolution and
/// depth: a line holds the virtual width in pixels, the buffer all virtual
/// lines. Nothing is returned if a size does not fit the machine word.
pub fn frame_layout(xres_virtual: u32, yres_virtual: u32, bits_per_pixel: u32) -> (out: Option<
    Layout,
>)
    ensures
        ({
            let px = (bits_per_pixel / 8) as int;
            let line = xres_virtual as int * px;
            let size = line * yres_virtual as int;
            match out {
                Some(layout) => layout.bytes_per_pixel == px && layout.line_length == line
                    && layout.buffer_size == size,
                None => line > usize::MAX || size > usize::MAX,
            }
        }),
{
    let px: u64 = (bits_per_pixel / 8) as u64;
    assert(xres_virtual as int * px as int <= 0xffff_ffff * 0x1fff_ffff) by (nonlinear_arith)
        requires
            px <= 0x1fff_ffff,
            xres_virtual <= 0xffff_ffff,
    ;
    let line: u64 = xres_virtual as u64 * px;
    assert(line as int * yres_virtual as int <= 0xffff_ffff * 0x1fff_ffff * 0xffff_ffff)
        by (nonlinear_arith)
        requires
            line <= 0xffff_ffff * 0x1fff_ffff,
            yres_virtual <= 0xffff_ffff,
    ;
    let size: u128 = line as u128 * (yres_virtual as u128);
    if size > usize::MAX as u128 || line as u128 > usize::MAX as u128 {
        return None;
    }
    Some(
        Layout {
            bytes_per_pixel: px as usize,
            line_length: line as usize,
            buffer_size: size as usize,
        },
    )
}

/// The bytes of the orange pixel at a depth, least significant byte first;
/// nothing for a depth other than 16, 24 and 32 bits.
pub open spec fn orange_bytes(bits_per_pixel: u32) -> Option<Seq<u8>> {
    if bits_per_pixel == 32 {
        Some(seq![0x00u8, 0x88u8, 0xFFu8, 0xFFu8])
    } else if bits_per_pixel == 24 {
        Some(seq![0x00u8, 0x88u8, 0xFFu8])
    } else if bits_per_pixel == 16 {
        Some(seq![0x80u8, 0xF8u8])
    } else {
        None
    }
}

/// The bytes of the orange pixel at a depth.
pub fn orange_pixel(bits_per_pixel: u32) -> (out: Option<Vec<u8>>)
    ensures
        match out {
            Some(bytes) => orange_bytes(bits_per_pixel) == Some(bytes@),
            None => orange_bytes(bits_per_pixel) is None,
        },
{
    let mut bytes: Vec<u8> = Vec::new();
    if bits_per_pixel == 32 {
        bytes.push(0x00);
        bytes.push(0x88);
        bytes.push(0xFF);
        bytes.push(0xFF);
        assert(bytes@ =~= seq![0x00u8, 0x88u8, 0xFFu8, 0xFFu8]);
        Some(bytes)
    } else if bits_per_pixel == 24 {
        bytes.push(0x00);
        bytes.push(0x88);
        bytes.push(0xFF);
        assert(bytes@ =~= seq![0x00u8, 0x88u8, 0xFFu8]);
        Some(bytes)
    } else if bits_per_pixel == 16 {
        bytes.push(0x80);
        bytes.push(0xF8);
        assert(bytes@ =~= seq![0x80u8, 0xF8u8]);
        Some(bytes)
    } else {
        None
    }
}

/// `buf` with the `count` bytes from `start` on replaced by repetitions of `pixel`.
pub open spec fn span_filled(buf: Seq<u8>, start: int, count: int, pixel: Seq<u8>) -> Seq<u8> {
    Seq::new(
        buf.len(),
        |i: int|
            if start <= i < start + count {
                pixel[(i - start) % (pixel.len() as int)]
            } else {
                buf[i]
            },
    )
}

/// `buf` with a span of `count` bytes replaced in each of `rows` lines,
/// the first span at `start` and each next one line further.
pub open spec fn rows_filled(
    buf: Seq<u8>,
    line_length: int,
    start: int,
    rows: nat,
    count: int,
    pixel: Seq<u8>,
) -> Seq<u8>
    decreases rows,
{
    if rows == 0 {
        buf
    } else {
        span_filled(
            rows_filled(buf, line_length, start, (rows - 1) as nat, count, pixel),
            start + (rows - 1) * line_length,
            count,
            pixel,
        )
    }
}

/// Whether a rectangle of pixels of `px` bytes lies within a buffer of
/// `len` bytes whose lines are `line_length` bytes apart.
pub open spec fn rect_fits(len: int, line_length: int, rect: Rect, px: int) -> bool {
    &&& px > 0
    &&& (rect.x + rect.width) * px <= line_length
    &&& (rect.y + rect.height) * line_length <= len
}

/// Why a rectangle was not drawn.
#[derive(Clone, Copy, Debug, PartialEq, Eq, Structural)]
pub enum DrawError {
    /// The pixel has no bytes.
    EmptyPixel,
    /// The rectangle does not lie within the buffer.
    OutOfBounds,
}

fn fits(len: usize, line_length: usize, rect: Rect, px: usize) -> (ok: bool)
    requires
        px > 0,
    ensures
        ok == rect_fits(len as int, line_length as int, rect, px as int),
{
    let right: u128 = (rect.x as u128 + rect.width as u128);
    let bottom: u128 = (rect.y as u128 + rect.height as u128);
    // Each bound is compared by division, which cannot overflow.
    let across = right <= (line_length as u128) / (px as u128);
    assert(across == ((rect.x + rect.width) * px <= line_length)) by (nonlinear_arith)
        requires
            px > 0,
            across == ((rect.x + rect.width) as int <= (line_length as int) / (px as int)),
    ;
    if !across {
        return false;
    }
    if line_length == 0 {
        assert((rect.y + rect.height) * 0 == 0);
        return true;
    }
    let down = bottom <= (len as u128) / (line_length as u128);
    assert(down == ((rect.y + rect.height) * line_length <= len)) by (nonlinear_arith)
        requires
            line_length > 0,
            down == ((rect.y + rect.height) as int <= (len as int) / (line_length as int)),
    ;
    down
}

/// Fills a rectangle of a framebuffer with one pixel value.
///
/// The buffer holds lines `line_length` bytes apart; a pixel takes as
/// many bytes as `pixel` has. Every pixel of the rectangle is overwritten
/// with `pixel` and every other byte is left as it was. A rectangle that
/// does not lie within the buffer is not drawn at all.
pub fn fill_rect(fb: &mut Vec<u8>, line_length: usize, rect: Rect, pixel: &Vec<u8>) -> (out: Result<
    (),
    DrawError,
>)
    ensures
        final(fb)@.len() == old(fb)@.len(),
        pixel@.len() == 0 ==> out == Err::<(), DrawError>(DrawError::EmptyPixel) && final(fb)@
            == old(fb)@,
        pixel@.len() > 0 && !rect_fits(
            old(fb)@.len() as int,
            line_length as int,
            rect,
            pixel@.len() as int,
        ) ==> out == Err::<(), DrawError>(DrawError::OutOfBounds) && final(fb)@ == old(fb)@,
        pixel@.len() > 0 && rect_fits(
            old(fb)@.len() as int,
            line_length as int,
            rect,
            pixel@.len() as int,
        ) ==> out is Ok && final(fb)@ == rows_filled(
            old(fb)@,
            line_length as int,
            rect.y * line_length + rect.x * pixel@.len(),
            rect.height as nat,
            rect.width * pixel@.len(),
            pixel@,
        ),
{
    let px = pixel.len();
    if px == 0 {
        return Err(DrawError::EmptyPixel);
    }
    if !fits(fb.len(), line_length, rect, px) {
        return Err(DrawError::OutOfBounds);
    }
    let ghost len = fb@.len() as int;
    let ghost l = line_length as int;
    proof {
        assert(rect.x * px <= (rect.x + rect.width) * px && rect.width * px <= (rect.x
            + rect.width) * px && rect.x * px + rect.width * px == (rect.x + rect.width) * px)
            by (nonlinear_arith)
            requires
                px > 0,
        ;
    }
    let count: usize = rect.width * px;
    let column: usize = rect.x * px;
    let ghost first = rect.y * l + column;
    if count == 0 || rect.height == 0 {
        proof {
            lemma_nothing_to_fill(fb@, l, first, rect.height as nat, count as int, pixel@);
        }
        return Ok(());
    }
    proof {
        assert(rect.y + rect.height <= len) by (nonlinear_arith)
            requires
                (rect.y + rect.height) * l <= len,
                l >= 1,
        ;
    }
    assert(len == fb.len());
    let mut row: usize = 0;
    while row < rect.height
        invariant
            row <= rect.height,
            px == pixel@.len(),
            px > 0,
            l == line_length as int,
            l >= 1,
            len == old(fb)@.len(),
            fb@.len() == len,
            count == rect.width * px,
            column == rect.x * px,
            column + count <= l,
            rect.y + rect.height <= len,
            len <= usize::MAX,
            (rect.y + rect.height) * l <= len,
            first == rect.y * l + column,
            fb@ == rows_filled(old(fb)@, l, first, row as nat, count as int, pixel@),
        decreases rect.height - row,
    {
        proof {
            assert((rect.y + row) * l + l <= (rect.y + rect.height) * l && (rect.y + row) * l
                >= 0) by (nonlinear_arith)
                requires
                    row < rect.height,
                    l >= 0,
            ;
            assert((rect.y + row) * l == rect.y * l + row * l) by (nonlinear_arith);
        }
        let start: usize = (rect.y + row) * line_length + column;
        let ghost base = fb@;
        let mut j: usize = 0;
        let mut k: usize = 0;
        assert(fb@ =~= span_filled(base, start as int, 0, pixel@));
        while j < count
            invariant
                j <= count,
                k < px,
                k == j % px,
                px == pixel@.len(),
                start + count <= len,
                len <= usize::MAX,
                fb@.len() == len,
                base.len() == len,
                fb@ == span_filled(base, start as int, j as int, pixel@),
            decreases count - j,
        {
            fb[start + j] = pixel[k];
            proof {
                assert(fb@ =~= span_filled(base, start as int, j + 1, pixel@));
                assert((j + 1) % (px as int) == if k + 1 == px {
                    0
                } else {
                    k + 1
                }) by (nonlinear_arith)
                    requires
                        k == j % px,
                        px > 0,
                        k < px,
                ;
            }
            j += 1;
            k = if k + 1 == px {
                0
            } else {
                k + 1
            };
        }
        assert(start as int == first + row * l);
        row += 1;
    }
    Ok(())
}

/// Filling no rows, or spans of no bytes, changes nothing.
pub proof fn lemma_nothing_to_fill(
    buf: Seq<u8>,
    line_length: int,
    start: int,
    rows: nat,
    count: int,
    pixel: Seq<u8>,
)
    requires
        rows == 0 || count == 0,
    ensures
        rows_filled(buf, line_length, start, rows, count, pixel) == buf,
    decreases rows,
{
    if rows > 0 {
        lemma_nothing_to_fill(buf, line_length, start, (rows - 1) as nat, count, pixel);
        assert(span_filled(buf, start + (rows - 1) * line_length, 0, pixel) =~= buf);
    }
}

} // verus!
