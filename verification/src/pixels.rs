//! Reading a byte buffer as 32-bit pixels.
//!
//! A surface wants a contiguous array of 32-bit pixels; a script hands over
//! bytes. Four consecutive bytes make one pixel, in the byte order of the
//! machine. Where the bytes happen to lie on a 32-bit boundary the buffer is
//! looked at in place and nothing is copied. Where they do not, the pixels
//! are copied once into storage of their own: the price of one copy, bounded
//! by the buffer's length, is paid rather than reading through a misaligned
//! address.

use vstd::prelude::*;
use crate::error::ScriptError;

verus! {

/// The two ways in which four bytes can hold a 32-bit pixel.
#[derive(Clone, Copy, Debug, PartialEq, Eq, Structural)]
pub enum ByteOrder {
    /// The first byte is the least significant one.
    LittleEndian,
    /// The first byte is the most significant one.
    BigEndian,
}

/// The pixel that four consecutive bytes hold in the given order.
pub open spec fn pixel_of(b0: u8, b1: u8, b2: u8, b3: u8, order: ByteOrder) -> u32 {
    match order {
        ByteOrder::LittleEndian => (b0 + 0x100 * b1 + 0x1_0000 * b2 + 0x100_0000 * b3) as u32,
        ByteOrder::BigEndian => (b3 + 0x100 * b2 + 0x1_0000 * b1 + 0x100_0000 * b0) as u32,
    }
}

/// The pixels that a run of bytes holds: one for each whole group of four.
pub open spec fn pixels_of(bytes: Seq<u8>, order: ByteOrder) -> Seq<u32> {
    Seq::new(
        (bytes.len() / 4) as nat,
        |i: int| pixel_of(bytes[4 * i], bytes[4 * i + 1], bytes[4 * i + 2], bytes[4 * i + 3], order),
    )
}

/// `pixels` is what a machine sees when it reads `bytes` as 32-bit values:
/// the pixels of `bytes` in one byte order, the same for all of them.
pub open spec fn is_native_view(pixels: Seq<u32>, bytes: Seq<u8>) -> bool {
    pixels == pixels_of(bytes, ByteOrder::LittleEndian) || pixels == pixels_of(
        bytes,
        ByteOrder::BigEndian,
    )
}

/// The number of bytes that a frame of `width` by `height` pixels takes.
pub open spec fn frame_bytes(width: usize, height: usize) -> int {
    4 * (width * height)
}

/// The pixels of a buffer, either seen in place or held in a copy.
#[derive(Debug)]
pub enum PixelView<'a> {
    /// The caller's buffer itself, read as pixels.
    Borrowed(&'a [u32]),
    /// A copy of the pixels, made because the buffer is not aligned for 32-bit reads.
    Copied(Vec<u32>),
}

impl<'a> View for PixelView<'a> {
    type V = Seq<u32>;

    open spec fn view(&self) -> Seq<u32> {
        match self {
            PixelView::Borrowed(pixels) => pixels@,
            PixelView::Copied(pixels) => pixels@,
        }
    }
}

impl<'a> PixelView<'a> {
    /// The pixels, as a surface takes them.
    pub fn as_slice(&self) -> (pixels: &[u32])
        ensures
            pixels@ == self@,
    {
        match self {
            PixelView::Borrowed(pixels) => pixels,
            PixelView::Copied(pixels) => pixels.as_slice(),
        }
    }

    /// Whether the pixels are the caller's own storage.
    pub fn is_borrowed(&self) -> (borrowed: bool)
        ensures
            borrowed == (self is Borrowed),
    {
        match self {
            PixelView::Borrowed(_) => true,
            PixelView::Copied(_) => false,
        }
    }
}

/// Reads `bytes` in place as 32-bit values with `bytemuck::try_cast_slice`.
///
/// The cast succeeds only on a whole number of pixels, and what it returns is
/// the same memory read four bytes at a time in the machine's byte order. It
/// fails on a buffer that does not start on a 32-bit boundary; since that
/// depends on where the buffer lies, nothing is claimed about when it succeeds.
#[verifier::external_body]
fn borrow_as_pixels<'a>(bytes: &'a [u8]) -> (view: Option<&'a [u32]>)
    ensures
        view matches Some(pixels) ==> bytes@.len() % 4 == 0 && is_native_view(pixels@, bytes@),
{
    match bytemuck::try_cast_slice::<u8, u32>(bytes) {
        Ok(pixels) => Some(pixels),
        Err(_) => None,
    }
}

/// Reads four bytes as one 32-bit value with `bytemuck::cast`.
///
/// The result is the four bytes in the machine's byte order, which is one of
/// the two that `ByteOrder` names.
#[verifier::external_body]
fn native_pixel(bytes: [u8; 4]) -> (pixel: u32)
    ensures
        pixel == pixel_of(bytes[0], bytes[1], bytes[2], bytes[3], ByteOrder::LittleEndian)
            || pixel == pixel_of(bytes[0], bytes[1], bytes[2], bytes[3], ByteOrder::BigEndian),
{
    bytemuck::cast::<[u8; 4], u32>(bytes)
}

/// The byte order that a reading of the bytes 1, 0, 0, 0 shows.
pub open spec fn order_of_reading(reading: u32) -> ByteOrder {
    if reading == pixel_of(1, 0, 0, 0, ByteOrder::LittleEndian) {
        ByteOrder::LittleEndian
    } else {
        ByteOrder::BigEndian
    }
}

/// Tells the byte order of a machine from what it reads in the bytes 1, 0, 0, 0.
///
/// A reading of 1 shows the first byte lowest; any other reading, and so the
/// big-endian one of `0x0100_0000`, counts as the first byte highest.
pub fn byte_order_of_reading(reading: u32) -> (order: ByteOrder)
    ensures
        order == order_of_reading(reading),
        reading == pixel_of(1, 0, 0, 0, order) || (order == ByteOrder::BigEndian && reading != 1
            && reading != 0x0100_0000),
{
    if reading == 1 {
        ByteOrder::LittleEndian
    } else {
        ByteOrder::BigEndian
    }
}

/// Packs four bytes into the pixel they hold in the given order.
pub fn pack_pixel(b0: u8, b1: u8, b2: u8, b3: u8, order: ByteOrder) -> (pixel: u32)
    ensures
        pixel == pixel_of(b0, b1, b2, b3, order),
{
    match order {
        ByteOrder::LittleEndian => {
            b0 as u32 + 0x100 * (b1 as u32) + 0x1_0000 * (b2 as u32) + 0x100_0000 * (b3 as u32)
        },
        ByteOrder::BigEndian => {
            b3 as u32 + 0x100 * (b2 as u32) + 0x1_0000 * (b1 as u32) + 0x100_0000 * (b0 as u32)
        },
    }
}

/// Copies the pixels out of `bytes`, whatever its alignment.
///
/// Bytes after the last whole pixel are left out.
pub fn copy_as_pixels(bytes: &[u8], order: ByteOrder) -> (pixels: Vec<u32>)
    ensures
        pixels@ == pixels_of(bytes@, order),
{
    let count: usize = bytes.len() / 4;
    let mut pixels: Vec<u32> = Vec::new();
    let mut i: usize = 0;
    while i < count
        invariant
            count == bytes@.len() / 4,
            bytes@.len() <= usize::MAX,
            i <= count,
            pixels@ == pixels_of(bytes@, order).subrange(0, i as int),
        decreases count - i,
    {
        let pixel = pack_pixel(
            bytes[4 * i],
            bytes[4 * i + 1],
            bytes[4 * i + 2],
            bytes[4 * i + 3],
            order,
        );
        pixels.push(pixel);
        i += 1;
    }
    pixels
}

/// Whether a buffer of `len` bytes holds a frame of `width` by `height` pixels.
pub fn holds_frame(len: usize, width: usize, height: usize) -> (enough: bool)
    ensures
        enough == (frame_bytes(width, height) <= len),
{
    match width.checked_mul(height) {
        Some(count) => match count.checked_mul(4) {
            Some(needed) => needed <= len,
            None => false,
        },
        None => false,
    }
}

/// Why a buffer of `len` bytes cannot be shown as a frame of `width` by
/// `height` pixels, if it cannot: it is too short, or it is long enough but
/// does not end on a pixel boundary.
pub open spec fn size_refusal(len: nat, width: usize, height: usize) -> Option<ScriptError> {
    if frame_bytes(width, height) > len {
        Some(ScriptError::BufferTooSmall)
    } else if len % 4 != 0 {
        Some(ScriptError::PartialPixel)
    } else {
        None
    }
}

/// Makes the view of a buffer out of what the machine gave: the buffer read
/// in place, where that was possible, and the machine's reading of the bytes
/// 1, 0, 0, 0.
///
/// Where the buffer could be read in place, the view is that reading and
/// nothing is copied. Where it could not, the view is a copy of the buffer's
/// pixels in the byte order that the reading shows.
pub fn view_of_buffer<'a>(buf: &'a [u8], in_place: Option<&'a [u32]>, reading: u32) -> (view:
    PixelView<'a>)
    ensures
        match in_place {
            Some(pixels) => view is Borrowed && view@ == pixels@,
            None => view is Copied && view@ == pixels_of(buf@, order_of_reading(reading)),
        },
{
    match in_place {
        Some(pixels) => PixelView::Borrowed(pixels),
        None => PixelView::Copied(copy_as_pixels(buf, byte_order_of_reading(reading))),
    }
}

/// Turns a byte buffer into the pixels that a surface shows as a frame of
/// `width` by `height`.
///
/// The buffer has to hold four bytes for every pixel of the frame and to end
/// on a pixel boundary. The view then shows the whole buffer, one pixel for
/// every four bytes: in place where the buffer's address allows it, and in a
/// copy where it does not. The buffer is only read.
pub fn update_window_buffer<'a>(buf: &'a [u8], width: usize, height: usize) -> (r: Result<
    PixelView<'a>,
    ScriptError,
>)
    ensures
        match r {
            Ok(view) => {
                &&& size_refusal(buf@.len(), width, height) is None
                &&& view@.len() == buf@.len() / 4
                &&& is_native_view(view@, buf@)
            },
            Err(e) => size_refusal(buf@.len(), width, height) == Some(e),
        },
{
    if !holds_frame(buf.len(), width, height) {
        return Err(ScriptError::BufferTooSmall);
    }
    if buf.len() % 4 != 0 {
        return Err(ScriptError::PartialPixel);
    }
    Ok(view_of_buffer(buf, borrow_as_pixels(buf), native_pixel([1, 0, 0, 0])))
}

} // verus!
