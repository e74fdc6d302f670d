use vstd::prelude::*;

use crate::error::FilterError;

verus! {

/// The largest byte count that Wayland shared memory pools accept (`i32::MAX`).
pub const SHM_SIZE_LIMIT: u32 = 0x7fff_ffff;

/// How a surface's overlay image is laid out in memory.
#[derive(Debug, Clone, Copy, PartialEq, Eq, Structural)]
pub struct BufferLayout {
    /// Bytes per row: four bytes per pixel.
    pub stride: u32,
    /// Bytes in the whole image.
    pub size: u32,
}

/// Message reported when a row of the overlay does not fit in 32 bits.
pub open spec fn width_too_large_message() -> Seq<char> {
    "Overlay width is too large"@
}

/// Message reported when the whole overlay image does not fit in 32 bits.
pub open spec fn surface_too_large_message() -> Seq<char> {
    "Overlay surface is too large"@
}

/// Message reported when the image exceeds what a shared memory pool can hold.
pub open spec fn shm_too_large_message() -> Seq<char> {
    "Overlay buffer is too large for Wayland shm"@
}

/// The layout of a `width` by `height` image of 4-byte pixels, or the error that
/// stops it: a row above `u32::MAX` bytes, then an image above `u32::MAX` bytes,
/// then an image above `i32::MAX` bytes.
pub open spec fn layout_result(width: u32, height: u32) -> Result<BufferLayout, Seq<char>> {
    if width * 4 > u32::MAX {
        Err(width_too_large_message())
    } else if width * 4 * height > u32::MAX {
        Err(surface_too_large_message())
    } else if width * 4 * height > SHM_SIZE_LIMIT {
        Err(shm_too_large_message())
    } else {
        Ok(BufferLayout { stride: (width * 4) as u32, size: (width * 4 * height) as u32 })
    }
}

/// Computes the memory layout of an overlay image of `width` by `height` pixels.
pub fn buffer_layout(width: u32, height: u32) -> (res: Result<BufferLayout, FilterError>)
    ensures
        match (res, layout_result(width, height)) {
            (Ok(layout), Ok(expected)) => layout == expected,
            (Err(e), Err(message)) => e@ == message,
            _ => false,
        },
{
    let stride = match width.checked_mul(4) {
        Some(stride) => stride,
        None => return Err(FilterError::from_text("Overlay width is too large")),
    };
    let size = match stride.checked_mul(height) {
        Some(size) => size,
        None => return Err(FilterError::from_text("Overlay surface is too large")),
    };
    if size > SHM_SIZE_LIMIT {
        return Err(FilterError::from_text("Overlay buffer is too large for Wayland shm"));
    }
    Ok(BufferLayout { stride, size })
}

/// The green channel of the overlay colour for opacity `alpha`: `alpha * 118 / 255`.
pub open spec fn green_for(alpha: u8) -> u8 {
    (alpha * 118 / 255) as u8
}

/// The overlay colour as a premultiplied ARGB8888 value: alpha and red are both
/// `alpha`, green is `green_for(alpha)`, blue is zero.
pub open spec fn pixel_value(alpha: u8) -> u32 {
    ((alpha as u32) * 0x0100_0000 + (alpha as u32) * 0x1_0000 + (green_for(alpha) as u32) * 0x100) as u32
}

/// Computes the overlay colour for opacity `alpha` as an ARGB8888 value.
pub fn overlay_pixel(alpha: u8) -> (pixel: u32)
    ensures
        pixel == pixel_value(alpha),
{
    let red = alpha;
    let green = ((alpha as u16 * 118) / 255) as u8;
    let blue = 0u8;
    let a = alpha as u32;
    let r = red as u32;
    let g = green as u32;
    let b = blue as u32;
    let pixel = a << 24 | r << 16 | g << 8 | b;
    assert(pixel == a * 0x0100_0000 + r * 0x1_0000 + g * 0x100) by (bit_vector)
        requires
            a < 256,
            r < 256,
            g < 256,
            b == 0,
            pixel == a << 24 | r << 16 | g << 8 | b,
    ;
    pixel
}

/// The four bytes of `value`, least significant first.
pub open spec fn le_bytes(value: u32) -> Seq<u8> {
    seq![
        (value % 0x100) as u8,
        (value / 0x100 % 0x100) as u8,
        (value / 0x1_0000 % 0x100) as u8,
        (value / 0x0100_0000) as u8,
    ]
}

/// The four bytes of `value`, most significant first.
pub open spec fn be_bytes(value: u32) -> Seq<u8> {
    le_bytes(value).reverse()
}

/// `u32::to_ne_bytes`: the bytes of `value` in the byte order of the machine.
/// Claimed: the result is the little-endian or the big-endian encoding of `value`;
/// which of the two depends on the machine and is left unsaid.
#[verifier::external_body]
fn native_bytes(value: u32) -> (bytes: [u8; 4])
    ensures
        bytes@ == le_bytes(value) || bytes@ == be_bytes(value),
{
    value.to_ne_bytes()
}

/// `count` copies of `unit`, one after the other.
pub open spec fn repeated(unit: Seq<u8>, count: nat) -> Seq<u8>
    decreases count,
{
    if count == 0 {
        Seq::empty()
    } else {
        repeated(unit, (count - 1) as nat) + unit
    }
}

/// Builds one row of the overlay image: `width` pixels of the overlay colour for
/// opacity `alpha`, each in the machine's byte order.
pub fn overlay_row(width: u32, alpha: u8) -> (row: Vec<u8>)
    requires
        4 * width <= usize::MAX,
    ensures
        row@ == repeated(le_bytes(pixel_value(alpha)), width as nat) || row@ == repeated(
            be_bytes(pixel_value(alpha)),
            width as nat,
        ),
{
    let pixel = overlay_pixel(alpha);
    let bytes = native_bytes(pixel);
    let mut row: Vec<u8> = Vec::new();
    let mut i: u32 = 0;
    while i < width
        invariant
            i <= width,
            row@ == repeated(bytes@, i as nat),
            bytes@.len() == 4,
        decreases width - i,
    {
        row.push(bytes[0]);
        row.push(bytes[1]);
        row.push(bytes[2]);
        row.push(bytes[3]);
        assert(row@ =~= repeated(bytes@, i as nat) + bytes@);
        i = i + 1;
    }
    row
}

} // verus!
