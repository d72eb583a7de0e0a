//! The quad's texture: an embedded PNG decoded to 8-bit RGBA, and the layout
//! of the staging-buffer copy that uploads it.

use vstd::prelude::*;
use image::GenericImageView;

verus! {

/// Bytes per RGBA8 pixel.
pub const BYTES_PER_PIXEL: u32 = 4;

/// Largest width or height, in pixels, that a texture may declare. It keeps
/// every buffer the decoder sizes from the header (at most eight bytes per
/// pixel plus one per row) far below what a `usize` or a `u32` row count can
/// hold.
pub const MAX_TEXTURE_SIDE: u32 = 16384;

/// Why the texture could not be prepared.
#[derive(Clone, Copy, Debug, PartialEq, Eq, Structural)]
pub enum TextureError {
    /// The header declares a width or height above `MAX_TEXTURE_SIDE`.
    TooLarge,
    /// The bytes are not a PNG image that can be decoded.
    Decode,
    /// The decoded image is not stored as 8-bit RGBA.
    NotRgba8,
    /// The image has no pixels.
    Empty,
    /// The pixel data does not have four bytes for every pixel, or a row is
    /// too long for its pitch to fit a `u32`.
    BadLayout,
}

/// How pixel data lies in the staging buffer for a buffer-to-texture copy.
#[derive(Clone, Copy, Debug, PartialEq, Eq, Structural)]
pub struct TextureCopy {
    pub width: u32,
    pub height: u32,
    /// Bytes from the start of one row to the start of the next.
    pub row_pitch: u32,
}

/// A decoded texture ready for upload.
pub struct RgbaTexture {
    pub copy: TextureCopy,
    pub pixels: Vec<u8>,
}

/// What decoding `bytes` as a PNG gives: nothing when they do not decode,
/// else the width and height and, when the image is stored as 8-bit RGBA,
/// its samples.
pub uninterp spec fn png_decoded(bytes: Seq<u8>) -> Option<(u32, u32, Option<Seq<u8>>)>;

/// The big-endian 32-bit number in `b[at..at + 4]`.
pub open spec fn be_u32(b: Seq<u8>, at: int) -> nat {
    (b[at] as nat) * 16777216 + (b[at + 1] as nat) * 65536 + (b[at + 2] as nat) * 256 + (b[at + 3] as nat)
}

/// A PNG starts with an 8-byte signature and the header chunk (4 bytes of
/// length, 4 of type), whose data opens with the width and the height. The
/// size there, when the bytes reach that far, is within `MAX_TEXTURE_SIDE`.
pub open spec fn png_header_fits(b: Seq<u8>) -> bool {
    b.len() >= 24 ==> be_u32(b, 16) <= MAX_TEXTURE_SIDE && be_u32(b, 20) <= MAX_TEXTURE_SIDE
}

/// A `width` by `height` RGBA8 image held in `len` bytes can be copied as
/// tightly packed rows whose pitch a `u32` can hold.
pub open spec fn layout_ok(width: u32, height: u32, len: nat) -> bool {
    &&& width > 0
    &&& height > 0
    &&& BYTES_PER_PIXEL * width <= u32::MAX
    &&& len == BYTES_PER_PIXEL * width * height
}

/// The copy layout of a `width` by `height` RGBA8 image held in `len` bytes.
pub open spec fn layout_of(width: u32, height: u32, len: nat) -> Result<TextureCopy, TextureError> {
    if width == 0 || height == 0 {
        Err(TextureError::Empty)
    } else if layout_ok(width, height, len) {
        Ok(TextureCopy { width, height, row_pitch: (BYTES_PER_PIXEL * width) as u32 })
    } else {
        Err(TextureError::BadLayout)
    }
}

/// What preparing a texture from `bytes` gives, in terms of what the decoder
/// makes of them.
pub open spec fn texture_of(bytes: Seq<u8>) -> Result<(TextureCopy, Seq<u8>), TextureError> {
    if !png_header_fits(bytes) {
        Err(TextureError::TooLarge)
    } else {
        match png_decoded(bytes) {
            None => Err(TextureError::Decode),
            Some((_, _, None)) => Err(TextureError::NotRgba8),
            Some((w, h, Some(p))) => match layout_of(w, h, p.len()) {
                Ok(c) => Ok((c, p)),
                Err(e) => Err(e),
            },
        }
    }
}

/// Decides the copy layout for a `width` by `height` RGBA8 image held in
/// `len` bytes: tightly packed rows of four bytes per pixel.
pub fn copy_layout(width: u32, height: u32, len: usize) -> (r: Result<TextureCopy, TextureError>)
    ensures
        r == layout_of(width, height, len as nat),
{
    if width == 0 || height == 0 {
        return Err(TextureError::Empty);
    }
    let w: u64 = width as u64;
    let bpp: u64 = BYTES_PER_PIXEL as u64;
    assert(bpp * w <= 4 * u32::MAX) by (nonlinear_arith)
        requires
            bpp == 4,
            w <= u32::MAX,
    ;
    let row: u64 = bpp * w;
    if row > u32::MAX as u64 {
        return Err(TextureError::BadLayout);
    }
    assert(row * height <= u64::MAX) by (nonlinear_arith)
        requires
            row <= u32::MAX,
            height <= u32::MAX,
    ;
    let total: u64 = row * height as u64;
    if len as u64 != total {
        return Err(TextureError::BadLayout);
    }
    Ok(TextureCopy { width, height, row_pitch: row as u32 })
}

/// Reads the big-endian 32-bit number at `b[at..at + 4]`.
fn read_be_u32(b: &[u8], at: usize) -> (r: u32)
    requires
        at + 4 <= b@.len(),
    ensures
        r == be_u32(b@, at as int),
{
    let r: u64 = (b[at] as u64) * 16777216 + (b[at + 1] as u64) * 65536 + (b[at + 2] as u64) * 256
        + (b[at + 3] as u64);
    r as u32
}

/// Whether the size that the PNG header declares, if the bytes reach it, is
/// within `MAX_TEXTURE_SIDE`.
pub fn header_fits(bytes: &[u8]) -> (r: bool)
    ensures
        r == png_header_fits(bytes@),
{
    if bytes.len() < 24 {
        return true;
    }
    read_be_u32(bytes, 16) <= MAX_TEXTURE_SIDE && read_be_u32(bytes, 20) <= MAX_TEXTURE_SIDE
}

/// Relies on image::load_from_memory_with_format with the PNG format, then on
/// GenericImageView::dimensions and DynamicImage::as_rgba8 of the decoded
/// image: whether the bytes decode, the size, and the RGBA8 samples copied
/// out. The decoder sizes its buffers from the header without overflow
/// checks, hence the bound on the declared size.
#[verifier::external_body]
fn decode_png(bytes: &[u8]) -> (r: Option<(u32, u32, Option<Vec<u8>>)>)
    requires
        png_header_fits(bytes@),
    ensures
        match r {
            None => png_decoded(bytes@) is None,
            Some((w, h, None)) => png_decoded(bytes@) == Some((w, h, None::<Seq<u8>>)),
            Some((w, h, Some(p))) => png_decoded(bytes@) == Some((w, h, Some(p@))),
        },
{
    let img = image::load_from_memory_with_format(bytes, image::ImageFormat::PNG).ok()?;
    let (width, height) = img.dimensions();
    Some((width, height, img.as_rgba8().map(|buf| buf.to_vec())))
}

/// Decodes an embedded PNG and lays its pixels out for upload: an image
/// declared larger than `MAX_TEXTURE_SIDE` is refused before decoding, bytes
/// that do not decode and images not stored as RGBA8 are refused, and
/// otherwise the samples come out with the copy layout of their size.
pub fn load_texture(bytes: &[u8]) -> (r: Result<RgbaTexture, TextureError>)
    ensures
        match texture_of(bytes@) {
            Ok((copy, pixels)) => r is Ok && r->Ok_0.copy == copy && r->Ok_0.pixels@ == pixels,
            Err(e) => r is Err && r->Err_0 == e,
        },
{
    if !header_fits(bytes) {
        return Err(TextureError::TooLarge);
    }
    match decode_png(bytes) {
        None => Err(TextureError::Decode),
        Some((_, _, None)) => Err(TextureError::NotRgba8),
        Some((width, height, Some(pixels))) => match copy_layout(width, height, pixels.len()) {
            Ok(copy) => Ok(RgbaTexture { copy, pixels }),
            Err(e) => Err(e),
        },
    }
}

} // verus!
