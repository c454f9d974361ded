//! The bridge to the raster library: the raster type, which passes through
//! the library as it is, and one small function around each outside call.
//! The contracts in this file are believed, not proved.

use vstd::prelude::*;

verus! {

/// A raster of premultiplied RGBA pixels. Opaque to the library.
#[verifier::external_type_specification]
#[verifier::external_body]
pub struct ExPixmap(tiny_skia::Pixmap);

/// The alpha component of each pixel of a raster, row by row.
pub uninterp spec fn pixmap_alphas(pixmap: tiny_skia::Pixmap) -> Seq<u8>;

/// The width that a raster was made with, in pixels: what
/// `tiny_skia::Pixmap::width` returns.
pub uninterp spec fn pixmap_width(pixmap: tiny_skia::Pixmap) -> u32;

/// The height that a raster was made with, in pixels: what
/// `tiny_skia::Pixmap::height` returns.
pub uninterp spec fn pixmap_height(pixmap: tiny_skia::Pixmap) -> u32;

/// The number of bytes of a raster's pixel data: the length of what
/// `tiny_skia::Pixmap::data` returns.
pub uninterp spec fn pixmap_byte_len(pixmap: tiny_skia::Pixmap) -> usize;

/// Whether a raster's pixel data is a whole number of pixels. A raster that
/// was copied from borrowed bytes may hold more bytes than its pixels need,
/// and then any number of them.
pub open spec fn holds_whole_pixels(pixmap: tiny_skia::Pixmap) -> bool {
    pixmap_byte_len(pixmap) % 4 == 0
}

/// The largest width of a raster: its rows must stay below 2^31 bytes at four
/// bytes a pixel.
pub const MAX_RASTER_WIDTH: u32 = 0x1fff_ffff;

/// Whether a raster of `width` by `height` pixels can be allocated: neither
/// side is zero, the width is within its limit, and the byte length of the
/// pixel data fits the address space.
pub open spec fn raster_dims_fit(width: u32, height: u32) -> bool {
    &&& 0 < width <= MAX_RASTER_WIDTH
    &&& 0 < height
    &&& 4 * width * height <= usize::MAX
}

/// Calls `tiny_skia::Pixmap::new`. It returns a raster exactly for the
/// dimensions that fit. The raster then has the two sides asked for and four
/// bytes for each pixel of its width times its height, and every pixel is
/// transparent: the pixel data is allocated as zeros.
#[verifier::external_body]
pub(crate) fn new_pixmap(width: u32, height: u32) -> (pixmap: Option<tiny_skia::Pixmap>)
    ensures
        pixmap is Some <==> raster_dims_fit(width, height),
        pixmap matches Some(raster) ==> {
            &&& pixmap_width(raster) == width
            &&& pixmap_height(raster) == height
            &&& pixmap_byte_len(raster) == 4 * width * height
            &&& pixmap_alphas(raster).len() == width * height
            &&& forall|i: int|
                0 <= i < pixmap_alphas(raster).len() ==> #[trigger] pixmap_alphas(raster)[i] == 0
        },
{
    tiny_skia::Pixmap::new(width, height)
}

/// Calls `tiny_skia::Pixmap::width`.
#[verifier::external_body]
pub(crate) fn raster_width(pixmap: &tiny_skia::Pixmap) -> (width: u32)
    ensures
        width == pixmap_width(*pixmap),
{
    pixmap.width()
}

/// Calls `tiny_skia::Pixmap::height`.
#[verifier::external_body]
pub(crate) fn raster_height(pixmap: &tiny_skia::Pixmap) -> (height: u32)
    ensures
        height == pixmap_height(*pixmap),
{
    pixmap.height()
}

/// Calls `tiny_skia::Pixmap::data` for the number of bytes.
#[verifier::external_body]
pub(crate) fn raster_byte_len(pixmap: &tiny_skia::Pixmap) -> (len: usize)
    ensures
        len == pixmap_byte_len(*pixmap),
{
    pixmap.data().len()
}

/// Calls `tiny_skia::Pixmap::pixels` for the number of pixels: a quarter of
/// the number of bytes.
///
/// `pixels` reads the raster's bytes as 32-bit pixels. It panics where they
/// are no whole number of pixels, which `requires` leaves out, and where the
/// byte buffer is not aligned to four bytes. The buffer is a heap allocation
/// of the raster's own; the contract rests on the allocator aligning it so,
/// as every allocator that comes with the standard library does.
#[verifier::external_body]
pub(crate) fn pixel_count(pixmap: &tiny_skia::Pixmap) -> (count: usize)
    requires
        holds_whole_pixels(*pixmap),
    ensures
        count == pixmap_alphas(*pixmap).len(),
        4 * count == pixmap_byte_len(*pixmap),
{
    pixmap.pixels().len()
}

/// Calls `tiny_skia::PremultipliedColorU8::alpha` on the pixel at `index` of
/// `tiny_skia::Pixmap::pixels`.
///
/// As for `pixel_count`, `requires` leaves out the rasters on which `pixels`
/// panics for their length, and the contract rests on the allocator aligning
/// the raster's byte buffer to four bytes.
#[verifier::external_body]
pub(crate) fn pixel_alpha(pixmap: &tiny_skia::Pixmap, index: usize) -> (alpha: u8)
    requires
        holds_whole_pixels(*pixmap),
        index < pixmap_alphas(*pixmap).len(),
    ensures
        alpha == pixmap_alphas(*pixmap)[index as int],
{
    pixmap.pixels()[index].alpha()
}

} // verus!
