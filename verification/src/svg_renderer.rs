//! Rendering of SVG assets into alpha masks.
//!
//! A render has five steps, in this order: the size is tested and the asset
//! loaded (`SvgRenderer::render`); the bytes are parsed; a raster is
//! allocated (`new_raster`); the document is drawn into it, scaled to the
//! raster's width; the alpha of every pixel is read (`read_mask`). Parsing
//! and drawing are the caller's: the parser reads the files that a document
//! names, and both steps panic on some documents.

use vstd::prelude::*;
use crate::geometry::{DevicePixels, Size};
use crate::raster::{
    holds_whole_pixels, new_pixmap, pixel_alpha, pixel_count, pixmap_alphas, pixmap_byte_len,
    pixmap_height, pixmap_width, raster_byte_len, raster_dims_fit, raster_height, raster_width,
    MAX_RASTER_WIDTH,
};

verus! {

/// What to render: the path of an SVG asset and the size of the mask.
#[derive(Clone, Debug, PartialEq, Eq, Hash)]
pub struct RenderSvgParams {
    pub path: String,
    pub size: Size,
}

/// Where the bytes of an asset come from. Implementations decide freely what
/// a path means and when loading fails.
pub trait AssetSource {
    /// The reason why an asset could not be loaded.
    type Error;

    /// Loads the bytes of the asset at `path`.
    fn load(&self, path: &str) -> Result<Vec<u8>, Self::Error>;
}

/// Why an asset is not drawn. `E` is the asset source's error.
#[derive(Debug)]
pub enum RenderError<E> {
    /// The requested size covers no pixels.
    ZeroSize,
    /// The asset source could not load the asset.
    Load(E),
}

/// The text that goes with `RenderError::ZeroSize`.
pub const ZERO_SIZE_MESSAGE: &'static str = "can't render at a zero size";

impl<E> RenderError<E> {
    /// The text of this error, where the renderer has one of its own: a
    /// failed load is described by the asset source's error.
    pub fn message(&self) -> (text: Option<&'static str>)
        ensures
            self is ZeroSize <==> text is Some,
            text matches Some(words) ==> words@ == "can't render at a zero size"@,
    {
        match self {
            RenderError::ZeroSize => Some(ZERO_SIZE_MESSAGE),
            RenderError::Load(_) => None,
        }
    }
}

/// The bytes of an asset, loaded and ready to be parsed and drawn into a mask
/// of `size`.
#[derive(Debug)]
pub struct LoadedSvg {
    pub bytes: Vec<u8>,
    pub size: Size,
}

impl DevicePixels {
    /// The length as a side of a raster: an unsigned number of the same 32
    /// bits, so that a negative length becomes one of 2^31 or more.
    pub open spec fn raster_side(self) -> int {
        if self.0 >= 0 {
            self.0 as int
        } else {
            self.0 + 0x1_0000_0000
        }
    }

    /// The length as a side of a raster.
    pub fn to_raster_side(&self) -> (side: u32)
        ensures
            side == self.raster_side(),
    {
        if self.0 >= 0 {
            self.0 as u32
        } else {
            (self.0 as i64 + 0x1_0000_0000) as u32
        }
    }
}

impl Size {
    /// Whether a mask of this size can be allocated.
    pub open spec fn fits_raster(self) -> bool {
        raster_dims_fit(self.width.raster_side() as u32, self.height.raster_side() as u32)
    }

    /// The number of pixels of the raster of a mask of this size.
    pub open spec fn raster_pixels(self) -> int {
        self.width.raster_side() * self.height.raster_side()
    }

    /// The width and the height of the raster of a mask of this size.
    pub fn raster_sides(&self) -> (sides: (u32, u32))
        ensures
            sides.0 == self.width.raster_side(),
            sides.1 == self.height.raster_side(),
    {
        (self.width.to_raster_side(), self.height.to_raster_side())
    }

    /// Whether a mask of this size can be allocated.
    pub fn can_rasterize(&self) -> (fits: bool)
        ensures
            fits == self.fits_raster(),
    {
        let (width, height) = self.raster_sides();
        if width == 0 || height == 0 || width > MAX_RASTER_WIDTH {
            return false;
        }
        let w: u64 = width as u64;
        let h: u64 = height as u64;
        assert(w * h <= 0x1fff_ffff * 0xffff_ffff) by (nonlinear_arith)
            requires
                0 < w <= 0x1fff_ffff,
                0 < h <= 0xffff_ffff,
        ;
        let pixels: u64 = w * h;
        assert(4 * width * height == 4 * pixels) by (nonlinear_arith)
            requires
                pixels == w * h,
                w == width,
                h == height,
        ;
        4 * pixels <= usize::MAX as u64
    }
}

/// A size that fits a raster has a positive width within the limit and a
/// height that is not zero, and where the height is positive too its raster
/// has one pixel for each unit of its area. A negative height stands for a
/// raster of 2^31 rows or more.
pub proof fn lemma_fitting_size(size: Size)
    requires
        size.fits_raster(),
    ensures
        0 < size.width.value() <= MAX_RASTER_WIDTH,
        size.height.value() != 0,
        !size.covers_nothing(),
        size.height.value() > 0 ==> size.raster_pixels() == size.area(),
{
}

/// Whether a raster is that of a mask of `size`: it has the two sides of the
/// size and four bytes for each of its pixels.
pub open spec fn raster_has_size(raster: tiny_skia::Pixmap, size: Size) -> bool {
    &&& pixmap_width(raster) == size.width.raster_side()
    &&& pixmap_height(raster) == size.height.raster_side()
    &&& pixmap_byte_len(raster) == 4 * size.raster_pixels()
}

/// Allocates the raster of a mask of `size`: it has the sides of the size,
/// one pixel for each pair of a column and a row, and is transparent.
pub fn new_raster(size: Size) -> (raster: tiny_skia::Pixmap)
    requires
        size.fits_raster(),
    ensures
        raster_has_size(raster, size),
        pixmap_alphas(raster).len() == size.raster_pixels(),
        forall|i: int| 0 <= i < size.raster_pixels() ==> #[trigger] pixmap_alphas(raster)[i] == 0,
{
    let (width, height) = size.raster_sides();
    let raster = new_pixmap(width, height).unwrap();
    assert(4 * width * height == 4 * (width * height)) by (nonlinear_arith);
    raster
}

/// The alpha component of every pixel of a raster, row by row: one byte for
/// every four bytes of the raster.
pub fn alpha_mask(pixmap: &tiny_skia::Pixmap) -> (mask: Vec<u8>)
    requires
        holds_whole_pixels(*pixmap),
    ensures
        mask@ == pixmap_alphas(*pixmap),
        4 * mask@.len() == pixmap_byte_len(*pixmap),
{
    let count = pixel_count(pixmap);
    let mut mask: Vec<u8> = Vec::with_capacity(count);
    let mut i: usize = 0;
    while i < count
        invariant
            i <= count,
            holds_whole_pixels(*pixmap),
            count == pixmap_alphas(*pixmap).len(),
            mask@ == pixmap_alphas(*pixmap).take(i as int),
        decreases count - i,
    {
        mask.push(pixel_alpha(pixmap, i));
        assert(mask@ =~= pixmap_alphas(*pixmap).take(i + 1));
        i += 1;
    }
    assert(pixmap_alphas(*pixmap).take(count as int) =~= pixmap_alphas(*pixmap));
    mask
}

/// Whether a raster is that of a mask of `size`.
pub fn is_raster_of(raster: &tiny_skia::Pixmap, size: Size) -> (matches: bool)
    ensures
        matches == raster_has_size(*raster, size),
{
    let (width, height) = size.raster_sides();
    if raster_width(raster) != width || raster_height(raster) != height {
        return false;
    }
    let w: u64 = width as u64;
    let h: u64 = height as u64;
    assert(w * h <= 0xffff_ffff * 0xffff_ffff) by (nonlinear_arith)
        requires
            w <= 0xffff_ffff,
            h <= 0xffff_ffff,
    ;
    let pixels: u64 = w * h;
    let len = raster_byte_len(raster);
    len % 4 == 0 && (len / 4) as u64 == pixels
}

/// Reads the mask of `size` from the raster that the asset was drawn into:
/// one byte for each pixel, row by row. A raster that is not that of a mask
/// of `size` holds no such mask.
pub fn read_mask(raster: &tiny_skia::Pixmap, size: Size) -> (mask: Option<Vec<u8>>)
    ensures
        mask is Some <==> raster_has_size(*raster, size),
        mask matches Some(alphas) ==> alphas@ == pixmap_alphas(*raster) && alphas@.len()
            == size.raster_pixels(),
{
    if is_raster_of(raster, size) {
        Some(alpha_mask(raster))
    } else {
        None
    }
}

/// What a render comes to once the asset source has answered: a failed load
/// ends it with the source's error, loaded bytes go on to be drawn at `size`.
pub open spec fn render_outcome<E>(loaded: Result<Vec<u8>, E>, size: Size) -> Result<
    LoadedSvg,
    RenderError<E>,
> {
    match loaded {
        Err(error) => Err(RenderError::Load(error)),
        Ok(bytes) => Ok(LoadedSvg { bytes, size }),
    }
}

/// Decides over the answer of the asset source.
pub fn render_loaded<E>(loaded: Result<Vec<u8>, E>, size: Size) -> (result: Result<
    LoadedSvg,
    RenderError<E>,
>)
    ensures
        result == render_outcome(loaded, size),
{
    match loaded {
        Err(error) => Err(RenderError::Load(error)),
        Ok(bytes) => Ok(LoadedSvg { bytes, size }),
    }
}

/// Renders the SVG assets of an asset source.
pub struct SvgRenderer<S: AssetSource> {
    asset_source: S,
}

impl<S: AssetSource> SvgRenderer<S> {
    /// The asset source that this renderer loads from.
    pub closed spec fn source(&self) -> S {
        self.asset_source
    }

    /// A renderer over `asset_source`.
    pub fn new(asset_source: S) -> (renderer: Self)
        ensures
            renderer.source() == asset_source,
    {
        Self { asset_source }
    }

    /// Begins the render of the asset at `params.path` into an alpha mask of
    /// `params.size`, up to the point where the bytes are parsed.
    ///
    /// A size that covers no pixels is refused before anything is loaded.
    /// Otherwise the asset source is asked for the asset at `params.path`,
    /// and the render comes to what `render_outcome` makes of its answer.
    pub fn render(&self, params: &RenderSvgParams) -> (result: Result<
        LoadedSvg,
        RenderError<S::Error>,
    >)
        ensures
            params.size.covers_nothing() <==> result matches Err(RenderError::ZeroSize),
            !params.size.covers_nothing() ==> exists|
                path: &str,
                answer: Result<Vec<u8>, S::Error>,
            |
                path@ == params.path@ && #[trigger] call_ensures(
                    <S as AssetSource>::load,
                    (&self.source(), path),
                    answer,
                ) && result == render_outcome(answer, params.size),
    {
        if params.size.is_zero() {
            return Err(RenderError::ZeroSize);
        }
        let path = params.path.as_str();
        let answer = self.asset_source.load(path);
        assert(call_ensures(<S as AssetSource>::load, (&self.source(), path), answer));
        render_loaded(answer, params.size)
    }
}

} // verus!
