use vstd::prelude::*;
use crate::errors::{get_image_error, ErrorType};
use crate::hooks::CallerFns;
use crate::item::{Item, PixelResult, Rgba};
use crate::iter::{make_raw_iterator, RawIterator};

verus! {

#[verifier::external_type_specification]
#[verifier::external_body]
pub struct ExDynamicImage(image::DynamicImage);

/// The width and height of an image, as the image library reports them.
pub uninterp spec fn image_dims(img: image::DynamicImage) -> (u32, u32);

/// The pixels of an image: the red, green, blue and alpha channels that
/// the image library reads back at each coordinate.
pub uninterp spec fn image_pixel_map(img: image::DynamicImage) -> Map<(u32, u32), (u8, u8, u8, u8)>;

/// The raw bytes of an image's backing buffer.
pub uninterp spec fn image_bytes(img: image::DynamicImage) -> Seq<u8>;

/// The color layout of an image's backing buffer.
pub uninterp spec fn color_of(img: image::DynamicImage) -> ColorType;

/// A pixel record assembled from the channels the image library reads.
pub open spec fn rgba_of(c: (u8, u8, u8, u8)) -> Rgba {
    Rgba { r: c.0, g: c.1, b: c.2, a: c.3 }
}

/// The pixel record at position `k` of an image's row-major pixel walk.
pub open spec fn pixel_result_at(img: image::DynamicImage, k: int) -> PixelResult {
    let w = image_dims(img).0 as int;
    let x = (k % w) as u32;
    let y = (k / w) as u32;
    PixelResult { x, y, color: rgba_of(image_pixel_map(img)[(x, y)]) }
}

/// The whole row-major pixel walk of an image, as opaque items.
pub open spec fn image_pixel_items(img: image::DynamicImage) -> Seq<Item> {
    Seq::new(
        (image_dims(img).0 as int * image_dims(img).1 as int) as nat,
        |k: int| Item::Pixel(pixel_result_at(img, k)),
    )
}

/// The dimensions of a cut-out: the requested rectangle clamped to the
/// image, exactly as the image library clamps it.
pub open spec fn crop_dims(d: (u32, u32), x: u32, y: u32, width: u32, height: u32) -> (u32, u32) {
    let cx = if x < d.0 { x as int } else { d.0 as int };
    let cy = if y < d.1 { y as int } else { d.1 as int };
    let cw = if (width as int) < d.0 - cx { width as int } else { d.0 - cx };
    let ch = if (height as int) < d.1 - cy { height as int } else { d.1 - cy };
    ((cw as u32), (ch as u32))
}

/// Resampling filters offered across the boundary.
#[derive(Clone, Copy, Debug, PartialEq, Eq, Structural)]
#[allow(non_camel_case_types)]
pub enum FilterType {
    FILTER_TYPE_NEAREST,
    FILTER_TYPE_TRIANGLE,
    FILTER_TYPE_CATMULL_ROM,
    FILTER_TYPE_GAUSSIAN,
    FILTER_TYPE_LANCZOS3,
}

/// Image container formats offered across the boundary.
#[derive(Clone, Copy, Debug, PartialEq, Eq, Structural)]
#[allow(non_camel_case_types)]
pub enum ImageFormat {
    IMAGE_FORMAT_PNG,
    IMAGE_FORMAT_JPEG,
    IMAGE_FORMAT_GIF,
    IMAGE_FORMAT_WEBP,
    IMAGE_FORMAT_PNM,
    IMAGE_FORMAT_TIFF,
    IMAGE_FORMAT_TGA,
    IMAGE_FORMAT_DDS,
    IMAGE_FORMAT_BMP,
    IMAGE_FORMAT_ICO,
    IMAGE_FORMAT_HDR,
    IMAGE_FORMAT_OPENEXR,
    IMAGE_FORMAT_FARBFELD,
    IMAGE_FORMAT_AVIF,
    IMAGE_FORMAT_QOI,
}

/// Pixel layouts of a decoded image's backing buffer.
#[derive(Clone, Copy, Debug, PartialEq, Eq, Structural)]
#[allow(non_camel_case_types)]
pub enum ColorType {
    COLOR_TYPE_L8,
    COLOR_TYPE_LA8,
    COLOR_TYPE_RGB8,
    COLOR_TYPE_RGBA8,
    COLOR_TYPE_L16,
    COLOR_TYPE_LA16,
    COLOR_TYPE_RGB16,
    COLOR_TYPE_RGBA16,
    COLOR_TYPE_RGB32F,
    COLOR_TYPE_RGBA32F,
}

/// Pixel layouts that an encoder may be handed, including packed and
/// exotic ones that no decoded image uses.
#[derive(Clone, Copy, Debug, PartialEq, Eq, Structural)]
#[allow(non_camel_case_types)]
pub enum ExtendedColorType {
    EXTENDED_COLOR_TYPE_A8,
    EXTENDED_COLOR_TYPE_L1,
    EXTENDED_COLOR_TYPE_LA1,
    EXTENDED_COLOR_TYPE_RGB1,
    EXTENDED_COLOR_TYPE_RGBA1,
    EXTENDED_COLOR_TYPE_L2,
    EXTENDED_COLOR_TYPE_LA2,
    EXTENDED_COLOR_TYPE_RGB2,
    EXTENDED_COLOR_TYPE_RGBA2,
    EXTENDED_COLOR_TYPE_L4,
    EXTENDED_COLOR_TYPE_LA4,
    EXTENDED_COLOR_TYPE_RGB4,
    EXTENDED_COLOR_TYPE_RGBA4,
    EXTENDED_COLOR_TYPE_L8,
    EXTENDED_COLOR_TYPE_LA8,
    EXTENDED_COLOR_TYPE_RGB8,
    EXTENDED_COLOR_TYPE_RGBA8,
    EXTENDED_COLOR_TYPE_L16,
    EXTENDED_COLOR_TYPE_LA16,
    EXTENDED_COLOR_TYPE_RGB16,
    EXTENDED_COLOR_TYPE_RGBA16,
    EXTENDED_COLOR_TYPE_BGR8,
    EXTENDED_COLOR_TYPE_BGRA8,
    EXTENDED_COLOR_TYPE_RGB32F,
    EXTENDED_COLOR_TYPE_RGBA32F,
    EXTENDED_COLOR_TYPE_CMYK8,
}

/// Which end of an input/output object a seek offset counts from.
#[derive(Clone, Copy, Debug, PartialEq, Eq, Structural)]
#[allow(non_camel_case_types)]
pub enum SeekType {
    SEEK_FROM_START,
    SEEK_FROM_END,
    SEEK_FROM_CURRENT,
}

/// A seek request crossing the boundary.  `ty` says which end the offset
/// counts from; only the matching offset field is meaningful.
#[derive(Clone, Copy, Debug, PartialEq, Eq, Structural)]
pub struct SeekFrom {
    /// Which end the offset counts from.
    pub ty: SeekType,
    /// Offset in bytes from the start, meaningful when `ty` says so.
    pub start: u64,
    /// Signed offset in bytes from the end or from the current position,
    /// meaningful when `ty` says so.
    pub offset: i64,
}

impl SeekFrom {
    /// A seek to the given distance from the start.
    pub fn from_start(n: u64) -> (r: SeekFrom)
        ensures
            r.ty == SeekType::SEEK_FROM_START,
            r.start == n,
    {
        SeekFrom { ty: SeekType::SEEK_FROM_START, start: n, offset: 0 }
    }

    /// A seek to the given signed distance from the end.
    pub fn from_end(n: i64) -> (r: SeekFrom)
        ensures
            r.ty == SeekType::SEEK_FROM_END,
            r.offset == n,
    {
        SeekFrom { ty: SeekType::SEEK_FROM_END, start: 0, offset: n }
    }

    /// A seek to the given signed distance from the current position.
    pub fn from_current(n: i64) -> (r: SeekFrom)
        ensures
            r.ty == SeekType::SEEK_FROM_CURRENT,
            r.offset == n,
    {
        SeekFrom { ty: SeekType::SEEK_FROM_CURRENT, start: 0, offset: n }
    }
}

/// A width and height crossing the boundary.
#[derive(Clone, Copy, Debug, PartialEq, Eq, Structural)]
pub struct Dimensions {
    pub width: u32,
    pub height: u32,
}

/// What loading an image from memory produced: the image on success, and
/// the boundary error code either way.
pub struct LoadFromMemoryResult {
    /// The decoded image, when decoding succeeded.
    pub res: Option<image::DynamicImage>,
    /// The no-error code on success, the failure's code otherwise.
    pub err: ErrorType,
}

/// Relies on image::load_from_memory: decodes an image from a buffer
/// already in memory, guessing the format from its leading bytes.  The
/// outcome is not a function of the bytes alone: the image library
/// consults a process-wide registry of decoding hooks that other code
/// may change at any time, so no clause here ties success to the
/// buffer's content.
#[verifier::external_body]
fn load_from_memory(bytes: &[u8]) -> (r: Result<image::DynamicImage, image::ImageError>) {
    image::load_from_memory(bytes)
}

/// Relies on image::DynamicImage::width.
#[verifier::external_body]
fn image_width(img: &image::DynamicImage) -> (r: u32)
    ensures
        r == image_dims(*img).0,
{
    img.width()
}

/// Relies on image::DynamicImage::height.
#[verifier::external_body]
fn image_height(img: &image::DynamicImage) -> (r: u32)
    ensures
        r == image_dims(*img).1,
{
    img.height()
}

/// Relies on image::GenericImageView::get_pixel, which reads the
/// channels at an in-bounds coordinate and panics outside the image.
#[verifier::external_body]
fn image_get_pixel(img: &image::DynamicImage, x: u32, y: u32) -> (r: Rgba)
    requires
        x < image_dims(*img).0,
        y < image_dims(*img).1,
    ensures
        r == rgba_of(image_pixel_map(*img)[(x, y)]),
{
    let c = image::GenericImageView::get_pixel(img, x, y);
    Rgba { r: c.0[0], g: c.0[1], b: c.0[2], a: c.0[3] }
}

/// Relies on image::GenericImageView::pixels: one record for each
/// coordinate, row by row, each holding what get_pixel reads there.
#[verifier::external_body]
fn image_pixels_vec(img: &image::DynamicImage) -> (r: Vec<PixelResult>)
    ensures
        r@.len() == image_dims(*img).0 as int * image_dims(*img).1 as int,
        forall|k: int| 0 <= k < r@.len() ==> #[trigger] r@[k] == pixel_result_at(*img, k),
{
    image::GenericImageView::pixels(img)
        .map(|p: (u32, u32, image::Rgba<u8>)| PixelResult {
            x: p.0,
            y: p.1,
            color: Rgba { r: p.2.0[0], g: p.2.0[1], b: p.2.0[2], a: p.2.0[3] },
        })
        .collect()
}

/// Relies on image::DynamicImage::brighten, which adjusts every pixel in
/// place of a copy with the same dimensions.
#[verifier::external_body]
fn image_brighten(img: &image::DynamicImage, value: i32) -> (r: image::DynamicImage)
    ensures
        image_dims(r) == image_dims(*img),
{
    img.brighten(value)
}

/// Relies on image::DynamicImage::invert, which inverts every pixel in
/// place and keeps the dimensions.
#[verifier::external_body]
fn image_invert(img: &mut image::DynamicImage)
    ensures
        image_dims(*final(img)) == image_dims(*old(img)),
{
    img.invert()
}

/// Relies on image::DynamicImage::grayscale, which converts every pixel
/// of a copy with the same dimensions.
#[verifier::external_body]
fn image_grayscale(img: &image::DynamicImage) -> (r: image::DynamicImage)
    ensures
        image_dims(r) == image_dims(*img),
{
    img.grayscale()
}

/// Relies on image::DynamicImage::huerotate, which rotates every pixel's
/// hue in a copy with the same dimensions.
#[verifier::external_body]
fn image_huerotate(img: &image::DynamicImage, value: i32) -> (r: image::DynamicImage)
    ensures
        image_dims(r) == image_dims(*img),
{
    img.huerotate(value)
}

/// Relies on image::DynamicImage::fliph, which writes the pixel read at
/// a coordinate to the horizontally mirrored coordinate of a buffer of
/// the same dimensions.
#[verifier::external_body]
fn image_fliph(img: &image::DynamicImage) -> (r: image::DynamicImage)
    ensures
        image_dims(r) == image_dims(*img),
        forall|x: u32, y: u32|
            x < image_dims(*img).0 && y < image_dims(*img).1
                ==> #[trigger] image_pixel_map(r)[(x, y)] == image_pixel_map(*img)[
                ((image_dims(*img).0 - 1 - x) as u32, y)],
{
    img.fliph()
}

/// Relies on image::DynamicImage::flipv, which writes the pixel read at
/// a coordinate to the vertically mirrored coordinate of a buffer of
/// the same dimensions.
#[verifier::external_body]
fn image_flipv(img: &image::DynamicImage) -> (r: image::DynamicImage)
    ensures
        image_dims(r) == image_dims(*img),
        forall|x: u32, y: u32|
            x < image_dims(*img).0 && y < image_dims(*img).1
                ==> #[trigger] image_pixel_map(r)[(x, y)] == image_pixel_map(*img)[
                (x, (image_dims(*img).1 - 1 - y) as u32)],
{
    img.flipv()
}

/// Relies on image::DynamicImage::rotate90, which writes the pixel read
/// at (x, y) to (height - 1 - y, x) of a buffer with width and height
/// exchanged.
#[verifier::external_body]
fn image_rotate90(img: &image::DynamicImage) -> (r: image::DynamicImage)
    ensures
        image_dims(r).0 == image_dims(*img).1,
        image_dims(r).1 == image_dims(*img).0,
        forall|x: u32, y: u32|
            x < image_dims(*img).1 && y < image_dims(*img).0
                ==> #[trigger] image_pixel_map(r)[(x, y)] == image_pixel_map(*img)[
                (y, (image_dims(*img).1 - 1 - x) as u32)],
{
    img.rotate90()
}

/// Relies on image::DynamicImage::rotate180, which writes the pixel
/// read at a coordinate to the coordinate mirrored both ways, in a
/// buffer of the same dimensions.
#[verifier::external_body]
fn image_rotate180(img: &image::DynamicImage) -> (r: image::DynamicImage)
    ensures
        image_dims(r) == image_dims(*img),
        forall|x: u32, y: u32|
            x < image_dims(*img).0 && y < image_dims(*img).1
                ==> #[trigger] image_pixel_map(r)[(x, y)] == image_pixel_map(*img)[
                ((image_dims(*img).0 - 1 - x) as u32, (image_dims(*img).1 - 1 - y) as u32)],
{
    img.rotate180()
}

/// Relies on image::DynamicImage::rotate270, which writes the pixel
/// read at (x, y) to (y, width - 1 - x) of a buffer with width and
/// height exchanged.
#[verifier::external_body]
fn image_rotate270(img: &image::DynamicImage) -> (r: image::DynamicImage)
    ensures
        image_dims(r).0 == image_dims(*img).1,
        image_dims(r).1 == image_dims(*img).0,
        forall|x: u32, y: u32|
            x < image_dims(*img).1 && y < image_dims(*img).0
                ==> #[trigger] image_pixel_map(r)[(x, y)] == image_pixel_map(*img)[
                ((image_dims(*img).0 - 1 - y) as u32, x)],
{
    img.rotate270()
}

/// Relies on image::DynamicImage::crop, which clamps the requested
/// rectangle to the image before cutting it out.  Despite borrowing the
/// image mutably, it only reads: the cut-out is copied off a view.
#[verifier::external_body]
fn image_crop(img: &mut image::DynamicImage, x: u32, y: u32, width: u32, height: u32) -> (r:
    image::DynamicImage)
    ensures
        *final(img) == *old(img),
        image_dims(r) == crop_dims(image_dims(*old(img)), x, y, width, height),
{
    img.crop(x, y, width, height)
}

/// Relies on image::DynamicImage::crop_imm, which clamps the requested
/// rectangle to the image before cutting it out.
#[verifier::external_body]
fn image_crop_imm(img: &image::DynamicImage, x: u32, y: u32, width: u32, height: u32) -> (r:
    image::DynamicImage)
    ensures
        image_dims(r) == crop_dims(image_dims(*img), x, y, width, height),
{
    img.crop_imm(x, y, width, height)
}

/// Relies on image::DynamicImage::resize, which scales into the largest
/// size that fits the requested bounds while keeping the aspect ratio;
/// the exact rounding is the image library's own.
#[verifier::external_body]
fn image_resize(img: &image::DynamicImage, nwidth: u32, nheight: u32, filter: FilterType) -> (r:
    image::DynamicImage) {
    let f = match filter {
        FilterType::FILTER_TYPE_NEAREST => image::imageops::FilterType::Nearest,
        FilterType::FILTER_TYPE_TRIANGLE => image::imageops::FilterType::Triangle,
        FilterType::FILTER_TYPE_CATMULL_ROM => image::imageops::FilterType::CatmullRom,
        FilterType::FILTER_TYPE_GAUSSIAN => image::imageops::FilterType::Gaussian,
        FilterType::FILTER_TYPE_LANCZOS3 => image::imageops::FilterType::Lanczos3,
    };
    img.resize(nwidth, nheight, f)
}

/// Relies on image::DynamicImage::resize_exact, which scales into a
/// buffer of exactly the requested dimensions.
#[verifier::external_body]
fn image_resize_exact(img: &image::DynamicImage, nwidth: u32, nheight: u32, filter: FilterType) -> (
    r: image::DynamicImage)
    ensures
        image_dims(r) == (nwidth, nheight),
{
    let f = match filter {
        FilterType::FILTER_TYPE_NEAREST => image::imageops::FilterType::Nearest,
        FilterType::FILTER_TYPE_TRIANGLE => image::imageops::FilterType::Triangle,
        FilterType::FILTER_TYPE_CATMULL_ROM => image::imageops::FilterType::CatmullRom,
        FilterType::FILTER_TYPE_GAUSSIAN => image::imageops::FilterType::Gaussian,
        FilterType::FILTER_TYPE_LANCZOS3 => image::imageops::FilterType::Lanczos3,
    };
    img.resize_exact(nwidth, nheight, f)
}

/// Relies on image::DynamicImage::resize_to_fill, which scales to cover
/// the requested bounds and then crops; the exact rounding is the image
/// library's own.
#[verifier::external_body]
fn image_resize_to_fill(img: &image::DynamicImage, nwidth: u32, nheight: u32, filter: FilterType)
    -> (r: image::DynamicImage) {
    let f = match filter {
        FilterType::FILTER_TYPE_NEAREST => image::imageops::FilterType::Nearest,
        FilterType::FILTER_TYPE_TRIANGLE => image::imageops::FilterType::Triangle,
        FilterType::FILTER_TYPE_CATMULL_ROM => image::imageops::FilterType::CatmullRom,
        FilterType::FILTER_TYPE_GAUSSIAN => image::imageops::FilterType::Gaussian,
        FilterType::FILTER_TYPE_LANCZOS3 => image::imageops::FilterType::Lanczos3,
    };
    img.resize_to_fill(nwidth, nheight, f)
}

/// Relies on image::DynamicImage::thumbnail, which downscales quickly
/// within the requested bounds while keeping the aspect ratio; the exact
/// rounding is the image library's own.
#[verifier::external_body]
fn image_thumbnail(img: &image::DynamicImage, nwidth: u32, nheight: u32) -> (r:
    image::DynamicImage) {
    img.thumbnail(nwidth, nheight)
}

/// Relies on image::DynamicImage::thumbnail_exact, which downscales into
/// a buffer of exactly the requested dimensions.
#[verifier::external_body]
fn image_thumbnail_exact(img: &image::DynamicImage, nwidth: u32, nheight: u32) -> (r:
    image::DynamicImage)
    ensures
        image_dims(r) == (nwidth, nheight),
{
    img.thumbnail_exact(nwidth, nheight)
}

/// Relies on image::DynamicImage::color; each arm only tells the color
/// layouts apart.
#[verifier::external_body]
fn image_color(img: &image::DynamicImage) -> (r: ColorType)
    ensures
        r == color_of(*img),
{
    match img.color() {
        image::ColorType::L8 => ColorType::COLOR_TYPE_L8,
        image::ColorType::La8 => ColorType::COLOR_TYPE_LA8,
        image::ColorType::Rgb8 => ColorType::COLOR_TYPE_RGB8,
        image::ColorType::Rgba8 => ColorType::COLOR_TYPE_RGBA8,
        image::ColorType::L16 => ColorType::COLOR_TYPE_L16,
        image::ColorType::La16 => ColorType::COLOR_TYPE_LA16,
        image::ColorType::Rgb16 => ColorType::COLOR_TYPE_RGB16,
        image::ColorType::Rgba16 => ColorType::COLOR_TYPE_RGBA16,
        image::ColorType::Rgb32F => ColorType::COLOR_TYPE_RGB32F,
        _ => ColorType::COLOR_TYPE_RGBA32F,
    }
}

/// Relies on image::DynamicImage::as_bytes, which exposes the backing
/// buffer of the image.
#[verifier::external_body]
fn image_as_bytes(img: &image::DynamicImage) -> (r: Vec<u8>)
    ensures
        r@ == image_bytes(*img),
{
    img.as_bytes().to_vec()
}

/// Relies on image::DynamicImage::into_luma8, which converts every pixel
/// to 8-bit luminance and keeps the dimensions.
#[verifier::external_body]
fn image_into_luma8(img: &image::DynamicImage) -> (r: image::DynamicImage)
    ensures
        image_dims(r) == image_dims(*img),
{
    image::DynamicImage::from(img.to_owned().into_luma8())
}

/// Relies on image::DynamicImage::into_luma16, which converts every pixel
/// to 16-bit luminance and keeps the dimensions.
#[verifier::external_body]
fn image_into_luma16(img: &image::DynamicImage) -> (r: image::DynamicImage)
    ensures
        image_dims(r) == image_dims(*img),
{
    image::DynamicImage::from(img.to_owned().into_luma16())
}

/// Relies on image::DynamicImage::into_luma_alpha8, which converts every pixel
/// to 8-bit luminance with alpha and keeps the dimensions.
#[verifier::external_body]
fn image_into_luma_alpha8(img: &image::DynamicImage) -> (r: image::DynamicImage)
    ensures
        image_dims(r) == image_dims(*img),
{
    image::DynamicImage::from(img.to_owned().into_luma_alpha8())
}

/// Relies on image::DynamicImage::into_luma_alpha16, which converts every pixel
/// to 16-bit luminance with alpha and keeps the dimensions.
#[verifier::external_body]
fn image_into_luma_alpha16(img: &image::DynamicImage) -> (r: image::DynamicImage)
    ensures
        image_dims(r) == image_dims(*img),
{
    image::DynamicImage::from(img.to_owned().into_luma_alpha16())
}

/// Relies on image::DynamicImage::into_rgb8, which converts every pixel
/// to 8-bit red, green and blue and keeps the dimensions.
#[verifier::external_body]
fn image_into_rgb8(img: &image::DynamicImage) -> (r: image::DynamicImage)
    ensures
        image_dims(r) == image_dims(*img),
{
    image::DynamicImage::from(img.to_owned().into_rgb8())
}

/// Relies on image::DynamicImage::into_rgb16, which converts every pixel
/// to 16-bit red, green and blue and keeps the dimensions.
#[verifier::external_body]
fn image_into_rgb16(img: &image::DynamicImage) -> (r: image::DynamicImage)
    ensures
        image_dims(r) == image_dims(*img),
{
    image::DynamicImage::from(img.to_owned().into_rgb16())
}

/// Relies on image::DynamicImage::into_rgb32f, which converts every pixel
/// to floating-point red, green and blue and keeps the dimensions.
#[verifier::external_body]
fn image_into_rgb32f(img: &image::DynamicImage) -> (r: image::DynamicImage)
    ensures
        image_dims(r) == image_dims(*img),
{
    image::DynamicImage::from(img.to_owned().into_rgb32f())
}

/// Relies on image::DynamicImage::into_rgba8, which converts every pixel
/// to 8-bit red, green, blue and alpha and keeps the dimensions.
#[verifier::external_body]
fn image_into_rgba8(img: &image::DynamicImage) -> (r: image::DynamicImage)
    ensures
        image_dims(r) == image_dims(*img),
{
    image::DynamicImage::from(img.to_owned().into_rgba8())
}

/// Relies on image::DynamicImage::into_rgba16, which converts every pixel
/// to 16-bit red, green, blue and alpha and keeps the dimensions.
#[verifier::external_body]
fn image_into_rgba16(img: &image::DynamicImage) -> (r: image::DynamicImage)
    ensures
        image_dims(r) == image_dims(*img),
{
    image::DynamicImage::from(img.to_owned().into_rgba16())
}

/// Relies on image::DynamicImage::into_rgba32f, which converts every pixel
/// to floating-point red, green, blue and alpha and keeps the dimensions.
#[verifier::external_body]
fn image_into_rgba32f(img: &image::DynamicImage) -> (r: image::DynamicImage)
    ensures
        image_dims(r) == image_dims(*img),
{
    image::DynamicImage::from(img.to_owned().into_rgba32f())
}

/// Shape what the decoder handed back into the boundary record: a
/// decoded image is passed through with the no-error code, a decode
/// failure becomes no image with that failure's code.  This function is
/// verified for every possible decoder answer.
pub fn load_from_memory_result(decoded: Result<image::DynamicImage, image::ImageError>) -> (r:
    LoadFromMemoryResult)
    ensures
        match decoded {
            Ok(img) => r.res == Some(img) && r.err == ErrorType::IMAGE_ERROR_NONE,
            Err(_) => r.res is None && r.err != ErrorType::IMAGE_ERROR_NONE,
        },
{
    match decoded {
        Ok(img) => LoadFromMemoryResult { res: Some(img), err: ErrorType::IMAGE_ERROR_NONE },
        Err(er) => LoadFromMemoryResult { res: None, err: get_image_error(er) },
    }
}

/// Load an image from a buffer already in memory.  Exactly one of the
/// two outcomes is reported: a decoded image with the no-error code, or
/// no image with the failure's code.  Which outcome comes back rests
/// with the image library; `load_from_memory_result` pins what this
/// function reports for each of its answers.
pub fn dynamic_image_load_from_memory(bytes: &[u8]) -> (r: LoadFromMemoryResult)
    ensures
        (r.res is Some) <==> (r.err == ErrorType::IMAGE_ERROR_NONE),
{
    load_from_memory_result(load_from_memory(bytes))
}

/// The width of the image.
pub fn dynamic_image_width(this: &image::DynamicImage) -> (r: u32)
    ensures
        r == image_dims(*this).0,
{
    image_width(this)
}

/// The height of the image.
pub fn dynamic_image_height(this: &image::DynamicImage) -> (r: u32)
    ensures
        r == image_dims(*this).1,
{
    image_height(this)
}

/// The width and height of the image, as one record.
pub fn dynamic_image_dimensions(this: &image::DynamicImage) -> (r: Dimensions)
    ensures
        r.width == image_dims(*this).0,
        r.height == image_dims(*this).1,
{
    Dimensions { width: image_width(this), height: image_height(this) }
}

/// Whether the coordinate lies inside the image.
pub fn dynamic_image_in_bounds(this: &image::DynamicImage, x: u32, y: u32) -> (r: bool)
    ensures
        r == (x < image_dims(*this).0 && y < image_dims(*this).1),
{
    x < image_width(this) && y < image_height(this)
}

/// The pixel at an in-bounds coordinate.  Asking outside the image is a
/// caller error and is not accepted.
pub fn dynamic_image_get_pixel(this: &image::DynamicImage, x: u32, y: u32) -> (r: Rgba)
    requires
        x < image_dims(*this).0,
        y < image_dims(*this).1,
    ensures
        r == rgba_of(image_pixel_map(*this)[(x, y)]),
{
    image_get_pixel(this, x, y)
}

/// Wrap the image's row-major pixel walk into a fresh stable handle:
/// one coordinate-and-color record per pixel, rows first.
pub fn dynamic_image_pixels<H: CallerFns>(this: &image::DynamicImage) -> (r: RawIterator)
    ensures
        forall|h: H| #[trigger] r.items(h) == image_pixel_items(*this),
        r.size == 0,
        forall|g: u64| !(#[trigger] r.notes_with(g)),
{
    let pixels = image_pixels_vec(this);
    let ghost pv = pixels@;
    let mut src = pixels;
    let mut out: Vec<Item> = Vec::new();
    let mut i: usize = 0;
    while i < src.len()
        invariant
            i <= src@.len(),
            src@ == pv,
            out@ =~= Seq::new(i as nat, |k: int| Item::Pixel(pv[k])),
        decreases src@.len() - i,
    {
        let p = pixel_at_index(&src, i);
        out.push(Item::Pixel(p));
        i = i + 1;
    }
    proof {
        assert(out@ =~= image_pixel_items(*this));
    }
    make_raw_iterator::<H>(out)
}

fn pixel_at_index(v: &Vec<PixelResult>, i: usize) -> (r: PixelResult)
    requires
        i < v@.len(),
    ensures
        r == v@[i as int],
{
    let p = &v[i];
    PixelResult {
        x: p.x,
        y: p.y,
        color: Rgba { r: p.color.r, g: p.color.g, b: p.color.b, a: p.color.a },
    }
}

/// Brighten every pixel by the given amount; the dimensions are kept.
pub fn dynamic_image_brighten(this: &image::DynamicImage, value: i32) -> (r: image::DynamicImage)
    ensures
        image_dims(r) == image_dims(*this),
{
    image_brighten(this, value)
}

/// Invert every pixel in place; the dimensions are kept.
pub fn dynamic_image_invert(this: &mut image::DynamicImage)
    ensures
        image_dims(*final(this)) == image_dims(*old(this)),
{
    image_invert(this)
}

/// Convert the image to grayscale; the dimensions are kept.
pub fn dynamic_image_grayscale(this: &image::DynamicImage) -> (r: image::DynamicImage)
    ensures
        image_dims(r) == image_dims(*this),
{
    image_grayscale(this)
}

/// Rotate every pixel's hue by the given degrees; the dimensions are
/// kept.
pub fn dynamic_image_huerotate(this: &image::DynamicImage, value: i32) -> (r: image::DynamicImage)
    ensures
        image_dims(r) == image_dims(*this),
{
    image_huerotate(this, value)
}

/// Mirror the image horizontally: the pixel at (x, y) of the result is
/// the pixel at (width - 1 - x, y) of the input; the dimensions are
/// kept.
pub fn dynamic_image_fliph(this: &image::DynamicImage) -> (r: image::DynamicImage)
    ensures
        image_dims(r) == image_dims(*this),
        forall|x: u32, y: u32|
            x < image_dims(*this).0 && y < image_dims(*this).1
                ==> #[trigger] image_pixel_map(r)[(x, y)] == image_pixel_map(*this)[
                ((image_dims(*this).0 - 1 - x) as u32, y)],
{
    image_fliph(this)
}

/// Mirror the image vertically: the pixel at (x, y) of the result is
/// the pixel at (x, height - 1 - y) of the input; the dimensions are
/// kept.
pub fn dynamic_image_flipv(this: &image::DynamicImage) -> (r: image::DynamicImage)
    ensures
        image_dims(r) == image_dims(*this),
        forall|x: u32, y: u32|
            x < image_dims(*this).0 && y < image_dims(*this).1
                ==> #[trigger] image_pixel_map(r)[(x, y)] == image_pixel_map(*this)[
                (x, (image_dims(*this).1 - 1 - y) as u32)],
{
    image_flipv(this)
}

/// Rotate a quarter turn clockwise: the pixel at (x, y) of the result
/// is the pixel at (y, height - 1 - x) of the input; width and height
/// change places.
pub fn dynamic_image_rotate90(this: &image::DynamicImage) -> (r: image::DynamicImage)
    ensures
        image_dims(r).0 == image_dims(*this).1,
        image_dims(r).1 == image_dims(*this).0,
        forall|x: u32, y: u32|
            x < image_dims(*this).1 && y < image_dims(*this).0
                ==> #[trigger] image_pixel_map(r)[(x, y)] == image_pixel_map(*this)[
                (y, (image_dims(*this).1 - 1 - x) as u32)],
{
    image_rotate90(this)
}

/// Rotate a half turn: the pixel at (x, y) of the result is the pixel
/// at the coordinate mirrored both ways in the input; the dimensions
/// are kept.
pub fn dynamic_image_rotate180(this: &image::DynamicImage) -> (r: image::DynamicImage)
    ensures
        image_dims(r) == image_dims(*this),
        forall|x: u32, y: u32|
            x < image_dims(*this).0 && y < image_dims(*this).1
                ==> #[trigger] image_pixel_map(r)[(x, y)] == image_pixel_map(*this)[
                ((image_dims(*this).0 - 1 - x) as u32, (image_dims(*this).1 - 1 - y) as u32)],
{
    image_rotate180(this)
}

/// Rotate three quarter turns clockwise: the pixel at (x, y) of the
/// result is the pixel at (width - 1 - y, x) of the input; width and
/// height change places.
pub fn dynamic_image_rotate270(this: &image::DynamicImage) -> (r: image::DynamicImage)
    ensures
        image_dims(r).0 == image_dims(*this).1,
        image_dims(r).1 == image_dims(*this).0,
        forall|x: u32, y: u32|
            x < image_dims(*this).1 && y < image_dims(*this).0
                ==> #[trigger] image_pixel_map(r)[(x, y)] == image_pixel_map(*this)[
                ((image_dims(*this).0 - 1 - y) as u32, x)],
{
    image_rotate270(this)
}

/// Cut out the requested rectangle, clamped to the image.  The image
/// itself is left exactly as it was.
pub fn dynamic_image_crop(this: &mut image::DynamicImage, x: u32, y: u32, width: u32, height: u32)
    -> (r: image::DynamicImage)
    ensures
        *final(this) == *old(this),
        image_dims(r) == crop_dims(image_dims(*old(this)), x, y, width, height),
{
    image_crop(this, x, y, width, height)
}

/// Cut out the requested rectangle, clamped to the image, leaving the
/// original untouched.
pub fn dynamic_image_crop_imm(
    this: &image::DynamicImage,
    x: u32,
    y: u32,
    width: u32,
    height: u32,
) -> (r: image::DynamicImage)
    ensures
        image_dims(r) == crop_dims(image_dims(*this), x, y, width, height),
{
    image_crop_imm(this, x, y, width, height)
}

/// Scale into the largest size that fits the requested bounds while
/// keeping the aspect ratio; the exact rounding is the image library's.
pub fn dynamic_image_resize(
    this: &image::DynamicImage,
    nwidth: u32,
    nheight: u32,
    filter: FilterType,
) -> image::DynamicImage {
    image_resize(this, nwidth, nheight, filter)
}

/// Scale into exactly the requested dimensions.
pub fn dynamic_image_resize_exact(
    this: &image::DynamicImage,
    nwidth: u32,
    nheight: u32,
    filter: FilterType,
) -> (r: image::DynamicImage)
    ensures
        image_dims(r) == (nwidth, nheight),
{
    image_resize_exact(this, nwidth, nheight, filter)
}

/// Scale to cover the requested bounds and crop the overhang; the exact
/// rounding is the image library's.
pub fn dynamic_image_resize_to_fill(
    this: &image::DynamicImage,
    nwidth: u32,
    nheight: u32,
    filter: FilterType,
) -> image::DynamicImage {
    image_resize_to_fill(this, nwidth, nheight, filter)
}

/// Downscale quickly within the requested bounds while keeping the
/// aspect ratio; the exact rounding is the image library's.
pub fn dynamic_image_thumbnail(this: &image::DynamicImage, nwidth: u32, nheight: u32)
    -> image::DynamicImage {
    image_thumbnail(this, nwidth, nheight)
}

/// Downscale into exactly the requested dimensions.
pub fn dynamic_image_thumbnail_exact(this: &image::DynamicImage, nwidth: u32, nheight: u32) -> (r:
    image::DynamicImage)
    ensures
        image_dims(r) == (nwidth, nheight),
{
    image_thumbnail_exact(this, nwidth, nheight)
}

/// Convert every pixel to 8-bit luminance; the dimensions are kept.
pub fn dynamic_image_into_luma8(this: &image::DynamicImage) -> (r: image::DynamicImage)
    ensures
        image_dims(r) == image_dims(*this),
{
    image_into_luma8(this)
}

/// Convert every pixel to 16-bit luminance; the dimensions are kept.
pub fn dynamic_image_into_luma16(this: &image::DynamicImage) -> (r: image::DynamicImage)
    ensures
        image_dims(r) == image_dims(*this),
{
    image_into_luma16(this)
}

/// Convert every pixel to 8-bit luminance with alpha; the dimensions are kept.
pub fn dynamic_image_into_luma_alpha8(this: &image::DynamicImage) -> (r: image::DynamicImage)
    ensures
        image_dims(r) == image_dims(*this),
{
    image_into_luma_alpha8(this)
}

/// Convert every pixel to 16-bit luminance with alpha; the dimensions are kept.
pub fn dynamic_image_into_luma_alpha16(this: &image::DynamicImage) -> (r: image::DynamicImage)
    ensures
        image_dims(r) == image_dims(*this),
{
    image_into_luma_alpha16(this)
}

/// Convert every pixel to 8-bit red, green and blue; the dimensions are kept.
pub fn dynamic_image_into_rgb8(this: &image::DynamicImage) -> (r: image::DynamicImage)
    ensures
        image_dims(r) == image_dims(*this),
{
    image_into_rgb8(this)
}

/// Convert every pixel to 16-bit red, green and blue; the dimensions are kept.
pub fn dynamic_image_into_rgb16(this: &image::DynamicImage) -> (r: image::DynamicImage)
    ensures
        image_dims(r) == image_dims(*this),
{
    image_into_rgb16(this)
}

/// Convert every pixel to floating-point red, green and blue; the dimensions are kept.
pub fn dynamic_image_into_rgb32f(this: &image::DynamicImage) -> (r: image::DynamicImage)
    ensures
        image_dims(r) == image_dims(*this),
{
    image_into_rgb32f(this)
}

/// Convert every pixel to 8-bit red, green, blue and alpha; the dimensions are kept.
pub fn dynamic_image_into_rgba8(this: &image::DynamicImage) -> (r: image::DynamicImage)
    ensures
        image_dims(r) == image_dims(*this),
{
    image_into_rgba8(this)
}

/// Convert every pixel to 16-bit red, green, blue and alpha; the dimensions are kept.
pub fn dynamic_image_into_rgba16(this: &image::DynamicImage) -> (r: image::DynamicImage)
    ensures
        image_dims(r) == image_dims(*this),
{
    image_into_rgba16(this)
}

/// Convert every pixel to floating-point red, green, blue and alpha; the dimensions are kept.
pub fn dynamic_image_into_rgba32f(this: &image::DynamicImage) -> (r: image::DynamicImage)
    ensures
        image_dims(r) == image_dims(*this),
{
    image_into_rgba32f(this)
}

/// The color layout of the image's backing buffer.
pub fn dynamic_image_color(this: &image::DynamicImage) -> (r: ColorType)
    ensures
        r == color_of(*this),
{
    image_color(this)
}

/// A copy of the image's backing bytes.
pub fn dynamic_image_as_bytes(this: &image::DynamicImage) -> (r: Vec<u8>)
    ensures
        r@ == image_bytes(*this),
{
    image_as_bytes(this)
}

/// The image's backing bytes, taking the image itself.
pub fn dynamic_image_into_bytes(this: image::DynamicImage) -> (r: Vec<u8>)
    ensures
        r@ == image_bytes(this),
{
    image_as_bytes(&this)
}

} // verus!
