use crate::pixels::rgba_len;
use image::imageops::FilterType;
use image::ColorType;
use image::DynamicImage;
use image::GenericImageView;
use image::ImageFormat;
use vstd::prelude::*;

verus! {

/// A decoded image of the `image` crate. Its pixels are reached only through
/// the functions of this module.
#[verifier::external_type_specification]
#[verifier::external_body]
pub struct ExDynamicImage(image::DynamicImage);

/// The format tag that the `image` crate attaches to an image when it is
/// loaded.
#[verifier::external_type_specification]
#[verifier::external_body]
pub struct ExImageFormat(image::ImageFormat);

/// The error with which the `image` crate reports a failed decode or encode.
#[verifier::external_type_specification]
#[verifier::external_body]
pub struct ExImageError(image::ImageError);

/// How the pixels of a decoded image are stored: the channels, and the type
/// of one sample.
#[derive(Clone, Copy, Debug, PartialEq, Eq, Structural)]
pub enum ColorKind {
    /// 8-bit luminance.
    L8,
    /// 8-bit luminance with alpha.
    La8,
    /// 8-bit red, green and blue.
    Rgb8,
    /// 8-bit red, green and blue with alpha.
    Rgba8,
    /// 16-bit luminance.
    L16,
    /// 16-bit luminance with alpha.
    La16,
    /// 16-bit red, green and blue.
    Rgb16,
    /// 16-bit red, green and blue with alpha.
    Rgba16,
    /// 32-bit floating-point red, green and blue.
    Rgb32F,
    /// 32-bit floating-point red, green and blue with alpha.
    Rgba32F,
    /// A kind that this library does not know.
    Other,
}

impl ColorKind {
    /// The samples are 8-bit or 16-bit integers. Only such pixels are sure
    /// to have an 8-bit RGBA form: a floating-point sample may be no number.
    pub open spec fn has_integer_samples(self) -> bool {
        !(self is Rgb32F || self is Rgba32F || self is Other)
    }

    /// Tests `has_integer_samples` at run time.
    pub fn is_integer(&self) -> (integer: bool)
        ensures
            integer == self.has_integer_samples(),
    {
        match self {
            ColorKind::Rgb32F | ColorKind::Rgba32F | ColorKind::Other => false,
            _ => true,
        }
    }
}

/// The `(width, height)` of an image, in pixels.
pub uninterp spec fn image_dimensions(image: DynamicImage) -> (u32, u32);

/// How an image stores its pixels.
pub uninterp spec fn image_color(image: DynamicImage) -> ColorKind;

/// The pixels of an image as 8-bit RGBA, row by row, four bytes per pixel.
pub uninterp spec fn image_rgba(image: DynamicImage) -> Seq<u8>;

/// The 8-bit RGBA pixels of an image after it has been resampled with the
/// triangle filter to a size that differs from its own.
pub uninterp spec fn triangle_resampled(image: DynamicImage, width: u32, height: u32) -> Seq<u8>;

/// Whether an 8-bit RGBA copy of an image of size `dim` can be allocated.
pub open spec fn rgba_fits(dim: (u32, u32)) -> bool {
    dim.0 * dim.1 * 4 <= isize::MAX
}

/// Whether the pixels of `image` can be had as 8-bit RGBA.
pub open spec fn rgba_convertible(image: DynamicImage) -> bool {
    image_color(image).has_integer_samples() && rgba_fits(image_dimensions(image))
}

/// The longest side, in pixels, that an image is resampled from or to.
///
/// The filter places its samples in single-precision arithmetic. Up to this
/// length the rounding stays well below half a pixel, so that every output
/// pixel has an input pixel within its reach. For longer sides that is not
/// certain, and an output pixel without one makes the filter fail.
pub const MAX_RESAMPLED_SIDE: u32 = 1048576;

/// Whether both sides of `dim` can be resampled.
pub open spec fn sides_fit(dim: (u32, u32)) -> bool {
    dim.0 <= MAX_RESAMPLED_SIDE && dim.1 <= MAX_RESAMPLED_SIDE
}

/// Whether an image of size `from` can be resized to size `to`.
///
/// An image that already has the size asked for is copied as it is.
/// Otherwise it is resampled: no side may be too long for that, and the
/// work goes through a buffer of `from.0 * to.1` pixels and ends in one of
/// `to.0 * to.1` pixels, each pixel taking at most 16 bytes.
pub open spec fn resize_fits(from: (u32, u32), to: (u32, u32)) -> bool {
    from == to || {
        &&& sides_fit(from)
        &&& sides_fit(to)
        &&& from.0 * to.1 * 16 <= isize::MAX
        &&& to.0 * to.1 * 16 <= isize::MAX
    }
}

/// The 8-bit RGBA pixels of `image` brought to `width` by `height`: its own
/// pixels where it has that size already, else the resampled ones.
pub open spec fn resized_rgba(image: DynamicImage, width: u32, height: u32) -> Seq<u8> {
    if image_dimensions(image) == (width, height) {
        image_rgba(image)
    } else {
        triangle_resampled(image, width, height)
    }
}

/// Tests `rgba_fits` at run time.
pub fn rgba_fits_in_memory(dim: (u32, u32)) -> (fits: bool)
    ensures
        fits == rgba_fits(dim),
{
    pixels_fit(dim.0, dim.1, 4)
}

/// Tests `resize_fits` at run time.
pub fn resize_fits_in_memory(from: (u32, u32), to: (u32, u32)) -> (fits: bool)
    ensures
        fits == resize_fits(from, to),
{
    (from.0 == to.0 && from.1 == to.1) || (from.0 <= MAX_RESAMPLED_SIDE && from.1
        <= MAX_RESAMPLED_SIDE && to.0 <= MAX_RESAMPLED_SIDE && to.1 <= MAX_RESAMPLED_SIDE
        && pixels_fit(from.0, to.1, 16) && pixels_fit(to.0, to.1, 16))
}

/// Whether `width * height` pixels of `bytes` bytes each can be allocated.
fn pixels_fit(width: u32, height: u32, bytes: u8) -> (fits: bool)
    ensures
        fits == (width * height * bytes <= isize::MAX),
{
    assert(width * height <= 0xffff_ffff * 0xffff_ffff && width * height * bytes <= 0xffff_ffff
        * 0xffff_ffff * 0xff) by (nonlinear_arith)
        requires
            width <= 0xffff_ffff,
            height <= 0xffff_ffff,
            bytes <= 0xff,
    ;
    width as u128 * height as u128 * bytes as u128 <= isize::MAX as u128
}

/// `GenericImageView::dimensions` on a `DynamicImage`. Trusted: the pair it
/// returns is the image's size.
#[verifier::external_body]
pub(crate) fn dimensions(image: &DynamicImage) -> (dim: (u32, u32))
    ensures
        dim == image_dimensions(*image),
{
    image.dimensions()
}

/// `DynamicImage::color`, each `ColorType` turned into the `ColorKind` of
/// the same name. Trusted: the kind is the one the image is stored in.
#[verifier::external_body]
pub(crate) fn color(image: &DynamicImage) -> (kind: ColorKind)
    ensures
        kind == image_color(*image),
{
    match image.color() {
        ColorType::L8 => ColorKind::L8,
        ColorType::La8 => ColorKind::La8,
        ColorType::Rgb8 => ColorKind::Rgb8,
        ColorType::Rgba8 => ColorKind::Rgba8,
        ColorType::L16 => ColorKind::L16,
        ColorType::La16 => ColorKind::La16,
        ColorType::Rgb16 => ColorKind::Rgb16,
        ColorType::Rgba16 => ColorKind::Rgba16,
        ColorType::Rgb32F => ColorKind::Rgb32F,
        ColorType::Rgba32F => ColorKind::Rgba32F,
        _ => ColorKind::Other,
    }
}

/// `DynamicImage::resize_exact` with the triangle filter. Trusted: the new
/// image has exactly the size asked for and is stored as the old one was;
/// it holds a copy of the pixels when the size does not change, and
/// otherwise what the filter computes from the image and the new size alone.
#[verifier::external_body]
pub(crate) fn resize_exact(image: &DynamicImage, width: u32, height: u32) -> (resized: DynamicImage)
    requires
        resize_fits(image_dimensions(*image), (width, height)),
    ensures
        image_dimensions(resized) == (width, height),
        image_color(resized) == image_color(*image),
        image_rgba(resized) == if image_dimensions(*image) == (width, height) {
            image_rgba(*image)
        } else {
            triangle_resampled(*image, width, height)
        },
{
    image.resize_exact(width, height, FilterType::Triangle)
}

/// `DynamicImage::to_rgba8` followed by `ImageBuffer::into_vec`. Trusted: the
/// bytes are the image's pixels as 8-bit RGBA, four for each pixel.
#[verifier::external_body]
pub(crate) fn into_rgba8_vec(image: DynamicImage) -> (bytes: Vec<u8>)
    requires
        rgba_convertible(image),
    ensures
        bytes@ == image_rgba(image),
        bytes@.len() == rgba_len(image_dimensions(image)),
{
    image.to_rgba8().into_vec()
}

/// `!=` on two `ImageFormat` tags. Trusted: the tags differ exactly when
/// they are different values.
#[verifier::external_body]
pub(crate) fn formats_differ(format1: &ImageFormat, format2: &ImageFormat) -> (differ: bool)
    ensures
        differ == (*format1 != *format2),
{
    format1 != format2
}

} // verus!
