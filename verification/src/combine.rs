use crate::dimensions::get_smallest_dimensions;
use crate::dimensions::larger;
use crate::dimensions::smallest_dimensions;
use crate::error::ImageDataError;
use crate::floating_image::FloatingImage;
use crate::floating_image::FloatingImageView;
use crate::imaging::color;
use crate::imaging::dimensions;
use crate::imaging::formats_differ;
use crate::imaging::image_color;
use crate::imaging::image_dimensions;
use crate::imaging::image_rgba;
use crate::imaging::into_rgba8_vec;
use crate::imaging::resize_exact;
use crate::imaging::resize_fits;
use crate::imaging::resize_fits_in_memory;
use crate::imaging::resized_rgba;
use crate::imaging::rgba_convertible;
use crate::imaging::rgba_fits;
use crate::imaging::rgba_fits_in_memory;
use crate::pixels::alternate_pixels;
use crate::pixels::interleave;
use crate::pixels::lemma_interleave_same;
use crate::pixels::rgba_len;
use image::DynamicImage;
use image::ImageFormat;
use vstd::prelude::*;

verus! {

/// The size to which two images are brought before they are combined.
pub open spec fn common_size(image1: DynamicImage, image2: DynamicImage) -> (u32, u32) {
    smallest_dimensions(image_dimensions(image1), image_dimensions(image2))
}

/// Whether two images can both be brought to their common size.
pub open spec fn can_standardize(image1: DynamicImage, image2: DynamicImage) -> bool {
    let target = common_size(image1, image2);
    resize_fits(image_dimensions(image1), target) && resize_fits(image_dimensions(image2), target)
}

/// Whether two images can be combined: both can be resized, both have
/// integer samples, and the result can be held as 8-bit RGBA.
pub open spec fn can_combine(image1: DynamicImage, image2: DynamicImage) -> bool {
    &&& can_standardize(image1, image2)
    &&& image_color(image1).has_integer_samples()
    &&& image_color(image2).has_integer_samples()
    &&& rgba_fits(common_size(image1, image2))
}

/// The output image that combining `image1` and `image2` under the name
/// `name` gives: it has the common size of the two, and its pixels alternate
/// between the two images resized to that size.
pub open spec fn combined(
    image1: DynamicImage,
    image2: DynamicImage,
    name: Seq<char>,
) -> FloatingImageView {
    let target = common_size(image1, image2);
    FloatingImageView {
        width: target.0,
        height: target.1,
        data: interleave(
            resized_rgba(image1, target.0, target.1),
            resized_rgba(image2, target.0, target.1),
        ),
        name,
    }
}

/// Accepts two format tags only if they are the same.
pub fn check_formats(format1: &ImageFormat, format2: &ImageFormat) -> (result: Result<
    (),
    ImageDataError,
>)
    ensures
        *format1 == *format2 ==> result is Ok,
        *format1 != *format2 ==> result == Err::<(), ImageDataError>(
            ImageDataError::DifferentImageFormats,
        ),
{
    if formats_differ(format1, format2) {
        Err(ImageDataError::DifferentImageFormats)
    } else {
        Ok(())
    }
}

/// Resizes both images to their common size.
pub fn standardize_sizes(image1: DynamicImage, image2: DynamicImage) -> (images: (
    DynamicImage,
    DynamicImage,
))
    requires
        can_standardize(image1, image2),
    ensures
        ({
            let target = common_size(image1, image2);
            &&& image_dimensions(images.0) == target
            &&& image_dimensions(images.1) == target
            &&& image_color(images.0) == image_color(image1)
            &&& image_color(images.1) == image_color(image2)
            &&& image_rgba(images.0) == resized_rgba(image1, target.0, target.1)
            &&& image_rgba(images.1) == resized_rgba(image2, target.0, target.1)
        }),
{
    let (width, height) = get_smallest_dimensions(dimensions(&image1), dimensions(&image2));
    (resize_exact(&image1, width, height), resize_exact(&image2, width, height))
}

/// Interleaves the pixels of two images, taken as 8-bit RGBA.
///
/// Images of the same number of pixels always combine; any others are
/// refused with `BufferTooSmall`.
pub fn combine_images(image1: DynamicImage, image2: DynamicImage) -> (result: Result<
    Vec<u8>,
    ImageDataError,
>)
    requires
        rgba_convertible(image1),
        rgba_convertible(image2),
    ensures
        rgba_len(image_dimensions(image1)) != rgba_len(image_dimensions(image2)) ==> result
            == Err::<Vec<u8>, ImageDataError>(ImageDataError::BufferTooSmall),
        rgba_len(image_dimensions(image1)) == rgba_len(image_dimensions(image2)) ==> {
            &&& result is Ok
            &&& result.unwrap()@ == interleave(image_rgba(image1), image_rgba(image2))
            &&& result.unwrap()@.len() == rgba_len(image_dimensions(image1))
        },
{
    let vec1 = into_rgba8_vec(image1);
    let vec2 = into_rgba8_vec(image2);

    alternate_pixels(vec1, vec2)
}

/// Combines two loaded images into the output image named `output`.
///
/// Images with different format tags are refused before a pixel is touched.
/// Otherwise both are resized to their common size and interleaved, and the
/// output goes with the first image's tag. Images with the same tag must be
/// such that they can be combined; `try_combine` tests that first.
pub fn combine(
    image1: DynamicImage,
    format1: ImageFormat,
    image2: DynamicImage,
    format2: ImageFormat,
    output: String,
) -> (result: Result<(FloatingImage, ImageFormat), ImageDataError>)
    requires
        format1 == format2 ==> can_combine(image1, image2),
    ensures
        format1 != format2 ==> result == Err::<(FloatingImage, ImageFormat), ImageDataError>(
            ImageDataError::DifferentImageFormats,
        ),
        format1 == format2 ==> {
            &&& result is Ok
            &&& result.unwrap().0@ == combined(image1, image2, output@)
            &&& result.unwrap().0@.is_complete()
            &&& result.unwrap().1 == format1
        },
{
    match check_formats(&format1, &format2) {
        Err(error) => {
            return Err(error);
        },
        Ok(_) => {},
    }
    let (image1, image2) = standardize_sizes(image1, image2);
    let (width, height) = dimensions(&image1);
    let mut output_image = FloatingImage::new(width, height, output);
    let combined_data = match combine_images(image1, image2) {
        Err(error) => {
            return Err(error);
        },
        Ok(data) => data,
    };
    match output_image.set_data(combined_data) {
        Err(error) => {
            return Err(error);
        },
        Ok(_) => {},
    }
    Ok((output_image, format1))
}

/// Combines two loaded images where that can be done, and says so where it
/// cannot: `None` is returned exactly when the tags agree but the images
/// cannot be combined, because a side is too long to be resampled, the pixels
/// do not fit into memory, or the samples are not integers.
pub fn try_combine(
    image1: DynamicImage,
    format1: ImageFormat,
    image2: DynamicImage,
    format2: ImageFormat,
    output: String,
) -> (outcome: Option<Result<(FloatingImage, ImageFormat), ImageDataError>>)
    ensures
        outcome is None <==> format1 == format2 && !can_combine(image1, image2),
        format1 != format2 ==> outcome == Some(
            Err::<(FloatingImage, ImageFormat), ImageDataError>(
                ImageDataError::DifferentImageFormats,
            ),
        ),
        format1 == format2 && can_combine(image1, image2) ==> {
            &&& outcome is Some
            &&& outcome.unwrap() is Ok
            &&& outcome.unwrap().unwrap().0@ == combined(image1, image2, output@)
            &&& outcome.unwrap().unwrap().0@.is_complete()
            &&& outcome.unwrap().unwrap().1 == format1
        },
{
    if !formats_differ(&format1, &format2) {
        let dim1 = dimensions(&image1);
        let dim2 = dimensions(&image2);
        let target = get_smallest_dimensions(dim1, dim2);
        if !(resize_fits_in_memory(dim1, target) && resize_fits_in_memory(dim2, target) && color(
            &image1,
        ).is_integer() && color(&image2).is_integer() && rgba_fits_in_memory(target)) {
            return None;
        }
    }
    Some(combine(image1, format1, image2, format2, output))
}

/// Two images of one size are combined at that size, and from their own
/// pixels: nothing is resampled.
pub proof fn lemma_combined_equal_sizes(image1: DynamicImage, image2: DynamicImage, name: Seq<char>)
    requires
        image_dimensions(image1) == image_dimensions(image2),
    ensures
        combined(image1, image2, name).width == image_dimensions(image1).0,
        combined(image1, image2, name).height == image_dimensions(image1).1,
        combined(image1, image2, name).data == interleave(image_rgba(image1), image_rgba(image2)),
{
}

/// An image combined with itself gives its own pixels back.
pub proof fn lemma_combined_same(image: DynamicImage, name: Seq<char>)
    ensures
        combined(image, image, name).data == image_rgba(image),
{
    lemma_interleave_same(image_rgba(image));
}

/// The output is never wider than the wider input, nor higher than the
/// higher one.
pub proof fn lemma_combined_bounded(image1: DynamicImage, image2: DynamicImage, name: Seq<char>)
    ensures
        combined(image1, image2, name).width <= larger(
            image_dimensions(image1).0,
            image_dimensions(image2).0,
        ),
        combined(image1, image2, name).height <= larger(
            image_dimensions(image1).1,
            image_dimensions(image2).1,
        ),
{
}

} // verus!
