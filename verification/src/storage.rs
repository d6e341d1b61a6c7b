use crate::error::ImageDataError;
use image::DynamicImage;
use image::ImageError;
use image::ImageFormat;
use vstd::prelude::*;

verus! {

/// Judges the attempt to open the file at `path`.
///
/// `opened` is `None` where the file could not be opened; otherwise it holds
/// the format that was determined for it, if any. Only a file that was
/// opened and has a format goes on to be decoded.
pub fn opened_format(path: String, opened: Option<Option<ImageFormat>>) -> (result: Result<
    ImageFormat,
    ImageDataError,
>)
    ensures
        result == match opened {
            None => Err::<ImageFormat, ImageDataError>(
                ImageDataError::UnableToReadImageFromPath(path),
            ),
            Some(None) => Err(ImageDataError::UnableToFormatImage(path)),
            Some(Some(format)) => Ok(format),
        },
{
    match opened {
        None => Err(ImageDataError::UnableToReadImageFromPath(path)),
        Some(None) => Err(ImageDataError::UnableToFormatImage(path)),
        Some(Some(format)) => Ok(format),
    }
}

/// Judges the attempt to decode a file whose format is `format`: the image
/// with its format tag, or the decoder's error wrapped.
pub fn decoded_image(format: ImageFormat, decoded: Result<DynamicImage, ImageError>) -> (result:
    Result<(DynamicImage, ImageFormat), ImageDataError>)
    ensures
        result == match decoded {
            Ok(image) => Ok::<(DynamicImage, ImageFormat), ImageDataError>((image, format)),
            Err(error) => Err(ImageDataError::UnableToDecodeImage(error)),
        },
{
    match decoded {
        Ok(image) => Ok((image, format)),
        Err(error) => Err(ImageDataError::UnableToDecodeImage(error)),
    }
}

/// Judges the attempt to encode and write the output: the encoder's error,
/// if there was one, wrapped.
pub fn saved_image(written: Result<(), ImageError>) -> (result: Result<(), ImageDataError>)
    ensures
        result == match written {
            Ok(_) => Ok::<(), ImageDataError>(()),
            Err(error) => Err(ImageDataError::UnableToSaveImage(error)),
        },
{
    match written {
        Ok(_) => Ok(()),
        Err(error) => Err(ImageDataError::UnableToSaveImage(error)),
    }
}

} // verus!
