use image::ImageError;
use vstd::prelude::*;

verus! {

/// Everything that can go wrong while two images are combined.
#[derive(Debug)]
pub enum ImageDataError {
    /// A pixel buffer does not have the length that was declared for it.
    BufferTooSmall,
    /// The two input images carry different format tags.
    DifferentImageFormats,
    /// A pixel buffer is not a whole number of four-byte pixels.
    MalformedPixelBuffer,
    /// The file was opened and its format known, but decoding failed.
    UnableToDecodeImage(ImageError),
    /// No format could be determined for the file at this path.
    UnableToFormatImage(String),
    /// The file at this path could not be opened.
    UnableToReadImageFromPath(String),
    /// Encoding or writing the output failed.
    UnableToSaveImage(ImageError),
}

} // verus!
