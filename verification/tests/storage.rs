use image::DynamicImage;
use image::ImageError;
use image::ImageFormat;
use image_combiner::error::ImageDataError;
use image_combiner::storage::decoded_image;
use image_combiner::storage::opened_format;
use image_combiner::storage::saved_image;

fn decode_error() -> ImageError {
    image::load_from_memory_with_format(&[1, 2, 3], ImageFormat::Png).unwrap_err()
}

#[test]
fn a_file_that_cannot_be_opened_is_unreadable() {
    let result = opened_format("missing.png".to_string(), None);
    assert!(matches!(result, Err(ImageDataError::UnableToReadImageFromPath(path)) if path == "missing.png"));
}

#[test]
fn an_empty_path_is_unreadable() {
    let result = opened_format(String::new(), None);
    assert!(matches!(result, Err(ImageDataError::UnableToReadImageFromPath(path)) if path.is_empty()));
}

#[test]
fn an_opened_file_without_a_format_cannot_be_formatted() {
    let result = opened_format("notes".to_string(), Some(None));
    assert!(matches!(result, Err(ImageDataError::UnableToFormatImage(path)) if path == "notes"));
}

#[test]
fn an_opened_file_with_a_format_goes_on() {
    let result = opened_format("a.jpg".to_string(), Some(Some(ImageFormat::Jpeg)));
    assert!(matches!(result, Ok(ImageFormat::Jpeg)));
}

#[test]
fn a_decoded_image_keeps_its_format() {
    let image = DynamicImage::new_rgba8(2, 3);
    let result = decoded_image(ImageFormat::Gif, Ok(image.clone()));
    let (decoded, format) = result.unwrap();
    assert_eq!(decoded, image);
    assert_eq!(format, ImageFormat::Gif);
}

#[test]
fn a_failed_decode_is_wrapped() {
    let expected = format!("{:?}", decode_error());
    let result = decoded_image(ImageFormat::Png, Err(decode_error()));
    match result {
        Err(ImageDataError::UnableToDecodeImage(error)) => {
            assert_eq!(format!("{:?}", error), expected)
        }
        _ => panic!("the decoder's error was not wrapped"),
    }
}

#[test]
fn a_written_image_is_saved() {
    assert!(saved_image(Ok(())).is_ok());
}

#[test]
fn a_failed_write_is_wrapped() {
    let expected = format!("{:?}", decode_error());
    match saved_image(Err(decode_error())) {
        Err(ImageDataError::UnableToSaveImage(error)) => {
            assert_eq!(format!("{:?}", error), expected)
        }
        _ => panic!("the encoder's error was not wrapped"),
    }
}

#[test]
fn errors_can_be_printed() {
    assert_eq!(format!("{:?}", ImageDataError::BufferTooSmall), "BufferTooSmall");
    assert_eq!(format!("{:?}", ImageDataError::DifferentImageFormats), "DifferentImageFormats");
    assert_eq!(
        format!("{:?}", ImageDataError::UnableToFormatImage("x".to_string())),
        "UnableToFormatImage(\"x\")"
    );
}
