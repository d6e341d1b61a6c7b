use image_combiner::error::ImageDataError;
use image_combiner::floating_image::FloatingImage;

#[test]
fn a_new_image_has_its_size_and_name_and_no_pixels() {
    let image = FloatingImage::new(3, 2, "out.png".to_string());
    assert_eq!(image.width(), 3);
    assert_eq!(image.height(), 2);
    assert_eq!(image.name(), "out.png");
    assert!(image.data().is_empty());
    assert!(!image.is_complete());
}

#[test]
fn a_buffer_of_the_declared_length_is_taken() {
    let mut image = FloatingImage::new(3, 2, "out.png".to_string());
    let data: Vec<u8> = (0..24).collect();
    assert!(image.set_data(data.clone()).is_ok());
    assert_eq!(image.data(), &data);
    assert_eq!(image.width(), 3);
    assert_eq!(image.height(), 2);
    assert_eq!(image.name(), "out.png");
    assert!(image.is_complete());
}

#[test]
fn a_shorter_buffer_is_refused_and_nothing_changes() {
    let mut image = FloatingImage::new(3, 2, "out.png".to_string());
    let result = image.set_data(vec![9; 23]);
    assert!(matches!(result, Err(ImageDataError::BufferTooSmall)));
    assert!(image.data().is_empty());
    assert!(!image.is_complete());
}

#[test]
fn a_longer_buffer_is_refused_and_not_truncated() {
    let mut image = FloatingImage::new(3, 2, "out.png".to_string());
    let result = image.set_data(vec![9; 25]);
    assert!(matches!(result, Err(ImageDataError::BufferTooSmall)));
    assert!(image.data().is_empty());
}

#[test]
fn a_refused_buffer_leaves_earlier_pixels_in_place() {
    let mut image = FloatingImage::new(1, 1, "pixel".to_string());
    assert!(image.set_data(vec![1, 2, 3, 4]).is_ok());
    assert!(matches!(image.set_data(vec![5, 6, 7]), Err(ImageDataError::BufferTooSmall)));
    assert!(matches!(image.set_data(Vec::new()), Err(ImageDataError::BufferTooSmall)));
    assert_eq!(image.data(), &vec![1, 2, 3, 4]);
    assert!(image.is_complete());
}

#[test]
fn pixels_can_be_set_again() {
    let mut image = FloatingImage::new(1, 2, "pair".to_string());
    assert!(image.set_data(vec![1; 8]).is_ok());
    assert!(image.set_data(vec![2; 8]).is_ok());
    assert_eq!(image.data(), &vec![2; 8]);
}

#[test]
fn an_image_without_pixels_is_complete_from_the_start() {
    let mut image = FloatingImage::new(0, 5, String::new());
    assert!(image.is_complete());
    assert!(image.set_data(Vec::new()).is_ok());
    assert!(matches!(image.set_data(vec![0; 4]), Err(ImageDataError::BufferTooSmall)));
    assert!(image.is_complete());
    assert_eq!(image.name(), "");
}

#[test]
fn a_size_beyond_thirty_two_bits_of_bytes_is_declared_exactly() {
    // 65536 * 16384 * 4 = 2^32: a length that no longer fits 32 bits.
    let mut image = FloatingImage::new(65536, 16384, "large".to_string());
    assert!(!image.is_complete());
    assert!(matches!(image.set_data(Vec::new()), Err(ImageDataError::BufferTooSmall)));
    let mut largest = FloatingImage::new(u32::MAX, u32::MAX, "largest".to_string());
    assert!(!largest.is_complete());
    assert!(matches!(largest.set_data(vec![0; 4]), Err(ImageDataError::BufferTooSmall)));
}
