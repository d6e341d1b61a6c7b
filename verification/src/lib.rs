//! Combining two images of one format into a third: the images are brought
//! to a common size, and their pixels are interleaved one by one.
//!
//! The pixel work is done by the `image` crate; its functions are called in
//! [`imaging`], each with the contract that this library relies on.

pub mod args;
pub mod combine;
pub mod dimensions;
pub mod error;
pub mod floating_image;
pub mod imaging;
pub mod pixels;
pub mod storage;
