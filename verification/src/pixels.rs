use crate::error::ImageDataError;
use vstd::prelude::*;
use vstd::slice::slice_subrange;
use vstd::slice::slice_to_vec;

verus! {

/// Bytes per pixel in a flattened 8-bit RGBA buffer.
pub const BYTES_PER_PIXEL: usize = 4;

/// The number of bytes that an image of size `dim`, given as
/// `(width, height)`, takes as 8-bit RGBA.
pub open spec fn rgba_len(dim: (u32, u32)) -> nat {
    (dim.0 * dim.1 * 4) as nat
}

/// Two flattened RGBA buffers woven into one, pixel by pixel: the pixels at
/// even positions come from `first`, those at odd positions from `second`.
/// Byte `k` belongs to pixel `k / 4`.
pub open spec fn interleave(first: Seq<u8>, second: Seq<u8>) -> Seq<u8> {
    Seq::new(
        first.len(),
        |k: int|
            if (k / 4) % 2 == 0 {
                first[k]
            } else {
                second[k]
            },
    )
}

/// `itertools::concat` on two byte vectors. Trusted: the first vector is
/// extended by the second, so the result is the one followed by the other.
#[verifier::external_body]
fn concat(head: Vec<u8>, tail: Vec<u8>) -> (joined: Vec<u8>)
    ensures
        joined@ == head@ + tail@,
{
    itertools::concat([head, tail])
}

/// The pixel of `buffer` that starts at byte `offset`.
fn pixel_at(buffer: &Vec<u8>, offset: usize) -> (pixel: Vec<u8>)
    requires
        offset + 4 <= buffer.len(),
    ensures
        pixel@ == buffer@.subrange(offset as int, offset + 4),
{
    slice_to_vec(slice_subrange(buffer.as_slice(), offset, offset + BYTES_PER_PIXEL))
}

/// Interleaves two flattened RGBA buffers of the same length.
///
/// Buffers of different lengths are refused with `BufferTooSmall`; buffers
/// that do not hold whole pixels with `MalformedPixelBuffer`.
pub fn alternate_pixels(vec1: Vec<u8>, vec2: Vec<u8>) -> (result: Result<Vec<u8>, ImageDataError>)
    ensures
        vec1@.len() != vec2@.len() ==> result == Err::<Vec<u8>, ImageDataError>(
            ImageDataError::BufferTooSmall,
        ),
        vec1@.len() == vec2@.len() && vec1@.len() % 4 != 0 ==> result == Err::<
            Vec<u8>,
            ImageDataError,
        >(ImageDataError::MalformedPixelBuffer),
        vec1@.len() == vec2@.len() && vec1@.len() % 4 == 0 ==> result is Ok && result.unwrap()@
            == interleave(vec1@, vec2@),
{
    if vec1.len() != vec2.len() {
        return Err(ImageDataError::BufferTooSmall);
    }
    if vec1.len() % BYTES_PER_PIXEL != 0 {
        return Err(ImageDataError::MalformedPixelBuffer);
    }
    let mut vec: Vec<u8> = Vec::new();
    let mut i: usize = 0;

    while i < vec1.len()
        invariant
            vec1@.len() == vec2@.len(),
            vec1@.len() % 4 == 0,
            i % 4 == 0,
            i <= vec1@.len(),
            vec@ == interleave(vec1@, vec2@).subrange(0, i as int),
        decreases vec1@.len() - i,
    {
        if i % 8 == 0 {
            vec = concat(vec, pixel_at(&vec1, i));
        } else {
            vec = concat(vec, pixel_at(&vec2, i));
        }
        i += 4;
    }

    Ok(vec)
}

/// The pixel at position `index` of a flattened RGBA buffer: its four bytes.
pub open spec fn pixel(buffer: Seq<u8>, index: int) -> Seq<u8> {
    buffer.subrange(4 * index, 4 * index + 4)
}

/// The interleaved buffer is as long as the first input.
pub proof fn lemma_interleave_len(first: Seq<u8>, second: Seq<u8>)
    ensures
        interleave(first, second).len() == first.len(),
{
}

/// Every pixel of the interleaved buffer is the pixel at the same position
/// of one input: of the first where the position is even, of the second
/// where it is odd.
pub proof fn lemma_interleave_pixel(first: Seq<u8>, second: Seq<u8>, index: int)
    requires
        first.len() == second.len(),
        first.len() % 4 == 0,
        0 <= index < first.len() / 4,
    ensures
        pixel(interleave(first, second), index) == if index % 2 == 0 {
            pixel(first, index)
        } else {
            pixel(second, index)
        },
{
    let woven = interleave(first, second);
    let source = if index % 2 == 0 {
        first
    } else {
        second
    };
    assert forall|k: int| 0 <= k < 4 implies pixel(woven, index)[k] == pixel(source, index)[k] by {
        assert((4 * index + k) / 4 == index);
    }
    assert(pixel(woven, index) =~= pixel(source, index));
}

/// Interleaving a buffer with itself gives the buffer back.
pub proof fn lemma_interleave_same(buffer: Seq<u8>)
    ensures
        interleave(buffer, buffer) == buffer,
{
    assert(interleave(buffer, buffer) =~= buffer);
}

/// For a byte offset at the start of a pixel, testing the offset modulo 8
/// is testing whether the pixel's position is even.
pub proof fn lemma_offset_rule(offset: int)
    requires
        0 <= offset,
        offset % 4 == 0,
    ensures
        (offset % 8 == 0) == ((offset / 4) % 2 == 0),
{
}

} // verus!
