use crate::error::ImageDataError;
use crate::pixels::rgba_len;
use vstd::prelude::*;

verus! {

/// An output image in the making: its size, its name, and its pixels as
/// flattened 8-bit RGBA once they have been set.
pub struct FloatingImage {
    width: u32,
    height: u32,
    data: Vec<u8>,
    name: String,
}

/// What a `FloatingImage` holds.
pub struct FloatingImageView {
    pub width: u32,
    pub height: u32,
    pub data: Seq<u8>,
    pub name: Seq<char>,
}

impl FloatingImageView {
    /// The number of bytes that the image's size declares.
    pub open spec fn capacity(self) -> nat {
        rgba_len((self.width, self.height))
    }

    /// The pixels are all there: the image can be written out.
    pub open spec fn is_complete(self) -> bool {
        self.data.len() == self.capacity()
    }

    /// The buffer is either still empty or exactly as long as declared.
    pub open spec fn wf(self) -> bool {
        self.data.len() == 0 || self.is_complete()
    }
}

impl View for FloatingImage {
    type V = FloatingImageView;

    closed spec fn view(&self) -> FloatingImageView {
        FloatingImageView {
            width: self.width,
            height: self.height,
            data: self.data@,
            name: self.name@,
        }
    }
}

/// Whether `len` bytes are exactly what an image of `width` by `height`
/// pixels declares.
fn fills(len: usize, width: u32, height: u32) -> (full: bool)
    ensures
        full == (len == rgba_len((width, height))),
{
    assert(width * height * 4 <= 0xffff_ffff * 0xffff_ffff * 4) by (nonlinear_arith)
        requires
            width <= 0xffff_ffff,
            height <= 0xffff_ffff,
    ;
    len as u128 == width as u128 * height as u128 * 4
}

impl FloatingImage {
    #[verifier::type_invariant]
    spec fn inv(self) -> bool {
        self@.wf()
    }

    /// An image of `width` by `height` pixels named `name`, with no pixels
    /// set yet.
    pub fn new(width: u32, height: u32, name: String) -> (image: Self)
        ensures
            image@ == (FloatingImageView { width, height, data: Seq::empty(), name: name@ }),
            image@.wf(),
    {
        Self { width, height, data: Vec::new(), name }
    }

    /// Sets the pixels. The buffer must have exactly the declared length;
    /// any other is refused and the image stays as it was.
    pub fn set_data(&mut self, data: Vec<u8>) -> (result: Result<(), ImageDataError>)
        ensures
            data@.len() == old(self)@.capacity() ==> result is Ok && final(self)@ == (
            FloatingImageView { data: data@, ..old(self)@ }),
            data@.len() != old(self)@.capacity() ==> result == Err::<(), ImageDataError>(
                ImageDataError::BufferTooSmall,
            ) && *final(self) == *old(self),
            final(self)@.wf(),
    {
        proof {
            use_type_invariant(&*self);
        }
        if !fills(data.len(), self.width, self.height) {
            return Err(ImageDataError::BufferTooSmall);
        }
        self.data = data;
        Ok(())
    }

    /// The declared width in pixels.
    pub fn width(&self) -> (width: u32)
        ensures
            width == self@.width,
    {
        self.width
    }

    /// The declared height in pixels.
    pub fn height(&self) -> (height: u32)
        ensures
            height == self@.height,
    {
        self.height
    }

    /// The pixels set so far.
    pub fn data(&self) -> (data: &Vec<u8>)
        ensures
            data@ == self@.data,
    {
        &self.data
    }

    /// The name under which the image is to be written.
    pub fn name(&self) -> (name: &String)
        ensures
            name@ == self@.name,
    {
        &self.name
    }

    /// Whether the pixels have been set, so that the image can be written.
    pub fn is_complete(&self) -> (complete: bool)
        ensures
            complete == self@.is_complete(),
            self@.wf(),
    {
        proof {
            use_type_invariant(self);
        }
        fills(self.data.len(), self.width, self.height)
    }
}

} // verus!
