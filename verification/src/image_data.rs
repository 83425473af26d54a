//! The canonical image buffer: width, height, and row-major RGBA8 bytes.
//!
//! Every decoded clipboard image is normalized into this one representation,
//! and every image write starts from it.  The invariant is that the byte
//! buffer holds exactly `width * height * 4` bytes: four bytes per pixel,
//! RGBA order, row-major, no padding.

use vstd::prelude::*;

use crate::errors::Error;

verus! {

/// The mathematical value of a canonical image buffer.
pub ghost struct ImageModel {
    pub width: nat,
    pub height: nat,
    pub bytes: Seq<u8>,
}

impl ImageModel {
    /// The canonical-buffer invariant: four bytes per pixel, no padding.
    pub open spec fn wf(self) -> bool {
        self.bytes.len() == self.width * self.height * 4
    }
}

/// A decoded image: row-major RGBA8 bytes with their dimensions.
///
/// Values of this type always satisfy the canonical-buffer invariant; the
/// only constructor checks it and rejects a mis-sized buffer.
pub struct ImageData {
    width: usize,
    height: usize,
    bytes: Vec<u8>,
}

impl View for ImageData {
    type V = ImageModel;

    closed spec fn view(&self) -> ImageModel {
        ImageModel { width: self.width as nat, height: self.height as nat, bytes: self.bytes@ }
    }
}

impl ImageData {
    /// Values of this type always satisfy the canonical-buffer invariant.
    #[verifier::type_invariant]
    pub open spec fn well_formed(self) -> bool {
        self@.wf()
    }

    /// Builds a canonical image from its parts.
    ///
    /// Succeeds exactly when the buffer holds `width * height * 4` bytes;
    /// a buffer of any other size cannot describe an RGBA8 image of these
    /// dimensions and is rejected as unconvertible.
    pub fn new(width: usize, height: usize, bytes: Vec<u8>) -> (r: Result<ImageData, Error>)
        ensures
            r is Ok <==> bytes@.len() == width * height * 4,
            r matches Ok(img) ==> img@ == (ImageModel {
                width: width as nat,
                height: height as nat,
                bytes: bytes@,
            }),
            r matches Err(e) ==> e is EncodeFailure,
    {
        let len = bytes.len();
        match width.checked_mul(height) {
            Some(pixels) => match pixels.checked_mul(4) {
                Some(total) => {
                    if len == total {
                        Ok(ImageData { width, height, bytes })
                    } else {
                        Err(Error::EncodeFailure)
                    }
                },
                None => Err(Error::EncodeFailure),
            },
            None => Err(Error::EncodeFailure),
        }
    }

    /// The image width in pixels.
    pub fn width(&self) -> (r: usize)
        ensures
            r == self@.width,
    {
        self.width
    }

    /// The image height in pixels.
    pub fn height(&self) -> (r: usize)
        ensures
            r == self@.height,
    {
        self.height
    }

    /// The row-major RGBA8 bytes.
    pub fn bytes(&self) -> (r: &Vec<u8>)
        ensures
            r@ == self@.bytes,
    {
        &self.bytes
    }

    /// Gives up the buffer, dropping the dimensions.
    pub fn into_bytes(self) -> (r: Vec<u8>)
        ensures
            r@ == self@.bytes,
    {
        self.bytes
    }

    /// An independent copy of the image.
    pub fn duplicate(&self) -> (r: ImageData)
        ensures
            r@ == self@,
    {
        proof {
            use_type_invariant(self);
        }
        let bytes = clone_bytes(&self.bytes);
        ImageData { width: self.width, height: self.height, bytes }
    }
}

/// Copies a byte vector.
pub(crate) fn clone_bytes(v: &Vec<u8>) -> (r: Vec<u8>)
    ensures
        r@ == v@,
{
    let mut r: Vec<u8> = Vec::new();
    let mut k: usize = 0;
    while k < v.len()
        invariant
            k <= v@.len(),
            r@ == v@.subrange(0, k as int),
        decreases v@.len() - k,
    {
        r.push(v[k]);
        proof {
            assert(r@ =~= v@.subrange(0, k as int + 1));
        }
        k += 1;
    }
    proof {
        assert(r@ =~= v@);
    }
    r
}

} // verus!
