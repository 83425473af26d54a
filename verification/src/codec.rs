//! The image codec adapter.
//!
//! The read path decodes payload bytes — the inline bitmap in its fixed
//! TIFF interchange container, or a referenced file in whatever container
//! its content reveals — and normalizes the decoder's pixel buffer to the
//! canonical RGBA8 layout.  The write path computes the fixed-parameter
//! descriptor from which the native bitmap object is built.

use vstd::prelude::*;

use crate::errors::Error;
use crate::image_data::{ImageData, ImageModel};

verus! {

/// What the TIFF decoder makes of a byte string: `None` when the bytes are
/// not a decodable TIFF container, else the dimensions and the RGBA8 pixels
/// of the decoded image.
pub uninterp spec fn tiff_decoding(bytes: Seq<u8>) -> Option<(nat, nat, Seq<u8>)>;

/// What the content-guessing decoder makes of a byte string: `None` when no
/// supported container format fits the content, else the dimensions and the
/// RGBA8 pixels of the decoded image.
pub uninterp spec fn guessed_decoding(bytes: Seq<u8>) -> Option<(nat, nat, Seq<u8>)>;

/// Relies on `image::load_from_memory_with_format` with the TIFF format and
/// on `DynamicImage::into_rgba8`: the result is a function of the input
/// bytes alone, and the RGBA8 buffer of a `width x height` image holds
/// exactly `width * height * 4` bytes.
#[verifier::external_body]
fn decode_tiff_rgba(bytes: &Vec<u8>) -> (r: Option<(usize, usize, Vec<u8>)>)
    ensures
        r is Some <==> tiff_decoding(bytes@) is Some,
        r matches Some(t) ==> tiff_decoding(bytes@) == Some((t.0 as nat, t.1 as nat, t.2@)),
        r matches Some(t) ==> t.2@.len() == t.0 * t.1 * 4,
{
    match image::load_from_memory_with_format(bytes.as_slice(), image::ImageFormat::Tiff) {
        Ok(decoded) => {
            let rgba = decoded.into_rgba8();
            let (w, h) = rgba.dimensions();
            Some((w as usize, h as usize, rgba.into_raw()))
        },
        Err(_) => None,
    }
}

/// Relies on `image::guess_format`, which recognizes a container by its
/// leading magic bytes, on `image::load_from_memory_with_format`, and on
/// `DynamicImage::into_rgba8`: the result is a function of the input bytes
/// alone, and the RGBA8 buffer of a `width x height` image holds exactly
/// `width * height * 4` bytes.
#[verifier::external_body]
fn decode_guessed_rgba(bytes: &Vec<u8>) -> (r: Option<(usize, usize, Vec<u8>)>)
    ensures
        r is Some <==> guessed_decoding(bytes@) is Some,
        r matches Some(t) ==> guessed_decoding(bytes@) == Some((t.0 as nat, t.1 as nat, t.2@)),
        r matches Some(t) ==> t.2@.len() == t.0 * t.1 * 4,
{
    let format = match image::guess_format(bytes.as_slice()) {
        Ok(format) => format,
        Err(_) => return None,
    };
    match image::load_from_memory_with_format(bytes.as_slice(), format) {
        Ok(decoded) => {
            let rgba = decoded.into_rgba8();
            let (w, h) = rgba.dimensions();
            Some((w as usize, h as usize, rgba.into_raw()))
        },
        Err(_) => None,
    }
}

/// Decodes an inline bitmap payload, which by the backend's fixed
/// convention is a TIFF container, into a canonical image.
///
/// Fails with `DecodeFailure` exactly when the bytes do not decode as TIFF.
pub fn decode_inline(bytes: &Vec<u8>) -> (r: Result<ImageData, Error>)
    ensures
        r is Ok <==> tiff_decoding(bytes@) is Some,
        tiff_decoding(bytes@) matches Some(t) ==> (r matches Ok(img) && img@ == (ImageModel {
            width: t.0,
            height: t.1,
            bytes: t.2,
        })),
        r matches Err(e) ==> e is DecodeFailure,
{
    match decode_tiff_rgba(bytes) {
        Some((width, height, pixels)) => match ImageData::new(width, height, pixels) {
            Ok(img) => Ok(img),
            Err(_) => {
                proof {
                    assert(false);
                }
                Err(Error::DecodeFailure)
            },
        },
        None => Err(Error::DecodeFailure),
    }
}

/// Decodes the bytes of a referenced image file, guessing the container
/// format from the content, into a canonical image.
///
/// Fails with `DecodeFailure` exactly when no supported container format
/// fits the bytes.
pub fn decode_file_bytes(bytes: &Vec<u8>) -> (r: Result<ImageData, Error>)
    ensures
        r is Ok <==> guessed_decoding(bytes@) is Some,
        guessed_decoding(bytes@) matches Some(t) ==> (r matches Ok(img) && img@ == (ImageModel {
            width: t.0,
            height: t.1,
            bytes: t.2,
        })),
        r matches Err(e) ==> e is DecodeFailure,
{
    match decode_guessed_rgba(bytes) {
        Some((width, height, pixels)) => match ImageData::new(width, height, pixels) {
            Ok(img) => Ok(img),
            Err(_) => {
                proof {
                    assert(false);
                }
                Err(Error::DecodeFailure)
            },
        },
        None => Err(Error::DecodeFailure),
    }
}

/// The fixed parameters from which the native bitmap object is built on an
/// image write: 8 bits per component, 32 bits per pixel, RGBA with the
/// alpha component last, and unpadded rows of `4 * width` bytes.
#[derive(Debug, Clone, Copy, PartialEq, Eq, Structural)]
pub struct BitmapDescriptor {
    pub width: usize,
    pub height: usize,
    pub bits_per_component: u32,
    pub bits_per_pixel: u32,
    pub bytes_per_row: usize,
}

/// Computes the native bitmap descriptor for a canonical image.
///
/// Fails with `EncodeFailure` exactly on a zero-sized image, which the
/// native imaging subsystem cannot represent; for any other canonical image
/// the descriptor carries the image's dimensions and the fixed layout
/// parameters.
pub fn encode_plan(img: &ImageData) -> (r: Result<BitmapDescriptor, Error>)
    ensures
        r is Ok <==> img@.width >= 1 && img@.height >= 1,
        r matches Ok(d) ==> d == (BitmapDescriptor {
            width: img@.width as usize,
            height: img@.height as usize,
            bits_per_component: 8u32,
            bits_per_pixel: 32u32,
            bytes_per_row: (img@.width * 4) as usize,
        }),
        r matches Err(e) ==> e is EncodeFailure,
{
    let width = img.width();
    let height = img.height();
    if width == 0 || height == 0 {
        return Err(Error::EncodeFailure);
    }
    // Binds the buffer length to a machine word, so the row length below is
    // known to fit one as well.
    let _buffer_len = img.bytes().len();
    proof {
        use_type_invariant(img);
        assert(width * 4 <= width * height * 4) by (nonlinear_arith)
            requires
                height >= 1,
                width >= 0,
        ;
    }
    match width.checked_mul(4) {
        Some(bytes_per_row) => Ok(BitmapDescriptor {
            width,
            height,
            bits_per_component: 8,
            bits_per_pixel: 32,
            bytes_per_row,
        }),
        None => {
            proof {
                assert(false);
            }
            Err(Error::EncodeFailure)
        },
    }
}

} // verus!
