use std::io::Cursor;

use clipboard_core::codec::{decode_file_bytes, decode_inline, encode_plan, BitmapDescriptor};
use clipboard_core::errors::Error;
use clipboard_core::image_data::ImageData;
use clipboard_core::formats::FormatTag;
use clipboard_core::pasteboard::{Entry, ImageSource, Pasteboard, Payload};

fn encode_rgba(width: u32, height: u32, pixels: Vec<u8>, format: image::ImageFormat) -> Vec<u8> {
    let buffer = image::RgbaImage::from_raw(width, height, pixels).unwrap();
    let dynamic = image::DynamicImage::ImageRgba8(buffer);
    let mut out = Cursor::new(Vec::new());
    dynamic.write_to(&mut out, format).unwrap();
    out.into_inner()
}

#[test]
fn tiff_round_trip_is_lossless() {
    // Every pixel distinct, alpha included.
    let pixels: Vec<u8> = (0..2 * 2 * 4).map(|i| (40 + i * 7) as u8).collect();
    let tiff = encode_rgba(2, 2, pixels.clone(), image::ImageFormat::Tiff);
    let img = decode_inline(&tiff).unwrap();
    assert_eq!(img.width(), 2);
    assert_eq!(img.height(), 2);
    assert_eq!(img.bytes().as_slice(), pixels.as_slice());
}

#[test]
fn tiff_round_trip_for_random_like_sizes() {
    for (w, h) in [(1u32, 1u32), (3, 5), (64, 64)] {
        let pixels: Vec<u8> = (0..w * h * 4).map(|i| (i * 13 % 256) as u8).collect();
        let tiff = encode_rgba(w, h, pixels.clone(), image::ImageFormat::Tiff);
        let img = decode_inline(&tiff).unwrap();
        assert_eq!(img.width() as u32, w);
        assert_eq!(img.height() as u32, h);
        assert_eq!(img.bytes().as_slice(), pixels.as_slice());
    }
}

#[test]
fn garbage_is_not_a_tiff() {
    let garbage = vec![0u8, 1, 2, 3, 4, 5, 6, 7];
    assert!(matches!(decode_inline(&garbage), Err(Error::DecodeFailure)));
}

#[test]
fn referenced_png_content_is_recognized_and_decoded() {
    // A 2x2 PNG as a referenced file's content: the container is guessed
    // from the bytes, not from the path.
    let pixels: Vec<u8> = vec![
        255, 0, 0, 255, 0, 255, 0, 255, 0, 0, 255, 255, 255, 255, 255, 0,
    ];
    let png = encode_rgba(2, 2, pixels.clone(), image::ImageFormat::Png);
    let img = decode_file_bytes(&png).unwrap();
    assert_eq!(img.width(), 2);
    assert_eq!(img.height(), 2);
    assert_eq!(img.bytes().as_slice(), pixels.as_slice());
}

#[test]
fn referenced_tiff_content_is_recognized_too() {
    let pixels: Vec<u8> = vec![9, 8, 7, 6, 5, 4, 3, 2, 1, 0, 255, 254, 10, 20, 30, 40];
    let tiff = encode_rgba(2, 2, pixels.clone(), image::ImageFormat::Tiff);
    let img = decode_file_bytes(&tiff).unwrap();
    assert_eq!(img.bytes().as_slice(), pixels.as_slice());
}

#[test]
fn garbage_file_content_is_a_decode_failure() {
    let garbage = vec![42u8; 32];
    assert!(matches!(decode_file_bytes(&garbage), Err(Error::DecodeFailure)));
}

#[test]
fn canonical_buffer_invariant_is_checked() {
    assert!(matches!(ImageData::new(2, 2, vec![0u8; 15]), Err(Error::EncodeFailure)));
    assert!(matches!(ImageData::new(2, 2, vec![0u8; 17]), Err(Error::EncodeFailure)));
    let img = ImageData::new(2, 2, vec![0u8; 16]).unwrap();
    assert_eq!(img.width(), 2);
    assert_eq!(img.height(), 2);
    assert_eq!(img.bytes().len(), 16);
}

#[test]
fn encode_plan_has_the_fixed_layout() {
    let img = ImageData::new(3, 2, vec![0u8; 24]).unwrap();
    let descriptor = encode_plan(&img).unwrap();
    assert_eq!(
        descriptor,
        BitmapDescriptor {
            width: 3,
            height: 2,
            bits_per_component: 8,
            bits_per_pixel: 32,
            bytes_per_row: 12,
        }
    );
}

#[test]
fn encode_plan_rejects_zero_sized_images() {
    let img = ImageData::new(0, 8, Vec::new()).unwrap();
    assert!(matches!(encode_plan(&img), Err(Error::EncodeFailure)));
    let img = ImageData::new(8, 0, Vec::new()).unwrap();
    assert!(matches!(encode_plan(&img), Err(Error::EncodeFailure)));
}

#[test]
fn inline_bitmap_entry_decodes_to_the_original_pixels() {
    // A TIFF payload installed by another writer: the read selects the
    // inline bytes and the codec restores the pixels.
    let pixels: Vec<u8> = (0..4 * 4 * 4).map(|i| (i * 3 % 256) as u8).collect();
    let tiff = encode_rgba(4, 4, pixels.clone(), image::ImageFormat::Tiff);
    let entry = Entry { format: FormatTag::InlineTiffType, payload: Payload::RawData(tiff) };
    let pb = Pasteboard::from_entries(vec![entry]);
    match pb.read_image() {
        Ok(ImageSource::InlineBitmap(bytes)) => {
            let img = decode_inline(&bytes).unwrap();
            assert_eq!(img.width(), 4);
            assert_eq!(img.height(), 4);
            assert_eq!(img.bytes().as_slice(), pixels.as_slice());
        }
        _ => panic!("expected the inline bitmap"),
    }
}
