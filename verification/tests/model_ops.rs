use clipboard_core::errors::Error;
use clipboard_core::formats::FormatTag;
use clipboard_core::image_data::ImageData;
use clipboard_core::pasteboard::{Entry, ImageSource, Pasteboard, Payload};

#[test]
fn empty_pasteboard_has_no_text() {
    let pb = Pasteboard::empty();
    assert_eq!(pb.get_text(), Err(Error::NotAvailable));
}

#[test]
fn empty_pasteboard_has_no_image() {
    let pb = Pasteboard::empty();
    assert!(matches!(pb.read_image(), Err(Error::NotAnImage)));
}

#[test]
fn text_round_trip() {
    let mut pb = Pasteboard::empty();
    pb.set_text("hello, clipboard");
    assert_eq!(pb.get_text(), Ok(String::from("hello, clipboard")));
}

#[test]
fn text_round_trip_non_ascii() {
    let mut pb = Pasteboard::empty();
    pb.set_text("héllo — ¡clipboard!");
    assert_eq!(pb.get_text(), Ok(String::from("héllo — ¡clipboard!")));
}

#[test]
fn text_read_is_idempotent() {
    let mut pb = Pasteboard::empty();
    pb.set_text("twice");
    let first = pb.get_text();
    let second = pb.get_text();
    assert_eq!(first, second);
    assert_eq!(first, Ok(String::from("twice")));
}

#[test]
fn image_read_is_idempotent() {
    let bytes: Vec<u8> = (0..16).map(|i| i as u8).collect();
    let img = ImageData::new(2, 2, bytes).unwrap();
    let mut pb = Pasteboard::empty();
    pb.set_image(img).unwrap();
    let first = pb.read_image();
    let second = pb.read_image();
    match (first, second) {
        (Ok(ImageSource::ReadyImage(a)), Ok(ImageSource::ReadyImage(b))) => {
            assert_eq!(a.width(), b.width());
            assert_eq!(a.height(), b.height());
            assert_eq!(a.bytes(), b.bytes());
        }
        other => panic!("expected two ready images, got {:?}", other.0.is_ok()),
    }
}

#[test]
fn set_text_destroys_images() {
    let bytes: Vec<u8> = vec![0; 16];
    let img = ImageData::new(2, 2, bytes).unwrap();
    let mut pb = Pasteboard::empty();
    pb.set_image(img).unwrap();
    pb.set_text("a");
    assert!(matches!(pb.read_image(), Err(Error::NotAnImage)));
}

#[test]
fn set_image_destroys_text() {
    let mut pb = Pasteboard::empty();
    pb.set_text("soon gone");
    let img = ImageData::new(1, 1, vec![1, 2, 3, 4]).unwrap();
    pb.set_image(img).unwrap();
    assert_eq!(pb.get_text(), Err(Error::NotAvailable));
}

#[test]
fn image_round_trip_through_model() {
    let bytes: Vec<u8> = (0..64 * 64 * 4).map(|i| (i % 251) as u8).collect();
    let img = ImageData::new(64, 64, bytes.clone()).unwrap();
    let mut pb = Pasteboard::empty();
    pb.set_image(img).unwrap();
    match pb.read_image() {
        Ok(ImageSource::ReadyImage(out)) => {
            assert_eq!(out.width(), 64);
            assert_eq!(out.height(), 64);
            assert_eq!(out.bytes().as_slice(), bytes.as_slice());
        }
        _ => panic!("expected a ready image"),
    }
}

#[test]
fn zero_sized_image_write_fails_and_keeps_contents() {
    let mut pb = Pasteboard::empty();
    pb.set_text("kept");
    let img = ImageData::new(0, 4, Vec::new()).unwrap();
    assert!(matches!(pb.set_image(img), Err(Error::EncodeFailure)));
    assert_eq!(pb.get_text(), Ok(String::from("kept")));
}

#[test]
fn text_entry_with_invalid_utf8_is_a_decode_failure() {
    let entry = Entry {
        format: FormatTag::PlainTextType,
        payload: Payload::RawData(vec![0xff, 0xfe, 0x80]),
    };
    let pb = Pasteboard::from_entries(vec![entry]);
    assert_eq!(pb.get_text(), Err(Error::DecodeFailure));
}

#[test]
fn text_entry_backed_by_an_image_is_a_decode_failure() {
    let img = ImageData::new(1, 1, vec![9, 9, 9, 9]).unwrap();
    let entry = Entry { format: FormatTag::PlainTextType, payload: Payload::InstalledImage(img) };
    let pb = Pasteboard::from_entries(vec![entry]);
    assert_eq!(pb.get_text(), Err(Error::DecodeFailure));
}

#[test]
fn error_kinds_have_names() {
    assert_eq!(Error::NotAnImage.kind_name(), "not an image");
    assert_eq!(Error::InvalidReference.kind_name(), "invalid reference");
    let unknown = Error::Unknown { description: String::from("native call failed") };
    assert_eq!(unknown.kind_name(), "unknown");
}

#[test]
fn first_text_entry_wins() {
    let first = Entry {
        format: FormatTag::PlainTextType,
        payload: Payload::RawData(b"first".to_vec()),
    };
    let second = Entry {
        format: FormatTag::PlainTextType,
        payload: Payload::RawData(b"second".to_vec()),
    };
    let pb = Pasteboard::from_entries(vec![first, second]);
    assert_eq!(pb.get_text(), Ok(String::from("first")));
}
