//! The observable state of the pasteboard, and the backend operations on it.
//!
//! A pasteboard holds one logical item as a list of entries, each a format
//! with its payload.  The operations here are the backend's decision logic
//! in full: a write replaces every entry, and a read negotiates among the
//! advertised formats and decodes the chosen payload.  The platform shim
//! binds the same pipeline to the native pasteboard by querying the live
//! entries and performing the two steps no pure function can — fetching a
//! payload from the native store and reading a referenced file — before
//! handing the bytes back to the codec.
//!
//! A payload is either raw bytes, as a native data entry is, or an installed
//! image object: an image write installs a native image, which the platform
//! serializes only when a reader asks for its data.

use vstd::prelude::*;
use vstd::string::StrSliceExecFns;
use vstd::utf8::{decode_utf8, encode_utf8, valid_utf8};

use crate::codec::encode_plan;
use crate::errors::Error;
use crate::file_url::{file_reference_target, parse_file_reference};
use crate::formats::FormatTag;
use crate::image_data::{clone_bytes, ImageData, ImageModel};
use crate::negotiate::{negotiate, negotiation, ReadPlan};

verus! {

/// The payload of one pasteboard entry.
pub enum Payload {
    /// Raw bytes, as every native data entry carries.
    RawData(Vec<u8>),
    /// An installed image object, not yet serialized to bytes.
    InstalledImage(ImageData),
}

/// One advertised representation: a format with its payload.
pub struct Entry {
    pub format: FormatTag,
    pub payload: Payload,
}

/// The observable state of a pasteboard: its entries, in declaration order.
pub struct Pasteboard {
    entries: Vec<Entry>,
}

impl View for Pasteboard {
    type V = Seq<Entry>;

    closed spec fn view(&self) -> Seq<Entry> {
        self.entries@
    }
}

/// The advertised format tags, in entry order.
pub open spec fn formats_of(entries: Seq<Entry>) -> Seq<FormatTag> {
    entries.map(|i: int, e: Entry| e.format)
}

/// The first entry of the given format, if any.
pub open spec fn find_first(entries: Seq<Entry>, t: FormatTag) -> Option<Entry>
    decreases entries.len(),
{
    if entries.len() == 0 {
        None
    } else if entries[0].format == t {
        Some(entries[0])
    } else {
        find_first(entries.drop_first(), t)
    }
}

/// `find_first` finds the entry at the first index whose format is `t`.
proof fn lemma_find_first_at(entries: Seq<Entry>, t: FormatTag, k: int)
    requires
        0 <= k < entries.len(),
        entries[k].format == t,
        forall|i: int| 0 <= i < k ==> entries[i].format != t,
    ensures
        find_first(entries, t) == Some(entries[k]),
    decreases k,
{
    if k > 0 {
        lemma_find_first_at(entries.drop_first(), t, k - 1);
    }
}

/// `find_first` finds nothing when no entry has the format `t`.
proof fn lemma_find_first_none(entries: Seq<Entry>, t: FormatTag)
    requires
        forall|i: int| 0 <= i < entries.len() ==> entries[i].format != t,
    ensures
        find_first(entries, t) is None,
    decreases entries.len(),
{
    if entries.len() > 0 {
        lemma_find_first_none(entries.drop_first(), t);
    }
}

/// What a text read returns on a given pasteboard state: the first
/// text-typed entry's bytes decoded as UTF-8; `NotAvailable` when no
/// text-typed entry exists; `DecodeFailure` when one exists but its bytes
/// are not valid text.
pub open spec fn text_read(entries: Seq<Entry>) -> Result<Seq<char>, Error> {
    match find_first(entries, FormatTag::PlainTextType) {
        None => Err(Error::NotAvailable),
        Some(e) => match e.payload {
            Payload::RawData(b) => if valid_utf8(b@) {
                Ok(decode_utf8(b@))
            } else {
                Err(Error::DecodeFailure)
            },
            Payload::InstalledImage(_) => Err(Error::DecodeFailure),
        },
    }
}

/// The value of an image read's source selection on a given state.
pub ghost enum ImageSourceModel {
    /// An installed image object, already canonical.
    ReadyImage(ImageModel),
    /// The inline bitmap payload, still to be decoded.
    InlineBitmap(Seq<u8>),
    /// The path of a referenced file, still to be read and decoded.
    ReferencedFile(Seq<char>),
}

/// What an image read selects on a given pasteboard state: the negotiator
/// picks the representation, and the chosen entry's payload is decoded as
/// far as the state alone allows.  `NotAnImage` when no image-bearing
/// format is advertised, and also when the chosen entry's data cannot be
/// produced; `InvalidReference` when a file-reference payload is malformed.
pub open spec fn image_read(entries: Seq<Entry>) -> Result<ImageSourceModel, Error> {
    match negotiation(formats_of(entries)) {
        None => Err(Error::NotAnImage),
        Some(ReadPlan::UseFileReference) => match find_first(
            entries,
            FormatTag::FileUrlType,
        ) {
            None => Err(Error::NotAnImage),
            Some(e) => match e.payload {
                Payload::RawData(b) => match file_reference_target(b@) {
                    Some(path) => Ok(ImageSourceModel::ReferencedFile(path)),
                    None => Err(Error::InvalidReference),
                },
                Payload::InstalledImage(_) => Err(Error::NotAnImage),
            },
        },
        Some(ReadPlan::UseInlineBitmap) => match find_first(
            entries,
            FormatTag::InlineTiffType,
        ) {
            None => Err(Error::NotAnImage),
            Some(e) => match e.payload {
                Payload::RawData(b) => Ok(ImageSourceModel::InlineBitmap(b@)),
                Payload::InstalledImage(img) => Ok(ImageSourceModel::ReadyImage(img@)),
            },
        },
    }
}

/// The source an image read selected.
pub enum ImageSource {
    /// An installed image object, already canonical.
    ReadyImage(ImageData),
    /// The inline bitmap payload; decode it with `codec::decode_inline`.
    InlineBitmap(Vec<u8>),
    /// The path of a referenced file; read it and decode the bytes with
    /// `codec::decode_file_bytes`.
    ReferencedFile(String),
}

/// Whether the returned text result is the one the state prescribes.
pub open spec fn text_result_matches(r: Result<String, Error>, m: Result<Seq<char>, Error>) -> bool {
    match (r, m) {
        (Ok(s), Ok(t)) => s@ == t,
        (Err(a), Err(b)) => a == b,
        _ => false,
    }
}

/// Whether the returned image source is the one the state prescribes.
pub open spec fn source_matches(
    r: Result<ImageSource, Error>,
    m: Result<ImageSourceModel, Error>,
) -> bool {
    match (r, m) {
        (Ok(ImageSource::ReadyImage(img)), Ok(ImageSourceModel::ReadyImage(mi))) => img@ == mi,
        (Ok(ImageSource::InlineBitmap(b)), Ok(ImageSourceModel::InlineBitmap(mb))) => b@ == mb,
        (Ok(ImageSource::ReferencedFile(p)), Ok(ImageSourceModel::ReferencedFile(mp))) => p@ == mp,
        (Err(a), Err(b)) => a == b,
        _ => false,
    }
}

/// The state a text write leaves behind: one text-typed entry carrying the
/// UTF-8 bytes of `text`.
pub open spec fn sole_text_entry(entries: Seq<Entry>, text: Seq<char>) -> bool {
    &&& entries.len() == 1
    &&& entries[0].format == FormatTag::PlainTextType
    &&& entries[0].payload matches Payload::RawData(b) && b@ == encode_utf8(text)
}

/// The state an image write leaves behind: one inline-bitmap entry carrying
/// the installed image.
pub open spec fn sole_image_entry(entries: Seq<Entry>, img: ImageModel) -> bool {
    &&& entries.len() == 1
    &&& entries[0].format == FormatTag::InlineTiffType
    &&& entries[0].payload matches Payload::InstalledImage(i) && i@ == img
}

impl Pasteboard {
    /// A pasteboard that currently holds nothing.
    pub fn empty() -> (r: Pasteboard)
        ensures
            r@.len() == 0,
    {
        Pasteboard { entries: Vec::new() }
    }

    /// A pasteboard holding the given entries, as another writer may have
    /// left it.
    pub fn from_entries(entries: Vec<Entry>) -> (r: Pasteboard)
        ensures
            r@ == entries@,
    {
        Pasteboard { entries }
    }

    /// The advertised format tags, in entry order.
    pub fn format_tags(&self) -> (tags: Vec<FormatTag>)
        ensures
            tags@ == formats_of(self@),
    {
        let mut tags: Vec<FormatTag> = Vec::new();
        let mut k: usize = 0;
        while k < self.entries.len()
            invariant
                k <= self@.len(),
                tags@.len() == k,
                forall|i: int| 0 <= i < k ==> tags@[i] == self@[i].format,
            decreases self@.len() - k,
        {
            tags.push(self.entries[k].format);
            k += 1;
        }
        proof {
            assert(tags@ =~= formats_of(self@));
        }
        tags
    }

    /// The first entry of the given format, if any.
    fn find_entry(&self, t: FormatTag) -> (r: Option<&Entry>)
        ensures
            match find_first(self@, t) {
                Some(e) => r matches Some(found) && *found == e,
                None => r is None,
            },
    {
        let mut k: usize = 0;
        while k < self.entries.len()
            invariant
                k <= self@.len(),
                forall|i: int| 0 <= i < k ==> self@[i].format != t,
            decreases self@.len() - k,
        {
            if self.entries[k].format == t {
                proof {
                    lemma_find_first_at(self@, t, k as int);
                }
                return Some(&self.entries[k]);
            }
            k += 1;
        }
        proof {
            lemma_find_first_none(self@, t);
        }
        None
    }

    /// Reads the plain-text representation.
    ///
    /// Returns the first text-typed entry's bytes decoded as UTF-8; fails
    /// with `NotAvailable` when no text-typed entry exists, and with
    /// `DecodeFailure` when the stored bytes are not valid text.
    pub fn get_text(&self) -> (r: Result<String, Error>)
        ensures
            text_result_matches(r, text_read(self@)),
    {
        match self.find_entry(FormatTag::PlainTextType) {
            None => Err(Error::NotAvailable),
            Some(entry) => match &entry.payload {
                Payload::RawData(b) => match crate::file_url::utf8_string(clone_bytes(b)) {
                    Some(s) => Ok(s),
                    None => Err(Error::DecodeFailure),
                },
                Payload::InstalledImage(_) => Err(Error::DecodeFailure),
            },
        }
    }

    /// Installs `text` as the sole entry, replacing the entire contents.
    pub fn set_text(&mut self, text: &str)
        ensures
            sole_text_entry(final(self)@, text@),
    {
        let bytes = text.as_bytes_vec();
        let entry = Entry { format: FormatTag::PlainTextType, payload: Payload::RawData(bytes) };
        let mut entries: Vec<Entry> = Vec::new();
        entries.push(entry);
        self.entries = entries;
    }

    /// Selects the source of an image read.
    ///
    /// The negotiator picks the representation from the advertised formats;
    /// the chosen entry's payload is then decoded as far as the pasteboard
    /// state alone allows.  The caller finishes an `InlineBitmap` source
    /// with `codec::decode_inline`, and a `ReferencedFile` source by
    /// reading the file and calling `codec::decode_file_bytes`.
    pub fn read_image(&self) -> (r: Result<ImageSource, Error>)
        ensures
            source_matches(r, image_read(self@)),
    {
        let tags = self.format_tags();
        match negotiate(&tags) {
            Err(e) => Err(e),
            Ok(ReadPlan::UseFileReference) => match self.find_entry(FormatTag::FileUrlType) {
                None => Err(Error::NotAnImage),
                Some(entry) => match &entry.payload {
                    Payload::RawData(b) => match parse_file_reference(b) {
                        Ok(path) => Ok(ImageSource::ReferencedFile(path)),
                        Err(e) => Err(e),
                    },
                    Payload::InstalledImage(_) => Err(Error::NotAnImage),
                },
            },
            Ok(ReadPlan::UseInlineBitmap) => match self.find_entry(FormatTag::InlineTiffType) {
                None => Err(Error::NotAnImage),
                Some(entry) => match &entry.payload {
                    Payload::RawData(b) => Ok(ImageSource::InlineBitmap(clone_bytes(b))),
                    Payload::InstalledImage(img) => Ok(ImageSource::ReadyImage(img.duplicate())),
                },
            },
        }
    }

    /// Installs `img` as the sole entry, replacing the entire contents.
    ///
    /// The image is first checked against the codec's encoding plan; a
    /// zero-sized image fails with `EncodeFailure` and leaves the
    /// pasteboard untouched — the contents are only replaced after the
    /// encode succeeds.
    pub fn set_image(&mut self, img: ImageData) -> (r: Result<(), Error>)
        ensures
            img@.width >= 1 && img@.height >= 1 ==> r is Ok && sole_image_entry(
                final(self)@,
                img@,
            ),
            !(img@.width >= 1 && img@.height >= 1) ==> (r matches Err(e) && e is EncodeFailure)
                && final(self)@ == old(self)@,
    {
        match encode_plan(&img) {
            Err(e) => Err(e),
            Ok(_) => {
                let entry = Entry {
                    format: FormatTag::InlineTiffType,
                    payload: Payload::InstalledImage(img),
                };
                let mut entries: Vec<Entry> = Vec::new();
                entries.push(entry);
                self.entries = entries;
                Ok(())
            },
        }
    }
}

/// Round trip: reading back what a successful image write installed yields
/// the identical canonical image — the interchange container is lossless.
pub proof fn lemma_image_round_trip(entries: Seq<Entry>, img: ImageModel)
    requires
        1 <= img.width <= 64,
        1 <= img.height <= 64,
        sole_image_entry(entries, img),
    ensures
        image_read(entries) == Ok::<ImageSourceModel, Error>(ImageSourceModel::ReadyImage(img)),
{
    assert(formats_of(entries)[0] == FormatTag::InlineTiffType);
}

/// Round trip: reading the text back after a text write yields the written
/// string.
pub proof fn lemma_text_round_trip(entries: Seq<Entry>, text: Seq<char>)
    requires
        forall|i: int| 0 <= i < text.len() ==> text[i] != '\0',
        sole_text_entry(entries, text),
    ensures
        text_read(entries) == Ok::<Seq<char>, Error>(text),
{
    vstd::utf8::encode_utf8_valid_utf8(text);
    vstd::utf8::encode_utf8_decode_utf8(text);
}

/// Idempotence: two text reads without an intervening write return equal
/// results.
pub proof fn lemma_text_read_idempotent(
    entries: Seq<Entry>,
    r1: Result<String, Error>,
    r2: Result<String, Error>,
)
    requires
        text_result_matches(r1, text_read(entries)),
        text_result_matches(r2, text_read(entries)),
    ensures
        r1 is Ok <==> r2 is Ok,
        r1 matches Ok(s1) ==> (r2 matches Ok(s2) && s1@ == s2@),
        r1 matches Err(e1) ==> (r2 matches Err(e2) && e1 == e2),
{
}

/// Idempotence: two image reads without an intervening write select equal
/// sources.
pub proof fn lemma_image_read_idempotent(
    entries: Seq<Entry>,
    r1: Result<ImageSource, Error>,
    r2: Result<ImageSource, Error>,
)
    requires
        source_matches(r1, image_read(entries)),
        source_matches(r2, image_read(entries)),
    ensures
        r1 matches Ok(ImageSource::ReadyImage(a)) ==> (r2 matches Ok(ImageSource::ReadyImage(b))
            && a@ == b@),
        r1 matches Ok(ImageSource::InlineBitmap(a)) ==> (r2 matches Ok(
            ImageSource::InlineBitmap(b),
        ) && a@ == b@),
        r1 matches Ok(ImageSource::ReferencedFile(a)) ==> (r2 matches Ok(
            ImageSource::ReferencedFile(b),
        ) && a@ == b@),
        r1 matches Err(e1) ==> (r2 matches Err(e2) && e1 == e2),
{
}

/// Destructiveness: a text write replaces the entire contents, so an image
/// read right after it finds no image-bearing format.
pub proof fn lemma_text_write_destroys_images(entries: Seq<Entry>)
    requires
        entries.len() == 1,
        entries[0].format == FormatTag::PlainTextType,
    ensures
        image_read(entries) == Err::<ImageSourceModel, Error>(Error::NotAnImage),
{
    assert(formats_of(entries)[0] == FormatTag::PlainTextType);
}

/// A pasteboard with zero entries has no text: a text read right after
/// opening it reports that no text is available.
pub proof fn lemma_empty_has_no_text(entries: Seq<Entry>)
    requires
        entries.len() == 0,
    ensures
        text_read(entries) == Err::<Seq<char>, Error>(Error::NotAvailable),
{
}

/// A pasteboard with zero entries holds no image either.
pub proof fn lemma_empty_has_no_image(entries: Seq<Entry>)
    requires
        entries.len() == 0,
    ensures
        image_read(entries) == Err::<ImageSourceModel, Error>(Error::NotAnImage),
{
    assert(formats_of(entries).len() == 0);
}

} // verus!
