//! Native pasteboard format identifiers and their classification.
//!
//! The pasteboard advertises its current representations as a list of
//! identifier strings.  This module fixes the three identifiers the backend
//! understands and classifies an arbitrary identifier into a tag, so that the
//! negotiation logic can work on tags instead of on the native string list.

use vstd::prelude::*;

verus! {

/// The tag of a pasteboard format the backend understands.
#[derive(Debug, Clone, Copy, PartialEq, Eq, Structural)]
pub enum FormatTag {
    /// The plain-text representation.
    PlainTextType,
    /// The inline bitmap representation, in the fixed interchange container.
    InlineTiffType,
    /// A reference to an image file on disk, as a `file://` URL payload.
    FileUrlType,
    /// Any representation the backend does not understand.
    OtherType,
}

/// The native identifier of the plain-text format.
pub fn text_type_identifier() -> (r: &'static str)
    ensures
        r@ == "public.utf8-plain-text"@,
{
    "public.utf8-plain-text"
}

/// The native identifier of the inline bitmap format.
pub fn tiff_type_identifier() -> (r: &'static str)
    ensures
        r@ == "public.tiff"@,
{
    "public.tiff"
}

/// The native identifier of the file-reference format.
pub fn file_url_type_identifier() -> (r: &'static str)
    ensures
        r@ == "public.file-url"@,
{
    "public.file-url"
}

/// What an identifier string classifies as.
pub open spec fn classification(name: Seq<char>) -> FormatTag {
    if name == "public.utf8-plain-text"@ {
        FormatTag::PlainTextType
    } else if name == "public.tiff"@ {
        FormatTag::InlineTiffType
    } else if name == "public.file-url"@ {
        FormatTag::FileUrlType
    } else {
        FormatTag::OtherType
    }
}

/// Classifies a native format identifier into its tag.
pub fn classify(name: &String) -> (t: FormatTag)
    ensures
        t == classification(name@),
{
    let text_id: String = text_type_identifier().to_owned();
    let tiff_id: String = tiff_type_identifier().to_owned();
    let file_url_id: String = file_url_type_identifier().to_owned();
    if name.eq(&text_id) {
        FormatTag::PlainTextType
    } else if name.eq(&tiff_id) {
        FormatTag::InlineTiffType
    } else if name.eq(&file_url_id) {
        FormatTag::FileUrlType
    } else {
        FormatTag::OtherType
    }
}

/// Classifies a whole advertised identifier list, in order.
pub fn classify_all(names: &Vec<String>) -> (tags: Vec<FormatTag>)
    ensures
        tags@.len() == names@.len(),
        forall|i: int| 0 <= i < names@.len() ==> tags@[i] == classification(names@[i]@),
{
    let mut tags: Vec<FormatTag> = Vec::new();
    let mut k: usize = 0;
    while k < names.len()
        invariant
            k <= names@.len(),
            tags@.len() == k,
            forall|i: int| 0 <= i < k ==> tags@[i] == classification(names@[i]@),
        decreases names@.len() - k,
    {
        let t = classify(&names[k]);
        tags.push(t);
        k += 1;
    }
    tags
}

} // verus!
