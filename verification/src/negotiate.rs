//! The format negotiator of the read path.
//!
//! Given the tags of the formats a pasteboard currently advertises, the
//! negotiator decides which representation an image read uses.  A file
//! reference is preferred over the inline bitmap, because the referenced
//! file holds the original image bytes while the inline bitmap may already
//! be a re-encoding made by the producing side; when neither image-bearing
//! format is advertised the clipboard does not hold an image.

use vstd::prelude::*;

use crate::errors::Error;
use crate::formats::FormatTag;

verus! {

/// The representation an image read decodes.
#[derive(Debug, Clone, Copy, PartialEq, Eq, Structural)]
pub enum ReadPlan {
    /// Read the file-reference payload and decode the referenced file.
    UseFileReference,
    /// Read the inline bitmap payload and decode it as the fixed
    /// interchange container.
    UseInlineBitmap,
}

/// Whether the tag `t` occurs among the advertised formats.
pub open spec fn has_tag(formats: Seq<FormatTag>, t: FormatTag) -> bool {
    exists|i: int| 0 <= i < formats.len() && formats[i] == t
}

/// The negotiator's decision: the file reference whenever it is advertised,
/// else the inline bitmap whenever it is advertised, else no image.
pub open spec fn negotiation(formats: Seq<FormatTag>) -> Option<ReadPlan> {
    if has_tag(formats, FormatTag::FileUrlType) {
        Some(ReadPlan::UseFileReference)
    } else if has_tag(formats, FormatTag::InlineTiffType) {
        Some(ReadPlan::UseInlineBitmap)
    } else {
        None
    }
}

/// Whether the tag `t` occurs in the list.
fn contains_tag(formats: &Vec<FormatTag>, t: FormatTag) -> (r: bool)
    ensures
        r == has_tag(formats@, t),
{
    let mut k: usize = 0;
    while k < formats.len()
        invariant
            k <= formats@.len(),
            forall|i: int| 0 <= i < k ==> formats@[i] != t,
        decreases formats@.len() - k,
    {
        if formats[k] == t {
            return true;
        }
        k += 1;
    }
    false
}

/// Picks the representation an image read uses, from the advertised format
/// tags.
///
/// Fails with `NotAnImage` exactly when neither the inline bitmap nor the
/// file-reference format is advertised.
pub fn negotiate(formats: &Vec<FormatTag>) -> (r: Result<ReadPlan, Error>)
    ensures
        negotiation(formats@) matches Some(p) ==> r == Ok::<ReadPlan, Error>(p),
        negotiation(formats@) is None ==> (r matches Err(e) && e is NotAnImage),
{
    if contains_tag(formats, FormatTag::FileUrlType) {
        Ok(ReadPlan::UseFileReference)
    } else if contains_tag(formats, FormatTag::InlineTiffType) {
        Ok(ReadPlan::UseInlineBitmap)
    } else {
        Err(Error::NotAnImage)
    }
}

/// Negotiator priority: whenever the file-reference format is advertised —
/// in particular when the inline bitmap is advertised beside it — the image
/// is read through the file reference.
pub proof fn lemma_file_reference_preferred(formats: Seq<FormatTag>)
    requires
        has_tag(formats, FormatTag::FileUrlType),
        has_tag(formats, FormatTag::InlineTiffType),
    ensures
        negotiation(formats) == Some(ReadPlan::UseFileReference),
{
}

} // verus!
