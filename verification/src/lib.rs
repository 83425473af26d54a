//! Verified core of a clipboard (pasteboard) backend.
//!
//! The clipboard holds one logical item with possibly several co-declared
//! format representations.  This crate verifies the decision and conversion
//! logic of the backend: the canonical RGBA8 image buffer and its invariant,
//! the error taxonomy, the classification of native format identifiers, the
//! negotiation between an inline bitmap and a file-reference representation,
//! the decoding of `file://` reference payloads, and the conversion between
//! payload bytes and the canonical buffer.  The native pasteboard calls
//! themselves stay outside, in the thin platform shim that drives this core.

pub mod errors;
pub mod formats;
pub mod image_data;
pub mod file_url;
pub mod negotiate;
pub mod codec;
pub mod pasteboard;
