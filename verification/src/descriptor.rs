//! The returned descriptor of a derivative and its builder: pure
//! composition of the parsed path pieces, the derivative name, the
//! resized dimensions and the observed byte size.
use vstd::prelude::*;
use crate::naming::spec_with_ext;
use crate::naming::with_ext;
use crate::paths::PathParts;

verus! {

/// Descriptive metadata of one persisted derivative. The pixel and
/// file resources it describes live on storage; the descriptor owns
/// nothing.
#[derive(Debug, Default)]
pub struct ImageFile {
    /// The original format's file extension, lowercased.
    pub ext: String,
    /// The path of the persisted original-format derivative.
    pub url: String,
    /// The hash-qualified derivative name that keys both output
    /// files.
    pub hash: String,
    /// The human-readable file name, stem and extension; not unique.
    pub name: String,
    /// Pixel width of the resized image.
    pub width: u32,
    /// Pixel height of the resized image.
    pub height: u32,
    /// Byte size of the persisted original-format file on storage.
    pub size: u64,
    /// Reserved; always empty.
    pub mine: String,
}

/// Assembles the descriptor from the parsed input pieces, the
/// derivative name, the primary output path, the resized dimensions
/// and the byte size observed on storage. Pure composition: every
/// field is pinned.
pub fn build_descriptor(
    parts: &PathParts,
    derivative: &str,
    url: &str,
    width: u32,
    height: u32,
    size: u64,
) -> (r: ImageFile)
    ensures
        r.ext@ == parts.ext@,
        r.url@ == url@,
        r.hash@ == derivative@,
        r.name@ == spec_with_ext(parts.stem@, parts.ext@),
        r.width == width,
        r.height == height,
        r.size == size,
        r.mine@ == Seq::<char>::empty(),
{
    ImageFile {
        ext: parts.ext.clone(),
        url: url.to_owned(),
        hash: derivative.to_owned(),
        name: with_ext(parts.stem.as_str(), parts.ext.as_str()),
        width,
        height,
        size,
        mine: String::new(),
    }
}

} // verus!
