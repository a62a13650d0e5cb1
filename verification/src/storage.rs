//! The one stat-equivalent capability the metadata builder needs:
//! the byte size of a persisted file, as storage reports it.
use vstd::prelude::*;

verus! {

/// Relies on `std::path::Path::metadata`: queries the filesystem for
/// the metadata of the file at `path` and reports its length in
/// bytes. What comes back depends on what is on storage, so nothing
/// is promised of the outcome.
#[verifier::external_body]
pub(crate) fn file_byte_size(path: &str) -> (r: Result<u64, String>) {
    match std::path::Path::new(path).metadata() {
        Ok(m) => Ok(m.len()),
        Err(e) => Err(e.to_string()),
    }
}

} // verus!
