//! Error taxonomy of the conversion pipeline. Input, decode and
//! primary-storage failures abort a conversion; a failure of the
//! secondary web-format encoder never does.
use vstd::prelude::*;

verus! {

/// Why a pipeline call failed.
#[derive(Debug)]
pub enum ConvertError {
    /// The input path has no parent directory, no file stem, or no
    /// extension.
    Input(String),
    /// The codec cannot parse the input bytes (missing, corrupt or
    /// unsupported file).
    Decode(String),
    /// The output codec cannot encode the in-memory buffer.
    Encode(String),
    /// A write or stat on the output path failed.
    Storage(String),
}

impl ConvertError {
    /// The failure's message, for display by a caller.
    pub fn message(&self) -> (r: String)
        ensures
            match self {
                ConvertError::Input(m) => r@ == m@,
                ConvertError::Decode(m) => r@ == m@,
                ConvertError::Encode(m) => r@ == m@,
                ConvertError::Storage(m) => r@ == m@,
            },
    {
        match self {
            ConvertError::Input(m) => m.clone(),
            ConvertError::Decode(m) => m.clone(),
            ConvertError::Encode(m) => m.clone(),
            ConvertError::Storage(m) => m.clone(),
        }
    }
}

} // verus!
