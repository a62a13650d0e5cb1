//! Deterministic image-derivative generation: aspect-ratio-preserving
//! downscales capped to a maximum dimension, content-addressed output
//! naming, and descriptor metadata for the persisted files.
mod descriptor;
mod errors;
mod geometry;
mod hashing;
mod images;
mod naming;
mod paths;
mod pipeline;
mod storage;
mod text;

pub use descriptor::build_descriptor;
pub use descriptor::ImageFile;
pub use errors::ConvertError;
pub use geometry::fits_within;
pub use geometry::lemma_aspect_ratio;
pub use geometry::lemma_cap_exact;
pub use geometry::lemma_no_upscale;
pub use geometry::spec_target_dims;
pub use geometry::target_dimensions;
pub use hashing::spec_str_hash;
pub use hashing::str_to_hash;
pub use images::ImageConvert;
pub use images::WEBP_QUALITY;
pub use naming::derivative_name;
pub use naming::join_path;
pub use naming::spec_derivative_name;
pub use naming::spec_join;
pub use naming::spec_name_for;
pub use naming::spec_with_ext;
pub use naming::with_ext;
pub use paths::parse_input_path;
pub use paths::path_parses;
pub use paths::spec_ext;
pub use paths::spec_parent;
pub use paths::spec_stem;
pub use paths::PathParts;
pub use pipeline::descriptor_matches;
pub use pipeline::lemma_convert_deterministic;
pub use pipeline::lemma_hash_stability;
pub use pipeline::resize_and_webp;
pub use pipeline::spec_primary_path;
pub use pipeline::spec_source_key;
pub use pipeline::spec_webp_path;
pub use pipeline::WebpArtifact;
pub use text::hex_of;
pub use text::lower_seq;
