//! The single exposed pipeline: parse the input path, derive the
//! content-addressed output names, decode, resize and persist the
//! primary derivative, read its byte size back from storage, encode
//! the secondary web-format derivative, and assemble the descriptor.
//! A failure of the secondary encoder never fails the call.
use vstd::prelude::*;
use vstd::string::StringExecFns;
use crate::descriptor::build_descriptor;
use crate::descriptor::ImageFile;
use crate::errors::ConvertError;
use crate::geometry::fits_within;
use crate::geometry::lemma_cap_exact;
use crate::geometry::spec_target_dims;
use crate::hashing::spec_str_hash;
use crate::hashing::str_to_hash;
use crate::images::ImageConvert;
use crate::naming::derivative_name;
use crate::naming::join_path;
use crate::naming::spec_join;
use crate::naming::spec_name_for;
use crate::naming::spec_with_ext;
use crate::naming::with_ext;
use crate::paths::parse_input_path;
use crate::paths::path_parses;
use crate::paths::spec_ext;
use crate::paths::spec_parent;
use crate::paths::spec_stem;
use crate::storage::file_byte_size;
use crate::text::push_char;

verus! {

/// The extension of the secondary output.
pub open spec fn webp_ext() -> Seq<char> {
    seq!['w', 'e', 'b', 'p']
}

/// Where the primary (original-format) derivative of `input` under
/// `label` is persisted.
pub open spec fn spec_primary_path(input: Seq<char>, label: Seq<char>) -> Seq<char> {
    spec_join(
        spec_parent(input),
        spec_with_ext(
            spec_name_for(label, spec_stem(input), spec_parent(input)),
            spec_ext(input),
        ),
    )
}

/// Where the secondary (web-format) derivative of `input` under
/// `label` is persisted.
pub open spec fn spec_webp_path(input: Seq<char>, label: Seq<char>) -> Seq<char> {
    spec_join(
        spec_parent(input),
        spec_with_ext(spec_name_for(label, spec_stem(input), spec_parent(input)), webp_ext()),
    )
}

/// The naming fields a returned descriptor must carry for `input`
/// and `label`: all of them functions of the input path string and
/// the label alone.
pub open spec fn descriptor_matches(f: ImageFile, input: Seq<char>, label: Seq<char>) -> bool {
    &&& f.ext@ == spec_ext(input)
    &&& f.hash@ == spec_name_for(label, spec_stem(input), spec_parent(input))
    &&& f.url@ == spec_primary_path(input, label)
    &&& f.name@ == spec_with_ext(spec_stem(input), spec_ext(input))
    &&& f.mine@ == Seq::<char>::empty()
}

/// The secondary web-format derivative, handed back as bytes with the
/// path they belong at, so a caller can persist them; the sibling
/// file is best-effort and may be absent.
#[derive(Debug)]
pub struct WebpArtifact {
    /// Where the web-format file belongs, beside the primary output.
    pub path: String,
    /// The encoded web-format bytes.
    pub bytes: Vec<u8>,
}

/// Converts the image at `input` into a derivative capped to `size`
/// on its longest side, persists it beside its source under the name
/// `{label}_{stem}_{hash-of-parent}`, and returns its descriptor
/// together with the encoded web-format sibling. The descriptor's
/// naming fields are pinned to the input path and label alone; the
/// dimensions are the resize engine's exact output for the decoded
/// image. A refusal of the web-format encoder is swallowed: the
/// artifact is absent then, and no error of this call is ever an
/// encode error.
pub fn resize_and_webp(input: &str, size: u32, label: &str) -> (r: Result<
    (ImageFile, Option<WebpArtifact>),
    ConvertError,
>)
    ensures
        r matches Ok(p) ==> path_parses(input@) && descriptor_matches(p.0, input@, label@),
        r matches Ok(p) ==> (size >= 1 ==> p.0.width <= size && p.0.height <= size),
        r matches Ok(p) ==> exists|w0: u32, h0: u32|
            (p.0.width as int, p.0.height as int) == spec_target_dims(w0, h0, size),
        r matches Ok(p) ==> (p.1 matches Some(a) ==> a.path@ == spec_webp_path(input@, label@)),
        r matches Err(e) ==> !(e is Encode),
        r matches Err(e) ==> (e is Input <==> !path_parses(input@)),
{
    let parts = match parse_input_path(input) {
        Ok(p) => p,
        Err(e) => {
            return Err(e);
        },
    };
    let hash = str_to_hash(parts.parent.as_str());
    let derivative = derivative_name(label, parts.stem.as_str(), hash.as_str());
    let primary_name = with_ext(derivative.as_str(), parts.ext.as_str());
    let output_origin = join_path(parts.parent.as_str(), primary_name.as_str());
    let webp_name = with_ext(derivative.as_str(), "webp");
    let output_webp = join_path(parts.parent.as_str(), webp_name.as_str());
    proof {
        reveal_strlit("webp");
        assert("webp"@ =~= webp_ext());
        assert(output_origin@ == spec_primary_path(input@, label@));
        assert(output_webp@ == spec_webp_path(input@, label@));
    }

    let source = match ImageConvert::new(input) {
        Ok(c) => c,
        Err(e) => {
            return Err(e);
        },
    };
    let ghost w0 = source.spec_width();
    let ghost h0 = source.spec_height();
    let resized = match source.resize(size, output_origin.as_str()) {
        Ok(c) => c,
        Err(e) => {
            return Err(e);
        },
    };
    let byte_size = match file_byte_size(output_origin.as_str()) {
        Ok(n) => n,
        Err(msg) => {
            return Err(ConvertError::Storage(msg));
        },
    };

    let artifact = match resized.encode_webp() {
        Ok(bytes) => Some(WebpArtifact { path: output_webp, bytes }),
        Err(_) => None,
    };

    let file = build_descriptor(
        &parts,
        derivative.as_str(),
        output_origin.as_str(),
        resized.width(),
        resized.height(),
        byte_size,
    );
    proof {
        if size >= 1 && !fits_within(w0, h0, size) {
            lemma_cap_exact(w0, h0, size);
        }
        assert((file.width as int, file.height as int) == spec_target_dims(w0, h0, size));
    }
    Ok((file, artifact))
}

/// The source key of an existing file: its stem qualified by the
/// digest of its parent directory.
pub open spec fn spec_source_key(input: Seq<char>) -> Seq<char> {
    spec_stem(input) + seq!['_'] + spec_str_hash(spec_parent(input))
}

impl ImageFile {
    /// Describes an existing image file in place, without converting
    /// it: its parsed naming pieces, its decoded dimensions and its
    /// byte size on storage.
    pub fn new(input: &str) -> (r: Result<ImageFile, ConvertError>)
        ensures
            r matches Ok(f) ==> path_parses(input@) && f.ext@ == spec_ext(input@) && f.url@
                == input@ && f.hash@ == spec_source_key(input@) && f.name@ == spec_with_ext(
                spec_stem(input@),
                spec_ext(input@),
            ) && f.mine@ == Seq::<char>::empty(),
            r matches Err(e) ==> !(e is Encode),
            r matches Err(e) ==> (e is Input <==> !path_parses(input@)),
    {
        let parts = match parse_input_path(input) {
            Ok(p) => p,
            Err(e) => {
                return Err(e);
            },
        };
        let hash = str_to_hash(parts.parent.as_str());
        let mut key = parts.stem.clone();
        push_char(&mut key, '_');
        key.append(hash.as_str());
        assert(key@ =~= spec_source_key(input@));

        let source = match ImageConvert::new(input) {
            Ok(c) => c,
            Err(e) => {
                return Err(e);
            },
        };
        let byte_size = match file_byte_size(input) {
            Ok(n) => n,
            Err(msg) => {
                return Err(ConvertError::Storage(msg));
            },
        };
        Ok(ImageFile {
            ext: parts.ext.clone(),
            url: input.to_owned(),
            hash: key,
            name: with_ext(parts.stem.as_str(), parts.ext.as_str()),
            width: source.width(),
            height: source.height(),
            size: byte_size,
            mine: String::new(),
        })
    }
}

/// Determinism law: two conversions of the same input path and the
/// same variant label carry the same derivative name, extension and
/// human-readable name, and overwrite the same primary output path —
/// and therefore, the secondary path being the same function of input
/// and label, the same pair of output files.
pub proof fn lemma_convert_deterministic(
    f1: ImageFile,
    f2: ImageFile,
    input: Seq<char>,
    label: Seq<char>,
)
    requires
        descriptor_matches(f1, input, label),
        descriptor_matches(f2, input, label),
    ensures
        f1.hash@ == f2.hash@,
        f1.url@ == f2.url@,
        f1.ext@ == f2.ext@,
        f1.name@ == f2.name@,
{
}

/// Hash-stability law: the content hash is a function of the parent
/// directory alone, so two inputs in the same directory — whatever
/// their file names — hash alike, and their derivatives for one label
/// and stem collide on purpose. That different directories hash
/// differently rests on the collision resistance of the digest and is
/// not a proved fact.
pub proof fn lemma_hash_stability(a: Seq<char>, b: Seq<char>)
    requires
        spec_parent(a) == spec_parent(b),
    ensures
        spec_str_hash(spec_parent(a)) == spec_str_hash(spec_parent(b)),
{
}

} // verus!
