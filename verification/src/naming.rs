//! Output naming: the derivative name `{label}_{stem}_{hash}` that
//! keys both output files, and path joining under the parent
//! directory. Equal inputs always name the same outputs, which makes
//! repeated conversions converge on the same storage locations.
use vstd::prelude::*;
use vstd::string::StringExecFns;
use crate::hashing::spec_str_hash;
use crate::text::push_char;

verus! {

/// The derivative name composed from a variant label, a file stem and
/// a content hash.
pub open spec fn spec_derivative_name(label: Seq<char>, stem: Seq<char>, hash: Seq<char>) -> Seq<
    char,
> {
    label + seq!['_'] + stem + seq!['_'] + hash
}

/// The derivative name for a variant of a file in a directory: the
/// hash part is the directory's digest, so it depends on the parent
/// path alone.
pub open spec fn spec_name_for(label: Seq<char>, stem: Seq<char>, parent: Seq<char>) -> Seq<
    char,
> {
    spec_derivative_name(label, stem, spec_str_hash(parent))
}

/// A file name placed under a parent directory: the name itself for an
/// empty parent, and a single separator inserted otherwise unless the
/// parent already ends in one.
pub open spec fn spec_join(parent: Seq<char>, name: Seq<char>) -> Seq<char> {
    if parent.len() == 0 {
        name
    } else if parent.last() == '/' {
        parent + name
    } else {
        parent + seq!['/'] + name
    }
}

/// A stem or derivative name completed with a dot and an extension.
pub open spec fn spec_with_ext(base: Seq<char>, ext: Seq<char>) -> Seq<char> {
    base + seq!['.'] + ext
}

/// Builds `{label}_{stem}_{hash}` exactly.
pub fn derivative_name(label: &str, stem: &str, hash: &str) -> (r: String)
    ensures
        r@ == spec_derivative_name(label@, stem@, hash@),
{
    let mut out = label.to_owned();
    push_char(&mut out, '_');
    out.append(stem);
    push_char(&mut out, '_');
    out.append(hash);
    assert(out@ =~= spec_derivative_name(label@, stem@, hash@));
    out
}

/// Joins a file name onto a parent directory exactly as `spec_join`
/// states it.
pub fn join_path(parent: &str, name: &str) -> (r: String)
    ensures
        r@ == spec_join(parent@, name@),
{
    let n = parent.unicode_len();
    if n == 0 {
        name.to_owned()
    } else {
        let mut out = parent.to_owned();
        if parent.get_char(n - 1) != '/' {
            push_char(&mut out, '/');
        }
        out.append(name);
        assert(out@ =~= spec_join(parent@, name@));
        out
    }
}

/// Appends `.{ext}` to a base name exactly as `spec_with_ext` states
/// it.
pub fn with_ext(base: &str, ext: &str) -> (r: String)
    ensures
        r@ == spec_with_ext(base@, ext@),
{
    let mut out = base.to_owned();
    push_char(&mut out, '.');
    out.append(ext);
    assert(out@ =~= spec_with_ext(base@, ext@));
    out
}

} // verus!
