//! The pipeline's path model: an input path splits at its last
//! separator into a parent directory and a file name, and the file
//! name splits at its last dot into a stem and an extension. A path
//! whose stem or extension cannot be determined is rejected.
use vstd::prelude::*;
use crate::errors::ConvertError;
use crate::text::lower_seq;
use crate::text::append_lowered;
use crate::text::push_char;

verus! {

/// The largest index at which `c` occurs in `s`, or `-1` when it does
/// not occur.
pub open spec fn last_index_of(s: Seq<char>, c: char) -> int
    decreases s.len(),
{
    if s.len() == 0 {
        -1
    } else if s.last() == c {
        s.len() - 1
    } else {
        last_index_of(s.drop_last(), c)
    }
}

pub proof fn lemma_last_index_of_props(s: Seq<char>, c: char)
    ensures
        -1 <= last_index_of(s, c) < s.len(),
        last_index_of(s, c) >= 0 ==> s[last_index_of(s, c)] == c,
        forall|j: int| last_index_of(s, c) < j < s.len() ==> s[j] != c,
    decreases s.len(),
{
    if s.len() > 0 && s.last() != c {
        lemma_last_index_of_props(s.drop_last(), c);
        assert(forall|j: int| 0 <= j < s.len() - 1 ==> s[j] == s.drop_last()[j]);
    }
}

/// `last_index_of` finds `k` exactly when `c` stands at `k` and
/// nowhere later.
pub proof fn lemma_last_index_of_at(s: Seq<char>, c: char, k: int)
    requires
        0 <= k < s.len(),
        s[k] == c,
        forall|j: int| k < j < s.len() ==> s[j] != c,
    ensures
        last_index_of(s, c) == k,
    decreases s.len(),
{
    if k < s.len() - 1 {
        assert(forall|j: int| 0 <= j < s.len() - 1 ==> s[j] == s.drop_last()[j]);
        lemma_last_index_of_at(s.drop_last(), c, k);
    }
}

/// The file-name portion of a path: everything after the last
/// separator, or the whole path when there is none.
pub open spec fn spec_file_name(s: Seq<char>) -> Seq<char> {
    s.subrange(last_index_of(s, '/') + 1, s.len() as int)
}

/// The parent-directory portion of a path: everything before the last
/// separator; the root when the separator leads the path; empty (the
/// current directory) when there is no separator.
pub open spec fn spec_parent(s: Seq<char>) -> Seq<char> {
    let i = last_index_of(s, '/');
    if i < 0 {
        Seq::empty()
    } else if i == 0 {
        seq!['/']
    } else {
        s.subrange(0, i)
    }
}

/// A path parses when its file name holds a dot with at least one
/// character on each side: a non-empty stem and a non-empty extension.
pub open spec fn path_parses(s: Seq<char>) -> bool {
    let f = spec_file_name(s);
    1 <= last_index_of(f, '.') < f.len() - 1
}

/// The stem: the file name up to its last dot.
pub open spec fn spec_stem(s: Seq<char>) -> Seq<char> {
    let f = spec_file_name(s);
    f.subrange(0, last_index_of(f, '.'))
}

/// The extension, lowercased: the file name after its last dot.
pub open spec fn spec_ext(s: Seq<char>) -> Seq<char> {
    let f = spec_file_name(s);
    lower_seq(f.subrange(last_index_of(f, '.') + 1, f.len() as int))
}

/// The parsed pieces of an input path.
pub struct PathParts {
    /// The parent directory; empty for a bare file name.
    pub parent: String,
    /// The file name without its extension.
    pub stem: String,
    /// The extension, lowercased.
    pub ext: String,
}

/// Finds the last occurrence of `c` in `s`.
fn rfind_char(s: &str, c: char) -> (r: Option<usize>)
    ensures
        match r {
            Some(i) => i < s@.len() && last_index_of(s@, c) == i,
            None => last_index_of(s@, c) == -1,
        },
{
    let mut i = s.unicode_len();
    while i > 0
        invariant
            i <= s@.len(),
            forall|j: int| i <= j < s@.len() ==> s@[j] != c,
        decreases i,
    {
        i = i - 1;
        if s.get_char(i) == c {
            proof {
                lemma_last_index_of_at(s@, c, i as int);
            }
            return Some(i);
        }
    }
    proof {
        lemma_last_index_of_props(s@, c);
    }
    None
}

/// Splits an input path into parent directory, stem and lowercased
/// extension. Returns an input error exactly when the path does not
/// parse: no file name, no dot in it, or an empty stem or extension.
pub fn parse_input_path(input: &str) -> (r: Result<PathParts, ConvertError>)
    ensures
        match r {
            Ok(p) => path_parses(input@) && p.parent@ == spec_parent(input@)
                && p.stem@ == spec_stem(input@) && p.ext@ == spec_ext(input@),
            Err(e) => !path_parses(input@) && e is Input,
        },
{
    let n = input.unicode_len();
    let sep = rfind_char(input, '/');
    let (file_name, parent): (&str, String) = match sep {
        None => (input, String::new()),
        Some(0) => {
            let mut root = String::new();
            push_char(&mut root, '/');
            (input.substring_char(1, n), root)
        },
        Some(i) => (input.substring_char(i + 1, n), input.substring_char(0, i).to_owned()),
    };
    assert(file_name@ =~= spec_file_name(input@));
    assert(parent@ =~= spec_parent(input@));
    let f_len = file_name.unicode_len();
    let dot = rfind_char(file_name, '.');
    match dot {
        Some(d) if 1 <= d && d + 1 < f_len => {
            let stem = file_name.substring_char(0, d).to_owned();
            let mut ext = String::new();
            append_lowered(&mut ext, file_name.substring_char(d + 1, f_len));
            assert(stem@ =~= spec_stem(input@));
            assert(ext@ =~= spec_ext(input@));
            Ok(PathParts { parent, stem, ext })
        },
        _ => Err(ConvertError::Input(
            "input path needs a parent directory, a file stem and an extension".to_owned(),
        )),
    }
}

} // verus!
