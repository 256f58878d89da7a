//! Path patterns: both `/` and `\` are accepted as separators, and runs of
//! separators count as one.

use vstd::prelude::*;
use crate::text::{chars_of, string_push};

verus! {

/// One of the two path separators that the configuration accepts.
pub open spec fn is_path_separator(c: char) -> bool {
    c == '/' || c == '\\'
}

/// The separator that is not `sep`: the one to be rewritten into `sep`.
pub open spec fn inverted_separator(sep: char) -> char {
    if sep == '/' { '\\' } else { '/' }
}

/// `s` with every `from` replaced by `to`.
pub open spec fn replace_char(s: Seq<char>, from: char, to: char) -> Seq<char> {
    s.map_values(|c: char| if c == from { to } else { c })
}

/// `s` with every run of consecutive `sep` characters shortened to one.
pub open spec fn collapse_separators(s: Seq<char>, sep: char) -> Seq<char>
    decreases s.len(),
{
    if s.len() == 0 {
        Seq::empty()
    } else if s.len() >= 2 && s.last() == sep && s[s.len() - 2] == sep {
        collapse_separators(s.drop_last(), sep)
    } else {
        collapse_separators(s.drop_last(), sep).push(s.last())
    }
}

/// The normal form of a path pattern for the separator `sep`: the other
/// separator is rewritten into `sep`, then doubled separators are merged.
pub open spec fn normalized_path(s: Seq<char>, sep: char) -> Seq<char> {
    collapse_separators(replace_char(s, inverted_separator(sep), sep), sep)
}

/// The path conventions of the platform the program was built for, which
/// come down to its path separator: `\` on Windows, `/` elsewhere. A value is
/// only ever made from the build target's own separator (`Platform::current`).
#[derive(Debug, Clone, Copy)]
pub struct Platform {
    separator: char,
}

/// `std::path::MAIN_SEPARATOR`: the build target's path separator, `\` on
/// Windows and `/` elsewhere. Which of the two it is depends on the build
/// target, so only the alternative is stated.
#[verifier::external_body]
fn build_target_platform() -> (p: Platform)
    ensures
        is_path_separator(p.separator()),
{
    Platform { separator: std::path::MAIN_SEPARATOR }
}

impl Platform {
    /// The platform's path separator.
    pub closed spec fn separator(&self) -> char {
        self.separator
    }

    /// The platform the program was built for.
    pub fn current() -> (p: Platform)
        ensures
            is_path_separator(p.separator()),
    {
        build_target_platform()
    }

    /// The platform's path separator.
    pub fn path_separator(&self) -> (c: char)
        ensures
            c == self.separator(),
    {
        self.separator
    }
}

/// Normalises `glob` for the separator `sep`.
pub fn normalize_path_with(glob: &str, sep: char) -> (r: String)
    requires
        is_path_separator(sep),
    ensures
        r@ == normalized_path(glob@, sep),
{
    let inverted = if sep == '/' { '\\' } else { '/' };
    let chars = chars_of(glob);
    let mut out = String::new();
    let mut prev_is_sep = false;
    let ghost src = glob@;
    let mut i: usize = 0;
    while i < chars.len()
        invariant
            chars@ == src,
            src == glob@,
            inverted == inverted_separator(sep),
            i <= chars.len(),
            out@ == collapse_separators(replace_char(src.take(i as int), inverted, sep), sep),
            prev_is_sep == (i > 0 && replace_char(src.take(i as int), inverted, sep).last() == sep),
        decreases chars.len() - i,
    {
        let c = if chars[i] == inverted { sep } else { chars[i] };
        let ghost before = replace_char(src.take(i as int), inverted, sep);
        let ghost after = replace_char(src.take(i + 1), inverted, sep);
        assert(after =~= before.push(c));
        assert(after.drop_last() =~= before);
        if !(c == sep && prev_is_sep) {
            string_push(&mut out, c);
        }
        prev_is_sep = c == sep;
        i = i + 1;
    }
    assert(src.take(chars.len() as int) =~= src);
    out
}

/// Normalises a path pattern for the platform's separator: every `/` or `\`
/// becomes the platform separator, and runs of separators become one.
pub fn normalize_path(glob: &str) -> (r: String)
    ensures
        r@ == normalized_path(glob@, '/') || r@ == normalized_path(glob@, '\\'),
{
    let platform = Platform::current();
    normalize_path_with(glob, platform.path_separator())
}


/// No two adjacent characters of `s` are both `sep`.
pub open spec fn has_no_doubled_separator(s: Seq<char>, sep: char) -> bool {
    forall|i: int| 0 <= i < s.len() - 1 ==> !(#[trigger] s[i] == sep && s[i + 1] == sep)
}

proof fn lemma_collapse(s: Seq<char>, sep: char)
    ensures
        collapse_separators(s, sep).len() <= s.len(),
        collapse_separators(s, sep).len() == 0 <==> s.len() == 0,
        s.len() > 0 ==> collapse_separators(s, sep).last() == s.last(),
        forall|i: int| 0 <= i < collapse_separators(s, sep).len()
            ==> s.contains(#[trigger] collapse_separators(s, sep)[i]),
        has_no_doubled_separator(collapse_separators(s, sep), sep),
        has_no_doubled_separator(s, sep) ==> collapse_separators(s, sep) == s,
    decreases s.len(),
{
    if s.len() > 0 {
        let t = s.drop_last();
        lemma_collapse(t, sep);
        let ct = collapse_separators(t, sep);
        assert forall|i: int| 0 <= i < ct.len() implies s.contains(#[trigger] ct[i]) by {
            let j = choose|j: int| 0 <= j < t.len() && t[j] == ct[i];
            assert(s[j] == ct[i]);
        }
        if s.len() >= 2 && s.last() == sep && s[s.len() - 2] == sep {
        } else {
            let cs = ct.push(s.last());
            assert(s[s.len() - 1] == s.last());
            assert forall|i: int| 0 <= i < cs.len() - 1 implies !(#[trigger] cs[i] == sep && cs[i + 1] == sep) by {
                if i == cs.len() - 2 {
                    assert(ct.last() == t.last());
                    assert(t.last() == s[s.len() - 2]);
                }
            }
            if has_no_doubled_separator(s, sep) {
                assert forall|i: int| 0 <= i < t.len() - 1 implies !(#[trigger] t[i] == sep && t[i + 1] == sep) by {
                    assert(t[i] == s[i] && t[i + 1] == s[i + 1]);
                }
                assert(cs =~= s);
            }
        }
    }
}

/// A normalised pattern holds no instance of the other separator and no two
/// adjacent separators.
pub proof fn lemma_normalized_path_is_canonical(s: Seq<char>, sep: char)
    requires
        is_path_separator(sep),
    ensures
        !normalized_path(s, sep).contains(inverted_separator(sep)),
        has_no_doubled_separator(normalized_path(s, sep), sep),
{
    let r = replace_char(s, inverted_separator(sep), sep);
    lemma_collapse(r, sep);
    if normalized_path(s, sep).contains(inverted_separator(sep)) {
        let i = choose|i: int| 0 <= i < normalized_path(s, sep).len()
            && normalized_path(s, sep)[i] == inverted_separator(sep);
        assert(r.contains(normalized_path(s, sep)[i]));
        let j = choose|j: int| 0 <= j < r.len() && r[j] == inverted_separator(sep);
        assert(false);
    }
}

/// A pattern already in normal form is left as it is.
pub proof fn lemma_normalized_path_fixed_point(s: Seq<char>, sep: char)
    requires
        is_path_separator(sep),
        !s.contains(inverted_separator(sep)),
        has_no_doubled_separator(s, sep),
    ensures
        normalized_path(s, sep) == s,
{
    let r = replace_char(s, inverted_separator(sep), sep);
    assert forall|i: int| 0 <= i < s.len() implies r[i] == s[i] by {
        if s[i] == inverted_separator(sep) {
            assert(s.contains(s[i]));
        }
    }
    assert(r =~= s);
    lemma_collapse(s, sep);
}

/// Normalising twice gives what normalising once gives.
pub proof fn lemma_normalized_path_idempotent(s: Seq<char>, sep: char)
    requires
        is_path_separator(sep),
    ensures
        normalized_path(normalized_path(s, sep), sep) == normalized_path(s, sep),
{
    lemma_normalized_path_is_canonical(s, sep);
    lemma_normalized_path_fixed_point(normalized_path(s, sep), sep);
}


/// Both separators are accepted: writing any separator of a pattern as `/`
/// or as `\` gives the same normal form.
pub proof fn lemma_both_separators_accepted(s: Seq<char>, sep: char)
    requires
        is_path_separator(sep),
    ensures
        normalized_path(replace_char(s, '/', '\\'), sep) == normalized_path(s, sep),
        normalized_path(replace_char(s, '\\', '/'), sep) == normalized_path(s, sep),
{
    let inv = inverted_separator(sep);
    let a = replace_char(replace_char(s, '/', '\\'), inv, sep);
    let b = replace_char(replace_char(s, '\\', '/'), inv, sep);
    let r = replace_char(s, inv, sep);
    assert(a =~= r);
    assert(b =~= r);
}

} // verus!
