//! Compiled path globs, as built by the `globset` crate, together with the
//! pattern text and options each one was built from.

use vstd::prelude::*;
use globset::{Glob, GlobBuilder, GlobSet};
use crate::util::Platform;
use vstd::string::to_string_from_display_ensures;

verus! {

#[verifier::external_type_specification]
#[verifier::external_body]
pub struct ExGlob(globset::Glob);

#[verifier::external_type_specification]
#[verifier::external_body]
pub struct ExGlobSet(globset::GlobSet);

#[verifier::external_type_specification]
#[verifier::external_body]
pub struct ExGlobError(globset::Error);

/// One compiled glob, with the pattern text and the literal-separator option
/// it was built from. Only `build_glob` makes one, so the three agree.
#[derive(Debug)]
pub struct SourcedGlob {
    source: String,
    literal_separator: bool,
    glob: Glob,
}

impl SourcedGlob {
    /// The pattern text the glob was built from.
    pub closed spec fn source(&self) -> Seq<char> {
        self.source@
    }

    /// Whether `*` and `?` stop at path separators in this glob.
    pub closed spec fn literal_separator(&self) -> bool {
        self.literal_separator
    }
}

/// What a `GlobSet` holds: for each glob it was built from, in order, the
/// pattern text and the literal-separator option.
pub uninterp spec fn glob_set_sources(set: GlobSet) -> Seq<(Seq<char>, bool)>;

/// Whether `GlobBuilder::build` accepts `pattern` with the literal-separator
/// option given, on a platform with the separator `sep`.
pub uninterp spec fn glob_builds(pattern: Seq<char>, literal_separator: bool, sep: char) -> bool;

/// The message (`Display`) of the error that `GlobBuilder::build` gives for
/// `pattern` with the literal-separator option given, on a platform with the
/// separator `sep`.
pub uninterp spec fn glob_error_message(pattern: Seq<char>, literal_separator: bool, sep: char) -> Seq<char>;

/// Whether `GlobSet::new` accepts globs built from `sources`, on a platform
/// with the separator `sep`.
pub uninterp spec fn glob_set_builds(sources: Seq<(Seq<char>, bool)>, sep: char) -> bool;

/// The message (`Display`) of the error that `GlobSet::new` gives for globs
/// built from `sources`, on a platform with the separator `sep`.
pub uninterp spec fn glob_set_error_message(sources: Seq<(Seq<char>, bool)>, sep: char) -> Seq<char>;

/// Whether the glob built from `pattern` with the literal-separator option
/// given matches `path`, on a platform with the separator `sep`.
pub uninterp spec fn glob_matches(pattern: Seq<char>, literal_separator: bool, path: Seq<char>, sep: char) -> bool;

/// A set of globs matches a path when any of its globs does.
pub open spec fn glob_set_matches(sources: Seq<(Seq<char>, bool)>, path: Seq<char>, sep: char) -> bool {
    exists|i: int| 0 <= i < sources.len() && #[trigger] glob_matches(sources[i].0, sources[i].1, path, sep)
}

/// `globset::GlobBuilder::build` on `GlobBuilder::new(pattern)` with
/// `literal_separator` set as given: parses the pattern into a glob, kept
/// with the text and option it was built from. Success and the error's
/// message are functions of the pattern, the option and the platform (whose
/// default decides whether `\` escapes or separates); `platform` is the
/// platform the call runs on.
#[verifier::external_body]
#[allow(unused_variables)]
pub(crate) fn build_glob(pattern: &str, literal_separator: bool, platform: &Platform) -> (r: Result<SourcedGlob, globset::Error>)
    ensures
        r is Ok <==> glob_builds(pattern@, literal_separator, platform.separator()),
        r matches Ok(g) ==> g.source() == pattern@ && g.literal_separator() == literal_separator,
        r matches Err(e) ==> forall|m: String| #[trigger] to_string_from_display_ensures::<globset::Error>(&e, m)
            ==> m@ == glob_error_message(pattern@, literal_separator, platform.separator()),
{
    match GlobBuilder::new(pattern).literal_separator(literal_separator).build() {
        Ok(glob) => Ok(SourcedGlob { source: pattern.to_string(), literal_separator, glob }),
        Err(e) => Err(e),
    }
}

/// The pattern texts and options of `globs`, in order.
pub open spec fn sources_of(globs: Seq<SourcedGlob>) -> Seq<(Seq<char>, bool)> {
    globs.map_values(|g: SourcedGlob| (g.source(), g.literal_separator()))
}

/// `globset::GlobSet::new`: compiles the globs, in order, into one matcher
/// that holds them. Its source returns the empty set, which succeeds, when
/// there are no globs; a non-empty set can fail (regular-expression size
/// limits), as a function of the globs and the platform.
#[verifier::external_body]
#[allow(unused_variables)]
pub(crate) fn glob_set_new(globs: Vec<SourcedGlob>, platform: &Platform) -> (r: Result<GlobSet, globset::Error>)
    ensures
        globs@.len() == 0 ==> r is Ok,
        r is Ok <==> glob_set_builds(sources_of(globs@), platform.separator()),
        r matches Ok(set) ==> glob_set_sources(set) == sources_of(globs@),
        r matches Err(e) ==> forall|m: String| #[trigger] to_string_from_display_ensures::<globset::Error>(&e, m)
            ==> m@ == glob_set_error_message(sources_of(globs@), platform.separator()),
{
    GlobSet::new(globs.iter().map(|g| &g.glob))
}

/// `globset::GlobSet::is_match`: whether any glob of the set matches the
/// path, as its documentation says; the answer of each glob is a function of
/// its pattern, its options, the path and the platform.
#[verifier::external_body]
#[allow(unused_variables)]
pub(crate) fn glob_set_is_match(set: &GlobSet, path: &str, platform: &Platform) -> (r: bool)
    ensures
        r == (exists|i: int| 0 <= i < glob_set_sources(*set).len() && #[trigger] glob_matches(
            glob_set_sources(*set)[i].0, glob_set_sources(*set)[i].1, path@, platform.separator())),
{
    set.is_match(path)
}

} // verus!
