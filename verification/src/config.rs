//! The configuration: groups of path patterns, each with the priorities that
//! matching processes receive. The first group whose patterns match is used.

use vstd::prelude::*;
use crate::priority::{CpuPriority, IoPriority, PowerQos};
use crate::text::{is_blank, is_blank_spec};
use crate::util::{is_path_separator, lemma_normalized_path_idempotent, normalize_path_with, normalized_path, Platform};
use crate::glob::{
    SourcedGlob, build_glob, glob_builds, glob_error_message, glob_set_builds, glob_set_error_message,
    glob_set_is_match, glob_set_matches, glob_set_new, glob_set_sources, sources_of,
};
use vstd::string::to_string_from_display_ensures;
use vstd::string::StringExecFns;
use globset::GlobSet;

verus! {

/// The priorities of one group. A value that is not set is left unchanged.
#[derive(Debug, Clone, Copy, PartialEq, Eq, Structural)]
pub struct AppPriorityConfig {
    pub cpu: Option<CpuPriority>,
    pub io: Option<IoPriority>,
    pub power: Option<PowerQos>,
}


/// Why a configuration could not be used.
#[derive(Debug, PartialEq, Eq)]
pub enum ConfigError {
    /// The file holds nothing but white space.
    Empty,
    /// The file does not exist.
    NotFound,
    /// The file could not be read, for the reason given.
    Read(String),
    /// The file is not a valid configuration, for the reason given.
    Parse(String),
    /// A path pattern could not be compiled, for the reason given.
    InvalidPattern(String),
}

/// The first index at which `results` holds an error, or its length.
pub open spec fn first_failure_index(results: Seq<Result<SourcedGlob, globset::Error>>) -> nat
    decreases results.len(),
{
    if results.len() == 0 || results[0] is Err {
        0
    } else {
        1 + first_failure_index(results.drop_first())
    }
}

proof fn lemma_first_failure_index(results: Seq<Result<SourcedGlob, globset::Error>>)
    ensures
        first_failure_index(results) <= results.len(),
        forall|j: int| 0 <= j < first_failure_index(results) ==> results[j] is Ok,
        first_failure_index(results) < results.len() ==> results[first_failure_index(results) as int] is Err,
    decreases results.len(),
{
    if results.len() > 0 && results[0] is Ok {
        let rest = results.drop_first();
        lemma_first_failure_index(rest);
        assert forall|j: int| 0 <= j < first_failure_index(results) implies results[j] is Ok by {
            if j > 0 {
                assert(results[j] == rest[j - 1]);
            }
        }
    }
}

/// Gathers the globs built from a list of patterns: all of them, in order,
/// when every pattern was built; otherwise `InvalidPattern` with the message
/// of the first pattern that failed.
pub fn collect_globs(results: Vec<Result<SourcedGlob, globset::Error>>) -> (r: Result<Vec<SourcedGlob>, ConfigError>)
    ensures
        r is Ok <==> forall|i: int| 0 <= i < results@.len() ==> (#[trigger] results@[i]) is Ok,
        r matches Ok(globs) ==> globs@ == results@.map_values(|x: Result<SourcedGlob, globset::Error>| x->Ok_0),
        r matches Err(e) ==> {
            let k = first_failure_index(results@) as int;
            &&& k < results@.len()
            &&& e matches ConfigError::InvalidPattern(m)
                && to_string_from_display_ensures::<globset::Error>(&results@[k]->Err_0, m)
        },
{
    let ghost all = results@;
    proof { lemma_first_failure_index(all); }
    let mut globs: Vec<SourcedGlob> = Vec::new();
    for res in it: results.into_iter()
        invariant
            it.seq() == all,
            globs@.len() == it.index(),
            forall|j: int| 0 <= j < it.index() ==> (#[trigger] all[j]) is Ok && globs@[j] == all[j]->Ok_0,
            first_failure_index(all) <= all.len(),
            forall|j: int| 0 <= j < first_failure_index(all) ==> all[j] is Ok,
            first_failure_index(all) < all.len() ==> all[first_failure_index(all) as int] is Err,
    {
        match res {
            Ok(g) => globs.push(g),
            Err(e) => {
                let ghost k = it.index() as int;
                assert(all[k] is Err);
                proof {
                    let f = first_failure_index(all) as int;
                    if f < k {
                        assert(all[f] is Ok);
                    }
                    if k < f {
                        assert(all[k] is Ok);
                    }
                }
                let m = e.to_string();
                return Err(ConfigError::InvalidPattern(m));
            },
        }
    }
    assert(globs@ =~= all.map_values(|x: Result<SourcedGlob, globset::Error>| x->Ok_0));
    Ok(globs)
}

proof fn lemma_first_indices_agree(results: Seq<Result<SourcedGlob, globset::Error>>, failed: Seq<bool>)
    requires
        results.len() == failed.len(),
        forall|j: int| 0 <= j < results.len() ==> (#[trigger] results[j] is Err) == failed[j],
    ensures
        first_failure_index(results) == first_true_index(failed),
    decreases results.len(),
{
    if results.len() > 0 && results[0] is Ok {
        let (r, f) = (results.drop_first(), failed.drop_first());
        assert forall|j: int| 0 <= j < r.len() implies (#[trigger] r[j] is Err) == f[j] by {
            assert(r[j] == results[j + 1] && f[j] == failed[j + 1]);
        }
        lemma_first_indices_agree(r, f);
    }
}

/// The path patterns of a group, compiled into one matcher for the
/// platform's path conventions.
#[derive(Debug)]
pub struct PathGlobs {
    set: GlobSet,
    platform: Platform,
}

/// What `compile` builds from `patterns` with the separator `sep`: each
/// pattern normalised, with `*` and `?` stopping at separators.
pub open spec fn compiled_sources(patterns: Seq<String>, sep: char) -> Seq<(Seq<char>, bool)> {
    patterns.map_values(|p: String| (normalized_path(p@, sep), true))
}

/// For each pattern, whether it fails to compile once normalised for `sep`.
pub open spec fn pattern_failures(patterns: Seq<String>, sep: char) -> Seq<bool> {
    patterns.map_values(|p: String| !glob_builds(normalized_path(p@, sep), true, sep))
}

/// What compiling `patterns` on a platform with the separator `sep` gives:
/// the message of the first pattern that does not compile; otherwise the
/// message of the set that cannot be built; otherwise a matcher holding
/// every normalised pattern, in order.
pub open spec fn compile_outcome(patterns: Seq<String>, sep: char, r: Result<PathGlobs, ConfigError>) -> bool {
    let k = first_true_index(pattern_failures(patterns, sep)) as int;
    let sources = compiled_sources(patterns, sep);
    if k < patterns.len() {
        r matches Err(ConfigError::InvalidPattern(m))
            && m@ == glob_error_message(normalized_path(patterns[k]@, sep), true, sep)
    } else if !glob_set_builds(sources, sep) {
        r matches Err(ConfigError::InvalidPattern(m)) && m@ == glob_set_error_message(sources, sep)
    } else {
        r matches Ok(g) && g.sources() == sources && g.separator() == sep
    }
}

/// Patterns are compiled in their normal form: a list of patterns and the
/// same list already normalised (doubled separators merged, the other
/// separator rewritten) compile alike, to matchers holding the same globs,
/// or to errors with the same message.
pub proof fn lemma_compile_uses_normal_form(
    patterns: Seq<String>,
    normal: Seq<String>,
    sep: char,
    r1: Result<PathGlobs, ConfigError>,
    r2: Result<PathGlobs, ConfigError>,
)
    requires
        is_path_separator(sep),
        patterns.len() == normal.len(),
        forall|i: int| 0 <= i < patterns.len() ==> (#[trigger] normal[i])@ == normalized_path(patterns[i]@, sep),
        compile_outcome(patterns, sep, r1),
        compile_outcome(normal, sep, r2),
    ensures
        r1 is Ok <==> r2 is Ok,
        r1 matches Ok(g1) ==> r2 matches Ok(g2) && g1.sources() == g2.sources(),
        r1 is Err ==> r1->Err_0 is InvalidPattern && r2->Err_0 is InvalidPattern
            && r1->Err_0->InvalidPattern_0@ == r2->Err_0->InvalidPattern_0@,
{
    assert forall|i: int| 0 <= i < patterns.len() implies
        normalized_path((#[trigger] normal[i])@, sep) == normalized_path(patterns[i]@, sep) by {
        lemma_normalized_path_idempotent(patterns[i]@, sep);
    }
    assert(pattern_failures(patterns, sep) =~= pattern_failures(normal, sep));
    assert(compiled_sources(patterns, sep) =~= compiled_sources(normal, sep));
    let k = first_true_index(pattern_failures(patterns, sep)) as int;
    lemma_first_true_index(pattern_failures(patterns, sep));
    if k < patterns.len() {
        assert(normalized_path(normal[k]@, sep) == normalized_path(patterns[k]@, sep));
    }
}

impl PathGlobs {
    /// What the matcher holds: each glob's pattern text and whether `*` and
    /// `?` stop at path separators in it.
    pub closed spec fn sources(&self) -> Seq<(Seq<char>, bool)> {
        glob_set_sources(self.set)
    }

    /// The path separator of the platform the matcher was built on.
    pub closed spec fn separator(&self) -> char {
        self.platform.separator()
    }

    /// Normalises each pattern for the platform's separator (see
    /// `normalize_path`), compiles it with `*` and `?` stopping at path
    /// separators, and builds one matcher holding all of them in order.
    /// The first pattern that does not compile, or a set that cannot be
    /// built, gives `InvalidPattern` with its message. An empty list always
    /// compiles, to a matcher that matches nothing.
    pub fn compile(patterns: &Vec<String>) -> (r: Result<PathGlobs, ConfigError>)
        ensures
            patterns@.len() == 0 ==> r is Ok,
            exists|sep: char| is_path_separator(sep) && compile_outcome(patterns@, sep, r),
            r matches Ok(g) ==> {
                &&& is_path_separator(g.separator())
                &&& g.sources().len() == patterns@.len()
                &&& forall|i: int| 0 <= i < patterns@.len() ==>
                    #[trigger] g.sources()[i] == (normalized_path(patterns@[i]@, g.separator()), true)
                &&& forall|i: int| 0 <= i < patterns@.len() ==>
                    glob_builds(#[trigger] normalized_path(patterns@[i]@, g.separator()), true, g.separator())
            },
            r is Err ==> exists|sep: char| is_path_separator(sep) && (
                (exists|i: int| 0 <= i < patterns@.len()
                    && !glob_builds(#[trigger] normalized_path(patterns@[i]@, sep), true, sep))
                || !glob_set_builds(patterns@.map_values(|p: String| (normalized_path(p@, sep), true)), sep)),
    {
        let platform = Platform::current();
        let sep = platform.path_separator();
        let ghost failures = pattern_failures(patterns@, sep);
        let mut results: Vec<Result<SourcedGlob, globset::Error>> = Vec::new();
        let mut i: usize = 0;
        while i < patterns.len()
            invariant
                is_path_separator(sep),
                sep == platform.separator(),
                failures == pattern_failures(patterns@, sep),
                i <= patterns@.len(),
                results@.len() == i,
                forall|j: int| 0 <= j < i ==> (#[trigger] results@[j] is Err) == failures[j],
                forall|j: int| 0 <= j < i ==> (#[trigger] results@[j] matches Ok(g)
                    ==> g.source() == normalized_path(patterns@[j]@, sep) && g.literal_separator()),
                forall|j: int| 0 <= j < i ==> (#[trigger] results@[j] matches Err(e)
                    ==> forall|m: String| #[trigger] to_string_from_display_ensures::<globset::Error>(&e, m)
                        ==> m@ == glob_error_message(normalized_path(patterns@[j]@, sep), true, sep)),
            decreases patterns@.len() - i,
        {
            let pattern = normalize_path_with(patterns[i].as_str(), sep);
            let built = build_glob(pattern.as_str(), true, &platform);
            results.push(built);
            i = i + 1;
        }
        let ghost built = results@;
        proof {
            lemma_first_indices_agree(built, failures);
            lemma_first_true_index(failures);
        }
        let globs = match collect_globs(results) {
            Ok(globs) => globs,
            Err(e) => {
                assert(compile_outcome(patterns@, sep, Err(e)));
                let ghost k = first_true_index(failures) as int;
                assert(failures[k]);
                assert(!glob_builds(normalized_path(patterns@[k]@, sep), true, sep));
                return Err(e);
            },
        };
        let ghost gs = globs@;
        proof {
            assert forall|j: int| 0 <= j < patterns@.len() implies !#[trigger] failures[j] by {
                assert(built[j] is Ok);
            }
            if first_true_index(failures) < patterns@.len() {
                assert(failures[first_true_index(failures) as int]);
            }
            assert(sources_of(gs) =~= compiled_sources(patterns@, sep)) by {
                assert forall|j: int| 0 <= j < patterns@.len() implies
                    sources_of(gs)[j] == compiled_sources(patterns@, sep)[j] by {
                    assert(built[j] is Ok);
                    assert(gs[j] == built[j]->Ok_0);
                }
            }
        }
        match glob_set_new(globs, &platform) {
            Ok(set) => {
                let r = PathGlobs { set, platform };
                assert(compile_outcome(patterns@, sep, Ok(r)));
                assert forall|i: int| 0 <= i < patterns@.len() implies
                    glob_builds(#[trigger] normalized_path(patterns@[i]@, sep), true, sep) by {
                    assert(!failures[i]);
                }
                Ok(r)
            },
            Err(e) => {
                let m = e.to_string();
                let r = ConfigError::InvalidPattern(m);
                assert(compile_outcome(patterns@, sep, Err(r)));
                assert(patterns@.map_values(|p: String| (normalized_path(p@, sep), true)) =~= compiled_sources(patterns@, sep));
                Err(r)
            },
        }
    }

    /// Whether any of the patterns matches `path`, as the platform's path
    /// conventions have it.
    pub fn is_match(&self, path: &str) -> (r: bool)
        ensures
            r == glob_set_matches(self.sources(), path@, self.separator()),
    {
        glob_set_is_match(&self.set, path, &self.platform)
    }
}

/// A group: the path patterns of the processes it covers, and the
/// priorities they receive.
#[derive(Debug)]
pub struct AppGroupConfig {
    pub paths: PathGlobs,
    pub priorities: AppPriorityConfig,
}

/// The whole configuration: its groups, in the order they are tried.
#[derive(Debug)]
pub struct AppConfig {
    pub groups: Vec<AppGroupConfig>,
}

/// The index of the first `true` in `matched`, or its length if there is none.
pub open spec fn first_true_index(matched: Seq<bool>) -> nat
    decreases matched.len(),
{
    if matched.len() == 0 || matched[0] {
        0
    } else {
        1 + first_true_index(matched.drop_first())
    }
}

/// The priorities of the first group whose patterns matched, where
/// `matched[i]` tells whether those of group `i` did; `None` when none did.
pub open spec fn first_matching_priorities(
    priorities: Seq<AppPriorityConfig>,
    matched: Seq<bool>,
) -> Option<AppPriorityConfig> {
    let i = first_true_index(matched);
    if i < matched.len() && i < priorities.len() {
        Some(priorities[i as int])
    } else {
        None
    }
}

proof fn lemma_first_true_index(matched: Seq<bool>)
    ensures
        first_true_index(matched) <= matched.len(),
        forall|j: int| 0 <= j < first_true_index(matched) ==> !matched[j],
        first_true_index(matched) < matched.len() ==> matched[first_true_index(matched) as int],
    decreases matched.len(),
{
    if matched.len() > 0 && !matched[0] {
        let rest = matched.drop_first();
        lemma_first_true_index(rest);
        assert forall|j: int| 0 <= j < first_true_index(matched) implies !matched[j] by {
            if j > 0 {
                assert(matched[j] == rest[j - 1]);
            }
        }
    }
}

/// The first group whose patterns match is the one used: the priorities
/// chosen are those of a group whose patterns matched, and the patterns of
/// every earlier group did not match; no priorities are chosen only when no
/// group matched.
pub proof fn lemma_first_matching_group_is_used(
    priorities: Seq<AppPriorityConfig>,
    matched: Seq<bool>,
)
    requires
        priorities.len() == matched.len(),
    ensures
        first_matching_priorities(priorities, matched) is None
            <==> (forall|j: int| 0 <= j < matched.len() ==> !#[trigger] matched[j]),
        first_matching_priorities(priorities, matched) is Some ==> exists|i: int|
            0 <= i < matched.len() && #[trigger] matched[i]
            && first_matching_priorities(priorities, matched) == Some(priorities[i])
            && forall|j: int| 0 <= j < i ==> !matched[j],
{
    lemma_first_true_index(matched);
    let i = first_true_index(matched) as int;
    if i < matched.len() {
        assert(matched[i]);
    }
}

/// The first group whose patterns match a path is the one whose priorities
/// are chosen, whichever group it is (the last one included); when no group
/// matches, none are chosen.
pub proof fn lemma_first_matching_group_chosen(config: &AppConfig, path: Seq<char>)
    ensures
        forall|i: int| 0 <= i < config.groups@.len()
            && glob_set_matches((#[trigger] config.groups@[i]).paths.sources(), path, config.groups@[i].paths.separator())
            && (forall|j: int| 0 <= j < i ==> !glob_set_matches(config.groups@[j].paths.sources(), path,
                config.groups@[j].paths.separator()))
            ==> first_matching_priorities(config.group_priorities(), config.group_answers(path))
                == Some(config.groups@[i].priorities),
        (forall|j: int| 0 <= j < config.groups@.len() ==> !glob_set_matches((#[trigger] config.groups@[j]).paths.sources(),
            path, config.groups@[j].paths.separator()))
            ==> first_matching_priorities(config.group_priorities(), config.group_answers(path)) is None,
{
    let answers = config.group_answers(path);
    let n = config.groups@.len();
    lemma_first_true_index(answers);
    let k = first_true_index(answers) as int;
    assert forall|i: int| 0 <= i < n
        && glob_set_matches((#[trigger] config.groups@[i]).paths.sources(), path, config.groups@[i].paths.separator())
        && (forall|j: int| 0 <= j < i ==> !glob_set_matches(config.groups@[j].paths.sources(), path,
            config.groups@[j].paths.separator()))
        implies first_matching_priorities(config.group_priorities(), answers) == Some(config.groups@[i].priorities) by {
        assert(answers[i]);
        if k < i {
            assert(answers[k]);
            assert(!glob_set_matches(config.groups@[k].paths.sources(), path, config.groups@[k].paths.separator()));
        }
        if i < k {
            assert(!answers[i]);
        }
    }
    if forall|j: int| 0 <= j < n ==> !glob_set_matches((#[trigger] config.groups@[j]).paths.sources(),
        path, config.groups@[j].paths.separator()) {
        if k < n {
            assert(answers[k]);
            assert(!glob_set_matches(config.groups@[k].paths.sources(), path, config.groups@[k].paths.separator()));
        }
    }
}

impl AppConfig {
    /// The priorities of each group, in order.
    pub open spec fn group_priorities(&self) -> Seq<AppPriorityConfig> {
        self.groups@.map_values(|g: AppGroupConfig| g.priorities)
    }

    /// For each group, in order, whether its patterns match `path`.
    pub open spec fn group_answers(&self, path: Seq<char>) -> Seq<bool> {
        self.groups@.map_values(|g: AppGroupConfig| glob_set_matches(g.paths.sources(), path, g.paths.separator()))
    }

    /// The priorities of the first group that `matched` marks, where
    /// `matched[i]` tells whether the patterns of group `i` matched a path.
    pub fn select_first_match(&self, matched: &Vec<bool>) -> (r: Option<AppPriorityConfig>)
        ensures
            r == first_matching_priorities(self.group_priorities(), matched@),
    {
        proof { lemma_first_true_index(matched@); }
        let mut i: usize = 0;
        while i < matched.len() && i < self.groups.len()
            invariant
                i <= matched@.len(),
                i <= self.groups@.len(),
                forall|j: int| 0 <= j < i ==> !matched@[j],
                first_true_index(matched@) <= matched@.len(),
                forall|j: int| 0 <= j < first_true_index(matched@) ==> !matched@[j],
                first_true_index(matched@) < matched@.len() ==> matched@[first_true_index(matched@) as int],
            decreases matched@.len() - i,
        {
            if matched[i] {
                assert(first_true_index(matched@) == i);
                return Some(self.groups[i].priorities);
            }
            i = i + 1;
        }
        assert(first_true_index(matched@) >= i);
        None
    }

    /// The priorities for a process whose executable is at `executable_path`:
    /// each group's patterns are asked, in order, whether they match it, and
    /// the priorities of the first group that does are chosen (see
    /// `select_first_match`), or `None` when no group matches.
    pub fn matching_priorities(&self, executable_path: &str) -> (r: Option<AppPriorityConfig>)
        ensures
            r == first_matching_priorities(self.group_priorities(), self.group_answers(executable_path@)),
            forall|i: int| 0 <= i < self.groups@.len()
                && glob_set_matches((#[trigger] self.groups@[i]).paths.sources(), executable_path@, self.groups@[i].paths.separator())
                && (forall|j: int| 0 <= j < i ==> !glob_set_matches(self.groups@[j].paths.sources(), executable_path@,
                    self.groups@[j].paths.separator()))
                ==> r == Some(self.groups@[i].priorities),
            (forall|j: int| 0 <= j < self.groups@.len() ==> !glob_set_matches((#[trigger] self.groups@[j]).paths.sources(),
                executable_path@, self.groups@[j].paths.separator())) ==> r is None,
    {
        let mut matched: Vec<bool> = Vec::new();
        let mut i: usize = 0;
        while i < self.groups.len()
            invariant
                i <= self.groups@.len(),
                matched@.len() == i,
                forall|j: int| 0 <= j < i ==> matched@[j] == #[trigger] self.group_answers(executable_path@)[j],
            decreases self.groups@.len() - i,
        {
            let answer = self.groups[i].paths.is_match(executable_path);
            matched.push(answer);
            i = i + 1;
        }
        assert(matched@ =~= self.group_answers(executable_path@));
        proof { lemma_first_matching_group_chosen(self, executable_path@); }
        self.select_first_match(&matched)
    }
}

/// Why reading the configuration file failed.
#[derive(Debug, PartialEq, Eq)]
pub enum ConfigReadError {
    /// The file does not exist.
    NotFound,
    /// Any other failure, described by the message.
    Other(String),
}

/// What reading the configuration file leads to: the text to parse, or the
/// error to report.
pub open spec fn config_text_outcome(read: Result<String, ConfigReadError>) -> Result<Seq<char>, ConfigError> {
    match read {
        Ok(text) => if is_blank_spec(text@) {
            Err(ConfigError::Empty)
        } else {
            Ok(text@)
        },
        Err(ConfigReadError::NotFound) => Err(ConfigError::NotFound),
        Err(ConfigReadError::Other(m)) => Err(ConfigError::Read(m)),
    }
}

/// Decides what becomes of the result of reading the configuration file: a
/// text with something other than white space in it is to be parsed; a
/// blank one, a missing file, and any other read failure are errors.
pub fn config_text_to_parse(read: Result<String, ConfigReadError>) -> (r: Result<String, ConfigError>)
    ensures
        match r {
            Ok(text) => config_text_outcome(read) == Ok::<Seq<char>, ConfigError>(text@),
            Err(e) => config_text_outcome(read) == Err::<Seq<char>, ConfigError>(e),
        },
{
    match read {
        Ok(text) => if is_blank(text.as_str()) {
            Err(ConfigError::Empty)
        } else {
            Ok(text)
        },
        Err(ConfigReadError::NotFound) => Err(ConfigError::NotFound),
        Err(ConfigReadError::Other(m)) => Err(ConfigError::Read(m)),
    }
}

/// The message reported for a configuration error.
pub open spec fn config_error_message(e: ConfigError) -> Seq<char> {
    match e {
        ConfigError::Empty => "Config file is empty, please fill it with valid JSON"@,
        ConfigError::NotFound => "Config file not found"@,
        ConfigError::Read(m) => "Error reading config file: "@ + m@,
        ConfigError::Parse(m) => "Error parsing config file: "@ + m@,
        ConfigError::InvalidPattern(m) => m@,
    }
}

impl ConfigError {
    /// The message reported for this error.
    pub fn message(&self) -> (m: String)
        ensures
            m@ == config_error_message(*self),
    {
        match self {
            ConfigError::Empty => String::from_str("Config file is empty, please fill it with valid JSON"),
            ConfigError::NotFound => String::from_str("Config file not found"),
            ConfigError::Read(m) => String::from_str("Error reading config file: ").concat(m.as_str()),
            ConfigError::Parse(m) => String::from_str("Error parsing config file: ").concat(m.as_str()),
            ConfigError::InvalidPattern(m) => m.clone(),
        }
    }
}

} // verus!
