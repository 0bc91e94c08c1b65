use vstd::prelude::*;

use crate::errors::ConfigError;

verus! {

#[verifier::external_type_specification]
#[verifier::external_body]
pub struct ExGlobSet(globset::GlobSet);

#[verifier::external_type_specification]
#[verifier::external_body]
pub struct ExGlobError(globset::Error);

/// Whether globset accepts `pattern`: it parses as a glob and compiles
/// into a matcher. Acceptance is a function of the pattern text alone on
/// the host this library is built for (the default glob options treat
/// backslashes differently per platform).
pub uninterp spec fn glob_pattern_ok(pattern: Seq<char>) -> bool;

/// Whether a matcher compiled from `pattern` matches `path`: a function of
/// the two texts alone on the host this library is built for.
pub uninterp spec fn glob_matches(pattern: Seq<char>, path: Seq<char>) -> bool;

/// Relies on globset::Glob::new and globset::GlobSetBuilder::build:
/// parsing and compiling succeed or fail by the pattern's text alone, and
/// the compiled one-glob set is a function of that text. Both steps report
/// failure by returning an error — building the set hands back a failed
/// regex compilation as Err — so no input panics.
#[verifier::external_body]
fn compile_glob(pattern: &str) -> (r: Result<globset::GlobSet, globset::Error>)
    ensures
        r is Ok <==> glob_pattern_ok(pattern@),
{
    let glob = match globset::Glob::new(pattern) {
        Ok(glob) => glob,
        Err(e) => return Err(e),
    };
    let mut builder = globset::GlobSetBuilder::new();
    builder.add(glob);
    builder.build()
}

/// A compiled glob pattern together with the pattern text it came from.
///
/// `compile` is the only constructor, so the matcher field always holds
/// the one-glob set globset compiled from the pattern field.
pub struct PathMatcher {
    pattern: String,
    matcher: globset::GlobSet,
}

impl PathMatcher {
    /// The pattern text this matcher was compiled from.
    pub closed spec fn pattern(self) -> Seq<char> {
        self.pattern@
    }

    /// Compiles a glob pattern once, at configuration time; a pattern that
    /// globset does not accept is a configuration error.
    pub fn compile(pattern: String) -> (r: Result<PathMatcher, ConfigError>)
        ensures
            r is Ok <==> glob_pattern_ok(pattern@),
            r is Ok ==> r->Ok_0.pattern() == pattern@,
            r is Err ==> r->Err_0 == ConfigError::InvalidPattern,
    {
        match compile_glob(pattern.as_str()) {
            Ok(matcher) => Ok(PathMatcher { pattern, matcher }),
            Err(_) => Err(ConfigError::InvalidPattern),
        }
    }

    /// Relies on globset::GlobSet::is_match: a pure predicate of the
    /// compiled pattern and the candidate path, total, and safe to call
    /// from any rule's worker without shared state.
    #[verifier::external_body]
    fn raw_is_match(&self, path: &str) -> (r: bool)
        ensures
            r == glob_matches(self.pattern(), path@),
    {
        self.matcher.is_match(path)
    }

    /// Pure matching predicate over change-event paths.
    pub fn is_match(&self, path: &str) -> (r: bool)
        ensures
            r == glob_matches(self.pattern(), path@),
    {
        self.raw_is_match(path)
    }
}

} // verus!
