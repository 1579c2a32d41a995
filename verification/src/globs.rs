//! The matcher: a rule's glob pattern compiled into a predicate on paths.
//!
//! Glob syntax is validated when a rule set is loaded; an invalid pattern is
//! a configuration error that fails the whole build before any file is
//! processed.

use vstd::prelude::*;
use crate::error::BuildError;

verus! {

/// The longest accepted glob pattern. Compiling a pattern builds a regex
/// under globset's internal 10 MiB size cap, past which compilation aborts
/// instead of erring; a pattern this short compiles to a regex far below
/// that cap, so bounded patterns never reach the abort.
pub const MAX_GLOB_LEN: usize = 1000;

/// Whether a pattern is valid glob syntax, as decided by globset::Glob::new.
pub uninterp spec fn glob_pattern_ok(pattern: Seq<char>) -> bool;

/// Whether a rule may hold this pattern: short enough to compile safely,
/// and valid glob syntax.
pub open spec fn glob_accepted(pattern: Seq<char>) -> bool {
    pattern.len() <= MAX_GLOB_LEN && glob_pattern_ok(pattern)
}

/// Whether a path matches a glob pattern, as decided by
/// globset::GlobMatcher::is_match: a function of the pattern and the path
/// alone.
pub uninterp spec fn glob_match(pattern: Seq<char>, path: Seq<char>) -> bool;

#[verifier::external_type_specification]
#[verifier::external_body]
pub struct ExGlobMatcher(globset::GlobMatcher);

/// A compiled glob pattern. The pattern text is kept beside the compiled
/// form so that contracts can speak of it.
pub struct Matcher {
    pattern: String,
    compiled: globset::GlobMatcher,
}

impl Matcher {
    /// The pattern this matcher was compiled from.
    pub closed spec fn pattern_view(self) -> Seq<char> {
        self.pattern@
    }

    /// Relies on globset::Glob::new, which returns Ok exactly when the
    /// pattern is valid glob syntax, and Glob::compile_matcher, which
    /// compiles that pattern; the compiled field always holds the matcher
    /// of the pattern field. compile_matcher aborts past globset's regex
    /// size cap rather than erring, so only bounded patterns are admitted
    /// (see MAX_GLOB_LEN); callers reject longer ones first.
    #[verifier::external_body]
    pub fn compile(pattern: &str) -> (r: Result<Matcher, BuildError>)
        requires
            pattern@.len() <= MAX_GLOB_LEN,
        ensures
            r is Ok <==> glob_pattern_ok(pattern@),
            r is Ok ==> r->Ok_0.pattern_view() == pattern@,
            r is Err ==> r->Err_0 == BuildError::InvalidGlob,
    {
        match globset::Glob::new(pattern) {
            Ok(g) => Ok(Matcher { pattern: pattern.to_owned(), compiled: g.compile_matcher() }),
            Err(_) => Err(BuildError::InvalidGlob),
        }
    }

    /// Relies on globset::GlobMatcher::is_match: whether a path matches is a
    /// function of the compiled pattern and the path alone.
    #[verifier::external_body]
    pub fn is_match(&self, path: &str) -> (r: bool)
        ensures
            r == glob_match(self.pattern_view(), path@),
    {
        self.compiled.is_match(path)
    }
}

/// Whether any matcher of a list matches the path: the exception globs of a
/// rule exempt a file from hashing when at least one of them matches it.
pub fn any_match(matchers: &Vec<Matcher>, path: &str) -> (r: bool)
    ensures
        r == exists|i: int|
            0 <= i < matchers@.len() && glob_match(matchers@[i].pattern_view(), path@),
{
    let mut k: usize = 0;
    while k < matchers.len()
        invariant
            k <= matchers@.len(),
            forall|i: int| 0 <= i < k ==> !glob_match(matchers@[i].pattern_view(), path@),
        decreases matchers@.len() - k,
    {
        if matchers[k].is_match(path) {
            return true;
        }
        k += 1;
    }
    false
}

} // verus!
