//! The path rule set: declarative configuration, one rule per logical asset
//! group. A rule selects files by a glob, names the output directory, may
//! opt out of content hashing (wholesale or per exception glob), and picks
//! the loader applied to every matched file.
//!
//! Invalid glob syntax in any rule is a configuration error: it fails the
//! whole build before any file is processed.

use vstd::prelude::*;
use vstd::string::StrSliceExecFns;
use crate::error::BuildError;
use crate::globs::MAX_GLOB_LEN;
use crate::globs::Matcher;
use crate::globs::glob_accepted;
use crate::loader::Loader;

verus! {

/// One declarative rule, as read from the rule file.
pub struct AssetPath {
    /// Glob pattern selecting this rule's source files.
    pub input: String,
    /// Directory prefix under which outputs are recorded.
    pub output: String,
    /// Skip content hashing for every file of this rule.
    pub no_hash: bool,
    /// Exception globs: a matching file skips hashing even when `no_hash`
    /// is false.
    pub hash_ignore: Vec<String>,
    /// Globs of files to copy untouched (kept with the rule; reserved).
    pub just_copy: Vec<String>,
    /// The transform applied to matched files.
    pub loader: Loader,
}

/// The whole rule file: a list of rules.
pub struct AssetConfig {
    pub asset_paths: Vec<AssetPath>,
}

/// A rule with its globs compiled.
pub struct CompiledRule {
    pub input: Matcher,
    pub output: String,
    pub no_hash: bool,
    pub hash_ignore: Vec<Matcher>,
    pub just_copy: Vec<Matcher>,
    pub loader: Loader,
}

/// The patterns of a list of pattern strings.
pub open spec fn strs_view(v: Seq<String>) -> Seq<Seq<char>> {
    Seq::new(v.len(), |i: int| v[i]@)
}

/// The patterns of a list of compiled matchers.
pub open spec fn matchers_view(v: Seq<Matcher>) -> Seq<Seq<char>> {
    Seq::new(v.len(), |i: int| v[i].pattern_view())
}

/// Whether every pattern of a list is accepted: short enough to compile
/// safely, and valid glob syntax.
pub open spec fn all_patterns_ok(patterns: Seq<Seq<char>>) -> bool {
    forall|i: int| 0 <= i < patterns.len() ==> glob_accepted(#[trigger] patterns[i])
}

/// Compile a list of glob patterns, failing on the first one that is
/// overlong or invalid.
fn compile_globs(patterns: &Vec<String>) -> (r: Result<Vec<Matcher>, BuildError>)
    ensures
        r is Ok <==> all_patterns_ok(strs_view(patterns@)),
        r is Ok ==> matchers_view(r->Ok_0@) == strs_view(patterns@),
        r is Err ==> r->Err_0 == BuildError::InvalidGlob,
{
    let mut out: Vec<Matcher> = Vec::new();
    let mut k: usize = 0;
    while k < patterns.len()
        invariant
            k <= patterns@.len(),
            out@.len() == k,
            forall|i: int| 0 <= i < k ==> glob_accepted(#[trigger] patterns@[i]@),
            forall|i: int| 0 <= i < k ==> #[trigger] out@[i].pattern_view() == patterns@[i]@,
        decreases patterns@.len() - k,
    {
        if patterns[k].as_str().unicode_len() > MAX_GLOB_LEN {
            proof {
                assert(strs_view(patterns@)[k as int] == patterns@[k as int]@);
            }
            return Err(BuildError::InvalidGlob);
        }
        match Matcher::compile(patterns[k].as_str()) {
            Ok(m) => out.push(m),
            Err(e) => {
                proof {
                    assert(strs_view(patterns@)[k as int] == patterns@[k as int]@);
                }
                return Err(e);
            },
        }
        k += 1;
    }
    proof {
        assert(matchers_view(out@) =~= strs_view(patterns@));
    }
    Ok(out)
}

impl AssetPath {
    /// Whether every glob of this rule is accepted: within the length
    /// bound and syntactically valid.
    pub open spec fn globs_ok(&self) -> bool {
        glob_accepted(self.input@) && all_patterns_ok(strs_view(self.hash_ignore@))
            && all_patterns_ok(strs_view(self.just_copy@))
    }

    /// Compile this rule's globs. An overlong or invalid pattern anywhere
    /// in the rule is fatal to configuration loading.
    pub fn compile(&self) -> (r: Result<CompiledRule, BuildError>)
        ensures
            r is Ok <==> self.globs_ok(),
            r is Ok ==> {
                let c = r->Ok_0;
                &&& c.input.pattern_view() == self.input@
                &&& c.output@ == self.output@
                &&& c.no_hash == self.no_hash
                &&& matchers_view(c.hash_ignore@) == strs_view(self.hash_ignore@)
                &&& matchers_view(c.just_copy@) == strs_view(self.just_copy@)
                &&& c.loader == self.loader
            },
            r is Err ==> r->Err_0 == BuildError::InvalidGlob,
    {
        if self.input.as_str().unicode_len() > MAX_GLOB_LEN {
            return Err(BuildError::InvalidGlob);
        }
        let input = match Matcher::compile(self.input.as_str()) {
            Ok(m) => m,
            Err(e) => return Err(e),
        };
        let hash_ignore = match compile_globs(&self.hash_ignore) {
            Ok(v) => v,
            Err(e) => return Err(e),
        };
        let just_copy = match compile_globs(&self.just_copy) {
            Ok(v) => v,
            Err(e) => return Err(e),
        };
        Ok(
            CompiledRule {
                input,
                output: self.output.clone(),
                no_hash: self.no_hash,
                hash_ignore,
                just_copy,
                loader: self.loader,
            },
        )
    }
}

} // verus!
