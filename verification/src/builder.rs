//! The builder: for each rule, every matched file is processed
//! independently (the per-file work is pure with respect to other files,
//! so callers may distribute it), and the results are aggregated into the
//! manifest and a running byte total by a single serialized recording step.

use vstd::prelude::*;
use vstd::string::StrSliceExecFns;
use vstd::string::StringExecFns;
use crate::config::CompiledRule;
use crate::config::matchers_view;
use crate::error::BuildError;
use crate::globs::any_match;
use crate::globs::glob_match;
use crate::loader::Asset;
use crate::loader::AssetView;
use crate::loader::Loader;
use crate::loader::assets_view;
use crate::loader::generate_assets;
use crate::loader::process_spec;
use crate::manifest::Manifest;
use crate::manifest::spec_upsert;
use crate::paths::file_name_spec;

verus! {

/// The mathematical value of a compiled rule.
pub ghost struct RuleView {
    pub input: Seq<char>,
    pub output: Seq<char>,
    pub no_hash: bool,
    pub hash_ignore: Seq<Seq<char>>,
    pub just_copy: Seq<Seq<char>>,
    pub loader: Loader,
}

impl View for CompiledRule {
    type V = RuleView;

    open spec fn view(&self) -> RuleView {
        RuleView {
            input: self.input.pattern_view(),
            output: self.output@,
            no_hash: self.no_hash,
            hash_ignore: matchers_view(self.hash_ignore@),
            just_copy: matchers_view(self.just_copy@),
            loader: self.loader,
        }
    }
}

/// Whether a file of this rule skips content hashing: the rule-level flag,
/// or any exception glob matching the path.
pub open spec fn skip_hash_spec(rule: RuleView, path: Seq<char>) -> bool {
    rule.no_hash || exists|i: int|
        0 <= i < rule.hash_ignore.len() && glob_match(#[trigger] rule.hash_ignore[i], path)
}

/// Decide whether hashing is skipped for one file.
pub fn should_skip_hash(rule: &CompiledRule, path: &str) -> (r: bool)
    ensures
        r == skip_hash_spec(rule@, path@),
{
    if rule.no_hash {
        return true;
    }
    let m = any_match(&rule.hash_ignore, path);
    proof {
        if m {
            let i = choose|i: int|
                0 <= i < rule.hash_ignore@.len() && glob_match(
                    rule.hash_ignore@[i].pattern_view(),
                    path@,
                );
            assert(glob_match(rule@.hash_ignore[i], path@));
        }
        if skip_hash_spec(rule@, path@) {
            let i = choose|i: int|
                0 <= i < rule@.hash_ignore.len() && glob_match(rule@.hash_ignore[i], path@);
            assert(glob_match(rule.hash_ignore@[i].pattern_view(), path@));
        }
    }
    m
}

/// The sum of the output sizes of a list of assets.
pub open spec fn sum_sizes(assets: Seq<AssetView>) -> nat
    decreases assets.len(),
{
    if assets.len() == 0 {
        0
    } else {
        sum_sizes(assets.drop_last()) + assets.last().content.len()
    }
}

/// A natural number clamped to the u64 range.
pub open spec fn sat64(n: nat) -> u64 {
    if n <= u64::MAX {
        n as u64
    } else {
        u64::MAX
    }
}

/// Saturating addition on byte totals.
pub fn sat_add(a: u64, b: u64) -> (r: u64)
    ensures
        r == sat64((a + b) as nat),
{
    if a > u64::MAX - b {
        u64::MAX
    } else {
        a + b
    }
}

/// The result of processing one matched source file: its manifest key, the
/// recorded output paths, the rendered assets themselves, and their total
/// size in bytes.
pub struct RenderedFile {
    pub original_name: String,
    pub output_paths: Vec<String>,
    pub assets: Vec<Asset>,
    pub size: u64,
}

/// The mathematical value of a rendered file.
pub ghost struct RenderedFileView {
    pub original_name: Seq<char>,
    pub output_paths: Seq<Seq<char>>,
    pub assets: Seq<AssetView>,
    pub size: u64,
}

impl View for RenderedFile {
    type V = RenderedFileView;

    open spec fn view(&self) -> RenderedFileView {
        RenderedFileView {
            original_name: self.original_name@,
            output_paths: crate::config::strs_view(self.output_paths@),
            assets: assets_view(self.assets@),
            size: self.size,
        }
    }
}

/// An output path: the rule's output directory prefix joined to the asset's
/// filename with a single '/'.
pub open spec fn join_output(dir: Seq<char>, name: Seq<char>) -> Seq<char> {
    if dir.len() == 0 {
        name
    } else if dir.last() == '/' {
        dir + name
    } else {
        dir + seq!['/'] + name
    }
}

/// The manifest key of a relative source path: the path made absolute with
/// a leading '/'.
pub open spec fn manifest_key(path: Seq<char>) -> Seq<char> {
    seq!['/'] + path
}

/// Join an output directory prefix and an output filename.
pub fn join_output_path(dir: &str, name: &str) -> (r: String)
    ensures
        r@ == join_output(dir@, name@),
{
    let n = dir.unicode_len();
    if n == 0 {
        String::from_str(name)
    } else if dir.get_char(n - 1) == '/' {
        String::from_str(dir).concat(name)
    } else {
        let r = String::from_str(dir).concat("/").concat(name);
        proof {
            reveal_strlit("/");
            assert(r@ =~= dir@ + seq!['/'] + name@);
        }
        r
    }
}

/// The output paths of a file's assets, in asset order.
pub open spec fn outputs_spec(dir: Seq<char>, assets: Seq<AssetView>) -> Seq<Seq<char>> {
    Seq::new(assets.len(), |i: int| join_output(dir, assets[i].output_filename))
}

/// What building one matched file yields: its loader's assets, named and
/// placed under the rule's output directory, or the error that aborts the
/// run.
pub open spec fn build_file_spec(rule: RuleView, path: Seq<char>, content: Seq<u8>) -> Result<
    RenderedFileView,
    BuildError,
> {
    match process_spec(rule.loader, path, content, !skip_hash_spec(rule, path)) {
        Ok(assets) => Ok(
            RenderedFileView {
                original_name: manifest_key(path),
                output_paths: outputs_spec(rule.output, assets),
                assets: assets,
                size: sat64(sum_sizes(assets)),
            },
        ),
        Err(e) => Err(e),
    }
}

/// Build one matched source file: decide hashing, transform the bytes, and
/// name every produced asset.
#[verifier::loop_isolation(false)]
pub fn build_file(rule: &CompiledRule, path: &str, content: Vec<u8>) -> (r: Result<
    RenderedFile,
    BuildError,
>)
    requires
        file_name_spec(path@).len() > 0,
    ensures
        r is Ok <==> build_file_spec(rule@, path@, content@) is Ok,
        r is Ok ==> r->Ok_0@ == build_file_spec(rule@, path@, content@)->Ok_0,
        r is Err ==> r->Err_0 == build_file_spec(rule@, path@, content@)->Err_0,
{
    let no_hash = should_skip_hash(rule, path);
    let assets = match generate_assets(path, content, rule.loader, no_hash) {
        Ok(a) => a,
        Err(e) => return Err(e),
    };
    let ghost sassets = build_file_spec(rule@, path@, content@)->Ok_0.assets;
    proof {
        assert(assets_view(assets@) == sassets);
    }
    let mut output_paths: Vec<String> = Vec::new();
    let mut size: u64 = 0;
    let mut i: usize = 0;
    while i < assets.len()
        invariant
            i <= assets@.len(),
            assets_view(assets@) == sassets,
            rule@.output == rule.output@,
            crate::config::strs_view(output_paths@) =~= outputs_spec(rule@.output, sassets).take(
                i as int,
            ),
            size == sat64(sum_sizes(sassets.take(i as int))),
        decreases assets@.len() - i,
    {
        let ghost prevpaths = output_paths@;
        let p = join_output_path(rule.output.as_str(), assets[i].output_filename.as_str());
        output_paths.push(p);
        size = sat_add(size, assets[i].content.len() as u64);
        proof {
            assert(sassets.take(i + 1).drop_last() =~= sassets.take(i as int));
            assert(sassets.take(i + 1).last() == sassets[i as int]);
            assert(sassets[i as int] == assets@[i as int]@);
            assert forall|j: int| 0 <= j < i + 1 implies crate::config::strs_view(output_paths@)[j]
                == outputs_spec(rule@.output, sassets)[j] by {
                if j < i {
                    assert(output_paths@[j] == prevpaths[j]);
                    assert(crate::config::strs_view(prevpaths)[j] == outputs_spec(
                        rule@.output,
                        sassets,
                    ).take(i as int)[j]);
                } else {
                    assert(output_paths@[j]@ == join_output(
                        rule@.output,
                        sassets[i as int].output_filename,
                    ));
                }
            }
            assert(crate::config::strs_view(output_paths@) =~= outputs_spec(
                rule@.output,
                sassets,
            ).take(i + 1));
        }
        i += 1;
    }
    proof {
        assert(sassets.take(sassets.len() as int) =~= sassets);
        assert(outputs_spec(rule@.output, sassets).take(sassets.len() as int) =~= outputs_spec(
            rule@.output,
            sassets,
        ));
    }
    let original_name = {
        let r = String::from_str("/").concat(path);
        proof {
            reveal_strlit("/");
            assert(r@ =~= manifest_key(path@));
        }
        r
    };
    Ok(RenderedFile { original_name, output_paths, assets, size })
}

/// The values of a list of (path, content) pairs.
pub open spec fn files_view(files: Seq<(String, Vec<u8>)>) -> Seq<(Seq<char>, Seq<u8>)> {
    Seq::new(files.len(), |i: int| (files[i].0@, files[i].1@))
}

/// The values of a list of rendered files.
pub open spec fn outcomes_view(v: Seq<RenderedFile>) -> Seq<RenderedFileView> {
    Seq::new(v.len(), |i: int| v[i]@)
}

/// What building a rule over an ordered file list yields: every file's
/// outcome in input order, or the first error, which aborts the run.
pub open spec fn build_rule_spec(rule: RuleView, files: Seq<(Seq<char>, Seq<u8>)>) -> Result<
    Seq<RenderedFileView>,
    BuildError,
>
    decreases files.len(),
{
    if files.len() == 0 {
        Ok(Seq::empty())
    } else {
        match build_rule_spec(rule, files.drop_last()) {
            Ok(rs) => match build_file_spec(rule, files.last().0, files.last().1) {
                Ok(r) => Ok(rs.push(r)),
                Err(e) => Err(e),
            },
            Err(e) => Err(e),
        }
    }
}

/// A failing file fails the whole rule with its own error, whatever
/// follows it.
proof fn lemma_build_rule_err(rule: RuleView, files: Seq<(Seq<char>, Seq<u8>)>, k: int)
    requires
        0 <= k < files.len(),
        build_rule_spec(rule, files.take(k)) is Ok,
        build_file_spec(rule, files[k].0, files[k].1) is Err,
    ensures
        build_rule_spec(rule, files) is Err,
        build_rule_spec(rule, files)->Err_0 == build_file_spec(rule, files[k].0, files[k].1)->Err_0,
    decreases files.len(),
{
    if files.len() == k + 1 {
        assert(files.drop_last() =~= files.take(k));
    } else {
        assert(files.drop_last().take(k) =~= files.take(k));
        lemma_build_rule_err(rule, files.drop_last(), k);
    }
}

/// Build every file of a rule, in order, stopping at the first error.
#[verifier::loop_isolation(false)]
pub fn build_rule(rule: &CompiledRule, files: Vec<(String, Vec<u8>)>) -> (r: Result<
    Vec<RenderedFile>,
    BuildError,
>)
    requires
        forall|i: int|
            0 <= i < files@.len() ==> file_name_spec((#[trigger] files@[i]).0@).len() > 0,
    ensures
        r is Ok <==> build_rule_spec(rule@, files_view(files@)) is Ok,
        r is Ok ==> outcomes_view(r->Ok_0@) == build_rule_spec(rule@, files_view(files@))->Ok_0,
        r is Err ==> r->Err_0 == build_rule_spec(rule@, files_view(files@))->Err_0,
{
    let ghost allfiles = files_view(files@);
    let mut files = files;
    let nfiles = files.len();
    proof {
        assert(allfiles.len() == nfiles);
    }
    let mut out: Vec<RenderedFile> = Vec::new();
    let mut k: usize = 0;
    while files.len() > 0
        invariant
            k + files@.len() == allfiles.len(),
            allfiles.len() <= usize::MAX,
            forall|i: int|
                0 <= i < files@.len() ==> file_name_spec((#[trigger] files@[i]).0@).len() > 0,
            files_view(files@) =~= allfiles.skip(k as int),
            build_rule_spec(rule@, allfiles.take(k as int)) is Ok,
            outcomes_view(out@) == build_rule_spec(rule@, allfiles.take(k as int))->Ok_0,
        decreases files@.len(),
    {
        let ghost pre = files@;
        let (path, content) = files.remove(0);
        proof {
            assert(files@ == pre.remove(0));
            assert forall|j: int| 0 <= j < files@.len() implies files_view(files@)[j]
                == allfiles.skip(k + 1)[j] by {
                assert(files@[j] == pre[j + 1]);
                assert(files_view(pre)[j + 1] == allfiles.skip(k as int)[j + 1]);
            }
            assert(files_view(files@) =~= allfiles.skip(k + 1));
            assert(files_view(pre)[0] == allfiles.skip(k as int)[0]);
            assert(allfiles[k as int] == (path@, content@));
        }
        match build_file(rule, path.as_str(), content) {
            Ok(rf) => {
                out.push(rf);
                proof {
                    assert(allfiles.take(k + 1).drop_last() =~= allfiles.take(k as int));
                    assert(allfiles.take(k + 1).last() == allfiles[k as int]);
                    assert(outcomes_view(out@) =~= build_rule_spec(
                        rule@,
                        allfiles.take(k + 1),
                    )->Ok_0);
                }
            },
            Err(e) => {
                proof {
                    lemma_build_rule_err(rule@, allfiles, k as int);
                    assert(allfiles.take(allfiles.len() as int) =~= allfiles);
                }
                return Err(e);
            },
        }
        k += 1;
    }
    proof {
        assert(allfiles.take(k as int) =~= allfiles);
    }
    Ok(out)
}

/// The manifest after recording a list of outcomes, in order: each outcome
/// maps its source path to its ordered output paths.
pub open spec fn record_spec(
    entries: Seq<(Seq<char>, Seq<Seq<char>>)>,
    outcomes: Seq<RenderedFileView>,
) -> Seq<(Seq<char>, Seq<Seq<char>>)>
    decreases outcomes.len(),
{
    if outcomes.len() == 0 {
        entries
    } else {
        record_spec(
            spec_upsert(entries, outcomes[0].original_name, outcomes[0].output_paths),
            outcomes.skip(1),
        )
    }
}

/// The running byte total after recording a list of outcomes.
pub open spec fn total_spec(total: u64, outcomes: Seq<RenderedFileView>) -> u64
    decreases outcomes.len(),
{
    if outcomes.len() == 0 {
        total
    } else {
        total_spec(sat64((total + outcomes[0].size) as nat), outcomes.skip(1))
    }
}

/// Record a list of outcomes into the manifest and the running byte total.
/// Aggregation is a single serialized step: workers never touch the
/// manifest concurrently.
#[verifier::loop_isolation(false)]
pub fn record_outcomes(man: &mut Manifest, total: &mut u64, outcomes: Vec<RenderedFile>)
    requires
        old(man).wf(),
    ensures
        final(man)@ == record_spec(old(man)@, outcomes_view(outcomes@)),
        final(man).wf(),
        *final(total) == total_spec(*old(total), outcomes_view(outcomes@)),
{
    let ghost all = outcomes_view(outcomes@);
    let mut outcomes = outcomes;
    while outcomes.len() > 0
        invariant
            old(man).wf(),
            man.wf(),
            record_spec(man@, outcomes_view(outcomes@)) == record_spec(old(man)@, all),
            total_spec(*total, outcomes_view(outcomes@)) == total_spec(*old(total), all),
        decreases outcomes@.len(),
    {
        let ghost rest = outcomes_view(outcomes@);
        let ghost pre = outcomes@;
        let o = outcomes.remove(0);
        proof {
            assert(outcomes@ == pre.remove(0));
            assert forall|j: int| 0 <= j < outcomes@.len() implies outcomes_view(outcomes@)[j]
                == rest.skip(1)[j] by {
                assert(outcomes@[j] == pre[j + 1]);
                assert(outcomes_view(pre)[j + 1] == rest[j + 1]);
            }
            assert(outcomes_view(outcomes@) =~= rest.skip(1));
            assert(rest[0] == o@);
        }
        man.insert(o.original_name, o.output_paths);
        *total = sat_add(*total, o.size);
    }
    proof {
        assert(outcomes_view(outcomes@).len() == 0);
    }
}

/// Content addressing makes rebuilds reproducible: the outcome of building
/// a rule over a file list is one mathematical function of the rule and the
/// exact (path, content) pairs, so two builds of an unchanged tree agree.
pub proof fn lemma_build_deterministic(
    rule: RuleView,
    files: Seq<(Seq<char>, Seq<u8>)>,
    r1: Result<Seq<RenderedFileView>, BuildError>,
    r2: Result<Seq<RenderedFileView>, BuildError>,
)
    requires
        r1 == build_rule_spec(rule, files),
        r2 == build_rule_spec(rule, files),
    ensures
        r1 == r2,
{
}

/// Two builds of the same unchanged tree produce manifests with the same
/// keys and the same ordered output lists, and serialize to byte-identical
/// JSON.
pub proof fn lemma_rebuild_manifests_identical(
    rule: RuleView,
    files: Seq<(Seq<char>, Seq<u8>)>,
    m1: Seq<(Seq<char>, Seq<Seq<char>>)>,
    m2: Seq<(Seq<char>, Seq<Seq<char>>)>,
)
    requires
        build_rule_spec(rule, files) is Ok,
        m1 == record_spec(Seq::empty(), build_rule_spec(rule, files)->Ok_0),
        m2 == record_spec(Seq::empty(), build_rule_spec(rule, files)->Ok_0),
    ensures
        m1 == m2,
        crate::manifest::manifest_json(m1) == crate::manifest::manifest_json(m2),
{
}

} // verus!
