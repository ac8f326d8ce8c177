//! Auto-patching with validation in an isolated git worktree: the errors,
//! the reading of `cargo check` / `cargo test` outcomes, the patch report,
//! and the batch loop that validates one patch per finding.

use vstd::prelude::*;
use crate::finding::{opt_view, same_finding, VulnerabilityFinding};
use crate::text::{cat, contains_seq, dec, decimal, spec_lines, str_contains, text_lines};
use crate::types::{self, PatchCandidate};

verus! {

/// Errors of the staging worktree.
#[derive(Debug)]
pub enum StagingError {
    WorktreeCreate(String),
    PatchApply(String),
    Validation(String),
    Cleanup(String),
    Rollback(String),
    GitError(String),
}

/// How a staging error reads.
pub open spec fn staging_message(e: StagingError) -> Seq<char> {
    match e {
        StagingError::WorktreeCreate(s) => "Failed to create worktree: "@ + s@,
        StagingError::PatchApply(s) => "Failed to apply patch: "@ + s@,
        StagingError::Validation(s) => "Validation failed: "@ + s@,
        StagingError::Cleanup(s) => "Cleanup failed: "@ + s@,
        StagingError::Rollback(s) => "Rollback failed: "@ + s@,
        StagingError::GitError(s) => "Git command failed: "@ + s@,
    }
}

impl StagingError {
    /// The error's message.
    pub fn message(&self) -> (m: String)
        ensures
            m@ == staging_message(*self),
    {
        match self {
            StagingError::WorktreeCreate(s) => cat("Failed to create worktree: ", s.as_str()),
            StagingError::PatchApply(s) => cat("Failed to apply patch: ", s.as_str()),
            StagingError::Validation(s) => cat("Validation failed: ", s.as_str()),
            StagingError::Cleanup(s) => cat("Cleanup failed: ", s.as_str()),
            StagingError::Rollback(s) => cat("Rollback failed: ", s.as_str()),
            StagingError::GitError(s) => cat("Git command failed: ", s.as_str()),
        }
    }
}

/// Errors of auto-patching.
#[derive(Debug)]
pub enum AutoPatchError {
    Generation(String),
    Apply(String),
    Validation(String),
    Staging(String),
    NoLlmClient,
}

/// How an auto-patching error reads.
pub open spec fn autopatch_message(e: AutoPatchError) -> Seq<char> {
    match e {
        AutoPatchError::Generation(s) => "Failed to generate patch: "@ + s@,
        AutoPatchError::Apply(s) => "Failed to apply patch: "@ + s@,
        AutoPatchError::Validation(s) => "Validation failed: "@ + s@,
        AutoPatchError::Staging(s) => "Staging error: "@ + s@,
        AutoPatchError::NoLlmClient => "No LLM client configured"@,
    }
}

impl AutoPatchError {
    /// The error's message.
    pub fn message(&self) -> (m: String)
        ensures
            m@ == autopatch_message(*self),
    {
        match self {
            AutoPatchError::Generation(s) => cat("Failed to generate patch: ", s.as_str()),
            AutoPatchError::Apply(s) => cat("Failed to apply patch: ", s.as_str()),
            AutoPatchError::Validation(s) => cat("Validation failed: ", s.as_str()),
            AutoPatchError::Staging(s) => cat("Staging error: ", s.as_str()),
            AutoPatchError::NoLlmClient => String::from_str("No LLM client configured"),
        }
    }
}

/// Outcome of a staging operation.
pub type StagingResult<T> = Result<T, StagingError>;

/// Outcome of an auto-patching operation.
pub type AutoPatchResult<T> = Result<T, AutoPatchError>;

/// Result of validating a patch in the staging worktree.
#[derive(Debug, Clone, PartialEq)]
pub struct PatchValidationResult {
    pub compiles: bool,
    pub tests_pass: bool,
    pub warnings: u32,
    pub error_message: Option<String>,
}

impl Default for PatchValidationResult {
    /// Compiles, tests pass, no warnings, no error.
    fn default() -> (r: Self)
        ensures
            r.compiles,
            r.tests_pass,
            r.warnings == 0,
            r.error_message is None,
    {
        PatchValidationResult { compiles: true, tests_pass: true, warnings: 0, error_message: None }
    }
}

impl PatchValidationResult {
    /// A patch that compiles and passes its tests.
    pub fn success() -> (r: Self)
        ensures
            r.compiles,
            r.tests_pass,
            r.warnings == 0,
            r.error_message is None,
    {
        PatchValidationResult { compiles: true, tests_pass: true, warnings: 0, error_message: None }
    }

    /// A patch that failed, with the reason.
    pub fn failure(msg: &str) -> (r: Self)
        ensures
            !r.compiles,
            !r.tests_pass,
            r.warnings == 0,
            opt_view(r.error_message) == Some(msg@),
    {
        PatchValidationResult {
            compiles: false,
            tests_pass: false,
            warnings: 0,
            error_message: Some(String::from_str(msg)),
        }
    }
}

impl From<PatchValidationResult> for types::PatchValidationResult {
    fn from(val: PatchValidationResult) -> (r: types::PatchValidationResult) {
        types::PatchValidationResult {
            compiles: val.compiles,
            tests_pass: val.tests_pass,
            warnings: val.warnings,
            error_message: val.error_message,
        }
    }
}

impl vstd::std_specs::convert::FromSpecImpl<PatchValidationResult> for types::PatchValidationResult {
    open spec fn obeys_from_spec() -> bool {
        true
    }

    open spec fn from_spec(val: PatchValidationResult) -> types::PatchValidationResult {
        types::PatchValidationResult {
            compiles: val.compiles,
            tests_pass: val.tests_pass,
            warnings: val.warnings,
            error_message: val.error_message,
        }
    }
}

/// `path` joined with a relative `name`, as `Path::join` joins: with a
/// `/` between them unless `path` is empty or already ends with one.
pub open spec fn join_path(path: Seq<char>, name: Seq<char>) -> Seq<char> {
    if path.len() == 0 {
        name
    } else if path.last() == '/' {
        path + name
    } else {
        path + "/"@ + name
    }
}

/// A temporary git worktree in which a patch is applied and checked.
pub struct StagingArea {
    pub worktree_path: String,
    pub original_repo_path: String,
    /// Whether the worktree exists (and must be removed).
    pub is_created: bool,
}

impl StagingArea {
    /// Where the patch file is written: `patch.diff` in the worktree.
    pub fn patch_path(&self) -> (p: String)
        ensures
            p@ == join_path(self.worktree_path@, "patch.diff"@),
    {
        let w = self.worktree_path.as_str();
        let n = w.unicode_len();
        if n == 0 {
            String::from_str("patch.diff")
        } else if w.get_char(n - 1) == '/' {
            cat(w, "patch.diff")
        } else {
            let mut p = String::from_str(w);
            p.append("/");
            p.append("patch.diff");
            p
        }
    }

    /// May a patch be applied: only in a created worktree.
    pub fn check_apply(&self) -> (r: StagingResult<()>)
        ensures
            r is Ok <==> self.is_created,
            r matches Err(StagingError::PatchApply(m)) ==> m@ == "Staging area not created"@,
            r matches Err(e) ==> e is PatchApply,
    {
        if !self.is_created {
            return Err(StagingError::PatchApply(String::from_str("Staging area not created")));
        }
        Ok(())
    }

    /// May the worktree be validated: only when it is created.
    pub fn check_validate(&self) -> (r: StagingResult<()>)
        ensures
            r is Ok <==> self.is_created,
            r matches Err(StagingError::Validation(m)) ==> m@ == "Staging area not created"@,
            r matches Err(e) ==> e is Validation,
    {
        if !self.is_created {
            return Err(StagingError::Validation(String::from_str("Staging area not created")));
        }
        Ok(())
    }

    /// Whether cleaning up has anything to remove.
    pub fn needs_cleanup(&self) -> (r: bool)
        ensures
            r == self.is_created,
    {
        self.is_created
    }

    /// Records that the worktree is gone.
    pub fn mark_removed(&mut self)
        ensures
            !final(self).is_created,
            final(self).worktree_path == old(self).worktree_path,
            final(self).original_repo_path == old(self).original_repo_path,
    {
        self.is_created = false;
    }
}

/// Number of lines of `lines` that contain `warning:`.
pub open spec fn warning_lines(lines: Seq<Seq<char>>) -> nat
    decreases lines.len(),
{
    if lines.len() == 0 {
        0
    } else {
        warning_lines(lines.drop_last()) + if contains_seq(lines.last(), "warning:"@) { 1nat } else { 0nat }
    }
}

/// Number of lines of `text` that contain `warning:`, cut to 32 bits.
pub fn count_warnings(text: &str) -> (n: u32)
    ensures
        n == warning_lines(spec_lines(text@)) as u32,
{
    let lines = text_lines(text);
    let ghost ls = spec_lines(text@);
    let mut count: usize = 0;
    let mut i: usize = 0;
    while i < lines.len()
        invariant
            i <= lines@.len(),
            lines@.len() == ls.len(),
            forall|k: int| 0 <= k < lines@.len() ==> #[trigger] lines@[k]@ == ls[k],
            count == warning_lines(ls.take(i as int)),
            count <= i,
        decreases lines@.len() - i,
    {
        proof {
            assert(ls.take(i + 1).drop_last() =~= ls.take(i as int));
        }
        if str_contains(lines[i].as_str(), "warning:") {
            count = count + 1;
        }
        i = i + 1;
    }
    assert(ls.take(ls.len() as int) =~= ls);
    #[verifier::truncate] (count as u32)
}

/// What `cargo check` says of a patch: it compiles when the check
/// succeeded, with the warnings its output counts; else the check's error
/// output is the error. Tests are not run yet.
pub fn check_outcome(check_ok: bool, check_stdout: &str, check_stderr: &str) -> (r: PatchValidationResult)
    ensures
        r.compiles == check_ok,
        r.tests_pass,
        r.warnings == (if check_ok { warning_lines(spec_lines(check_stdout@)) as u32 } else { 0 }),
        opt_view(r.error_message) == (if check_ok { None } else { Some(check_stderr@) }),
{
    let mut r = PatchValidationResult::default();
    r.compiles = check_ok;
    if !check_ok {
        r.error_message = Some(String::from_str(check_stderr));
        return r;
    }
    r.warnings = count_warnings(check_stdout);
    r
}

/// What `cargo test` adds after a successful check: whether the tests
/// pass, and their error output when they do not.
pub fn test_outcome(checked: PatchValidationResult, test_ok: bool, test_stderr: &str) -> (r: PatchValidationResult)
    ensures
        r.compiles == checked.compiles,
        r.warnings == checked.warnings,
        r.tests_pass == test_ok,
        opt_view(r.error_message) == (if test_ok { opt_view(checked.error_message) } else { Some(test_stderr@) }),
{
    let mut r = checked;
    r.tests_pass = test_ok;
    if !test_ok {
        r.error_message = Some(String::from_str(test_stderr));
    }
    r
}

/// Settings of auto-patching.
pub struct PatchingConfig {
    /// Do not touch the repository: patches count as validated.
    pub dry_run: bool,
    pub allow_network_access: bool,
    /// Number of validated patches after which the batch stops.
    pub max_auto_patches: usize,
    pub staging_prefix: Option<String>,
}

impl Default for PatchingConfig {
    fn default() -> (c: Self)
        ensures
            !c.dry_run,
            !c.allow_network_access,
            c.max_auto_patches == 5,
            opt_view(c.staging_prefix) == Some("baco-auto-"@),
    {
        PatchingConfig {
            dry_run: false,
            allow_network_access: false,
            max_auto_patches: 5,
            staging_prefix: Some(String::from_str("baco-auto-")),
        }
    }
}

/// The patch proposed for `file_path`: a unified diff header for the
/// file, with an empty hunk.
pub open spec fn placeholder_diff(file_path: Seq<char>) -> Seq<char> {
    "--- a/"@ + file_path + "\n+++ b/"@ + file_path + "\n@@ -1,10 +1,10 @@\n\n"@
}

/// `c` is the candidate proposed for `file_path`.
pub open spec fn proposed(c: PatchCandidate, file_path: Seq<char>) -> bool {
    &&& c.diff@ == placeholder_diff(file_path)
    &&& c.file_path@ == file_path
    &&& !c.applied
    &&& c.validation_result is None
}

/// Status line of a patch report.
pub open spec fn report_status(v: PatchValidationResult) -> Seq<char> {
    if v.compiles && v.tests_pass {
        "✅ VALIDATED"@
    } else if v.compiles {
        "⚠️ COMPILES BUT TESTS FAILED"@
    } else {
        "❌ FAILED"@
    }
}

/// A patch report: file, status and diff; then the build errors when it
/// does not compile, the warning count when there are warnings, and the
/// test errors when tests fail with an error message.
pub open spec fn patch_report(c: PatchCandidate, v: PatchValidationResult) -> Seq<char> {
    let head = "Patch Report\n============\nFile: "@ + c.file_path@ + "\nStatus: "@ + report_status(v)
        + "\n\nDiff:\n"@ + c.diff@ + "\n"@;
    let build = if !v.compiles {
        "Build Errors:\n"@ + match v.error_message {
            Some(m) => m@,
            None => "Unknown error"@,
        } + "\n"@
    } else {
        Seq::empty()
    };
    let warnings = if v.warnings > 0 {
        "Warnings: "@ + dec(v.warnings as nat) + "\n"@
    } else {
        Seq::empty()
    };
    let tests = if !v.tests_pass && v.error_message is Some {
        "Test Errors:\n"@ + v.error_message->0@ + "\n"@
    } else {
        Seq::empty()
    };
    head + build + warnings + tests
}

/// The validation of a patch from the staging steps: a failed apply, or a
/// validation that could not run, is a failure with the reason.
pub open spec fn concluded(
    r: PatchValidationResult,
    apply: StagingResult<()>,
    validation: StagingResult<PatchValidationResult>,
) -> bool {
    match apply {
        Err(e) => !r.compiles && !r.tests_pass && r.warnings == 0
            && opt_view(r.error_message) == Some("Patch application failed: "@ + staging_message(e)),
        Ok(_) => match validation {
            Ok(v) => r == v,
            Err(e) => !r.compiles && !r.tests_pass && r.warnings == 0
                && opt_view(r.error_message) == Some("Validation failed: "@ + staging_message(e)),
        },
    }
}

/// The findings that have a code snippet, in order.
pub open spec fn with_snippets(fs: Seq<VulnerabilityFinding>) -> Seq<VulnerabilityFinding>
    decreases fs.len(),
{
    if fs.len() == 0 {
        Seq::empty()
    } else {
        let prev = with_snippets(fs.drop_last());
        if fs.last().code_snippet is Some {
            prev.push(fs.last())
        } else {
            prev
        }
    }
}

/// The patch compiles and its tests pass.
pub open spec fn patch_validated(v: PatchValidationResult) -> bool {
    v.compiles && v.tests_pass
}

/// Number of validated patches among `vs`.
pub open spec fn count_validated(vs: Seq<PatchValidationResult>) -> nat
    decreases vs.len(),
{
    if vs.len() == 0 {
        0
    } else {
        count_validated(vs.drop_last()) + if patch_validated(vs.last()) { 1nat } else { 0nat }
    }
}

/// `vs[i]` is what validating the patch for the `i`-th finding gave: in a
/// dry run a success without warnings, else something `validate` may
/// return for the proposed candidate.
pub open spec fn validation_of<F: Fn(&PatchCandidate) -> AutoPatchResult<PatchValidationResult>>(
    v: PatchValidationResult,
    f: VulnerabilityFinding,
    dry_run: bool,
    validate: F,
) -> bool {
    if dry_run {
        v.compiles && v.tests_pass && v.warnings == 0 && v.error_message is None
    } else {
        exists|c: &PatchCandidate| proposed(*c, f.file_path@) && #[trigger] call_ensures(validate, (c,), Ok(v))
    }
}

/// `out` is what a batch over `fs` gives, the patches having validated as
/// `vs`: the findings with a snippet, in order, up to the one whose patch
/// was the last needed to reach the cap of validated patches.
pub open spec fn batch_outcome<F: Fn(&PatchCandidate) -> AutoPatchResult<PatchValidationResult>>(
    out: Seq<VulnerabilityFinding>,
    fs: Seq<VulnerabilityFinding>,
    cap: usize,
    dry_run: bool,
    vs: Seq<PatchValidationResult>,
    validate: F,
) -> bool {
    let snip = with_snippets(fs);
    &&& out.len() == vs.len()
    &&& out.len() <= snip.len()
    &&& forall|i: int| 0 <= i < out.len() ==> same_finding(#[trigger] out[i], snip[i])
    &&& forall|i: int| 0 <= i < vs.len() ==> validation_of(#[trigger] vs[i], snip[i], dry_run, validate)
    &&& forall|i: int| 0 <= i <= vs.len() ==> (i < vs.len() ==> count_validated(#[trigger] vs.take(i)) < cap)
    &&& out.len() < snip.len() ==> count_validated(vs) >= cap
}

/// `vs` are the validations of the snippet findings of `fs` before the one
/// whose validation failed with `e`: fewer than `cap` of them validated,
/// and validating the patch proposed for the next snippet finding could
/// give `e`.
pub open spec fn failed_after<F: Fn(&PatchCandidate) -> AutoPatchResult<PatchValidationResult>>(
    vs: Seq<PatchValidationResult>,
    e: AutoPatchError,
    fs: Seq<VulnerabilityFinding>,
    cap: usize,
    validate: F,
) -> bool {
    let snip = with_snippets(fs);
    &&& vs.len() < snip.len()
    &&& forall|i: int| 0 <= i <= vs.len() ==> count_validated(#[trigger] vs.take(i)) < cap
    &&& forall|i: int| 0 <= i < vs.len() ==> validation_of(#[trigger] vs[i], snip[i], false, validate)
    &&& exists|c: &PatchCandidate| proposed(*c, snip[vs.len() as int].file_path@)
        && #[trigger] call_ensures(validate, (c,), Err(e))
}

/// Generates, validates and reports patches for a repository.
pub struct AutoPatcher {
    pub repo_path: String,
}

impl AutoPatcher {
    /// A patcher for the repository at `repo_path`.
    pub fn new(repo_path: String) -> (p: Self)
        ensures
            p.repo_path == repo_path,
    {
        AutoPatcher { repo_path }
    }

    /// The patch proposed for a finding in `file_path`: a unified diff
    /// header for the file with an empty hunk, to be filled by a model.
    pub fn generate_patch(&self, vulnerability_description: &str, vulnerable_code: &str, file_path: &str) -> (r: AutoPatchResult<PatchCandidate>)
        ensures
            r matches Ok(c) && proposed(c, file_path@),
    {
        let mut diff = String::from_str("--- a/");
        diff.append(file_path);
        diff.append("\n+++ b/");
        diff.append(file_path);
        diff.append("\n@@ -1,10 +1,10 @@\n\n");
        Ok(PatchCandidate::new(diff.as_str(), file_path))
    }

    /// The report of a validated (or failed) patch.
    pub fn format_patch_report(&self, candidate: &PatchCandidate, validation: &PatchValidationResult) -> (s: String)
        ensures
            s@ == patch_report(*candidate, *validation),
    {
        let status: &str = if validation.compiles && validation.tests_pass {
            "✅ VALIDATED"
        } else if validation.compiles {
            "⚠️ COMPILES BUT TESTS FAILED"
        } else {
            "❌ FAILED"
        };
        let mut report = String::from_str("Patch Report\n============\nFile: ");
        report.append(candidate.file_path.as_str());
        report.append("\nStatus: ");
        report.append(status);
        report.append("\n\nDiff:\n");
        report.append(candidate.diff.as_str());
        report.append("\n");
        let ghost head = report@;
        if !validation.compiles {
            report.append("Build Errors:\n");
            match &validation.error_message {
                Some(m) => report.append(m.as_str()),
                None => report.append("Unknown error"),
            }
            report.append("\n");
        }
        let ghost with_build = report@;
        if validation.warnings > 0 {
            report.append("Warnings: ");
            let d = decimal(validation.warnings as u64);
            report.append(d.as_str());
            report.append("\n");
        }
        let ghost with_warnings = report@;
        if !validation.tests_pass && validation.error_message.is_some() {
            report.append("Test Errors:\n");
            match &validation.error_message {
                Some(m) => report.append(m.as_str()),
                None => {},
            }
            report.append("\n");
        }
        proof {
            assert(report@ =~= patch_report(*candidate, *validation));
        }
        report
    }

    /// The validation of a patch from the staging steps: the apply's
    /// error, or the validation's error, makes a failure with the reason.
    pub fn conclude_validation(apply: &StagingResult<()>, validation: StagingResult<PatchValidationResult>) -> (r: PatchValidationResult)
        ensures
            concluded(r, *apply, validation),
    {
        match apply {
            Err(e) => {
                let m = cat("Patch application failed: ", e.message().as_str());
                PatchValidationResult::failure(m.as_str())
            },
            Ok(_) => match validation {
                Ok(v) => v,
                Err(e) => {
                    let m = cat("Validation failed: ", e.message().as_str());
                    PatchValidationResult::failure(m.as_str())
                },
            },
        }
    }

    /// Auto-patches findings one by one: those without a code snippet are
    /// skipped; for each other, a patch is proposed and validated (in a
    /// dry run it counts as validated) and the finding is kept either way;
    /// the batch stops once `max_auto_patches` patches validated. A
    /// validation that cannot run ends the batch with its error.
    pub fn execute_batch<F: Fn(&PatchCandidate) -> AutoPatchResult<PatchValidationResult>>(
        &self,
        findings: &[VulnerabilityFinding],
        config: &PatchingConfig,
        validate: &F,
    ) -> (r: AutoPatchResult<Vec<VulnerabilityFinding>>)
        requires
            forall|c: &PatchCandidate| #[trigger] call_requires(*validate, (c,)),
        ensures
            (config.dry_run || config.max_auto_patches == 0 || with_snippets(findings@).len() == 0) ==> r is Ok,
            match r {
                Ok(out) => exists|vs: Seq<PatchValidationResult>|
                    #[trigger] batch_outcome(out@, findings@, config.max_auto_patches, config.dry_run, vs, *validate),
                Err(e) => !config.dry_run && exists|vs: Seq<PatchValidationResult>|
                    #[trigger] failed_after(vs, e, findings@, config.max_auto_patches, *validate),
            },
    {
        let ghost snip_all = with_snippets(findings@);
        let mut out: Vec<VulnerabilityFinding> = Vec::new();
        let ghost mut vs: Seq<PatchValidationResult> = Seq::empty();
        let mut patch_count: usize = 0;
        let mut i: usize = 0;
        while i < findings.len() && patch_count < config.max_auto_patches
            invariant
                i <= findings@.len(),
                snip_all == with_snippets(findings@),
                forall|c: &PatchCandidate| #[trigger] call_requires(*validate, (c,)),
                out@.len() == vs.len(),
                patch_count == count_validated(vs),
                patch_count <= vs.len(),
                out@.len() == with_snippets(findings@.take(i as int)).len(),
                forall|k: int| 0 <= k < out@.len() ==> same_finding(#[trigger] out@[k], with_snippets(findings@.take(i as int))[k]),
                forall|k: int| 0 <= k < vs.len() ==> validation_of(#[trigger] vs[k], with_snippets(findings@.take(i as int))[k], config.dry_run, *validate),
                forall|k: int| 0 <= k <= vs.len() ==> (k < vs.len() ==> count_validated(#[trigger] vs.take(k)) < config.max_auto_patches),
            decreases findings@.len() - i,
        {
            let f = &findings[i];
            proof {
                assert(findings@.take(i + 1).drop_last() =~= findings@.take(i as int));
                assert(findings@.take(i + 1).last() == *f);
            }
            if f.code_snippet.is_some() {
                let patch = match self.generate_patch(f.title.as_str(), "", f.file_path.as_str()) {
                    Ok(p) => p,
                    Err(e) => {
                        return Err(e);
                    },
                };
                let validation = if config.dry_run {
                    PatchValidationResult::default()
                } else {
                    match validate(&patch) {
                        Ok(v) => v,
                        Err(e) => {
                            proof {
                                let pre = with_snippets(findings@.take(i as int));
                                assert(with_snippets(findings@.take(i + 1)) =~= pre.push(*f));
                                lemma_snippets_prefix(findings@, i as int, findings@.len() as int);
                                lemma_snippets_prefix(findings@, i + 1, findings@.len() as int);
                                assert(findings@.take(findings@.len() as int) =~= findings@);
                                let nxt = with_snippets(findings@.take(i + 1));
                                assert(nxt[pre.len() as int] == *f);
                                assert(vs.len() == pre.len());
                                assert(nxt[vs.len() as int] == snip_all[vs.len() as int]);
                                assert(snip_all[vs.len() as int] == *f);
                                assert forall|k: int| 0 <= k < vs.len() implies validation_of(#[trigger] vs[k], snip_all[k], false, *validate) by {
                                    assert(pre[k] == snip_all[k]);
                                }
                                assert(vs.take(vs.len() as int) =~= vs);
                                assert(proposed(patch, snip_all[vs.len() as int].file_path@) && call_ensures(*validate, (&patch,), Err(e)));
                                assert(failed_after(vs, e, findings@, config.max_auto_patches, *validate));
                            }
                            return Err(e);
                        },
                    }
                };
                let ghost old_vs = vs;
                proof {
                    vs = vs.push(validation);
                    assert(vs.drop_last() =~= old_vs);
                    assert(vs.take(old_vs.len() as int) =~= old_vs);
                    assert forall|k: int| 0 <= k < old_vs.len() implies #[trigger] vs.take(k) == old_vs.take(k) by {
                        assert(vs.take(k) =~= old_vs.take(k));
                    }
                }
                if validation.compiles && validation.tests_pass {
                    patch_count = patch_count + 1;
                }
                out.push(f.duplicate());
            }
            i = i + 1;
        }
        proof {
            lemma_snippets_prefix(findings@, i as int, findings@.len() as int);
            assert(findings@.take(findings@.len() as int) =~= findings@);
            let pre = with_snippets(findings@.take(i as int));
            assert forall|k: int| 0 <= k < out@.len() implies same_finding(#[trigger] out@[k], snip_all[k]) by {
                assert(pre[k] == snip_all[k]);
            }
            assert forall|k: int| 0 <= k < vs.len() implies validation_of(#[trigger] vs[k], snip_all[k], config.dry_run, *validate) by {
                assert(pre[k] == snip_all[k]);
            }
            assert(batch_outcome(out@, findings@, config.max_auto_patches, config.dry_run, vs, *validate));
            assert(exists|w: Seq<PatchValidationResult>| #[trigger] batch_outcome(out@, findings@, config.max_auto_patches, config.dry_run, w, *validate));
        }
        let r: AutoPatchResult<Vec<VulnerabilityFinding>> = Ok(out);
        proof {
            assert(r matches Ok(o) && o@ == out@);
            match &r {
                Ok(o) => {
                    assert(exists|w: Seq<PatchValidationResult>| #[trigger] batch_outcome(o@, findings@, config.max_auto_patches, config.dry_run, w, *validate));
                },
                Err(_) => {},
            }
        }
        r
    }
}

/// The snippet findings of a shorter prefix are a prefix of those of a
/// longer one.
pub proof fn lemma_snippets_prefix(fs: Seq<VulnerabilityFinding>, i: int, j: int)
    requires
        0 <= i <= j <= fs.len(),
    ensures
        with_snippets(fs.take(i)).len() <= with_snippets(fs.take(j)).len(),
        forall|k: int| 0 <= k < with_snippets(fs.take(i)).len()
            ==> #[trigger] with_snippets(fs.take(i))[k] == with_snippets(fs.take(j))[k],
    decreases j - i,
{
    if i < j {
        lemma_snippets_prefix(fs, i, j - 1);
        assert(fs.take(j).drop_last() =~= fs.take(j - 1));
    }
}

/// Counting validated patches over a prefix: one more element adds at
/// most one, and in a dry run every patch counts.
pub proof fn lemma_count_validated_step(vs: Seq<PatchValidationResult>, i: int)
    requires
        0 <= i < vs.len(),
    ensures
        count_validated(vs.take(i + 1)) <= count_validated(vs.take(i)) + 1,
        patch_validated(vs[i]) ==> count_validated(vs.take(i + 1)) == count_validated(vs.take(i)) + 1,
{
    assert(vs.take(i + 1).drop_last() =~= vs.take(i));
}

/// A batch never validates more patches than its cap.
pub proof fn law_batch_respects_cap<F: Fn(&PatchCandidate) -> AutoPatchResult<PatchValidationResult>>(
    out: Seq<VulnerabilityFinding>,
    fs: Seq<VulnerabilityFinding>,
    cap: usize,
    dry_run: bool,
    vs: Seq<PatchValidationResult>,
    validate: F,
)
    requires
        batch_outcome(out, fs, cap, dry_run, vs, validate),
    ensures
        count_validated(vs) <= cap,
{
    if vs.len() > 0 {
        let n = vs.len() - 1;
        assert(count_validated(vs.take(n)) < cap);
        lemma_count_validated_step(vs, n);
        assert(vs.take(n + 1) =~= vs);
    }
}

/// In a dry run every patch counts as validated, so the batch keeps the
/// first `cap` findings with a snippet (all of them when there are fewer).
pub proof fn law_dry_run_keeps_first_cap<F: Fn(&PatchCandidate) -> AutoPatchResult<PatchValidationResult>>(
    out: Seq<VulnerabilityFinding>,
    fs: Seq<VulnerabilityFinding>,
    cap: usize,
    vs: Seq<PatchValidationResult>,
    validate: F,
)
    requires
        batch_outcome(out, fs, cap, true, vs, validate),
    ensures
        out.len() == (if with_snippets(fs).len() < cap { with_snippets(fs).len() } else { cap as nat }),
{
    assert forall|i: int| 0 <= i <= vs.len() implies #[trigger] count_validated(vs.take(i)) == i by {
        lemma_dry_count(vs, i);
    }
    assert(vs.take(vs.len() as int) =~= vs);
    if vs.len() > 0 {
        assert(count_validated(vs.take(vs.len() - 1)) < cap);
    }
}

/// A patch counts toward the cap only when it compiles and its tests pass:
/// where no validation of a batch has both, the batch never stops early and
/// keeps every finding with a snippet, in order.
pub proof fn law_only_passing_patches_count<F: Fn(&PatchCandidate) -> AutoPatchResult<PatchValidationResult>>(
    out: Seq<VulnerabilityFinding>,
    fs: Seq<VulnerabilityFinding>,
    cap: usize,
    dry_run: bool,
    vs: Seq<PatchValidationResult>,
    validate: F,
)
    requires
        batch_outcome(out, fs, cap, dry_run, vs, validate),
        cap > 0,
        forall|i: int| 0 <= i < vs.len() ==> !((#[trigger] vs[i]).compiles && vs[i].tests_pass),
    ensures
        out.len() == with_snippets(fs).len(),
        forall|i: int| 0 <= i < out.len() ==> same_finding(#[trigger] out[i], with_snippets(fs)[i]),
{
    lemma_none_passing(vs);
}

/// Where no validation compiles with passing tests, none counts.
proof fn lemma_none_passing(vs: Seq<PatchValidationResult>)
    requires
        forall|i: int| 0 <= i < vs.len() ==> !((#[trigger] vs[i]).compiles && vs[i].tests_pass),
    ensures
        count_validated(vs) == 0,
    decreases vs.len(),
{
    if vs.len() > 0 {
        let t = vs.drop_last();
        assert forall|i: int| 0 <= i < t.len() implies !((#[trigger] t[i]).compiles && t[i].tests_pass) by {
            assert(t[i] == vs[i]);
        }
        lemma_none_passing(t);
        assert(!(vs[vs.len() - 1].compiles && vs[vs.len() - 1].tests_pass));
    }
}

/// In a dry run the count of validated patches over a prefix is its length.
proof fn lemma_dry_count(vs: Seq<PatchValidationResult>, i: int)
    requires
        0 <= i <= vs.len(),
        forall|k: int| 0 <= k < vs.len() ==> patch_validated(#[trigger] vs[k]),
    ensures
        count_validated(vs.take(i)) == i,
    decreases i,
{
    if i > 0 {
        lemma_dry_count(vs, i - 1);
        lemma_count_validated_step(vs, i - 1);
    }
}

/// A validation in the form a candidate records it.
pub open spec fn recorded_form(v: PatchValidationResult) -> types::PatchValidationResult {
    types::PatchValidationResult {
        compiles: v.compiles,
        tests_pass: v.tests_pass,
        warnings: v.warnings,
        error_message: v.error_message,
    }
}

impl AutoPatcher {
    /// Whether a validated patch's changes are kept in the worktree: it
    /// compiles and its tests pass.
    pub fn keeps_patch(validation: &PatchValidationResult) -> (r: bool)
        ensures
            r == (validation.compiles && validation.tests_pass),
    {
        validation.compiles && validation.tests_pass
    }

    /// The validation of a patch that could not be applied.
    pub fn apply_failure(e: &StagingError) -> (r: PatchValidationResult)
        ensures
            !r.compiles,
            !r.tests_pass,
            r.warnings == 0,
            opt_view(r.error_message) == Some("Apply failed: "@ + staging_message(*e)),
    {
        let m = cat("Apply failed: ", e.message().as_str());
        PatchValidationResult::failure(m.as_str())
    }

    /// Records a validation in `candidate`: the candidate keeps the
    /// validation and counts as applied once a kept patch's changes stay.
    pub fn record_validation(candidate: &mut PatchCandidate, validation: &PatchValidationResult)
        ensures
            final(candidate).validation_result == Some(recorded_form(*validation)),
            final(candidate).applied == (old(candidate).applied || (validation.compiles && validation.tests_pass)),
            final(candidate).diff == old(candidate).diff,
            final(candidate).file_path == old(candidate).file_path,
    {
        if validation.compiles && validation.tests_pass {
            candidate.applied = true;
        }
        let recorded = types::PatchValidationResult {
            compiles: validation.compiles,
            tests_pass: validation.tests_pass,
            warnings: validation.warnings,
            error_message: crate::finding::copy_opt_string(&validation.error_message),
        };
        candidate.validation_result = Some(recorded);
    }
}

} // verus!
