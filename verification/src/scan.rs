//! The scan's decisions around the phases it runs: which parallel phases
//! to launch, how their results join the findings, what each sequential
//! step does, and when the scan stops early.

use vstd::prelude::*;
use crate::finding::{copy_findings, copy_strings, same_finding, severity_rank, strings_view, VulnerabilityFinding};
use crate::phase::{
    is_core_phase, position, spec_all, spec_experimental, spec_is_core, spec_progress_message,
    PhaseSpec, ScanPhase, ScanPipelineProfile,
};
use crate::text::{dec, decimal};
use crate::types::{CveEntry, ProjectStack};

verus! {

/// Findings and analyzed files a phase returns, or why it failed.
pub type PhaseResult = Result<(Vec<VulnerabilityFinding>, Vec<String>), String>;

/// A finding rejected by verification, with the reason.
pub type RejectedFinding = (VulnerabilityFinding, String);

/// What the scanner publishes while it runs.
pub struct ScannerState {
    pub findings: Vec<VulnerabilityFinding>,
    pub current_phase: ScanPhase,
    pub files_scanned: usize,
    pub errors: Vec<String>,
    pub cve_entries: Vec<CveEntry>,
    pub project_stack: Option<ProjectStack>,
    pub rejected_findings: Vec<RejectedFinding>,
}

impl ScannerState {
    /// The state of a scan that starts with `findings`: at indexing,
    /// nothing scanned, no errors.
    pub fn initial(findings: Vec<VulnerabilityFinding>) -> (s: Self)
        ensures
            s.findings == findings,
            s.current_phase == ScanPhase::Indexing,
            s.files_scanned == 0,
            s.errors@.len() == 0,
            s.cve_entries@.len() == 0,
            s.project_stack is None,
            s.rejected_findings@.len() == 0,
    {
        ScannerState {
            findings,
            current_phase: ScanPhase::Indexing,
            files_scanned: 0,
            errors: Vec::new(),
            cve_entries: Vec::new(),
            project_stack: None,
            rejected_findings: Vec::new(),
        }
    }
}

/// What the parallel phases produced.
pub struct ParallelPhaseResult {
    pub indexing_findings: Vec<VulnerabilityFinding>,
    pub semgrep_findings: Vec<VulnerabilityFinding>,
    pub llm_static_findings: Vec<VulnerabilityFinding>,
    pub analyzed_files: Vec<String>,
    pub duration: std::time::Duration,
}

/// Why and where a scan stopped early.
pub struct EarlyTerminationInfo {
    pub triggered: bool,
    pub finding_count: usize,
    pub phases_skipped: Vec<String>,
}

/// The findings of a successful phase result, none otherwise.
pub open spec fn ok_findings(r: Option<PhaseResult>) -> Seq<VulnerabilityFinding> {
    match r {
        Some(Ok(p)) => p.0@,
        _ => Seq::empty(),
    }
}

/// `out` holds the findings of `base`, then copies of those of `extra`.
pub open spec fn extended_by(out: Seq<VulnerabilityFinding>, base: Seq<VulnerabilityFinding>, extra: Seq<VulnerabilityFinding>) -> bool {
    &&& out.len() == base.len() + extra.len()
    &&& forall|i: int| 0 <= i < base.len() ==> out[i] == base[i]
    &&& forall|j: int| 0 <= j < extra.len() ==> same_finding(#[trigger] out[base.len() + j], extra[j])
}

/// Adds the LLM static analysis result: on success its findings are
/// appended and its analyzed files replace the current ones; a failure or
/// no result changes nothing.
pub fn log_and_aggregate_llm_results(
    llm_static_result: &Option<PhaseResult>,
    findings: &mut Vec<VulnerabilityFinding>,
    analyzed_files: &mut Vec<String>,
)
    ensures
        extended_by(final(findings)@, old(findings)@, ok_findings(*llm_static_result)),
        match *llm_static_result {
            Some(Ok(p)) => final(analyzed_files)@ == p.1@,
            _ => final(analyzed_files)@ == old(analyzed_files)@,
        },
{
    match llm_static_result {
        Some(Ok((llm_findings, new_files))) => {
            let ghost base = findings@;
            let mut copies = copy_findings(llm_findings);
            findings.append(&mut copies);
            *analyzed_files = copy_strings(new_files);
        },
        _ => {
            assert(ok_findings(*llm_static_result) =~= Seq::<VulnerabilityFinding>::empty());
        },
    }
}

/// Appends the findings of a successful result.
fn append_ok(findings: &mut Vec<VulnerabilityFinding>, result: Option<PhaseResult>)
    ensures
        final(findings)@ == old(findings)@ + ok_findings(result),
{
    match result {
        Some(Ok((mut fs, _))) => {
            findings.append(&mut fs);
        },
        _ => {
            assert(old(findings)@ + ok_findings(result) =~= old(findings)@);
        },
    }
}

/// Joins the parallel results: the indexing and semgrep findings are
/// appended (when those phases succeeded), then the LLM static analysis
/// result, whose analyzed files become the list returned.
pub fn combine_parallel_results(
    findings: Vec<VulnerabilityFinding>,
    indexing_result: Option<PhaseResult>,
    semgrep_result: Option<PhaseResult>,
    llm_static_result: Option<PhaseResult>,
) -> (r: (Vec<VulnerabilityFinding>, Vec<String>))
    ensures
        extended_by(r.0@, findings@ + ok_findings(indexing_result) + ok_findings(semgrep_result), ok_findings(llm_static_result)),
        match llm_static_result {
            Some(Ok(p)) => r.1@ == p.1@,
            _ => r.1@.len() == 0,
        },
{
    let mut findings = findings;
    let mut analyzed_files: Vec<String> = Vec::new();
    append_ok(&mut findings, indexing_result);
    append_ok(&mut findings, semgrep_result);
    log_and_aggregate_llm_results(&llm_static_result, &mut findings, &mut analyzed_files);
    (findings, analyzed_files)
}

/// Joins the results of the scan's parallel step: indexing, semgrep and
/// CPG slicing findings in that order, then the LLM static analysis result
/// with its analyzed files.
pub fn merge_parallel_results(
    findings: Vec<VulnerabilityFinding>,
    analyzed_files: Vec<String>,
    indexing_result: Option<PhaseResult>,
    semgrep_result: Option<PhaseResult>,
    cpg_slice_result: Option<PhaseResult>,
    llm_static_result: Option<PhaseResult>,
) -> (r: (Vec<VulnerabilityFinding>, Vec<String>))
    ensures
        extended_by(r.0@, findings@ + ok_findings(indexing_result) + ok_findings(semgrep_result)
            + ok_findings(cpg_slice_result), ok_findings(llm_static_result)),
        match llm_static_result {
            Some(Ok(p)) => r.1@ == p.1@,
            _ => r.1@ == analyzed_files@,
        },
{
    let mut findings = findings;
    let mut analyzed_files = analyzed_files;
    append_ok(&mut findings, indexing_result);
    append_ok(&mut findings, semgrep_result);
    append_ok(&mut findings, cpg_slice_result);
    log_and_aggregate_llm_results(&llm_static_result, &mut findings, &mut analyzed_files);
    (findings, analyzed_files)
}

/// Whether `phases` lists `p`.
pub fn phase_listed(phases: &[ScanPhase], p: &ScanPhase) -> (r: bool)
    ensures
        r == phases@.contains(*p),
{
    let mut i: usize = 0;
    while i < phases.len()
        invariant
            i <= phases@.len(),
            forall|k: int| 0 <= k < i ==> phases@[k] != *p,
        decreases phases@.len() - i,
    {
        if phases[i] == *p {
            assert(phases@[i as int] == *p);
            return true;
        }
        i = i + 1;
    }
    false
}

/// Which parallel phases to launch.
pub struct ParallelPlan {
    pub run_indexing: bool,
    pub run_semgrep: bool,
    pub run_llm_static: bool,
    /// Take the LLM static analysis findings from the checkpoint instead.
    pub reuse_llm_checkpoint: bool,
    pub run_cpg_slice: bool,
}

/// Some checkpoint finding has a description.
pub open spec fn has_valid_findings(fs: Seq<VulnerabilityFinding>) -> bool {
    exists|i: int| 0 <= i < fs.len() && #[trigger] fs[i].description@.len() > 0
}

/// Which parallel phases to launch: those not completed before; the LLM
/// static analysis also when its checkpointed findings all lack a
/// description (or there are none); CPG slicing never in the core profile.
pub fn plan_parallel(
    completed_phases: &[ScanPhase],
    profile: &ScanPipelineProfile,
    checkpoint_findings: &[VulnerabilityFinding],
) -> (p: ParallelPlan)
    ensures
        p.run_indexing == !completed_phases@.contains(ScanPhase::Indexing),
        p.run_semgrep == !completed_phases@.contains(ScanPhase::Semgrep),
        p.run_llm_static == (!completed_phases@.contains(ScanPhase::LlmStaticAnalysis)
            || !has_valid_findings(checkpoint_findings@)),
        p.reuse_llm_checkpoint == !p.run_llm_static,
        p.run_cpg_slice == (*profile != ScanPipelineProfile::Core
            && !completed_phases@.contains(ScanPhase::CpgSlice)),
{
    let mut valid = false;
    let mut i: usize = 0;
    while i < checkpoint_findings.len()
        invariant
            i <= checkpoint_findings@.len(),
            valid == exists|k: int| 0 <= k < i && #[trigger] checkpoint_findings@[k].description@.len() > 0,
        decreases checkpoint_findings@.len() - i,
    {
        if !checkpoint_findings[i].description.as_str().is_empty() {
            valid = true;
        }
        i = i + 1;
    }
    let run_llm_static = !phase_listed(completed_phases, &ScanPhase::LlmStaticAnalysis) || !valid;
    let core = match profile {
        ScanPipelineProfile::Core => true,
        ScanPipelineProfile::All => false,
    };
    ParallelPlan {
        run_indexing: !phase_listed(completed_phases, &ScanPhase::Indexing),
        run_semgrep: !phase_listed(completed_phases, &ScanPhase::Semgrep),
        run_llm_static,
        reuse_llm_checkpoint: !run_llm_static,
        run_cpg_slice: !core && !phase_listed(completed_phases, &ScanPhase::CpgSlice),
    }
}

/// The name of a phase as written in logs and reports.
pub open spec fn phase_name(p: ScanPhase) -> Seq<char> {
    match p {
        ScanPhase::Indexing => "Indexing"@,
        ScanPhase::Semgrep => "Semgrep"@,
        ScanPhase::CweRouting => "CweRouting"@,
        ScanPhase::CpgSlice => "CpgSlice"@,
        ScanPhase::LlmStaticAnalysis => "LlmStaticAnalysis"@,
        ScanPhase::LlmDiscovery => "LlmDiscovery"@,
        ScanPhase::LlmVerification => "LlmVerification"@,
        ScanPhase::TicketCrossRef => "TicketCrossRef"@,
        ScanPhase::GitAnalysis => "GitAnalysis"@,
        ScanPhase::CrossFileAnalysis => "CrossFileAnalysis"@,
        ScanPhase::ConfidenceScoring => "ConfidenceScoring"@,
        ScanPhase::AiAggregation => "AiAggregation"@,
        ScanPhase::Reporting => "Reporting"@,
        ScanPhase::ThreatModeling => "ThreatModeling"@,
        ScanPhase::RootCauseDedup => "RootCauseDedup"@,
        ScanPhase::MultiVerifier => "MultiVerifier"@,
        ScanPhase::AutoPatching => "AutoPatching"@,
        ScanPhase::CveBootstrap => "CveBootstrap"@,
        ScanPhase::PocCompiler => "PocCompiler"@,
        ScanPhase::VariantSearch => "VariantSearch"@,
        ScanPhase::SecurityAgentVerification => "SecurityAgentVerification"@,
        ScanPhase::RuleSynthesis => "RuleSynthesis"@,
        ScanPhase::Validate => "Validate"@,
        ScanPhase::ExploitSynth => "ExploitSynth"@,
        ScanPhase::Complete => "Complete"@,
        ScanPhase::Error => "Error"@,
    }
}

/// The name of a phase.
pub fn phase_name_of(p: &ScanPhase) -> (s: &'static str)
    ensures
        s@ == phase_name(*p),
{
    match p {
        ScanPhase::Indexing => "Indexing",
        ScanPhase::Semgrep => "Semgrep",
        ScanPhase::CweRouting => "CweRouting",
        ScanPhase::CpgSlice => "CpgSlice",
        ScanPhase::LlmStaticAnalysis => "LlmStaticAnalysis",
        ScanPhase::LlmDiscovery => "LlmDiscovery",
        ScanPhase::LlmVerification => "LlmVerification",
        ScanPhase::TicketCrossRef => "TicketCrossRef",
        ScanPhase::GitAnalysis => "GitAnalysis",
        ScanPhase::CrossFileAnalysis => "CrossFileAnalysis",
        ScanPhase::ConfidenceScoring => "ConfidenceScoring",
        ScanPhase::AiAggregation => "AiAggregation",
        ScanPhase::Reporting => "Reporting",
        ScanPhase::ThreatModeling => "ThreatModeling",
        ScanPhase::RootCauseDedup => "RootCauseDedup",
        ScanPhase::MultiVerifier => "MultiVerifier",
        ScanPhase::AutoPatching => "AutoPatching",
        ScanPhase::CveBootstrap => "CveBootstrap",
        ScanPhase::PocCompiler => "PocCompiler",
        ScanPhase::VariantSearch => "VariantSearch",
        ScanPhase::SecurityAgentVerification => "SecurityAgentVerification",
        ScanPhase::RuleSynthesis => "RuleSynthesis",
        ScanPhase::Validate => "Validate",
        ScanPhase::ExploitSynth => "ExploitSynth",
        ScanPhase::Complete => "Complete",
        ScanPhase::Error => "Error",
    }
}

/// The names of a list of phases.
pub open spec fn names_of(ps: Seq<ScanPhase>) -> Seq<Seq<char>> {
    ps.map_values(|p: ScanPhase| phase_name(p))
}

/// The names of a list of phases, as strings.
pub fn phase_names(ps: &Vec<ScanPhase>) -> (v: Vec<String>)
    ensures
        strings_view(v@) == names_of(ps@),
{
    let mut v: Vec<String> = Vec::new();
    let mut i: usize = 0;
    while i < ps.len()
        invariant
            i <= ps@.len(),
            strings_view(v@) == names_of(ps@.take(i as int)),
        decreases ps@.len() - i,
    {
        let ghost before = v@;
        v.push(String::from_str(phase_name_of(&ps[i])));
        proof {
            assert(strings_view(v@) =~= strings_view(before).push(phase_name(ps@[i as int])));
            assert(names_of(ps@.take(i + 1)) =~= names_of(ps@.take(i as int)).push(phase_name(ps@[i as int])));
        }
        i = i + 1;
    }
    assert(ps@.take(ps@.len() as int) =~= ps@);
    v
}

/// The names of the experimental phases, for logging what the core
/// profile leaves out.
pub fn experimental_phase_names() -> (v: Vec<String>)
    ensures
        strings_view(v@) == names_of(spec_experimental()),
{
    phase_names(&PhaseSpec::experimental_phases())
}

/// The sequential phases, in order.
pub fn sequential_phases() -> (v: Vec<ScanPhase>)
    ensures
        v@ == spec_all().subrange(4, 24),
{
    PhaseSpec::sequential()
}

/// What a sequential step does with its phase.
#[derive(Debug, Clone, Copy, PartialEq, Eq, Structural)]
pub enum StepAction {
    /// Completed in an earlier run.
    SkipCompleted,
    /// Left out by the core profile (recorded as done in the checkpoint).
    SkipProfile,
    Run,
}

/// What a sequential step does: skip a phase completed before; under the
/// core profile, skip one that is not core; else run it.
pub open spec fn spec_step_action(p: ScanPhase, completed: Seq<ScanPhase>, profile: ScanPipelineProfile) -> StepAction {
    if completed.contains(p) {
        StepAction::SkipCompleted
    } else if profile == ScanPipelineProfile::Core && !spec_is_core(p) {
        StepAction::SkipProfile
    } else {
        StepAction::Run
    }
}

/// What a sequential step does with `phase`.
pub fn step_action(phase: &ScanPhase, completed_phases: &[ScanPhase], profile: &ScanPipelineProfile) -> (a: StepAction)
    ensures
        a == spec_step_action(*phase, completed_phases@, *profile),
{
    if phase_listed(completed_phases, phase) {
        StepAction::SkipCompleted
    } else if *profile == ScanPipelineProfile::Core && !is_core_phase(phase) {
        StepAction::SkipProfile
    } else {
        StepAction::Run
    }
}

/// The text a sequential step shows for its phase: the phase's progress
/// message, or its name for rule synthesis, validation, exploit synthesis
/// and phases outside the sequential list.
pub open spec fn step_text(p: ScanPhase) -> Seq<char> {
    match p {
        ScanPhase::CweRouting | ScanPhase::LlmDiscovery | ScanPhase::LlmVerification
        | ScanPhase::SecurityAgentVerification | ScanPhase::TicketCrossRef | ScanPhase::GitAnalysis
        | ScanPhase::CrossFileAnalysis | ScanPhase::ConfidenceScoring | ScanPhase::AiAggregation
        | ScanPhase::Reporting | ScanPhase::ThreatModeling | ScanPhase::RootCauseDedup
        | ScanPhase::MultiVerifier | ScanPhase::AutoPatching | ScanPhase::CveBootstrap
        | ScanPhase::PocCompiler | ScanPhase::VariantSearch => spec_progress_message(p),
        _ => phase_name(p),
    }
}

/// Progress line of the `i`-th sequential step: `Phase {5+i}/24: ` (its
/// place in the full pipeline of 24 phases, after the four parallel ones)
/// and the step's text.
pub open spec fn step_message(i: nat, p: ScanPhase) -> Seq<char> {
    "Phase "@ + dec(i + 5) + "/"@ + dec(24) + ": "@ + step_text(p)
}

/// Progress line of the `i`-th sequential step.
pub fn sequential_step_message(i: usize, phase: &ScanPhase) -> (s: String)
    requires
        i < 20,
    ensures
        s@ == step_message(i as nat, *phase),
{
    let text: &str = match phase {
        ScanPhase::CweRouting | ScanPhase::LlmDiscovery | ScanPhase::LlmVerification
        | ScanPhase::SecurityAgentVerification | ScanPhase::TicketCrossRef | ScanPhase::GitAnalysis
        | ScanPhase::CrossFileAnalysis | ScanPhase::ConfidenceScoring | ScanPhase::AiAggregation
        | ScanPhase::Reporting | ScanPhase::ThreatModeling | ScanPhase::RootCauseDedup
        | ScanPhase::MultiVerifier | ScanPhase::AutoPatching | ScanPhase::CveBootstrap
        | ScanPhase::PocCompiler | ScanPhase::VariantSearch => PhaseSpec::progress_message(phase),
        _ => phase_name_of(phase),
    };
    let mut s = String::from_str("Phase ");
    let n = decimal((i + 5) as u64);
    s.append(n.as_str());
    s.append("/");
    let t = decimal(24);
    s.append(t.as_str());
    s.append(": ");
    s.append(text);
    s
}

/// Number of findings of severity Medium or above.
pub open spec fn medium_plus(fs: Seq<VulnerabilityFinding>) -> nat
    decreases fs.len(),
{
    if fs.len() == 0 {
        0
    } else {
        medium_plus(fs.drop_last()) + if severity_rank(fs.last().severity) >= 2 { 1nat } else { 0nat }
    }
}

/// Number of findings of severity Medium or above (those that count
/// toward early termination).
pub fn medium_plus_count(findings: &[VulnerabilityFinding]) -> (n: usize)
    ensures
        n == medium_plus(findings@),
{
    let mut n: usize = 0;
    let mut i: usize = 0;
    while i < findings.len()
        invariant
            i <= findings@.len(),
            n == medium_plus(findings@.take(i as int)),
            n <= i,
        decreases findings@.len() - i,
    {
        proof {
            assert(findings@.take(i + 1).drop_last() =~= findings@.take(i as int));
        }
        if findings[i].severity.is_medium_or_above() {
            n = n + 1;
        }
        i = i + 1;
    }
    assert(findings@.take(findings@.len() as int) =~= findings@);
    n
}

/// Whether the scan stops: there is a limit and more Medium-or-above
/// findings than it.
pub fn should_terminate_early(medium_plus_findings: usize, limit: Option<usize>) -> (r: bool)
    ensures
        r == (limit matches Some(l) && medium_plus_findings > l),
{
    match limit {
        Some(l) => medium_plus_findings > l,
        None => false,
    }
}

/// The sequential phases after `p`, by name: none when `p` is not a
/// sequential phase.
pub open spec fn phases_after(p: ScanPhase) -> Seq<Seq<char>> {
    let k = position(p);
    if 4 <= k < 24 {
        names_of(spec_all().subrange(k + 1, 24))
    } else {
        Seq::empty()
    }
}

/// The names of the sequential phases an early stop after `phase` skips.
pub fn remaining_phase_names(phase: &ScanPhase) -> (v: Vec<String>)
    ensures
        strings_view(v@) == phases_after(*phase),
{
    match phase.slot_index() {
        Some(k) => {
            if k >= 4 {
                let all = PhaseSpec::all();
                let mut rest: Vec<ScanPhase> = Vec::new();
                let mut j: usize = k + 1;
                while j < all.len()
                    invariant
                        k + 1 <= j <= 24,
                        all@ == spec_all(),
                        rest@ == spec_all().subrange(k + 1, j as int),
                    decreases 24 - j,
                {
                    rest.push(all[j]);
                    j = j + 1;
                    assert(rest@ =~= spec_all().subrange(k + 1, j as int));
                }
                phase_names(&rest)
            } else {
                let v: Vec<String> = Vec::new();
                assert(strings_view(v@) =~= phases_after(*phase));
                v
            }
        },
        None => {
            let v: Vec<String> = Vec::new();
            assert(strings_view(v@) =~= phases_after(*phase));
            v
        },
    }
}

/// The phases an early stop right after the parallel step reports as
/// skipped: rule synthesis through reporting.
pub fn phases_skipped_after_parallel() -> (v: Vec<String>)
    ensures
        strings_view(v@) == names_of(spec_all().subrange(5, 24)),
{
    let all = PhaseSpec::all();
    let mut rest: Vec<ScanPhase> = Vec::new();
    let mut j: usize = 5;
    while j < all.len()
        invariant
            5 <= j <= 24,
            all@ == spec_all(),
            rest@ == spec_all().subrange(5, j as int),
        decreases 24 - j,
    {
        rest.push(all[j]);
        j = j + 1;
        assert(rest@ =~= spec_all().subrange(5, j as int));
    }
    phase_names(&rest)
}

} // verus!
