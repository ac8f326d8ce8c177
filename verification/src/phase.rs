//! The canonical 24-phase pipeline: 4 parallel phases followed by 20
//! sequential ones.  Every phase query (order, grouping, profile filtering,
//! resume transitions, progress messages) derives from this table.

use vstd::prelude::*;

verus! {

/// A phase of a scan, plus the two terminal markers `Complete` and `Error`.
#[derive(Debug, Clone, Copy, PartialEq, Eq, Structural, Hash)]
pub enum ScanPhase {
    Indexing,
    Semgrep,
    CweRouting,
    CpgSlice,
    LlmStaticAnalysis,
    LlmDiscovery,
    LlmVerification,
    TicketCrossRef,
    GitAnalysis,
    CrossFileAnalysis,
    ConfidenceScoring,
    AiAggregation,
    Reporting,
    ThreatModeling,
    RootCauseDedup,
    MultiVerifier,
    AutoPatching,
    CveBootstrap,
    PocCompiler,
    VariantSearch,
    SecurityAgentVerification,
    RuleSynthesis,
    Validate,
    ExploitSynth,
    Complete,
    Error,
}

/// Pipeline profile: `Core` runs the essential phases, `All` every phase.
#[derive(Debug, Clone, Copy, PartialEq, Eq, Structural)]
pub enum ScanPipelineProfile {
    Core,
    All,
}

/// Phase execution mode: parallel (concurrent) or sequential (ordered).
#[derive(Debug, Clone, Copy, PartialEq, Eq, Structural)]
pub enum PhaseKind {
    Parallel,
    Sequential,
}

/// Number of phases in the pipeline.
pub const TOTAL_PHASES: usize = 24;

/// Number of parallel phases at the head of the pipeline.
pub const PARALLEL_COUNT: usize = 4;

/// The phase in slot `i` of the pipeline (`0 <= i < 24`); `Complete` elsewhere.
pub open spec fn phase_at(i: int) -> ScanPhase {
    if i == 0 { ScanPhase::Indexing }
    else if i == 1 { ScanPhase::Semgrep }
    else if i == 2 { ScanPhase::CpgSlice }
    else if i == 3 { ScanPhase::LlmStaticAnalysis }
    else if i == 4 { ScanPhase::CweRouting }
    else if i == 5 { ScanPhase::RuleSynthesis }
    else if i == 6 { ScanPhase::LlmDiscovery }
    else if i == 7 { ScanPhase::LlmVerification }
    else if i == 8 { ScanPhase::Validate }
    else if i == 9 { ScanPhase::SecurityAgentVerification }
    else if i == 10 { ScanPhase::TicketCrossRef }
    else if i == 11 { ScanPhase::GitAnalysis }
    else if i == 12 { ScanPhase::CrossFileAnalysis }
    else if i == 13 { ScanPhase::ConfidenceScoring }
    else if i == 14 { ScanPhase::AiAggregation }
    else if i == 15 { ScanPhase::ThreatModeling }
    else if i == 16 { ScanPhase::RootCauseDedup }
    else if i == 17 { ScanPhase::MultiVerifier }
    else if i == 18 { ScanPhase::AutoPatching }
    else if i == 19 { ScanPhase::CveBootstrap }
    else if i == 20 { ScanPhase::PocCompiler }
    else if i == 21 { ScanPhase::ExploitSynth }
    else if i == 22 { ScanPhase::VariantSearch }
    else if i == 23 { ScanPhase::Reporting }
    else { ScanPhase::Complete }
}

/// Slot of a phase in the pipeline; -1 for `Complete` and `Error`.
pub open spec fn position(p: ScanPhase) -> int {
    match p {
        ScanPhase::Indexing => 0,
        ScanPhase::Semgrep => 1,
        ScanPhase::CpgSlice => 2,
        ScanPhase::LlmStaticAnalysis => 3,
        ScanPhase::CweRouting => 4,
        ScanPhase::RuleSynthesis => 5,
        ScanPhase::LlmDiscovery => 6,
        ScanPhase::LlmVerification => 7,
        ScanPhase::Validate => 8,
        ScanPhase::SecurityAgentVerification => 9,
        ScanPhase::TicketCrossRef => 10,
        ScanPhase::GitAnalysis => 11,
        ScanPhase::CrossFileAnalysis => 12,
        ScanPhase::ConfidenceScoring => 13,
        ScanPhase::AiAggregation => 14,
        ScanPhase::ThreatModeling => 15,
        ScanPhase::RootCauseDedup => 16,
        ScanPhase::MultiVerifier => 17,
        ScanPhase::AutoPatching => 18,
        ScanPhase::CveBootstrap => 19,
        ScanPhase::PocCompiler => 20,
        ScanPhase::ExploitSynth => 21,
        ScanPhase::VariantSearch => 22,
        ScanPhase::Reporting => 23,
        ScanPhase::Complete => -1,
        ScanPhase::Error => -1,
    }
}

/// A phase of the pipeline proper (not a terminal marker).
pub open spec fn is_pipeline_phase(p: ScanPhase) -> bool {
    0 <= position(p) < 24
}

/// All 24 phases in execution order.
pub open spec fn spec_all() -> Seq<ScanPhase> {
    Seq::new(24, |i: int| phase_at(i))
}

/// The phases of the core profile, in the order the table lists them.
pub open spec fn spec_core() -> Seq<ScanPhase> {
    seq![
        ScanPhase::Indexing,
        ScanPhase::Semgrep,
        ScanPhase::CweRouting,
        ScanPhase::LlmStaticAnalysis,
        ScanPhase::LlmDiscovery,
        ScanPhase::LlmVerification,
        ScanPhase::TicketCrossRef,
        ScanPhase::GitAnalysis,
        ScanPhase::CrossFileAnalysis,
        ScanPhase::ConfidenceScoring,
        ScanPhase::AiAggregation,
        ScanPhase::RootCauseDedup,
        ScanPhase::CveBootstrap,
        ScanPhase::Reporting,
    ]
}

/// The experimental phases, in pipeline order.
pub open spec fn spec_experimental() -> Seq<ScanPhase> {
    seq![
        ScanPhase::CpgSlice,
        ScanPhase::RuleSynthesis,
        ScanPhase::Validate,
        ScanPhase::SecurityAgentVerification,
        ScanPhase::ThreatModeling,
        ScanPhase::MultiVerifier,
        ScanPhase::AutoPatching,
        ScanPhase::PocCompiler,
        ScanPhase::ExploitSynth,
        ScanPhase::VariantSearch,
    ]
}

/// Whether a phase belongs to the core profile.
pub open spec fn spec_is_core(p: ScanPhase) -> bool {
    match p {
        ScanPhase::Indexing | ScanPhase::Semgrep | ScanPhase::CweRouting
        | ScanPhase::LlmStaticAnalysis | ScanPhase::LlmDiscovery | ScanPhase::LlmVerification
        | ScanPhase::TicketCrossRef | ScanPhase::GitAnalysis | ScanPhase::CrossFileAnalysis
        | ScanPhase::ConfidenceScoring | ScanPhase::AiAggregation | ScanPhase::RootCauseDedup
        | ScanPhase::CveBootstrap | ScanPhase::Reporting => true,
        _ => false,
    }
}

/// The phase a scan resumes from once `p` has completed.
pub open spec fn spec_resume_from(p: ScanPhase) -> ScanPhase {
    match p {
        ScanPhase::Indexing => ScanPhase::Semgrep,
        ScanPhase::Semgrep => ScanPhase::CpgSlice,
        ScanPhase::CpgSlice => ScanPhase::LlmStaticAnalysis,
        ScanPhase::LlmStaticAnalysis => ScanPhase::CweRouting,
        ScanPhase::CweRouting => ScanPhase::RuleSynthesis,
        ScanPhase::RuleSynthesis => ScanPhase::LlmDiscovery,
        ScanPhase::LlmDiscovery => ScanPhase::LlmVerification,
        ScanPhase::LlmVerification => ScanPhase::Validate,
        ScanPhase::Validate => ScanPhase::SecurityAgentVerification,
        ScanPhase::SecurityAgentVerification => ScanPhase::TicketCrossRef,
        ScanPhase::TicketCrossRef => ScanPhase::GitAnalysis,
        ScanPhase::GitAnalysis => ScanPhase::CrossFileAnalysis,
        ScanPhase::CrossFileAnalysis => ScanPhase::ConfidenceScoring,
        ScanPhase::ConfidenceScoring => ScanPhase::AiAggregation,
        ScanPhase::AiAggregation => ScanPhase::ThreatModeling,
        ScanPhase::ThreatModeling => ScanPhase::RootCauseDedup,
        ScanPhase::RootCauseDedup => ScanPhase::MultiVerifier,
        ScanPhase::MultiVerifier => ScanPhase::AutoPatching,
        ScanPhase::AutoPatching => ScanPhase::CveBootstrap,
        ScanPhase::CveBootstrap => ScanPhase::PocCompiler,
        ScanPhase::PocCompiler => ScanPhase::ExploitSynth,
        ScanPhase::ExploitSynth => ScanPhase::VariantSearch,
        ScanPhase::VariantSearch => ScanPhase::Reporting,
        ScanPhase::Reporting => ScanPhase::Complete,
        ScanPhase::Complete => ScanPhase::Indexing,
        ScanPhase::Error => ScanPhase::Indexing,
    }
}

/// The position of each pipeline slot holds the phase of that slot.
pub proof fn lemma_position_phase_at(i: int)
    requires
        0 <= i < 24,
    ensures
        position(phase_at(i)) == i,
{
}

/// Slot `position(p)` of the pipeline holds `p`.
pub proof fn lemma_phase_at_position(p: ScanPhase)
    requires
        is_pipeline_phase(p),
    ensures
        phase_at(position(p)) == p,
{
}

impl ScanPhase {
    /// The phase in slot `i` of the pipeline.
    pub fn at(i: usize) -> (p: ScanPhase)
        requires
            i < 24,
        ensures
            p == phase_at(i as int),
    {
        if i == 0 { ScanPhase::Indexing }
        else if i == 1 { ScanPhase::Semgrep }
        else if i == 2 { ScanPhase::CpgSlice }
        else if i == 3 { ScanPhase::LlmStaticAnalysis }
        else if i == 4 { ScanPhase::CweRouting }
        else if i == 5 { ScanPhase::RuleSynthesis }
        else if i == 6 { ScanPhase::LlmDiscovery }
        else if i == 7 { ScanPhase::LlmVerification }
        else if i == 8 { ScanPhase::Validate }
        else if i == 9 { ScanPhase::SecurityAgentVerification }
        else if i == 10 { ScanPhase::TicketCrossRef }
        else if i == 11 { ScanPhase::GitAnalysis }
        else if i == 12 { ScanPhase::CrossFileAnalysis }
        else if i == 13 { ScanPhase::ConfidenceScoring }
        else if i == 14 { ScanPhase::AiAggregation }
        else if i == 15 { ScanPhase::ThreatModeling }
        else if i == 16 { ScanPhase::RootCauseDedup }
        else if i == 17 { ScanPhase::MultiVerifier }
        else if i == 18 { ScanPhase::AutoPatching }
        else if i == 19 { ScanPhase::CveBootstrap }
        else if i == 20 { ScanPhase::PocCompiler }
        else if i == 21 { ScanPhase::ExploitSynth }
        else if i == 22 { ScanPhase::VariantSearch }
        else { ScanPhase::Reporting }
    }

    /// The slot of this phase in the pipeline, `None` for `Complete` and `Error`.
    pub fn slot_index(&self) -> (r: Option<usize>)
        ensures
            match r {
                Some(i) => is_pipeline_phase(*self) && i == position(*self),
                None => !is_pipeline_phase(*self),
            },
    {
        match self {
            ScanPhase::Indexing => Some(0),
            ScanPhase::Semgrep => Some(1),
            ScanPhase::CpgSlice => Some(2),
            ScanPhase::LlmStaticAnalysis => Some(3),
            ScanPhase::CweRouting => Some(4),
            ScanPhase::RuleSynthesis => Some(5),
            ScanPhase::LlmDiscovery => Some(6),
            ScanPhase::LlmVerification => Some(7),
            ScanPhase::Validate => Some(8),
            ScanPhase::SecurityAgentVerification => Some(9),
            ScanPhase::TicketCrossRef => Some(10),
            ScanPhase::GitAnalysis => Some(11),
            ScanPhase::CrossFileAnalysis => Some(12),
            ScanPhase::ConfidenceScoring => Some(13),
            ScanPhase::AiAggregation => Some(14),
            ScanPhase::ThreatModeling => Some(15),
            ScanPhase::RootCauseDedup => Some(16),
            ScanPhase::MultiVerifier => Some(17),
            ScanPhase::AutoPatching => Some(18),
            ScanPhase::CveBootstrap => Some(19),
            ScanPhase::PocCompiler => Some(20),
            ScanPhase::ExploitSynth => Some(21),
            ScanPhase::VariantSearch => Some(22),
            ScanPhase::Reporting => Some(23),
            ScanPhase::Complete => None,
            ScanPhase::Error => None,
        }
    }
}

/// Builds the phases of slots `lo..hi` in order.
fn phases_between(lo: usize, hi: usize) -> (v: Vec<ScanPhase>)
    requires
        lo <= hi <= 24,
    ensures
        v@ == spec_all().subrange(lo as int, hi as int),
{
    let mut v: Vec<ScanPhase> = Vec::new();
    let mut i: usize = lo;
    while i < hi
        invariant
            lo <= i <= hi <= 24,
            v@ == spec_all().subrange(lo as int, i as int),
        decreases hi - i,
    {
        v.push(ScanPhase::at(i));
        i = i + 1;
    }
    v
}


/// Executor key of the phase in slot `i`.
pub open spec fn executor_key_at(i: int) -> Seq<char> {
    if i == 0 { "indexing"@ }
    else if i == 1 { "semgrep"@ }
    else if i == 2 { "cpg_slice"@ }
    else if i == 3 { "llm_static"@ }
    else if i == 4 { "cwe_routing"@ }
    else if i == 5 { "rule_synthesis"@ }
    else if i == 6 { "llm_discovery"@ }
    else if i == 7 { "llm_verification"@ }
    else if i == 8 { "validate"@ }
    else if i == 9 { "security_agent_verification"@ }
    else if i == 10 { "ticket_cross_ref"@ }
    else if i == 11 { "git_analysis"@ }
    else if i == 12 { "cross_file_analysis"@ }
    else if i == 13 { "confidence_scoring"@ }
    else if i == 14 { "ai_aggregation"@ }
    else if i == 15 { "threat_modeling"@ }
    else if i == 16 { "root_cause_dedup"@ }
    else if i == 17 { "multi_verifier"@ }
    else if i == 18 { "auto_patching"@ }
    else if i == 19 { "cve_bootstrap"@ }
    else if i == 20 { "poc_compiler"@ }
    else if i == 21 { "exploit_synth"@ }
    else if i == 22 { "variant_search"@ }
    else { "reporting"@ }
}

/// A single slot in the pipeline table, carrying the metadata needed for
/// phase queries.
#[derive(Debug, Clone, Copy)]
pub struct PhaseSlot {
    /// The phase this slot represents.
    pub phase: ScanPhase,
    /// Parallel or sequential execution mode.
    pub kind: PhaseKind,
    /// True if this phase is part of the core profile.
    pub core: bool,
    /// Optional config gate key for feature-flag gating.
    pub config_gate_key: Option<&'static str>,
    /// Executor key for dispatch.
    pub executor_key: &'static str,
}

/// The slot that the table holds at index `i`.
pub open spec fn slot_matches(slot: PhaseSlot, i: int) -> bool {
    &&& slot.phase == phase_at(i)
    &&& slot.kind == (if i < 4 { PhaseKind::Parallel } else { PhaseKind::Sequential })
    &&& slot.core == spec_is_core(phase_at(i))
    &&& slot.config_gate_key is None
    &&& slot.executor_key@ == executor_key_at(i)
}

/// Executor key of the slot at index `i`.
fn executor_key(i: usize) -> (k: &'static str)
    requires
        i < 24,
    ensures
        k@ == executor_key_at(i as int),
{
    if i == 0 { "indexing" }
    else if i == 1 { "semgrep" }
    else if i == 2 { "cpg_slice" }
    else if i == 3 { "llm_static" }
    else if i == 4 { "cwe_routing" }
    else if i == 5 { "rule_synthesis" }
    else if i == 6 { "llm_discovery" }
    else if i == 7 { "llm_verification" }
    else if i == 8 { "validate" }
    else if i == 9 { "security_agent_verification" }
    else if i == 10 { "ticket_cross_ref" }
    else if i == 11 { "git_analysis" }
    else if i == 12 { "cross_file_analysis" }
    else if i == 13 { "confidence_scoring" }
    else if i == 14 { "ai_aggregation" }
    else if i == 15 { "threat_modeling" }
    else if i == 16 { "root_cause_dedup" }
    else if i == 17 { "multi_verifier" }
    else if i == 18 { "auto_patching" }
    else if i == 19 { "cve_bootstrap" }
    else if i == 20 { "poc_compiler" }
    else if i == 21 { "exploit_synth" }
    else if i == 22 { "variant_search" }
    else { "reporting" }
}

/// Whether a phase belongs to the core profile.
pub fn is_core_phase(phase: &ScanPhase) -> (r: bool)
    ensures
        r == spec_is_core(*phase),
{
    match phase {
        ScanPhase::Indexing | ScanPhase::Semgrep | ScanPhase::CweRouting
        | ScanPhase::LlmStaticAnalysis | ScanPhase::LlmDiscovery | ScanPhase::LlmVerification
        | ScanPhase::TicketCrossRef | ScanPhase::GitAnalysis | ScanPhase::CrossFileAnalysis
        | ScanPhase::ConfidenceScoring | ScanPhase::AiAggregation | ScanPhase::RootCauseDedup
        | ScanPhase::CveBootstrap | ScanPhase::Reporting => true,
        _ => false,
    }
}

/// The slot of the table at index `i`.
fn slot_at(i: usize) -> (s: PhaseSlot)
    requires
        i < 24,
    ensures
        slot_matches(s, i as int),
{
    let phase = ScanPhase::at(i);
    PhaseSlot {
        phase,
        kind: if i < PARALLEL_COUNT { PhaseKind::Parallel } else { PhaseKind::Sequential },
        core: is_core_phase(&phase),
        config_gate_key: None,
        executor_key: executor_key(i),
    }
}

/// The canonical pipeline table.
pub struct PhaseSpec;

impl PhaseSpec {
    /// The full 24-slot table: the parallel phases (Indexing, Semgrep,
    /// CpgSlice, LlmStaticAnalysis) followed by the 20 sequential phases.
    pub fn slots() -> (v: Vec<PhaseSlot>)
        ensures
            v@.len() == 24,
            forall|i: int| 0 <= i < 24 ==> slot_matches(#[trigger] v@[i], i),
    {
        let mut v: Vec<PhaseSlot> = Vec::new();
        let mut i: usize = 0;
        while i < TOTAL_PHASES
            invariant
                i <= 24,
                v@.len() == i,
                forall|j: int| 0 <= j < i ==> slot_matches(#[trigger] v@[j], j),
            decreases 24 - i,
        {
            v.push(slot_at(i));
            i = i + 1;
        }
        v
    }

    /// All phases in execution order (24 total).
    pub fn all() -> (v: Vec<ScanPhase>)
        ensures
            v@ == spec_all(),
    {
        let v = phases_between(0, TOTAL_PHASES);
        assert(spec_all().subrange(0, 24) =~= spec_all());
        v
    }

    /// The sequential phases (20 total).
    pub fn sequential() -> (v: Vec<ScanPhase>)
        ensures
            v@ == spec_all().subrange(4, 24),
    {
        phases_between(PARALLEL_COUNT, TOTAL_PHASES)
    }

    /// The parallel phases (4 total).
    pub fn parallel() -> (v: Vec<ScanPhase>)
        ensures
            v@ == spec_all().subrange(0, 4),
    {
        phases_between(0, PARALLEL_COUNT)
    }

    /// Total phase count.
    pub fn total() -> (n: usize)
        ensures
            n == 24,
    {
        TOTAL_PHASES
    }

    /// The slot of a given phase, `None` for `Complete` and `Error`.
    pub fn from_phase(phase: &ScanPhase) -> (r: Option<PhaseSlot>)
        ensures
            match r {
                Some(s) => is_pipeline_phase(*phase) && s.phase == *phase
                    && slot_matches(s, position(*phase)),
                None => !is_pipeline_phase(*phase),
            },
    {
        match phase.slot_index() {
            Some(i) => Some(slot_at(i)),
            None => None,
        }
    }

    /// The core phases (14 total).
    pub fn core_phases() -> (v: Vec<ScanPhase>)
        ensures
            v@ == spec_core(),
    {
        let v = vec![
            ScanPhase::Indexing,
            ScanPhase::Semgrep,
            ScanPhase::CweRouting,
            ScanPhase::LlmStaticAnalysis,
            ScanPhase::LlmDiscovery,
            ScanPhase::LlmVerification,
            ScanPhase::TicketCrossRef,
            ScanPhase::GitAnalysis,
            ScanPhase::CrossFileAnalysis,
            ScanPhase::ConfidenceScoring,
            ScanPhase::AiAggregation,
            ScanPhase::RootCauseDedup,
            ScanPhase::CveBootstrap,
            ScanPhase::Reporting,
        ];
        assert(v@ =~= spec_core());
        v
    }

    /// The experimental phases (10 total).
    pub fn experimental_phases() -> (v: Vec<ScanPhase>)
        ensures
            v@ == spec_experimental(),
    {
        let v = vec![
            ScanPhase::CpgSlice,
            ScanPhase::RuleSynthesis,
            ScanPhase::Validate,
            ScanPhase::SecurityAgentVerification,
            ScanPhase::ThreatModeling,
            ScanPhase::MultiVerifier,
            ScanPhase::AutoPatching,
            ScanPhase::PocCompiler,
            ScanPhase::ExploitSynth,
            ScanPhase::VariantSearch,
        ];
        assert(v@ =~= spec_experimental());
        v
    }

    /// The phase set of a profile: the 14 core phases for `Core`, all 24 for `All`.
    pub fn effective(profile: &ScanPipelineProfile) -> (v: Vec<ScanPhase>)
        ensures
            v@ == (match *profile {
                ScanPipelineProfile::Core => spec_core(),
                ScanPipelineProfile::All => spec_all(),
            }),
    {
        match profile {
            ScanPipelineProfile::Core => Self::core_phases(),
            ScanPipelineProfile::All => Self::all(),
        }
    }

    /// The phase to resume from once `phase` has completed.
    pub fn resume_from(phase: &ScanPhase) -> (r: ScanPhase)
        ensures
            r == spec_resume_from(*phase),
    {
        match phase {
            ScanPhase::Indexing => ScanPhase::Semgrep,
            ScanPhase::Semgrep => ScanPhase::CpgSlice,
            ScanPhase::CpgSlice => ScanPhase::LlmStaticAnalysis,
            ScanPhase::LlmStaticAnalysis => ScanPhase::CweRouting,
            ScanPhase::CweRouting => ScanPhase::RuleSynthesis,
            ScanPhase::RuleSynthesis => ScanPhase::LlmDiscovery,
            ScanPhase::LlmDiscovery => ScanPhase::LlmVerification,
            ScanPhase::LlmVerification => ScanPhase::Validate,
            ScanPhase::Validate => ScanPhase::SecurityAgentVerification,
            ScanPhase::SecurityAgentVerification => ScanPhase::TicketCrossRef,
            ScanPhase::TicketCrossRef => ScanPhase::GitAnalysis,
            ScanPhase::GitAnalysis => ScanPhase::CrossFileAnalysis,
            ScanPhase::CrossFileAnalysis => ScanPhase::ConfidenceScoring,
            ScanPhase::ConfidenceScoring => ScanPhase::AiAggregation,
            ScanPhase::AiAggregation => ScanPhase::ThreatModeling,
            ScanPhase::ThreatModeling => ScanPhase::RootCauseDedup,
            ScanPhase::RootCauseDedup => ScanPhase::MultiVerifier,
            ScanPhase::MultiVerifier => ScanPhase::AutoPatching,
            ScanPhase::AutoPatching => ScanPhase::CveBootstrap,
            ScanPhase::CveBootstrap => ScanPhase::PocCompiler,
            ScanPhase::PocCompiler => ScanPhase::ExploitSynth,
            ScanPhase::ExploitSynth => ScanPhase::VariantSearch,
            ScanPhase::VariantSearch => ScanPhase::Reporting,
            ScanPhase::Reporting => ScanPhase::Complete,
            ScanPhase::Complete | ScanPhase::Error => ScanPhase::Indexing,
        }
    }

    /// The progress message shown while `phase` runs.
    pub fn progress_message(phase: &ScanPhase) -> (m: &'static str)
        ensures
            m@ == spec_progress_message(*phase),
    {
        match phase {
            ScanPhase::CweRouting => "CWE routing (routing findings to specialized models)...",
            ScanPhase::RuleSynthesis => "Rule synthesis (generating semgrep rules from LLM analysis)...",
            ScanPhase::LlmDiscovery => "LLM discovery (enriching findings with context)...",
            ScanPhase::LlmVerification => "LLM verification (validating findings)...",
            ScanPhase::Validate => "Validate (LLM-as-judge rationale validation)...",
            ScanPhase::SecurityAgentVerification => "SecurityAgent verification (tool-based validation)...",
            ScanPhase::TicketCrossRef => "Searching ticket systems for references...",
            ScanPhase::GitAnalysis => "Analyzing Git history for related commits...",
            ScanPhase::CrossFileAnalysis => "Cross-file dependency analysis...",
            ScanPhase::ConfidenceScoring => "Calculating confidence scores...",
            ScanPhase::AiAggregation => "AI aggregation (generating executive summary)...",
            ScanPhase::ThreatModeling => "Threat modeling (STRIDE analysis)...",
            ScanPhase::RootCauseDedup => "Root cause deduplication...",
            ScanPhase::MultiVerifier => "Multi-verifier voting...",
            ScanPhase::AutoPatching => "Auto-patching with staging validation...",
            ScanPhase::CveBootstrap => "CVE bootstrap...",
            ScanPhase::PocCompiler => "PoC compilation check...",
            ScanPhase::ExploitSynth => "Exploit synthesis with sandbox...",
            ScanPhase::VariantSearch => "Variant search...",
            ScanPhase::Reporting => "Generating reports (JSON/HTML/SARIF)...",
            ScanPhase::Indexing => "Indexing project files...",
            ScanPhase::Semgrep => "Running Semgrep...",
            ScanPhase::CpgSlice => "CPG-guided slicing...",
            ScanPhase::LlmStaticAnalysis => "LLM static analysis...",
            ScanPhase::Complete => "Scan complete!",
            ScanPhase::Error => "Error occurred...",
        }
    }
}

/// The progress message of each phase.
pub open spec fn spec_progress_message(p: ScanPhase) -> Seq<char> {
    match p {
        ScanPhase::CweRouting => "CWE routing (routing findings to specialized models)..."@,
        ScanPhase::RuleSynthesis => "Rule synthesis (generating semgrep rules from LLM analysis)..."@,
        ScanPhase::LlmDiscovery => "LLM discovery (enriching findings with context)..."@,
        ScanPhase::LlmVerification => "LLM verification (validating findings)..."@,
        ScanPhase::Validate => "Validate (LLM-as-judge rationale validation)..."@,
        ScanPhase::SecurityAgentVerification => "SecurityAgent verification (tool-based validation)..."@,
        ScanPhase::TicketCrossRef => "Searching ticket systems for references..."@,
        ScanPhase::GitAnalysis => "Analyzing Git history for related commits..."@,
        ScanPhase::CrossFileAnalysis => "Cross-file dependency analysis..."@,
        ScanPhase::ConfidenceScoring => "Calculating confidence scores..."@,
        ScanPhase::AiAggregation => "AI aggregation (generating executive summary)..."@,
        ScanPhase::ThreatModeling => "Threat modeling (STRIDE analysis)..."@,
        ScanPhase::RootCauseDedup => "Root cause deduplication..."@,
        ScanPhase::MultiVerifier => "Multi-verifier voting..."@,
        ScanPhase::AutoPatching => "Auto-patching with staging validation..."@,
        ScanPhase::CveBootstrap => "CVE bootstrap..."@,
        ScanPhase::PocCompiler => "PoC compilation check..."@,
        ScanPhase::ExploitSynth => "Exploit synthesis with sandbox..."@,
        ScanPhase::VariantSearch => "Variant search..."@,
        ScanPhase::Reporting => "Generating reports (JSON/HTML/SARIF)..."@,
        ScanPhase::Indexing => "Indexing project files..."@,
        ScanPhase::Semgrep => "Running Semgrep..."@,
        ScanPhase::CpgSlice => "CPG-guided slicing..."@,
        ScanPhase::LlmStaticAnalysis => "LLM static analysis..."@,
        ScanPhase::Complete => "Scan complete!"@,
        ScanPhase::Error => "Error occurred..."@,
    }
}


/// The pipeline lists every phase exactly once, and the terminal markers
/// `Complete` and `Error` not at all.
pub proof fn law_pipeline_phases_distinct()
    ensures
        forall|i: int, j: int|
            0 <= i < 24 && 0 <= j < 24 && i != j ==> spec_all()[i] != spec_all()[j],
        forall|p: ScanPhase| spec_all().contains(p) <==> is_pipeline_phase(p),
{
    assert forall|i: int, j: int|
        0 <= i < 24 && 0 <= j < 24 && i != j implies spec_all()[i] != spec_all()[j] by {
        lemma_position_phase_at(i);
        lemma_position_phase_at(j);
    }
    assert forall|p: ScanPhase| spec_all().contains(p) <==> is_pipeline_phase(p) by {
        if spec_all().contains(p) {
            let i = choose|i: int| 0 <= i < 24 && spec_all()[i] == p;
            lemma_position_phase_at(i);
        }
        if is_pipeline_phase(p) {
            lemma_phase_at_position(p);
            assert(spec_all()[position(p)] == p);
        }
    }
}

/// The core and experimental profiles partition the pipeline: every phase
/// of the pipeline is in exactly one of them, and the core list holds just
/// the phases flagged core in the table.
pub proof fn law_profiles_partition_pipeline()
    ensures
        spec_core().len() + spec_experimental().len() == spec_all().len(),
        forall|p: ScanPhase| is_pipeline_phase(p) ==>
            (spec_core().contains(p) <==> !spec_experimental().contains(p)),
        forall|p: ScanPhase| spec_core().contains(p) <==> spec_is_core(p),
        forall|p: ScanPhase| spec_experimental().contains(p) ==> is_pipeline_phase(p),
{
    assert forall|p: ScanPhase| spec_core().contains(p) <==> spec_is_core(p) by {
        if spec_is_core(p) {
            let w = match p {
                ScanPhase::Indexing => 0int,
                ScanPhase::Semgrep => 1,
                ScanPhase::CweRouting => 2,
                ScanPhase::LlmStaticAnalysis => 3,
                ScanPhase::LlmDiscovery => 4,
                ScanPhase::LlmVerification => 5,
                ScanPhase::TicketCrossRef => 6,
                ScanPhase::GitAnalysis => 7,
                ScanPhase::CrossFileAnalysis => 8,
                ScanPhase::ConfidenceScoring => 9,
                ScanPhase::AiAggregation => 10,
                ScanPhase::RootCauseDedup => 11,
                ScanPhase::CveBootstrap => 12,
                _ => 13,
            };
            assert(spec_core()[w] == p);
        }
    }
    assert forall|p: ScanPhase| is_pipeline_phase(p) implies
        (spec_core().contains(p) <==> !spec_experimental().contains(p)) by {
        if !spec_is_core(p) {
            let w = match p {
                ScanPhase::CpgSlice => 0int,
                ScanPhase::RuleSynthesis => 1,
                ScanPhase::Validate => 2,
                ScanPhase::SecurityAgentVerification => 3,
                ScanPhase::ThreatModeling => 4,
                ScanPhase::MultiVerifier => 5,
                ScanPhase::AutoPatching => 6,
                ScanPhase::PocCompiler => 7,
                ScanPhase::ExploitSynth => 8,
                _ => 9,
            };
            assert(spec_experimental()[w] == p);
        }
    }
}

/// Resuming after a completed phase moves to the next phase of the
/// pipeline; after the last one (Reporting) the scan is complete, and a
/// finished or failed scan restarts at the first phase.
pub proof fn law_resume_follows_pipeline_order(p: ScanPhase)
    ensures
        0 <= position(p) < 23 ==> spec_resume_from(p) == phase_at(position(p) + 1),
        p == ScanPhase::Reporting ==> spec_resume_from(p) == ScanPhase::Complete,
        !is_pipeline_phase(p) ==> spec_resume_from(p) == phase_at(0),
{
}

/// The table lists the parallel phases first, then the sequential ones.
pub proof fn law_parallel_then_sequential()
    ensures
        spec_all() == spec_all().subrange(0, 4) + spec_all().subrange(4, 24),
        forall|i: int| 0 <= i < 24 ==> (position(phase_at(i)) < 4 <==> i < 4),
{
    assert(spec_all() =~= spec_all().subrange(0, 4) + spec_all().subrange(4, 24));
    assert forall|i: int| 0 <= i < 24 implies (position(phase_at(i)) < 4 <==> i < 4) by {
        lemma_position_phase_at(i);
    }
}

} // verus!
