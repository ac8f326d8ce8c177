//! The phase graph: the pipeline in execution order with per-phase
//! metadata (display name, description, 1-based number).

use vstd::prelude::*;
use crate::phase::{
    is_pipeline_phase, lemma_phase_at_position, lemma_position_phase_at, phase_at, position,
    slot_matches, spec_all, spec_progress_message, PhaseSpec, ScanPhase,
};
use crate::text::{dec, decimal};

verus! {

/// Human-readable name of a phase.
pub open spec fn spec_display_name(p: ScanPhase) -> Seq<char> {
    match p {
        ScanPhase::Indexing => "Indexing"@,
        ScanPhase::Semgrep => "Semgrep"@,
        ScanPhase::CpgSlice => "CPG Slice"@,
        ScanPhase::LlmStaticAnalysis => "LLM Static Analysis"@,
        ScanPhase::CweRouting => "CWE Routing"@,
        ScanPhase::RuleSynthesis => "Rule Synthesis"@,
        ScanPhase::LlmDiscovery => "LLM Discovery"@,
        ScanPhase::LlmVerification => "LLM Verification"@,
        ScanPhase::Validate => "Validate"@,
        ScanPhase::SecurityAgentVerification => "SecurityAgent Verification"@,
        ScanPhase::TicketCrossRef => "Ticket Cross-Reference"@,
        ScanPhase::GitAnalysis => "Git Analysis"@,
        ScanPhase::CrossFileAnalysis => "Cross-File Analysis"@,
        ScanPhase::ConfidenceScoring => "Confidence Scoring"@,
        ScanPhase::AiAggregation => "AI Aggregation"@,
        ScanPhase::ThreatModeling => "Threat Modeling"@,
        ScanPhase::RootCauseDedup => "Root Cause Deduplication"@,
        ScanPhase::MultiVerifier => "Multi-Verifier"@,
        ScanPhase::AutoPatching => "Auto-Patching"@,
        ScanPhase::CveBootstrap => "CVE Bootstrap"@,
        ScanPhase::PocCompiler => "PoC Compiler"@,
        ScanPhase::ExploitSynth => "Exploit Synthesis"@,
        ScanPhase::VariantSearch => "Variant Search"@,
        ScanPhase::Reporting => "Reporting"@,
        ScanPhase::Complete => "Complete"@,
        ScanPhase::Error => "Error"@,
    }
}

/// One-line description of a phase.
pub open spec fn spec_description(p: ScanPhase) -> Seq<char> {
    match p {
        ScanPhase::Indexing => "Index project files"@,
        ScanPhase::Semgrep => "Run Semgrep static analysis"@,
        ScanPhase::CpgSlice => "Code Property Graph slicing (Joern)"@,
        ScanPhase::LlmStaticAnalysis => "Analyze files with LLM"@,
        ScanPhase::CweRouting => "Route findings to specialized models"@,
        ScanPhase::RuleSynthesis => "LLM-generated Semgrep rules (MoCQ)"@,
        ScanPhase::LlmDiscovery => "Enrich findings with AI context"@,
        ScanPhase::LlmVerification => "Verify findings with AI"@,
        ScanPhase::Validate => "LLM-as-judge rationale check (CORRECT paper arxiv:2504.13474)"@,
        ScanPhase::SecurityAgentVerification => "Tool-based verification"@,
        ScanPhase::TicketCrossRef => "Cross-reference with ticket systems"@,
        ScanPhase::GitAnalysis => "Analyze Git history"@,
        ScanPhase::CrossFileAnalysis => "Analyze cross-file references"@,
        ScanPhase::ConfidenceScoring => "Refine confidence scores"@,
        ScanPhase::AiAggregation => "Aggregate findings with AI"@,
        ScanPhase::ThreatModeling => "Generate threat model"@,
        ScanPhase::RootCauseDedup => "Deduplicate by root cause"@,
        ScanPhase::MultiVerifier => "Verify with multiple agents"@,
        ScanPhase::AutoPatching => "Generate patches automatically"@,
        ScanPhase::CveBootstrap => "Enrich with CVE data"@,
        ScanPhase::PocCompiler => "Compile and validate PoCs"@,
        ScanPhase::ExploitSynth => "Sandbox-verified exploit generation"@,
        ScanPhase::VariantSearch => "Search for code variants"@,
        ScanPhase::Reporting => "Generate reports"@,
        ScanPhase::Complete => "Scan complete"@,
        ScanPhase::Error => "Error occurred"@,
    }
}

fn display_name_str(p: &ScanPhase) -> (s: &'static str)
    ensures
        s@ == spec_display_name(*p),
{
    match p {
        ScanPhase::Indexing => "Indexing",
        ScanPhase::Semgrep => "Semgrep",
        ScanPhase::CpgSlice => "CPG Slice",
        ScanPhase::LlmStaticAnalysis => "LLM Static Analysis",
        ScanPhase::CweRouting => "CWE Routing",
        ScanPhase::RuleSynthesis => "Rule Synthesis",
        ScanPhase::LlmDiscovery => "LLM Discovery",
        ScanPhase::LlmVerification => "LLM Verification",
        ScanPhase::Validate => "Validate",
        ScanPhase::SecurityAgentVerification => "SecurityAgent Verification",
        ScanPhase::TicketCrossRef => "Ticket Cross-Reference",
        ScanPhase::GitAnalysis => "Git Analysis",
        ScanPhase::CrossFileAnalysis => "Cross-File Analysis",
        ScanPhase::ConfidenceScoring => "Confidence Scoring",
        ScanPhase::AiAggregation => "AI Aggregation",
        ScanPhase::ThreatModeling => "Threat Modeling",
        ScanPhase::RootCauseDedup => "Root Cause Deduplication",
        ScanPhase::MultiVerifier => "Multi-Verifier",
        ScanPhase::AutoPatching => "Auto-Patching",
        ScanPhase::CveBootstrap => "CVE Bootstrap",
        ScanPhase::PocCompiler => "PoC Compiler",
        ScanPhase::ExploitSynth => "Exploit Synthesis",
        ScanPhase::VariantSearch => "Variant Search",
        ScanPhase::Reporting => "Reporting",
        ScanPhase::Complete => "Complete",
        ScanPhase::Error => "Error",
    }
}

fn description_str(p: &ScanPhase) -> (s: &'static str)
    ensures
        s@ == spec_description(*p),
{
    match p {
        ScanPhase::Indexing => "Index project files",
        ScanPhase::Semgrep => "Run Semgrep static analysis",
        ScanPhase::CpgSlice => "Code Property Graph slicing (Joern)",
        ScanPhase::LlmStaticAnalysis => "Analyze files with LLM",
        ScanPhase::CweRouting => "Route findings to specialized models",
        ScanPhase::RuleSynthesis => "LLM-generated Semgrep rules (MoCQ)",
        ScanPhase::LlmDiscovery => "Enrich findings with AI context",
        ScanPhase::LlmVerification => "Verify findings with AI",
        ScanPhase::Validate => "LLM-as-judge rationale check (CORRECT paper arxiv:2504.13474)",
        ScanPhase::SecurityAgentVerification => "Tool-based verification",
        ScanPhase::TicketCrossRef => "Cross-reference with ticket systems",
        ScanPhase::GitAnalysis => "Analyze Git history",
        ScanPhase::CrossFileAnalysis => "Analyze cross-file references",
        ScanPhase::ConfidenceScoring => "Refine confidence scores",
        ScanPhase::AiAggregation => "Aggregate findings with AI",
        ScanPhase::ThreatModeling => "Generate threat model",
        ScanPhase::RootCauseDedup => "Deduplicate by root cause",
        ScanPhase::MultiVerifier => "Verify with multiple agents",
        ScanPhase::AutoPatching => "Generate patches automatically",
        ScanPhase::CveBootstrap => "Enrich with CVE data",
        ScanPhase::PocCompiler => "Compile and validate PoCs",
        ScanPhase::ExploitSynth => "Sandbox-verified exploit generation",
        ScanPhase::VariantSearch => "Search for code variants",
        ScanPhase::Reporting => "Generate reports",
        ScanPhase::Complete => "Scan complete",
        ScanPhase::Error => "Error occurred",
    }
}

/// Metadata for a phase.
#[derive(Debug)]
pub struct PhaseMetadata {
    pub display_name: String,
    pub description: String,
    pub phase_number: u8,
    pub total_phases: u8,
}

/// The metadata the graph keeps for the phase in slot `i`.
pub open spec fn metadata_matches(m: PhaseMetadata, i: int) -> bool {
    &&& m.display_name@ == spec_display_name(phase_at(i))
    &&& m.description@ == spec_description(phase_at(i))
    &&& m.phase_number == i + 1
    &&& m.total_phases == 24
}

/// The pipeline in execution order, with metadata for each phase.
pub struct PhaseGraph {
    phases: Vec<ScanPhase>,
    metadata: Vec<PhaseMetadata>,
}

/// `Phase {num}/{total}: {message}` for the progress bar.
pub open spec fn spec_phase_message(p: ScanPhase, num: nat, total: nat) -> Seq<char> {
    "Phase "@ + dec(num) + "/"@ + dec(total) + ": "@ + spec_progress_message(p)
}

/// `NN/24 Name` for a pipeline phase, `?/? Unknown` otherwise.
pub open spec fn spec_graph_display_name(p: ScanPhase) -> Seq<char> {
    if is_pipeline_phase(p) {
        dec((position(p) + 1) as nat) + "/"@ + dec(24) + " "@ + spec_display_name(p)
    } else {
        "?/? Unknown"@
    }
}

impl PhaseGraph {
    #[verifier::type_invariant]
    spec fn inv(self) -> bool {
        &&& self.phases@ == spec_all()
        &&& self.metadata@.len() == 24
        &&& forall|i: int| 0 <= i < 24 ==> metadata_matches(#[trigger] self.metadata@[i], i)
    }

    /// The phases of the graph.
    pub closed spec fn spec_phases(self) -> Seq<ScanPhase> {
        self.phases@
    }

    /// The default graph: every pipeline phase in execution order.
    pub fn new() -> (g: Self)
        ensures
            g.spec_phases() == spec_all(),
    {
        let phases = PhaseSpec::all();
        let slots = PhaseSpec::slots();
        let total: u8 = 24;
        let mut metadata: Vec<PhaseMetadata> = Vec::new();
        let mut index: usize = 0;
        while index < slots.len()
            invariant
                total == 24,
                slots@.len() == 24,
                forall|i: int| 0 <= i < 24 ==> slot_matches(#[trigger] slots@[i], i),
                index <= 24,
                metadata@.len() == index,
                forall|i: int| 0 <= i < index ==> metadata_matches(#[trigger] metadata@[i], i),
            decreases 24 - index,
        {
            let slot = &slots[index];
            let phase_number: u8 = (index + 1) as u8;
            assert(phase_number == index + 1);
            assert(slot.phase == phase_at(index as int));
            metadata.push(PhaseMetadata {
                display_name: String::from_str(display_name_str(&slot.phase)),
                description: String::from_str(description_str(&slot.phase)),
                phase_number,
                total_phases: total,
            });
            assert(metadata_matches(metadata@[index as int], index as int));
            index = index + 1;
        }
        PhaseGraph { phases, metadata }
    }

    /// All phases in execution order.
    pub fn phases(&self) -> (s: &[ScanPhase])
        ensures
            s@ == self.spec_phases(),
            s@ == spec_all(),
    {
        proof { use_type_invariant(self); }
        self.phases.as_slice()
    }

    /// Metadata of a phase, `None` for `Complete` and `Error`.
    pub fn get_metadata(&self, phase: &ScanPhase) -> (r: Option<&PhaseMetadata>)
        ensures
            match r {
                Some(m) => is_pipeline_phase(*phase) && metadata_matches(*m, position(*phase)),
                None => !is_pipeline_phase(*phase),
            },
    {
        proof { use_type_invariant(self); }
        match phase.slot_index() {
            Some(i) => Some(&self.metadata[i]),
            None => None,
        }
    }

    /// The phase after `current`, `None` for the last phase and for phases
    /// not in the graph.
    pub fn next_phase(&self, current: &ScanPhase) -> (r: Option<&ScanPhase>)
        ensures
            match r {
                Some(n) => 0 <= position(*current) < 23 && *n == phase_at(position(*current) + 1),
                None => !(0 <= position(*current) < 23),
            },
    {
        proof { use_type_invariant(self); }
        match current.slot_index() {
            Some(i) => {
                if i + 1 < self.phases.len() {
                    Some(&self.phases[i + 1])
                } else {
                    None
                }
            }
            None => None,
        }
    }

    /// The phase before `current`, `None` for the first phase and for
    /// phases not in the graph.
    pub fn previous_phase(&self, current: &ScanPhase) -> (r: Option<&ScanPhase>)
        ensures
            match r {
                Some(n) => 0 < position(*current) < 24 && *n == phase_at(position(*current) - 1),
                None => !(0 < position(*current) < 24),
            },
    {
        proof { use_type_invariant(self); }
        match current.slot_index() {
            Some(i) => {
                if i > 0 {
                    Some(&self.phases[i - 1])
                } else {
                    None
                }
            }
            None => None,
        }
    }

    /// Number of phases in the graph (24).
    pub fn total_phases(&self) -> (n: usize)
        ensures
            n == 24,
    {
        proof { use_type_invariant(self); }
        self.phases.len()
    }

    /// 1-based index of a phase; phases not in the graph count as 1.
    pub fn phase_index(&self, phase: &ScanPhase) -> (n: usize)
        ensures
            n == (if is_pipeline_phase(*phase) { position(*phase) + 1 } else { 1 }),
    {
        proof { use_type_invariant(self); }
        let mut i: usize = 0;
        while i < self.phases.len()
            invariant
                self.phases@ == spec_all(),
                i <= 24,
                forall|k: int| 0 <= k < i ==> spec_all()[k] != *phase,
            decreases 24 - i,
        {
            if self.phases[i] == *phase {
                proof { lemma_position_phase_at(i as int); }
                return i + 1;
            }
            i = i + 1;
        }
        proof {
            if is_pipeline_phase(*phase) {
                lemma_phase_at_position(*phase);
                assert(spec_all()[position(*phase)] == *phase);
            }
        }
        1
    }

    /// `NN/24 Name` for a phase of the graph, `?/? Unknown` otherwise.
    pub fn display_name(&self, phase: &ScanPhase) -> (s: String)
        ensures
            s@ == spec_graph_display_name(*phase),
    {
        proof { use_type_invariant(self); }
        match self.get_metadata(phase) {
            Some(m) => {
                let a = decimal(m.phase_number as u64);
                let b = decimal(m.total_phases as u64);
                let mut s = a;
                s.append("/");
                s.append(b.as_str());
                s.append(" ");
                s.append(m.display_name.as_str());
                s
            }
            None => String::from_str("?/? Unknown"),
        }
    }
}

impl Default for PhaseGraph {
    fn default() -> (g: Self)
        ensures
            g.spec_phases() == spec_all(),
    {
        Self::new()
    }
}

/// Total phases in the default pipeline.
pub fn total_phases() -> (n: usize)
    ensures
        n == 24,
{
    PhaseGraph::new().total_phases()
}

/// 1-based index of a phase in the default pipeline (1 for phases not in it).
pub fn phase_index(phase: &ScanPhase) -> (n: usize)
    ensures
        n == (if is_pipeline_phase(*phase) { position(*phase) + 1 } else { 1 }),
{
    PhaseGraph::new().phase_index(phase)
}

/// The progress-bar message `Phase {num}/{total}: {message}`.
pub fn get_phase_message(phase: &ScanPhase, phase_num: usize, total_phases: usize) -> (s: String)
    ensures
        s@ == spec_phase_message(*phase, phase_num as nat, total_phases as nat),
{
    let mut s = String::from_str("Phase ");
    let a = decimal(phase_num as u64);
    s.append(a.as_str());
    s.append("/");
    let b = decimal(total_phases as u64);
    s.append(b.as_str());
    s.append(": ");
    s.append(PhaseSpec::progress_message(phase));
    s
}


/// Stepping forward then back in the graph returns to the starting phase,
/// and the forward step is the phase a scan resumes from.
pub proof fn law_next_previous_inverse(p: ScanPhase)
    requires
        0 <= position(p) < 23,
    ensures
        0 < position(phase_at(position(p) + 1)) < 24,
        phase_at(position(phase_at(position(p) + 1)) - 1) == p,
        phase_at(position(p) + 1) == crate::phase::spec_resume_from(p),
{
    lemma_position_phase_at(position(p) + 1);
    lemma_phase_at_position(p);
    crate::phase::law_resume_follows_pipeline_order(p);
}

} // verus!
