use baco::phase::{PhaseKind, PhaseSpec, ScanPhase, ScanPipelineProfile};


#[test]
fn slots_len_is_24() {
    assert_eq!(PhaseSpec::slots().len(), 24);
}

#[test]
fn table_order_matches_checkpoint_all_phases() {
    let checkpoint_phases = [
        ScanPhase::Indexing,
        ScanPhase::Semgrep,
        ScanPhase::CpgSlice,
        ScanPhase::LlmStaticAnalysis,
        ScanPhase::CweRouting,
        ScanPhase::RuleSynthesis,
        ScanPhase::LlmDiscovery,
        ScanPhase::LlmVerification,
        ScanPhase::Validate,
        ScanPhase::SecurityAgentVerification,
        ScanPhase::TicketCrossRef,
        ScanPhase::GitAnalysis,
        ScanPhase::CrossFileAnalysis,
        ScanPhase::ConfidenceScoring,
        ScanPhase::AiAggregation,
        ScanPhase::ThreatModeling,
        ScanPhase::RootCauseDedup,
        ScanPhase::MultiVerifier,
        ScanPhase::AutoPatching,
        ScanPhase::CveBootstrap,
        ScanPhase::PocCompiler,
        ScanPhase::ExploitSynth,
        ScanPhase::VariantSearch,
        ScanPhase::Reporting,
    ];
    assert_eq!(PhaseSpec::all(), &checkpoint_phases);
}

#[test]
fn table_sequential_matches_orchestrator_sequential_phases() {
    let orchestrator_sequential = [
        ScanPhase::CweRouting,
        ScanPhase::RuleSynthesis,
        ScanPhase::LlmDiscovery,
        ScanPhase::LlmVerification,
        ScanPhase::Validate,
        ScanPhase::SecurityAgentVerification,
        ScanPhase::TicketCrossRef,
        ScanPhase::GitAnalysis,
        ScanPhase::CrossFileAnalysis,
        ScanPhase::ConfidenceScoring,
        ScanPhase::AiAggregation,
        ScanPhase::ThreatModeling,
        ScanPhase::RootCauseDedup,
        ScanPhase::MultiVerifier,
        ScanPhase::AutoPatching,
        ScanPhase::CveBootstrap,
        ScanPhase::PocCompiler,
        ScanPhase::ExploitSynth,
        ScanPhase::VariantSearch,
        ScanPhase::Reporting,
    ];
    assert_eq!(PhaseSpec::sequential(), &orchestrator_sequential);
}

#[test]
fn table_core_matches_core_phases() {
    let expected_core = [
        ScanPhase::Indexing,
        ScanPhase::Semgrep,
        ScanPhase::CweRouting,
        ScanPhase::LlmStaticAnalysis,
        ScanPhase::LlmDiscovery,
        ScanPhase::LlmVerification,
        ScanPhase::TicketCrossRef,
        ScanPhase::GitAnalysis,
        ScanPhase::CrossFileAnalysis,
        ScanPhase::ConfidenceScoring,
        ScanPhase::AiAggregation,
        ScanPhase::RootCauseDedup,
        ScanPhase::CveBootstrap,
        ScanPhase::Reporting,
    ];
    assert_eq!(PhaseSpec::core_phases(), &expected_core);
}

#[test]
fn table_experimental_matches_experimental_phases() {
    let expected_experimental = [
        ScanPhase::CpgSlice,
        ScanPhase::RuleSynthesis,
        ScanPhase::Validate,
        ScanPhase::SecurityAgentVerification,
        ScanPhase::ThreatModeling,
        ScanPhase::MultiVerifier,
        ScanPhase::AutoPatching,
        ScanPhase::PocCompiler,
        ScanPhase::ExploitSynth,
        ScanPhase::VariantSearch,
    ];
    assert_eq!(PhaseSpec::experimental_phases(), &expected_experimental);
}

#[test]
fn resume_from_transitions_identical_to_checkpoint() {
    // Test all 24 phases
    let test_cases = [
        (ScanPhase::Indexing, ScanPhase::Semgrep),
        (ScanPhase::Semgrep, ScanPhase::CpgSlice),
        (ScanPhase::CpgSlice, ScanPhase::LlmStaticAnalysis),
        (ScanPhase::LlmStaticAnalysis, ScanPhase::CweRouting),
        (ScanPhase::CweRouting, ScanPhase::RuleSynthesis),
        (ScanPhase::RuleSynthesis, ScanPhase::LlmDiscovery),
        (ScanPhase::LlmDiscovery, ScanPhase::LlmVerification),
        (ScanPhase::LlmVerification, ScanPhase::Validate),
        (ScanPhase::Validate, ScanPhase::SecurityAgentVerification),
        (
            ScanPhase::SecurityAgentVerification,
            ScanPhase::TicketCrossRef,
        ),
        (ScanPhase::TicketCrossRef, ScanPhase::GitAnalysis),
        (ScanPhase::GitAnalysis, ScanPhase::CrossFileAnalysis),
        (ScanPhase::CrossFileAnalysis, ScanPhase::ConfidenceScoring),
        (ScanPhase::ConfidenceScoring, ScanPhase::AiAggregation),
        (ScanPhase::AiAggregation, ScanPhase::ThreatModeling),
        (ScanPhase::ThreatModeling, ScanPhase::RootCauseDedup),
        (ScanPhase::RootCauseDedup, ScanPhase::MultiVerifier),
        (ScanPhase::MultiVerifier, ScanPhase::AutoPatching),
        (ScanPhase::AutoPatching, ScanPhase::CveBootstrap),
        (ScanPhase::CveBootstrap, ScanPhase::PocCompiler),
        (ScanPhase::PocCompiler, ScanPhase::ExploitSynth),
        (ScanPhase::ExploitSynth, ScanPhase::VariantSearch),
        (ScanPhase::VariantSearch, ScanPhase::Reporting),
        (ScanPhase::Reporting, ScanPhase::Complete),
        (ScanPhase::Complete, ScanPhase::Indexing),
        (ScanPhase::Error, ScanPhase::Indexing),
    ];

    for (phase, expected_next) in test_cases {
        let actual = PhaseSpec::resume_from(&phase);
        assert_eq!(
            actual, expected_next,
            "resume_from({:?}) = {:?}, expected {:?}",
            phase, actual, expected_next
        );
    }
}

#[test]
fn progress_messages_identical() {
    // Test all phases have non-empty progress messages
    for phase in PhaseSpec::all() {
        let msg = PhaseSpec::progress_message(&phase);
        assert!(!msg.is_empty(), "progress_message({:?}) is empty", phase);
    }

    // Test specific known messages
    assert_eq!(
        PhaseSpec::progress_message(&ScanPhase::CweRouting),
        "CWE routing (routing findings to specialized models)..."
    );
    assert_eq!(
        PhaseSpec::progress_message(&ScanPhase::LlmDiscovery),
        "LLM discovery (enriching findings with context)..."
    );
    assert_eq!(
        PhaseSpec::progress_message(&ScanPhase::Reporting),
        "Generating reports (JSON/HTML/SARIF)..."
    );
}

#[test]
fn effective_core_profile_yields_14() {
    let effective = PhaseSpec::effective(&ScanPipelineProfile::Core);
    assert_eq!(effective.len(), 14);
    // Verify no experimental phases in core
    for phase in &effective {
        assert!(
            !PhaseSpec::experimental_phases().contains(phase),
            "Core profile includes experimental phase: {:?}",
            phase
        );
    }
}

#[test]
fn effective_all_profile_yields_24() {
    let effective = PhaseSpec::effective(&ScanPipelineProfile::All);
    assert_eq!(effective.len(), 24);
    assert_eq!(effective.as_slice(), PhaseSpec::all());
}

#[test]
fn parallel_phases_are_first_4() {
    let slots = PhaseSpec::slots();
    for (i, slot) in slots.iter().take(4).enumerate() {
        assert_eq!(slot.kind, PhaseKind::Parallel);
        assert_eq!(slot.phase, PhaseSpec::parallel()[i]);
    }
}

#[test]
fn sequential_phases_start_at_index_4() {
    let slots = PhaseSpec::slots();
    for (i, slot) in slots.iter().skip(4).enumerate() {
        assert_eq!(slot.kind, PhaseKind::Sequential);
        assert_eq!(slot.phase, PhaseSpec::sequential()[i]);
    }
}
