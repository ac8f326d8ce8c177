use baco::verification::build_stable_verification_prefix;
use baco::dedup::structural_dedup;
use baco::finding::{Severity, VulnerabilityFinding};
use baco::git_url::extract_owner_repo_from_url;
use baco::graph::{get_phase_message, PhaseGraph};
use baco::phase::{ScanPhase, ScanPipelineProfile};
use baco::scan::{
    experimental_phase_names, medium_plus_count, phases_skipped_after_parallel, plan_parallel, remaining_phase_names,
    sequential_step_message, should_terminate_early, step_action, StepAction,
};

fn finding(line: u32, severity: Severity, sources: &[&str], conf: u32) -> VulnerabilityFinding {
    VulnerabilityFinding {
        id: format!("f{}", line),
        title: "T".to_string(),
        description: "D".to_string(),
        severity,
        confidence_bp: conf,
        cwe_id: Some("CWE-79".to_string()),
        file_path: "a.rs".to_string(),
        line_number: Some(line),
        code_snippet: None,
        recommendation: None,
        code_location: None,
        already_reported: false,
        sources: sources.iter().map(|s| s.to_string()).collect(),
        verification_status: None,
        verification_notes: None,
        llm_model: None,
        triage_verdict: None,
        statement_range: None,
        diff_hunk: None,
        agent_evidence_path: None,
        poc_code: None,
        poc_format: None,
        mitigation_code: None,
        evidence: Vec::new(),
    }
}

#[test]
fn owner_repo_from_urls() {
    assert_eq!(extract_owner_repo_from_url("git@github.com:owner/repo-name.git"), Some(("owner".to_string(), "repo-name".to_string())));
    assert_eq!(extract_owner_repo_from_url("  https://github.com/owner/repo.git\n"), Some(("owner".to_string(), "repo".to_string())));
    assert_eq!(extract_owner_repo_from_url("http://host/o/r/tree/main"), Some(("o".to_string(), "r".to_string())));
    assert_eq!(extract_owner_repo_from_url("https://github.com/owner"), None);
    assert_eq!(extract_owner_repo_from_url("ftp://x/y/z"), None);
}

#[test]
fn dedup_clusters_nearby_lines() {
    let mut fs = vec![
        finding(10, Severity::High, &["a"], 7000),
        finding(12, Severity::High, &["b", "c"], 6000),
        finding(30, Severity::High, &["a"], 7000),
    ];
    let merged = structural_dedup(&mut fs);
    assert_eq!(merged, 1);
    assert_eq!(fs.len(), 2);
    assert_eq!(fs[0].line_number, Some(12));
    assert_eq!(fs[0].sources, vec!["a".to_string(), "b".to_string(), "c".to_string()]);
    assert_eq!(fs[1].line_number, Some(30));
}

#[test]
fn parallel_plan_decisions() {
    let completed = vec![ScanPhase::Indexing, ScanPhase::LlmStaticAnalysis];
    let mut empty_desc = finding(1, Severity::Low, &[], 0);
    empty_desc.description = String::new();
    let plan = plan_parallel(&completed, &ScanPipelineProfile::Core, &[empty_desc]);
    assert!(!plan.run_indexing);
    assert!(plan.run_semgrep);
    assert!(plan.run_llm_static);
    assert!(!plan.run_cpg_slice);
    let plan2 = plan_parallel(&completed, &ScanPipelineProfile::All, &[finding(1, Severity::Low, &[], 0)]);
    assert!(!plan2.run_llm_static);
    assert!(plan2.reuse_llm_checkpoint);
    assert!(plan2.run_cpg_slice);
}

#[test]
fn sequential_steps() {
    assert_eq!(step_action(&ScanPhase::Validate, &[], &ScanPipelineProfile::Core), StepAction::SkipProfile);
    assert_eq!(step_action(&ScanPhase::Validate, &[], &ScanPipelineProfile::All), StepAction::Run);
    assert_eq!(step_action(&ScanPhase::Reporting, &[ScanPhase::Reporting], &ScanPipelineProfile::All), StepAction::SkipCompleted);
    assert_eq!(sequential_step_message(0, &ScanPhase::CweRouting), "Phase 5/24: CWE routing (routing findings to specialized models)...");
    assert_eq!(sequential_step_message(1, &ScanPhase::RuleSynthesis), "Phase 6/24: RuleSynthesis");
}

#[test]
fn early_termination() {
    let fs = vec![
        finding(1, Severity::Medium, &[], 0),
        finding(2, Severity::Low, &[], 0),
        finding(3, Severity::Critical, &[], 0),
    ];
    assert_eq!(medium_plus_count(&fs), 2);
    assert!(should_terminate_early(2, Some(1)));
    assert!(!should_terminate_early(2, Some(2)));
    assert!(!should_terminate_early(100, None));
    assert_eq!(remaining_phase_names(&ScanPhase::VariantSearch), vec!["Reporting".to_string()]);
    assert!(remaining_phase_names(&ScanPhase::Semgrep).is_empty());
    assert_eq!(phases_skipped_after_parallel().len(), 19);
    assert_eq!(phases_skipped_after_parallel()[0], "RuleSynthesis");
    assert_eq!(experimental_phase_names()[0], "CpgSlice");
}

#[test]
fn phase_graph_navigation() {
    let g = PhaseGraph::new();
    assert_eq!(g.total_phases(), 24);
    assert_eq!(g.next_phase(&ScanPhase::Indexing), Some(&ScanPhase::Semgrep));
    assert_eq!(g.previous_phase(&ScanPhase::Indexing), None);
    assert_eq!(g.next_phase(&ScanPhase::Reporting), None);
    assert!(get_phase_message(&ScanPhase::Reporting, 24, 24).starts_with("Phase 24/24: "));
}

#[test]
fn dedup_twice_merges_nothing_more() {
    let mut v = vec![
        finding(10, Severity::High, &["semgrep"], 7000),
        finding(11, Severity::High, &["llm"], 8000),
        finding(13, Severity::High, &["hunt"], 6000),
        finding(20, Severity::Low, &["semgrep"], 5000),
    ];
    let first = structural_dedup(&mut v);
    assert_eq!(first, 2);
    let snapshot: Vec<(String, Vec<String>, Option<u32>)> =
        v.iter().map(|f| (f.id.clone(), f.sources.clone(), f.line_number)).collect();
    let second = structural_dedup(&mut v);
    assert_eq!(second, 0);
    let after: Vec<(String, Vec<String>, Option<u32>)> =
        v.iter().map(|f| (f.id.clone(), f.sources.clone(), f.line_number)).collect();
    assert_eq!(after, snapshot);
}

fn xss_domain(cwe: &str) -> Option<String> {
    if cwe == "CWE-79" || cwe == "CWE-80" { Some("xss".to_string()) } else { None }
}

#[test]
fn stable_prefix_same_domains_same_text() {
    let prompts = vec![("xss".to_string(), "Look for escaping".to_string())];
    let mut a = finding(1, Severity::High, &["x"], 1);
    a.cwe_id = Some("CWE-79".to_string());
    let mut b = finding(2, Severity::High, &["x"], 1);
    b.cwe_id = Some("CWE-80".to_string());
    let mut c = finding(3, Severity::High, &["x"], 1);
    c.cwe_id = Some("CWE-1".to_string());
    let p1 = build_stable_verification_prefix(&[a.clone()], &prompts, &xss_domain);
    let p2 = build_stable_verification_prefix(&[c, b, a], &prompts, &xss_domain);
    assert_eq!(p1, p2);
}
