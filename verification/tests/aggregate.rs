use baco::finding::{Severity, VulnerabilityFinding};
use baco::scan::{combine_parallel_results, log_and_aggregate_llm_results, PhaseResult};

fn create_test_finding(title: &str) -> VulnerabilityFinding {
    VulnerabilityFinding {
        id: format!("test-{}", title),
        title: title.to_string(),
        description: format!("Test finding: {}", title),
        severity: Severity::Medium,
        confidence_bp: 8000,
        cwe_id: None,
        file_path: "test.rs".to_string(),
        line_number: Some(1),
        code_snippet: None,
        recommendation: None,
        code_location: None,
        already_reported: false,
        sources: vec![],
        verification_status: None,
        verification_notes: None,
        llm_model: None,
        triage_verdict: None,
        statement_range: None,
        diff_hunk: None,
        agent_evidence_path: None,
        poc_code: None,
        poc_format: None,
        mitigation_code: None,
        evidence: Vec::new(),
    }
}

#[test]
fn test_log_and_aggregate_some_ok() {
    let llm_result = Some(Ok((
        vec![create_test_finding("finding1")],
        vec!["file1.rs".to_string()],
    )));

    let mut findings = vec![create_test_finding("existing")];
    let mut analyzed_files = vec!["old.rs".to_string()];

    log_and_aggregate_llm_results(&llm_result, &mut findings, &mut analyzed_files);

    assert_eq!(findings.len(), 2);
    assert_eq!(analyzed_files, vec!["file1.rs".to_string()]);
}

#[test]
fn test_log_and_aggregate_some_ok_empty_findings() {
    let llm_result = Some(Ok((vec![], vec!["file1.rs".to_string()])));

    let mut findings = vec![create_test_finding("existing")];
    let mut analyzed_files = vec!["old.rs".to_string()];

    log_and_aggregate_llm_results(&llm_result, &mut findings, &mut analyzed_files);

    assert_eq!(findings.len(), 1);
    assert_eq!(analyzed_files, vec!["file1.rs".to_string()]);
}

#[test]
fn test_log_and_aggregate_some_err() {
    let llm_result = Some(Err("test error".to_string()));

    let mut findings = vec![create_test_finding("existing")];
    let mut analyzed_files = vec!["old.rs".to_string()];

    log_and_aggregate_llm_results(&llm_result, &mut findings, &mut analyzed_files);

    assert_eq!(findings.len(), 1);
    assert_eq!(analyzed_files, vec!["old.rs".to_string()]);
}

#[test]
fn test_log_and_aggregate_none() {
    let llm_result: Option<PhaseResult> = None;

    let mut findings = vec![create_test_finding("existing")];
    let mut analyzed_files = vec!["old.rs".to_string()];

    log_and_aggregate_llm_results(&llm_result, &mut findings, &mut analyzed_files);

    assert_eq!(findings.len(), 1);
    assert_eq!(analyzed_files, vec!["old.rs".to_string()]);
}

#[test]
fn test_log_and_aggregate_multiple_findings() {
    let llm_result = Some(Ok((
        vec![
            create_test_finding("finding1"),
            create_test_finding("finding2"),
            create_test_finding("finding3"),
        ],
        vec!["file1.rs".to_string()],
    )));

    let mut findings = vec![create_test_finding("existing")];
    let mut analyzed_files = vec!["old.rs".to_string()];

    log_and_aggregate_llm_results(&llm_result, &mut findings, &mut analyzed_files);

    assert_eq!(findings.len(), 4);
    assert_eq!(analyzed_files, vec!["file1.rs".to_string()]);
}

#[test]
fn combine_keeps_phase_order_and_llm_files() {
    let base = vec![create_test_finding("base")];
    let indexing: Option<PhaseResult> = Some(Ok((vec![create_test_finding("idx")], vec!["a.rs".to_string()])));
    let semgrep: Option<PhaseResult> = Some(Err("semgrep missing".to_string()));
    let llm: Option<PhaseResult> = Some(Ok((vec![create_test_finding("llm")], vec!["b.rs".to_string()])));
    let (findings, files) = combine_parallel_results(base, indexing, semgrep, llm);
    let titles: Vec<&str> = findings.iter().map(|f| f.title.as_str()).collect();
    assert_eq!(titles, vec!["base", "idx", "llm"]);
    assert_eq!(files, vec!["b.rs".to_string()]);
}

#[test]
fn combine_without_llm_result_has_no_files() {
    let (findings, files) = combine_parallel_results(vec![], None, None, None);
    assert!(findings.is_empty());
    assert!(files.is_empty());
}
