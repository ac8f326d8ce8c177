use baco::finding::{Severity, VulnerabilityFinding};
use baco::orchestration::boost_independent_confidence;

fn finding(id: &str, sources: &str) -> VulnerabilityFinding {
    VulnerabilityFinding {
        id: id.to_string(),
        title: "Test".to_string(),
        description: "Test".to_string(),
        severity: Severity::High,
        confidence_bp: 7000,
        cwe_id: Some("CWE-89".to_string()),
        file_path: "test.rs".to_string(),
        line_number: Some(42),
        code_snippet: None,
        recommendation: None,
        code_location: None,
        already_reported: false,
        sources: vec![sources.to_string()],
        verification_status: None,
        verification_notes: None,
        llm_model: None,
        triage_verdict: None,
        statement_range: None,
        diff_hunk: None,
        agent_evidence_path: None,
        poc_code: None,
        poc_format: None,
        mitigation_code: None,
        evidence: Vec::new(),
    }
}

#[test]
fn test_boost_confidence() {
    let mut ind_finding = finding("ind-1", "ind");
    let prior_finding = finding("prior-1", "prior");

    boost_independent_confidence(std::slice::from_mut(&mut ind_finding), &[prior_finding]);
    // Confidence should be boosted by 0.2
    assert_eq!(ind_finding.confidence_bp, 9000);
}

#[test]
fn validate_batch_prompt_lists_findings() {
    let mut a = finding_for_prompt("SQL injection", Some("CWE-89"), Some(12));
    a.code_snippet = Some("query(x)".to_string());
    let b = finding_for_prompt("Weak hash", None, None);
    let p = baco::orchestration::ValidatePhase::build_batch_prompt("GATE", &[a, b], "fn main() {}");
    assert_eq!(
        p,
        "GATE\n\nCode:\n```\nfn main() {}\n```\n\nFindings to analyze:\n\
         \n--- Finding 1 ---\nTitle: SQL injection\nLocation: src/db.rs:12\nDescription: D\nCWE: CWE-89\nCode snippet: query(x)\n\
         \n--- Finding 2 ---\nTitle: Weak hash\nLocation: src/db.rs:0\nDescription: D\n"
    );
    let empty = baco::orchestration::ValidatePhase::build_batch_prompt("", &[], "");
    assert_eq!(empty, "\n\nCode:\n```\n\n```\n\nFindings to analyze:\n");
}

fn finding_for_prompt(title: &str, cwe: Option<&str>, line: Option<u32>) -> baco::finding::VulnerabilityFinding {
    baco::finding::VulnerabilityFinding {
        id: "x".to_string(),
        title: title.to_string(),
        description: "D".to_string(),
        severity: baco::finding::Severity::High,
        confidence_bp: 5000,
        cwe_id: cwe.map(|c| c.to_string()),
        file_path: "src/db.rs".to_string(),
        line_number: line,
        code_snippet: None,
        recommendation: None,
        code_location: None,
        already_reported: false,
        sources: Vec::new(),
        verification_status: None,
        verification_notes: None,
        llm_model: None,
        triage_verdict: None,
        statement_range: None,
        diff_hunk: None,
        agent_evidence_path: None,
        poc_code: None,
        poc_format: None,
        mitigation_code: None,
        evidence: Vec::new(),
    }
}
