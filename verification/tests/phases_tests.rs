use baco::finding::{Severity, VerificationStatus, VulnerabilityFinding};
use baco::orchestration::{
    merge_hunt_findings, parse_findings, HuntPhase, IndependentVerifyPhase, OrchestrationConfig, PhaseError, ValidatePhase,
};
use baco::verification::{
    apply_verdicts, batch_verdicts, clean_verdict_reply, extract_function_name_from_finding, failed_batch_verdicts,
    needs_poc, poc_formats, split_rejected, verdict_from_parsed, BatchVerdictItem, PocFormat,
};

fn finding(line: u32, cwe: Option<&str>, conf: u32) -> VulnerabilityFinding {
    VulnerabilityFinding {
        id: format!("f{}", line),
        title: "T".to_string(),
        description: "D".to_string(),
        severity: Severity::High,
        confidence_bp: conf,
        cwe_id: cwe.map(|c| c.to_string()),
        file_path: "a.rs".to_string(),
        line_number: Some(line),
        code_snippet: None,
        recommendation: None,
        code_location: None,
        already_reported: false,
        sources: vec!["hunt".to_string()],
        verification_status: None,
        verification_notes: None,
        llm_model: None,
        triage_verdict: None,
        statement_range: None,
        diff_hunk: None,
        agent_evidence_path: None,
        poc_code: None,
        poc_format: None,
        mitigation_code: None,
        evidence: Vec::new(),
    }
}

#[test]
fn reply_findings_parsed() {
    let reply = "```json\n[{\"severity\": \"HIGH\", \"title\": \"SQLi\", \"description\": \"d\", \"line\": 12, \"cwe_id\": \"CWE-89\"}, {\"title\": \"no severity\", \"line\": 3}]\n```";
    let fs = parse_findings(reply, "src/a.rs", "hunt");
    assert_eq!(fs.len(), 1);
    assert_eq!(fs[0].severity, Severity::High);
    assert_eq!(fs[0].title, "SQLi");
    assert_eq!(fs[0].line_number, Some(12));
    assert_eq!(fs[0].sources, vec!["hunt".to_string()]);
    assert_eq!(fs[0].confidence_bp, 7000);
    assert_eq!(fs[0].id, "8d2b4d6edc8925bef50c69da8c010e3588ebc06dbd054968aec4e10d1f892a85");
    assert!(parse_findings("{\"severity\": \"high\"}", "a", "hunt").is_empty());
}

#[test]
fn unknown_severity_word_is_low() {
    let fs = parse_findings("[{\"severity\": \"weird\", \"title\": \"t\", \"line\": 1}]", "a", "independent_verify");
    assert_eq!(fs[0].severity, Severity::Low);
    assert_eq!(fs[0].description, "");
}

#[test]
fn hunt_merge_boosts_repeated_keys() {
    let per_class = vec![
        vec![finding(10, Some("CWE-89"), 7000), finding(20, None, 7000)],
        vec![finding(10, Some("CWE-89"), 5000)],
        vec![finding(10, Some("CWE-89"), 7000), finding(20, Some(""), 6000)],
    ];
    let out = merge_hunt_findings(per_class);
    assert_eq!(out.len(), 2);
    assert_eq!(out[0].line_number, Some(10));
    assert_eq!(out[0].confidence_bp, 10000);
    assert_eq!(out[1].line_number, Some(20));
    assert_eq!(out[1].confidence_bp, 8500);
}

#[test]
fn hunt_classes_selection() {
    let all = HuntPhase::new(OrchestrationConfig { enabled: true, ..OrchestrationConfig::default() });
    assert_eq!(all.classes_to_run().len(), 7);
    let some = HuntPhase::new(OrchestrationConfig {
        enabled: true,
        hunt_classes: vec!["xss".to_string(), "crypto".to_string(), "other".to_string()],
        ..OrchestrationConfig::default()
    });
    assert_eq!(some.classes_to_run(), vec!["xss", "crypto"]);
    let off = HuntPhase::new(OrchestrationConfig::default());
    assert!(off.classes_to_run().is_empty());
}

#[test]
fn independent_prompt_wraps_source() {
    let p = IndependentVerifyPhase::independent_verify_prompt("fn main() {}");
    assert!(p.starts_with("Analyze this code for security vulnerabilities."));
    assert!(p.ends_with("Code:\n```\nfn main() {}\n```"));
    assert!(!IndependentVerifyPhase::new(OrchestrationConfig::default()).is_enabled());
}

#[test]
fn validate_phase_batches_and_errors() {
    let phase = ValidatePhase::new(OrchestrationConfig { enabled: true, validate_batch_size: 0, ..OrchestrationConfig::default() });
    assert_eq!(phase.batch_size(), 1);
    assert!(phase.passes_through(&[]));
    let batch = vec![finding(1, None, 7000)];
    let mut out = Vec::new();
    phase.absorb_reply(&batch, &Err("timeout".to_string()), &mut out);
    assert_eq!(out.len(), 1);
    assert_eq!(out[0].confidence_bp, 7000);
    assert!(out[0].verification_notes.is_none());
    assert_eq!(PhaseError("boom".to_string()).message(), "Phase error: boom");
}

#[test]
fn verdict_reply_cleaning_and_mapping() {
    assert_eq!(clean_verdict_reply("```json\n{\"a\":1}\n```"), "{\"a\":1}");
    let (s, n) = verdict_from_parsed(Some(("false_positive".to_string(), None)), "raw");
    assert_eq!(s, VerificationStatus::FalsePositive);
    assert_eq!(n, "");
    let (s2, n2) = verdict_from_parsed(None, "raw text");
    assert_eq!(s2, VerificationStatus::NeedsReview);
    assert_eq!(n2, "raw text");
}

#[test]
fn batch_verdicts_fill_missing_items() {
    let items = vec![
        BatchVerdictItem { index: 0, verification_status: "confirmed".to_string(), verification_notes: Some("ok".to_string()) },
        BatchVerdictItem { index: 2, verification_status: String::new(), verification_notes: None },
        BatchVerdictItem { index: 7, verification_status: "confirmed".to_string(), verification_notes: None },
    ];
    let r = batch_verdicts(Some(items), "raw", 4);
    assert_eq!(r.len(), 4);
    assert_eq!(r[0], (VerificationStatus::Confirmed, "ok".to_string()));
    assert_eq!(r[1], (VerificationStatus::NeedsReview, "Batch parse missing this item".to_string()));
    assert_eq!(r[2], (VerificationStatus::NeedsReview, "Batch parse missing verification_status for this item".to_string()));
    assert_eq!(r[3], (VerificationStatus::NeedsReview, "Batch parse missing this item".to_string()));
    let all_raw = batch_verdicts(None, "garbage", 2);
    assert_eq!(all_raw, vec![(VerificationStatus::NeedsReview, "garbage".to_string()); 2]);
    assert_eq!(failed_batch_verdicts(1, "down")[0].1, "Batch error: down");
}

#[test]
fn verdicts_applied_and_rejections_split() {
    let mut fs = vec![finding(1, None, 7000), finding(2, None, 7000), finding(3, None, 7000)];
    apply_verdicts(&mut fs, &[
        (VerificationStatus::FalsePositive, "not reachable".to_string()),
        (VerificationStatus::Confirmed, "real".to_string()),
    ]);
    assert_eq!(fs[2].verification_status, None);
    let (kept, rejected) = split_rejected(fs);
    assert_eq!(kept.len(), 2);
    assert_eq!(rejected.len(), 1);
    assert_eq!(rejected[0].1, "not reachable");
    assert!(needs_poc(&kept[0]));
}

#[test]
fn poc_languages() {
    assert_eq!(poc_formats(None), vec![PocFormat::Python]);
    let langs = vec!["Rust".to_string(), "go".to_string(), "TypeScript".to_string()];
    assert_eq!(poc_formats(Some(&langs)), vec![PocFormat::Rust, PocFormat::Go, PocFormat::Python]);
    assert_eq!(poc_formats(Some(&vec![])), vec![PocFormat::Python]);
}

#[test]
fn function_names_from_findings() {
    let mut f = finding(1, None, 7000);
    f.code_snippet = Some("pub fn handle_request(req: Request) {".to_string());
    assert_eq!(extract_function_name_from_finding(&f), Some("handle_request".to_string()));
    f.code_snippet = Some("if (x) { call_me(y) }".to_string());
    assert_eq!(extract_function_name_from_finding(&f), None);
    f.code_snippet = None;
    f.title = "def parse_input".to_string();
    assert_eq!(extract_function_name_from_finding(&f), Some("parse_input".to_string()));
}
