use baco::discovery::apply_discovery_fields;
use baco::finding::{Severity, TriageVerdict, VerificationStatus, VulnerabilityFinding};
use baco::gate::{gate_result_from, GateAnswer, GateReply};
use baco::orchestration::finding_from_item;
use baco::snippet::SourceText;
use baco::staging::{AutoPatcher, PatchValidationResult, StagingError};
use baco::types::PatchCandidate;
use baco::verification::{batch_ranges, build_volatile_verification_tail, verification_batches};

fn finding(title: &str, line: Option<u32>) -> VulnerabilityFinding {
    VulnerabilityFinding {
        id: "id".to_string(),
        title: title.to_string(),
        description: "Desc".to_string(),
        severity: Severity::High,
        confidence_bp: 7000,
        cwe_id: None,
        file_path: "src/a.rs".to_string(),
        line_number: line,
        code_snippet: None,
        recommendation: None,
        code_location: None,
        already_reported: false,
        sources: vec!["semgrep".to_string(), "llm \"x\"".to_string()],
        verification_status: None,
        verification_notes: None,
        llm_model: None,
        triage_verdict: None,
        statement_range: None,
        diff_hunk: None,
        agent_evidence_path: None,
        poc_code: None,
        poc_format: None,
        mitigation_code: None,
        evidence: Vec::new(),
    }
}

#[test]
fn batch_ranges_cover_items() {
    assert_eq!(batch_ranges(0, 8), vec![]);
    assert_eq!(batch_ranges(5, 8), vec![(0, 5)]);
    assert_eq!(batch_ranges(8, 8), vec![(0, 8)]);
    assert_eq!(batch_ranges(17, 8), vec![(0, 8), (8, 16), (16, 17)]);
    assert_eq!(batch_ranges(3, 1), vec![(0, 1), (1, 2), (2, 3)]);
}

#[test]
fn verification_batches_only_when_batching_applies() {
    assert_eq!(verification_batches(10, 1), vec![]);
    assert_eq!(verification_batches(10, 0), vec![]);
    assert_eq!(verification_batches(0, 8), vec![]);
    assert_eq!(verification_batches(10, 4), vec![(0, 4), (4, 8), (8, 10)]);
}

#[test]
fn candidate_records_validation() {
    let mut c = PatchCandidate::new("diff", "a.rs");
    let failed = AutoPatcher::apply_failure(&StagingError::PatchApply("conflict".to_string()));
    assert_eq!(failed.error_message, Some("Apply failed: Failed to apply patch: conflict".to_string()));
    assert!(!AutoPatcher::keeps_patch(&failed));
    AutoPatcher::record_validation(&mut c, &failed);
    assert!(!c.applied);
    assert_eq!(c.validation_result.as_ref().map(|v| v.compiles), Some(false));

    let ok = PatchValidationResult::success();
    assert!(AutoPatcher::keeps_patch(&ok));
    AutoPatcher::record_validation(&mut c, &ok);
    assert!(c.applied);
    assert_eq!(c.validation_result.as_ref().map(|v| v.tests_pass), Some(true));
    assert_eq!(c.diff, "diff");
}

#[test]
fn finding_from_reply_values() {
    let f = finding_from_item("HIGH", "SQLi".to_string(), 12, "d".to_string(), Some("CWE-89".to_string()), "src/db.rs", "hunt");
    assert_eq!(f.severity, Severity::High);
    assert_eq!(f.title, "SQLi");
    assert_eq!(f.line_number, Some(12));
    assert_eq!(f.confidence_bp, 7000);
    assert_eq!(f.sources, vec!["hunt".to_string()]);
    assert_eq!(f.cwe_id, Some("CWE-89".to_string()));
    let g = finding_from_item("unknown", "t".to_string(), 1, String::new(), None, "x.rs", "independent_verify");
    assert_eq!(g.severity, Severity::Low);
    assert_eq!(g.id, VulnerabilityFinding::generate_id("x.rs", Some(1), "CWE-000"));
}

fn reply(answers: [&str; 7], vector: Option<&str>, theoretical: Option<bool>) -> GateReply {
    let s = |x: &str| Some(x.to_string());
    GateReply {
        reachability: s(answers[0]),
        controllability: s(answers[1]),
        preconditions: s(answers[2]),
        impact: s(answers[3]),
        context: s(answers[4]),
        evidence: s(answers[5]),
        confidence: s(answers[6]),
        attack_vector: vector.map(|v| v.to_string()),
        consequence: None,
        is_theoretical: theoretical,
        verification_notes: s("notes"),
        verification_status: s("confirmed"),
    }
}

#[test]
fn gate_result_from_reply_values() {
    let g = gate_result_from(reply(["yes", "yes", "no", "yes", "yes", "yes", "yes"], Some("payload"), Some(false)));
    assert_eq!(g.reachability, GateAnswer::Yes);
    assert_eq!(g.triage_verdict, TriageVerdict::Pass);
    assert!(g.concrete_impact_proof.is_some());
    assert_eq!(g.verification_notes, "notes");
    assert_eq!(g.verification_status, Some(VerificationStatus::Confirmed));

    let k = gate_result_from(reply(["no", "yes", "no", "yes", "yes", "yes", "yes"], None, None));
    assert_eq!(k.triage_verdict, TriageVerdict::Kill);
    assert!(k.concrete_impact_proof.is_none());
}

#[test]
fn discovery_fields_update() {
    let mut f = finding("A", None);
    apply_discovery_fields(&mut f, Some("New".to_string()), None);
    assert_eq!(f.description, "New");
    assert_eq!(f.diff_hunk, None);
    apply_discovery_fields(&mut f, None, Some("fix()".to_string()));
    assert_eq!(f.description, "New");
    assert_eq!(f.diff_hunk, Some("fix()".to_string()));
}

fn ten_lines(_p: &str) -> SourceText {
    SourceText::Text((1..=10).map(|i| format!("l{}", i)).collect::<Vec<_>>().join("\n"))
}

fn unreadable(_p: &str) -> SourceText {
    SourceText::Unreadable
}

#[test]
fn volatile_tail_text() {
    let mut f = finding("XSS", Some(7));
    f.code_snippet = Some("echo $x".to_string());
    let g = finding("Other", None);
    let tail = build_volatile_verification_tail(&[f.clone(), g], &[], &ten_lines);
    let expected = "Finding #0: XSS\nLocation: src/a.rs:7\nDescription: Desc\nSources: [\"semgrep\", \"llm \\\"x\\\"\"]\n\
Vulnerable code:\n```\necho $x\n```\n\
Code context (src/a.rs:7):\n    2: l2\n    3: l3\n    4: l4\n    5: l5\n    6: l6\n    7: l7\n    8: l8\n    9: l9\n   10: l10\n\
\n---\n\n\
Finding #1: Other\nLocation: src/a.rs:0\nDescription: Desc\nSources: [\"semgrep\", \"llm \\\"x\\\"\"]\n\
\n---\n\nReturn JSON array now.\n";
    assert_eq!(tail, expected);

    let no_file = build_volatile_verification_tail(&[f.clone()], &[], &unreadable);
    assert!(!no_file.contains("Code context"));

    let mut far = finding("Far", Some(40));
    far.code_snippet = None;
    let t = build_volatile_verification_tail(&[far], &[], &ten_lines);
    assert!(t.contains("Code context (src/a.rs:40):\n\n"));
    assert_eq!(build_volatile_verification_tail(&[], &[], &ten_lines), "Return JSON array now.\n");
}
