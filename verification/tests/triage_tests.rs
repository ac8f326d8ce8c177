use baco::finding::{Severity, TriageVerdict, VerificationStatus, VulnerabilityFinding};
use baco::gate::{apply_gate_logic, apply_gate_results, parse_7question_gate, parse_gate_answer, ConcreteImpactProof, GateAnswer};
use GateAnswer::{No, Unknown, Yes};

fn finding(conf: u32) -> VulnerabilityFinding {
    VulnerabilityFinding {
        id: "f".to_string(),
        title: "T".to_string(),
        description: "D".to_string(),
        severity: Severity::High,
        confidence_bp: conf,
        cwe_id: None,
        file_path: "a.rs".to_string(),
        line_number: Some(3),
        code_snippet: None,
        recommendation: None,
        code_location: None,
        already_reported: false,
        sources: vec!["x".to_string()],
        verification_status: None,
        verification_notes: None,
        llm_model: None,
        triage_verdict: None,
        statement_range: None,
        diff_hunk: None,
        agent_evidence_path: None,
        poc_code: None,
        poc_format: None,
        mitigation_code: None,
        evidence: Vec::new(),
    }
}

fn impact_proof(theoretical: bool) -> ConcreteImpactProof {
    ConcreteImpactProof { attack_vector: "v".to_string(), consequence: "c".to_string(), is_theoretical: theoretical }
}

#[test]
fn gate_logic_kill_conditions() {
    let p = impact_proof(false);
    assert_eq!(apply_gate_logic(No, Yes, No, Yes, Yes, Yes, Yes, Some(&p)), TriageVerdict::Kill);
    assert_eq!(apply_gate_logic(Yes, No, No, Yes, Yes, Yes, Yes, Some(&p)), TriageVerdict::Kill);
    assert_eq!(apply_gate_logic(Yes, Yes, Yes, Yes, Yes, Yes, Yes, Some(&p)), TriageVerdict::Kill);
}

#[test]
fn gate_logic_downgrades_and_pass() {
    let real = impact_proof(false);
    let theory = impact_proof(true);
    assert_eq!(apply_gate_logic(Yes, Yes, No, Yes, Yes, Yes, Yes, None), TriageVerdict::Downgrade { adjusted_severity: Severity::Low });
    assert_eq!(apply_gate_logic(Yes, Yes, No, Yes, Yes, Yes, Yes, Some(&theory)), TriageVerdict::Downgrade { adjusted_severity: Severity::Low });
    assert_eq!(apply_gate_logic(Yes, Yes, No, No, Yes, Yes, Yes, Some(&real)), TriageVerdict::Downgrade { adjusted_severity: Severity::Low });
    assert_eq!(apply_gate_logic(Yes, Yes, No, Yes, Yes, Yes, Yes, Some(&real)), TriageVerdict::Pass);
    assert_eq!(apply_gate_logic(Unknown, Yes, No, Yes, Unknown, Yes, Yes, Some(&real)), TriageVerdict::Downgrade { adjusted_severity: Severity::Medium });
}

#[test]
fn gate_answer_words() {
    assert_eq!(parse_gate_answer(&Some("YES".to_string())), Yes);
    assert_eq!(parse_gate_answer(&Some("no".to_string())), No);
    assert_eq!(parse_gate_answer(&Some("maybe".to_string())), Unknown);
    assert_eq!(parse_gate_answer(&None), Unknown);
    assert_eq!(Yes.label(), "YES");
}

const ITEM: &str = r#"{"seven_question_gate": {"reachability": "yes", "controllability": "yes", "preconditions": "no", "impact": "yes", "context": "yes", "evidence": "yes", "confidence": "yes"}, "concrete_impact_proof": {"attack_vector": "sends x", "consequence": "rce", "is_theoretical": false}, "verification_status": "confirmed", "verification_notes": "looks real"}"#;

#[test]
fn reply_array_and_single_object() {
    let array = format!("```json\n[{}, {{\"x\": 1}}, {}]\n```", ITEM, ITEM);
    let gs = parse_7question_gate(&array);
    assert_eq!(gs.len(), 2);
    assert_eq!(gs[0].0, 0);
    assert_eq!(gs[1].0, 2);
    assert_eq!(gs[0].1.triage_verdict, TriageVerdict::Pass);
    assert_eq!(gs[0].1.verification_status, Some(VerificationStatus::Confirmed));
    let single = parse_7question_gate(ITEM);
    assert_eq!(single.len(), 1);
    assert_eq!(single[0].0, 0);
    assert!(parse_7question_gate("not json").is_empty());
}

#[test]
fn gate_results_applied_to_batch() {
    let gs = parse_7question_gate(ITEM);
    let batch = vec![finding(8000), finding(6000)];
    let mut out = Vec::new();
    apply_gate_results(&batch, &mut out, gs);
    assert_eq!(out.len(), 2);
    assert_eq!(out[0].triage_verdict, Some(TriageVerdict::Pass));
    assert_eq!(out[0].confidence_bp, 9200);
    assert_eq!(
        out[0].verification_notes,
        Some("7-question gate: R=YES C=YES P=NO I=YES Ct=YES E=YES Conf=YES | Impact proof: sends x | Reasoning: looks real".to_string())
    );
    assert_eq!(out[1].verification_status, Some(VerificationStatus::NeedsReview));
    assert_eq!(out[1].verification_notes, Some("7-question gate skipped - parsing failed".to_string()));
    assert_eq!(out[1].confidence_bp, 6000);
}

#[test]
fn pass_confidence_is_capped_and_kill_zeroes() {
    let gs = parse_7question_gate(ITEM);
    let mut out = Vec::new();
    apply_gate_results(&[finding(9500)], &mut out, gs);
    assert_eq!(out[0].confidence_bp, 10000);
    let kill = ITEM.replace("\"reachability\": \"yes\"", "\"reachability\": \"no\"");
    let mut out2 = Vec::new();
    apply_gate_results(&[finding(9500)], &mut out2, parse_7question_gate(&kill));
    assert_eq!(out2[0].triage_verdict, Some(TriageVerdict::Kill));
    assert_eq!(out2[0].confidence_bp, 0);
}
