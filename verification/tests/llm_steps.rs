use baco::agent::{
    apply_agent_error, apply_agent_failure, apply_agent_run, apply_poc_check, merge_agent_verdict, poc_language,
    scaffold_context, AgentRun,
};
use baco::budget::{is_high_risk_file, FileStep, LlmBudget};
use baco::discovery::{
    apply_discovery_reply, dependency_vendor_product, discovery_prompt, hunt_context, merge_agent_discovery,
    prior_runs_note,
};
use baco::finding::{Severity, VerificationStatus, VulnerabilityFinding};
use baco::verification::{build_stable_verification_prefix, VERIFICATION_PREAMBLE};

fn finding(title: &str, cwe: Option<&str>, line: Option<u32>) -> VulnerabilityFinding {
    VulnerabilityFinding {
        id: format!("id-{}", title),
        title: title.to_string(),
        description: "Original description".to_string(),
        severity: Severity::Medium,
        confidence_bp: 7000,
        cwe_id: cwe.map(|c| c.to_string()),
        file_path: "src/app.rs".to_string(),
        line_number: line,
        code_snippet: None,
        recommendation: None,
        code_location: None,
        already_reported: false,
        sources: vec!["llm".to_string()],
        verification_status: None,
        verification_notes: None,
        llm_model: None,
        triage_verdict: None,
        statement_range: None,
        diff_hunk: None,
        agent_evidence_path: None,
        poc_code: None,
        poc_format: None,
        mitigation_code: None,
        evidence: Vec::new(),
    }
}

fn strings(v: &[&str]) -> Vec<String> {
    v.iter().map(|s| s.to_string()).collect()
}

#[test]
fn high_risk_file_names() {
    assert!(is_high_risk_file("main.rs"));
    assert!(is_high_risk_file("myapp.py"));
    assert!(is_high_risk_file("__init__.py"));
    assert!(is_high_risk_file("server.go"));
    assert!(!is_high_risk_file("lib.rs"));
    assert!(!is_high_risk_file("__main__.py"));
}

#[test]
fn budget_reserve_split() {
    let b = LlmBudget::new(10, 3);
    assert_eq!(b.normal_cap, 7);
    assert_eq!(b.calls, 0);
    let b = LlmBudget::new(2, 5);
    assert_eq!(b.normal_cap, 0);
    let b = LlmBudget::new(usize::MAX, 0);
    assert_eq!(b.normal_cap, usize::MAX);
}

#[test]
fn budget_skips_analyzed_and_spent_files() {
    let mut b = LlmBudget::new(3, 1);
    let analyzed = strings(&["src/done.rs"]);
    assert_eq!(b.next_file(&analyzed, "src/done.rs", "done.rs"), FileStep::AlreadyAnalyzed);
    assert_eq!(b.next_file(&analyzed, "src/a.rs", "a.rs"), FileStep::Analyze);
    b.record_call();
    assert_eq!(b.next_file(&analyzed, "src/b.rs", "b.rs"), FileStep::Analyze);
    b.record_call();
    // The normal share (2 calls) is spent: only high-risk files go on.
    assert_eq!(b.next_file(&analyzed, "src/c.rs", "c.rs"), FileStep::OverBudget);
    assert_eq!(b.skipped_by_budget, strings(&["src/c.rs"]));
    assert_eq!(b.next_file(&analyzed, "src/main.rs", "main.rs"), FileStep::Analyze);
    assert_eq!(b.high_risk_protected, 1);
    b.record_call();
    assert_eq!(b.calls, 3);
    // The whole budget is spent.
    assert_eq!(b.next_file(&analyzed, "src/index.js", "index.js"), FileStep::OverBudget);
    assert_eq!(b.skipped_by_budget, strings(&["src/c.rs", "src/index.js"]));
    assert!(b.calls <= b.max_calls);
}

#[test]
fn vendor_and_product_of_dependencies() {
    let vp = |n: &str| {
        let (v, p) = dependency_vendor_product(n);
        (v, p)
    };
    assert_eq!(vp("serde"), ("serde".to_string(), "serde".to_string()));
    assert_eq!(vp("tokio-util"), ("tokio".to_string(), "tokio-util".to_string()));
    assert_eq!(vp("github.com/gin-gonic/gin"), ("github.com".to_string(), "gin-gonic".to_string()));
    assert_eq!(vp("@babel/core"), ("@babel".to_string(), "core".to_string()));
    assert_eq!(vp("a/"), ("a".to_string(), "".to_string()));
    assert_eq!(vp(""), ("".to_string(), "".to_string()));
}

#[test]
fn prior_runs_note_lists_keys() {
    assert_eq!(prior_runs_note(&[], &strings(&["x.rs"])), None);
    let note = prior_runs_note(&strings(&["k1", "k2"]), &strings(&["a.rs"])).unwrap();
    assert_eq!(
        note,
        "KNOWN FINDINGS FROM PRIOR RUNS (do not re-report these; seek NEW distinct issues):\n- k1 at a.rs"
    );
    let keys: Vec<String> = (0..52).map(|i| format!("k{}", i)).collect();
    let paths: Vec<String> = (0..52).map(|i| format!("p{}", i)).collect();
    let note = prior_runs_note(&keys, &paths).unwrap();
    let lines: Vec<&str> = note.lines().collect();
    assert_eq!(lines.len(), 1 + 50 + 1);
    assert_eq!(lines[1], "- k0 at p0");
    assert_eq!(lines[50], "- k49 at p49");
    assert_eq!(lines[51], "+ 2 more");
}

#[test]
fn hunt_context_blocks() {
    assert_eq!(hunt_context(&[]), None);
    assert_eq!(hunt_context(&[("injection".to_string(), None)]), None);
    let ctx = hunt_context(&[
        ("injection".to_string(), Some("Look for SQL".to_string())),
        ("xss".to_string(), None),
        ("auth".to_string(), Some("Check sessions".to_string())),
    ]);
    assert_eq!(
        ctx,
        Some("\n\n=== HUNT MODULE: injection ===\nLook for SQL\n\n=== HUNT MODULE: auth ===\nCheck sessions".to_string())
    );
}

#[test]
fn discovery_prompt_text() {
    let f = finding("SQL injection", Some("CWE-89"), Some(12));
    let base = "Vulnerability: SQL injection\nLocation: src/app.rs:12\nCurrent description: Original description\n\nRespond with ONLY JSON:\n{\n  \"description\": \"Enriched description\",\n  \"fix_code\": \"The secure version of the code\"\n}";
    assert_eq!(discovery_prompt(&f, &None, &None, &None), base);
    let full = discovery_prompt(
        &f,
        &Some("PRIOR".to_string()),
        &Some("\n\nHUNT".to_string()),
        &Some("ORG".to_string()),
    );
    assert_eq!(full, format!("PRIOR\n\n{}\n\nHUNT\n\nORG", base));
    let g = finding("X", None, None);
    assert!(discovery_prompt(&g, &None, &None, &None).contains("Location: src/app.rs:0\n"));
}

#[test]
fn discovery_reply_updates_finding() {
    let mut f = finding("XSS", Some("CWE-79"), Some(3));
    assert!(apply_discovery_reply(&mut f, r#"{"description": "Richer", "fix_code": "escape(x)"}"#));
    assert_eq!(f.description, "Richer");
    assert_eq!(f.diff_hunk, Some("escape(x)".to_string()));

    let mut g = finding("XSS", Some("CWE-79"), Some(3));
    assert!(apply_discovery_reply(&mut g, r#"{"other": 1}"#));
    assert_eq!(g.description, "Original description");
    assert_eq!(g.diff_hunk, None);

    let mut h = finding("XSS", Some("CWE-79"), Some(3));
    assert!(!apply_discovery_reply(&mut h, "not json"));
    assert_eq!(h.description, "Original description");
}

#[test]
fn agent_discovery_merge() {
    let mut f = finding("A", Some("CWE-1"), Some(5));
    let mut refined = finding("A", None, Some(9));
    refined.description = "Agent view".to_string();
    refined.severity = Severity::High;
    refined.agent_evidence_path = Some("ev/1".to_string());
    merge_agent_discovery(&mut f, &refined);
    assert_eq!(f.description, "Agent view");
    assert_eq!(f.severity, Severity::High);
    assert_eq!(f.cwe_id, Some("CWE-1".to_string()));
    assert_eq!(f.line_number, Some(9));
    assert_eq!(f.agent_evidence_path, Some("ev/1".to_string()));

    let mut later = finding("A", None, None);
    later.agent_evidence_path = Some("ev/2".to_string());
    merge_agent_discovery(&mut f, &later);
    assert_eq!(f.agent_evidence_path, Some("ev/1".to_string()));
    assert_eq!(f.line_number, Some(9));
}

#[test]
fn scaffold_context_text() {
    assert_eq!(scaffold_context("f", &[], 3, ""), None);
    let paths = vec![strings(&["main", "handle", "f"]), strings(&["api", "f"])];
    assert_eq!(scaffold_context("f", &paths, 0, ""), None);
    assert_eq!(
        scaffold_context("f", &paths, 1, ""),
        Some("Agent scaffold context for f:\n\nCall graph paths:\nCall graph paths to f:\n  main -> handle -> f\n\n".to_string())
    );
    assert_eq!(
        scaffold_context("f", &paths, 5, "fn f() {}"),
        Some(
            "Agent scaffold context for f:\n\nCall graph paths:\nCall graph paths to f:\n  main -> handle -> f\n  api -> f\n\nTarget function source:\nfn f() {}"
                .to_string()
        )
    );
    assert_eq!(
        scaffold_context("f", &[], 5, "fn f() {}"),
        Some("Agent scaffold context for f:\n\nTarget function source:\nfn f() {}".to_string())
    );
}

#[test]
fn agent_run_records_evidence_and_notes() {
    let run = AgentRun { compile_path: None, test_source_path: None, agent_turns: 4, tools_used: 2, test_log: None };
    let mut f = finding("A", None, None);
    apply_agent_run(&mut f, &run, Some("ctx".to_string()));
    assert_eq!(f.agent_evidence_path, Some("4 turns, 2 tools".to_string()));
    assert_eq!(f.verification_notes, Some("ctx".to_string()));

    let run = AgentRun {
        compile_path: Some("out/poc".to_string()),
        test_source_path: Some("t.rs".to_string()),
        agent_turns: 1,
        tools_used: 1,
        test_log: Some("log".to_string()),
    };
    let mut g = finding("B", None, None);
    apply_agent_run(&mut g, &run, Some("ctx".to_string()));
    assert_eq!(g.agent_evidence_path, Some("out/poc".to_string()));
    assert_eq!(g.verification_notes, Some("log".to_string()));

    let idle = AgentRun { compile_path: None, test_source_path: None, agent_turns: 0, tools_used: 0, test_log: None };
    let mut h = finding("C", None, None);
    h.verification_notes = Some("kept".to_string());
    apply_agent_run(&mut h, &idle, Some("ctx".to_string()));
    assert_eq!(h.agent_evidence_path, None);
    assert_eq!(h.verification_notes, Some("kept".to_string()));
}

#[test]
fn agent_failure_notes() {
    let mut f = finding("A", None, None);
    apply_agent_failure(&mut f, "timeout", Some("ctx".to_string()));
    assert_eq!(f.verification_status, Some(VerificationStatus::Failed));
    assert_eq!(f.verification_notes, Some("ctx".to_string()));

    let mut g = finding("B", None, None);
    apply_agent_failure(&mut g, "timeout", None);
    assert_eq!(g.verification_notes, Some("Agent verification failed: timeout".to_string()));

    let mut h = finding("C", None, None);
    h.verification_notes = Some("old".to_string());
    apply_agent_failure(&mut h, "crash", Some("ctx".to_string()));
    assert_eq!(h.verification_notes, Some("Agent verification failed: crash".to_string()));
}

#[test]
fn agent_verdicts_in_verification() {
    let mut f = finding("A", None, None);
    f.verification_notes = Some("before".to_string());
    let mut v = finding("A", None, None);
    v.verification_status = Some(VerificationStatus::Confirmed);
    v.agent_evidence_path = Some("ev".to_string());
    merge_agent_verdict(&mut f, &v);
    assert_eq!(f.verification_status, Some(VerificationStatus::Confirmed));
    assert_eq!(f.verification_notes, Some("before".to_string()));
    assert_eq!(f.agent_evidence_path, Some("ev".to_string()));

    apply_agent_error(&mut f, "no model");
    assert_eq!(f.verification_status, Some(VerificationStatus::NeedsReview));
    assert_eq!(f.verification_notes, Some("Agent error: no model".to_string()));
}

#[test]
fn poc_compile_checks() {
    let mut f = finding("A", None, None);
    f.poc_code = Some("fn main() {}".to_string());
    assert_eq!(poc_language(&f), "rust");
    f.poc_format = Some("python".to_string());
    assert_eq!(poc_language(&f), "python");

    apply_poc_check(&mut f, true, &[]);
    assert_eq!(f.verification_status, Some(VerificationStatus::Confirmed));
    assert_eq!(f.verification_notes, None);

    apply_poc_check(&mut f, false, &strings(&["E1", "E2"]));
    assert_eq!(f.verification_status, Some(VerificationStatus::Failed));
    assert_eq!(f.verification_notes, Some("PoC compilation failed: E1, E2".to_string()));

    apply_poc_check(&mut f, false, &strings(&["E3"]));
    assert_eq!(f.verification_notes, Some("\nPoC compilation failed: E3".to_string()));
}

fn domain_of(cwe: &str) -> Option<String> {
    match cwe {
        "CWE-89" => Some("injection".to_string()),
        "CWE-79" => Some("xss".to_string()),
        _ => None,
    }
}

#[test]
fn stable_prefix_hunt_guidance() {
    let prompts = vec![
        ("injection".to_string(), "Look for SQL".to_string()),
        ("xss".to_string(), "".to_string()),
    ];
    let findings = vec![
        finding("a", Some("CWE-89"), Some(1)),
        finding("b", Some("CWE-79"), Some(2)),
        finding("c", Some("CWE-89"), Some(3)),
        finding("d", None, Some(4)),
        finding("e", Some("CWE-1"), Some(5)),
    ];
    let prefix = build_stable_verification_prefix(&findings, &prompts, &domain_of);
    assert_eq!(
        prefix,
        format!(
            "{}=== HUNT DOMAIN GUIDANCE (injection) ===\nLook for SQL\n=== END HUNT GUIDANCE ===\n\n",
            VERIFICATION_PREAMBLE
        )
    );
    assert!(VERIFICATION_PREAMBLE.starts_with("You are a security vulnerability verifier."));
    assert!(VERIFICATION_PREAMBLE.contains("## B1: 7-Question Gate Triage\n\n"));
    assert!(VERIFICATION_PREAMBLE.ends_with("beats flooding with false positives.\n\n"));
    assert_eq!(build_stable_verification_prefix(&[], &prompts, &domain_of), VERIFICATION_PREAMBLE);
}
