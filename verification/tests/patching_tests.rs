use baco::finding::{Severity, VulnerabilityFinding};
use baco::staging::{
    check_outcome, count_warnings, test_outcome, AutoPatchError, AutoPatcher, PatchValidationResult, PatchingConfig,
    StagingArea, StagingError,
};
use baco::types::PatchCandidate;

fn finding(id: &str, snippet: bool) -> VulnerabilityFinding {
    VulnerabilityFinding {
        id: id.to_string(),
        title: "T".to_string(),
        description: "D".to_string(),
        severity: Severity::High,
        confidence_bp: 7000,
        cwe_id: None,
        file_path: "src/db.rs".to_string(),
        line_number: Some(3),
        code_snippet: if snippet { Some("code".to_string()) } else { None },
        recommendation: None,
        code_location: None,
        already_reported: false,
        sources: vec![],
        verification_status: None,
        verification_notes: None,
        llm_model: None,
        triage_verdict: None,
        statement_range: None,
        diff_hunk: None,
        agent_evidence_path: None,
        poc_code: None,
        poc_format: None,
        mitigation_code: None,
        evidence: Vec::new(),
    }
}

#[test]
fn generated_patch_is_a_diff_header() {
    let p = AutoPatcher::new("/repo".to_string());
    let c = p.generate_patch("SQL injection", "code", "src/db.rs").unwrap();
    assert_eq!(c.diff, "--- a/src/db.rs\n+++ b/src/db.rs\n@@ -1,10 +1,10 @@\n\n");
    assert_eq!(c.file_path, "src/db.rs");
    assert!(!c.applied);
}

#[test]
fn patch_reports() {
    let p = AutoPatcher::new("/repo".to_string());
    let c = PatchCandidate::new("diff content", "src/main.rs");
    let ok = PatchValidationResult::success();
    assert_eq!(
        p.format_patch_report(&c, &ok),
        "Patch Report\n============\nFile: src/main.rs\nStatus: ✅ VALIDATED\n\nDiff:\ndiff content\n"
    );
    let tests_failed = PatchValidationResult { compiles: true, tests_pass: false, warnings: 2, error_message: Some("boom".to_string()) };
    let r = p.format_patch_report(&c, &tests_failed);
    assert!(r.contains("⚠️ COMPILES BUT TESTS FAILED"));
    assert!(r.ends_with("Warnings: 2\nTest Errors:\nboom\n"));
    let failed = PatchValidationResult { compiles: false, tests_pass: false, warnings: 0, error_message: None };
    let r2 = p.format_patch_report(&c, &failed);
    assert!(r2.contains("❌ FAILED"));
    assert!(r2.ends_with("Build Errors:\nUnknown error\n"));
}

#[test]
fn cargo_outcomes() {
    let stdout = "warning: unused\nnote\nwarning: dead code\n";
    let checked = check_outcome(true, stdout, "");
    assert!(checked.compiles);
    assert_eq!(checked.warnings, 2);
    let tested = test_outcome(checked, false, "test failed");
    assert!(!tested.tests_pass);
    assert_eq!(tested.error_message, Some("test failed".to_string()));
    let broken = check_outcome(false, "", "error[E0308]");
    assert!(!broken.compiles);
    assert_eq!(broken.error_message, Some("error[E0308]".to_string()));
    assert_eq!(count_warnings(""), 0);
}

#[test]
fn validation_conclusions() {
    let failed_apply = AutoPatcher::conclude_validation(&Err(StagingError::PatchApply("hunk".to_string())), Ok(PatchValidationResult::success()));
    assert_eq!(failed_apply.error_message, Some("Patch application failed: Failed to apply patch: hunk".to_string()));
    let failed_validation = AutoPatcher::conclude_validation(&Ok(()), Err(StagingError::Validation("no cargo".to_string())));
    assert_eq!(failed_validation.error_message, Some("Validation failed: Validation failed: no cargo".to_string()));
    let fine = AutoPatcher::conclude_validation(&Ok(()), Ok(PatchValidationResult::success()));
    assert!(fine.compiles && fine.tests_pass);
}

#[test]
fn staging_prechecks() {
    let mut area = StagingArea { worktree_path: "/tmp/w/".to_string(), original_repo_path: "/r".to_string(), is_created: false };
    assert!(matches!(area.check_apply(), Err(StagingError::PatchApply(_))));
    assert!(matches!(area.check_validate(), Err(StagingError::Validation(_))));
    assert_eq!(area.patch_path(), "/tmp/w/patch.diff");
    area.is_created = true;
    assert!(area.check_apply().is_ok());
    area.mark_removed();
    assert!(!area.needs_cleanup());
}

#[test]
fn dry_run_batch_keeps_first_cap() {
    let p = AutoPatcher::new("/repo".to_string());
    let config = PatchingConfig { dry_run: true, max_auto_patches: 2, ..PatchingConfig::default() };
    let findings = vec![finding("a", true), finding("b", false), finding("c", true), finding("d", true)];
    let never = |_c: &PatchCandidate| -> Result<PatchValidationResult, AutoPatchError> { Err(AutoPatchError::NoLlmClient) };
    let out = p.execute_batch(&findings, &config, &never).unwrap();
    let ids: Vec<&str> = out.iter().map(|f| f.id.as_str()).collect();
    assert_eq!(ids, vec!["a", "c"]);
}

#[test]
fn failing_patches_keep_findings_and_errors_stop() {
    let p = AutoPatcher::new("/repo".to_string());
    let config = PatchingConfig { max_auto_patches: 1, ..PatchingConfig::default() };
    let findings = vec![finding("a", true), finding("b", true), finding("c", true)];
    let fails = |_c: &PatchCandidate| -> Result<PatchValidationResult, AutoPatchError> { Ok(PatchValidationResult::failure("x")) };
    assert_eq!(p.execute_batch(&findings, &config, &fails).unwrap().len(), 3);
    let succeeds = |_c: &PatchCandidate| -> Result<PatchValidationResult, AutoPatchError> { Ok(PatchValidationResult::success()) };
    assert_eq!(p.execute_batch(&findings, &config, &succeeds).unwrap().len(), 1);
    let errs = |_c: &PatchCandidate| -> Result<PatchValidationResult, AutoPatchError> { Err(AutoPatchError::Validation("v".to_string())) };
    assert!(p.execute_batch(&findings, &config, &errs).is_err());
}

#[test]
fn zero_cap_or_no_snippets_validates_nothing() {
    let p = AutoPatcher::new("/repo".to_string());
    let errs = |_c: &PatchCandidate| -> Result<PatchValidationResult, AutoPatchError> { Err(AutoPatchError::Validation("v".to_string())) };
    let zero = PatchingConfig { max_auto_patches: 0, ..PatchingConfig::default() };
    let findings = vec![finding("a", true), finding("b", true)];
    assert!(p.execute_batch(&findings, &zero, &errs).unwrap().is_empty());
    let config = PatchingConfig::default();
    let bare = vec![finding("a", false), finding("b", false)];
    assert!(p.execute_batch(&bare, &config, &errs).unwrap().is_empty());
}
