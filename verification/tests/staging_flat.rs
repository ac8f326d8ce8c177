use baco::staging::{
    AutoPatchError, AutoPatchResult, PatchValidationResult, PatchingConfig, StagingArea, StagingError,
    StagingResult,
};
use baco::types::PatchCandidate;


#[test]
fn staging_test_patch_validation_result_default() {
    let result = PatchValidationResult::default();

    assert!(result.compiles);
    assert!(result.tests_pass);
    assert_eq!(result.warnings, 0);
    assert!(result.error_message.is_none());
}

#[test]
fn staging_test_patch_validation_result_success() {
    let result = PatchValidationResult::success();

    assert!(result.compiles);
    assert!(result.tests_pass);
    assert_eq!(result.warnings, 0);
    assert!(result.error_message.is_none());
}

#[test]
fn staging_test_patch_validation_result_failure() {
    let result = PatchValidationResult::failure("Compilation error");

    assert!(!result.compiles);
    assert!(!result.tests_pass);
    assert_eq!(result.warnings, 0);
    assert_eq!(result.error_message, Some("Compilation error".to_string()));
}

#[test]
fn staging_test_patch_validation_result_clone() {
    let original = PatchValidationResult {
        compiles: true,
        tests_pass: false,
        warnings: 3,
        error_message: Some("test failed".to_string()),
    };

    let cloned = original.clone();

    assert_eq!(original.compiles, cloned.compiles);
    assert_eq!(original.tests_pass, cloned.tests_pass);
    assert_eq!(original.warnings, cloned.warnings);
    assert_eq!(original.error_message, cloned.error_message);
}

#[test]
fn test_patch_validation_result_equality() {
    let result1 = PatchValidationResult {
        compiles: true,
        tests_pass: true,
        warnings: 0,
        error_message: None,
    };

    let result2 = PatchValidationResult {
        compiles: true,
        tests_pass: true,
        warnings: 0,
        error_message: None,
    };

    let result3 = PatchValidationResult {
        compiles: false,
        tests_pass: true,
        warnings: 0,
        error_message: None,
    };

    assert_eq!(result1, result2);
    assert_ne!(result1, result3);
}

#[test]
fn test_staging_error_display() {
    let worktree_err = StagingError::WorktreeCreate("Permission denied".to_string());
    assert!(worktree_err
        .message()
        .contains("Failed to create worktree"));

    let patch_err = StagingError::PatchApply("Hunk failed".to_string());
    assert!(patch_err.message().contains("Failed to apply patch"));

    let val_err = StagingError::Validation("Cargo check failed".to_string());
    assert!(val_err.message().contains("Validation failed"));

    let cleanup_err = StagingError::Cleanup("Git worktree busy".to_string());
    assert!(cleanup_err.message().contains("Cleanup failed"));

    let rollback_err = StagingError::Rollback("Reset failed".to_string());
    assert!(rollback_err.message().contains("Rollback failed"));

    let git_err = StagingError::GitError("Git not found".to_string());
    assert!(git_err.message().contains("Git command failed"));
}

#[test]
fn test_patch_validation_result_from() {
    let local_result = PatchValidationResult {
        compiles: true,
        tests_pass: false,
        warnings: 2,
        error_message: Some("test error".to_string()),
    };

    let converted: baco::types::PatchValidationResult = local_result.into();

    assert!(converted.compiles);
    assert!(!converted.tests_pass);
    assert_eq!(converted.warnings, 2);
    assert_eq!(converted.error_message, Some("test error".to_string()));
}

#[test]
fn test_patching_config_default() {
    let config = PatchingConfig::default();

    assert!(!config.dry_run);
    assert!(!config.allow_network_access);
    assert_eq!(config.max_auto_patches, 5);
    assert_eq!(config.staging_prefix, Some("baco-auto-".to_string()));
}

#[test]
fn test_patching_config_custom() {
    let config = PatchingConfig {
        dry_run: true,
        allow_network_access: true,
        max_auto_patches: 10,
        staging_prefix: Some("custom-prefix-".to_string()),
    };

    assert!(config.dry_run);
    assert!(config.allow_network_access);
    assert_eq!(config.max_auto_patches, 10);
    assert_eq!(config.staging_prefix, Some("custom-prefix-".to_string()));
}

#[test]
fn test_autopatch_error_enum() {
    // Test error display
    let gen_err = AutoPatchError::Generation("IO error".to_string());
    assert!(gen_err.message().contains("Failed to generate patch"));

    let apply_err = AutoPatchError::Apply("Patch rejected".to_string());
    assert!(apply_err.message().contains("Failed to apply patch"));

    let val_err = AutoPatchError::Validation("Type mismatch".to_string());
    assert!(val_err.message().contains("Validation failed"));

    let staging_err = AutoPatchError::Staging("Worktree create failed".to_string());
    assert!(staging_err.message().contains("Staging error"));

    let llm_err = AutoPatchError::NoLlmClient;
    assert!(llm_err.message().contains("No LLM client configured"));
}

#[test]
fn test_patch_candidate_default() {
    let candidate = PatchCandidate::default();

    assert!(candidate.diff.is_empty());
    assert!(candidate.file_path.is_empty());
    assert!(!candidate.applied);
    assert!(candidate.validation_result.is_none());
}

#[test]
fn test_patch_candidate_new() {
    let diff = r#"--- a/test.rs
+++ b/test.rs
@@ -1 +1 @@
-old
+new
"#;
    let candidate = PatchCandidate::new(diff, "test.rs");

    assert_eq!(candidate.diff, diff);
    assert_eq!(candidate.file_path, "test.rs");
    assert!(!candidate.applied);
    assert!(candidate.validation_result.is_none());
}

#[test]
fn test_autopatch_error_from_staging_error() {
    let staging_err = StagingError::WorktreeCreate("test error".to_string());
    let autopatch_err: AutoPatchError = AutoPatchError::Staging(staging_err.message());

    assert!(autopatch_err.message().contains("Staging error"));
}

#[test]
fn test_patching_config_builder_pattern() {
    // Test creating config with partial overrides
    let config = PatchingConfig {
        max_auto_patches: 3,
        ..PatchingConfig::default()
    };

    assert_eq!(config.max_auto_patches, 3);
    assert!(!config.dry_run);
    assert_eq!(config.staging_prefix, Some("baco-auto-".to_string()));
}

#[test]
fn test_staging_result_type_alias() {
    let ok_result: StagingResult<()> = Ok(());
    assert!(ok_result.is_ok());

    let err_result: StagingResult<()> = Err(StagingError::GitError("test".to_string()));
    assert!(err_result.is_err());
}

#[test]
fn test_auto_patch_result_type_alias() {
    let ok_result: AutoPatchResult<()> = Ok(());
    assert!(ok_result.is_ok());

    let err_result: AutoPatchResult<()> = Err(AutoPatchError::NoLlmClient);
    assert!(err_result.is_err());
}

#[test]
fn test_patch_validation_result_warning_count() {
    let mut result = PatchValidationResult::success();
    result.warnings = 10;

    assert_eq!(result.warnings, 10);
    assert!(result.compiles);
    assert!(result.tests_pass);
}

#[test]
fn test_staging_error_from_std_error() {
    let std_err = std::io::Error::other("io error");
    let staging_err = StagingError::WorktreeCreate(std_err.to_string());

    assert!(staging_err.message().contains("Failed to create worktree"));
    assert!(staging_err.message().contains("io error"));
}

#[test]
fn test_patch_candidate_applied_flag() {
    let mut candidate = PatchCandidate::new("diff", "test.rs");
    assert!(!candidate.applied);

    candidate.applied = true;
    assert!(candidate.applied);
}

#[test]
fn test_patch_candidate_validation_result_setting() {
    let mut candidate = PatchCandidate::new("diff", "test.rs");
    assert!(candidate.validation_result.is_none());

    let validation = PatchValidationResult::failure("test error");
    candidate.validation_result = Some(validation.into());

    assert!(candidate.validation_result.is_some());
}

#[test]
fn test_patch_validation_result_all_fields() {
    let result = PatchValidationResult {
        compiles: false,
        tests_pass: false,
        warnings: 42,
        error_message: Some("comprehensive error".to_string()),
    };

    assert!(!result.compiles);
    assert!(!result.tests_pass);
    assert_eq!(result.warnings, 42);
    assert_eq!(result.error_message, Some("comprehensive error".to_string()));
}

#[test]
fn test_patch_candidate_clone_behavior() {
    let original = PatchCandidate {
        diff: "original diff".to_string(),
        file_path: "test.rs".to_string(),
        applied: false,
        validation_result: None,
    };

    let cloned = original.clone();

    assert_eq!(original.diff, cloned.diff);
    assert_eq!(original.file_path, cloned.file_path);
    assert_eq!(original.applied, cloned.applied);
    assert_eq!(original.validation_result, cloned.validation_result);
}

#[test]
fn test_patch_candidate_equality() {
    let candidate1 = PatchCandidate {
        diff: "same diff".to_string(),
        file_path: "test.rs".to_string(),
        applied: false,
        validation_result: None,
    };

    let candidate2 = PatchCandidate {
        diff: "same diff".to_string(),
        file_path: "test.rs".to_string(),
        applied: false,
        validation_result: None,
    };

    let candidate3 = PatchCandidate {
        diff: "different diff".to_string(),
        file_path: "test.rs".to_string(),
        applied: false,
        validation_result: None,
    };

    assert_eq!(candidate1, candidate2);
    assert_ne!(candidate1, candidate3);
}

#[test]
fn test_staging_error_debug_format() {
    let err = StagingError::PatchApply("test error".to_string());
    let debug_str = format!("{:?}", err);

    assert!(debug_str.contains("PatchApply"));
    assert!(debug_str.contains("test error"));
}

#[test]
fn test_auto_patch_error_debug_format() {
    let err = AutoPatchError::Apply("test error".to_string());
    let debug_str = format!("{:?}", err);

    assert!(debug_str.contains("Apply"));
    assert!(debug_str.contains("test error"));
}

#[test]
fn test_patch_validation_result_display() {
    let success = PatchValidationResult::success();
    assert!(success.compiles && success.tests_pass);

    let failure = PatchValidationResult::failure("error message");
    assert!(!failure.compiles && !failure.tests_pass);
    assert_eq!(failure.error_message, Some("error message".to_string()));
}

#[test]
fn test_patch_candidate_with_validation_result() {
    let mut candidate = PatchCandidate::new("diff", "test.rs");
    
    // Set validation result
    let validation = PatchValidationResult {
        compiles: true,
        tests_pass: true,
        warnings: 0,
        error_message: None,
    };
    candidate.validation_result = Some(validation.into());
    candidate.applied = true;

    assert!(candidate.validation_result.is_some());
    assert!(candidate.applied);
}

#[test]
fn test_patching_config_all_fields_custom() {
    let config = PatchingConfig {
        dry_run: true,
        allow_network_access: true,
        max_auto_patches: 100,
        staging_prefix: Some("test-".to_string()),
    };

    assert!(config.dry_run);
    assert!(config.allow_network_access);
    assert_eq!(config.max_auto_patches, 100);
    assert_eq!(config.staging_prefix, Some("test-".to_string()));
}

#[test]
fn test_staging_error_coverage_all_variants() {
    // Test all StagingError variants are properly formatted
    let variants = vec![
        StagingError::WorktreeCreate("err".to_string()).message(),
        StagingError::PatchApply("err".to_string()).message(),
        StagingError::Validation("err".to_string()).message(),
        StagingError::Cleanup("err".to_string()).message(),
        StagingError::Rollback("err".to_string()).message(),
        StagingError::GitError("err".to_string()).message(),
    ];

    for variant in variants {
        assert!(!variant.is_empty());
        assert!(variant.contains("err"));
    }
}

#[test]
fn test_auto_patch_error_coverage_all_variants() {
    // Test all AutoPatchError variants are properly formatted
    let variants = vec![
        AutoPatchError::Generation("err".to_string()).message(),
        AutoPatchError::Apply("err".to_string()).message(),
        AutoPatchError::Validation("err".to_string()).message(),
        AutoPatchError::Staging("err".to_string()).message(),
        AutoPatchError::NoLlmClient.message(),
    ];

    for variant in variants {
        assert!(!variant.is_empty());
    }
}
