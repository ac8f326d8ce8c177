use baco::staging::{StagingArea, StagingError};


#[test]
fn test_staging_area_struct_fields() {
    // Verify the struct has the expected fields
    let temp_path = "/tmp/test-repo";
    let staging = StagingArea {
        worktree_path: "/tmp/staging-test".to_string(),
        original_repo_path: temp_path.to_string(),
        is_created: false,
    };

    assert_eq!(staging.worktree_path, "/tmp/staging-test".to_string());
    assert_eq!(staging.original_repo_path, temp_path);
    assert!(!staging.is_created);
}

#[test]
fn test_patch_path_construction() {
    let staging = StagingArea {
        worktree_path: "/tmp/staging-test".to_string(),
        original_repo_path: "/tmp/test-repo".to_string(),
        is_created: true,
    };

    // Verify patch path would be constructed correctly
    let expected_patch_path = staging.patch_path();
    assert_eq!(
        expected_patch_path,
        "/tmp/staging-test/patch.diff".to_string()
    );
}

#[test]
fn test_staging_area_not_created_error() {
    let mut staging = StagingArea {
        worktree_path: "/tmp/staging-test".to_string(),
        original_repo_path: "/tmp/test-repo".to_string(),
        is_created: false,
    };

    // Applying a patch needs a created worktree.
    match staging.check_apply() {
        Err(StagingError::PatchApply(msg)) => assert!(msg.contains("not created")),
        _ => panic!("Expected PatchApply error"),
    }

    // So does validating.
    match staging.check_validate() {
        Err(StagingError::Validation(msg)) => assert!(msg.contains("not created")),
        _ => panic!("Expected Validation error"),
    }

    // Cleanup and rollback have nothing to remove.
    assert!(!staging.needs_cleanup());
    staging.mark_removed();
    assert!(!staging.is_created);
}

#[test]
fn test_staging_area_rollback_not_created() {
    let staging = StagingArea {
        worktree_path: "/tmp/staging-test".to_string(),
        original_repo_path: "/tmp/test-repo".to_string(),
        is_created: false,
    };

    // Rollback when not created does nothing.
    assert!(!staging.needs_cleanup());
    assert!(!staging.is_created);
}

#[test]
fn test_staging_area_drop_cleanup() {
    let mut staging = StagingArea {
        worktree_path: "/tmp/staging-drop-test".to_string(),
        original_repo_path: "/tmp/test-repo".to_string(),
        is_created: true,
    };
    assert!(staging.is_created);
    assert!(staging.needs_cleanup());

    // Cleanup resets the flag whatever the git command gave.
    staging.mark_removed();
    assert!(!staging.is_created, "is_created should be false after cleanup");
    assert_eq!(staging.worktree_path, "/tmp/staging-drop-test");
}
