use baco::checkpoint::{completed_phases_through, Checkpoint, CheckpointConfig, LoadFailure};
use baco::phase::ScanPhase;

#[test]
fn test_checkpoint_config_default() {
    let config = CheckpointConfig::default();

    assert!(config.enabled);
    assert!(config.save_after_each_phase);
    assert_eq!(config.checkpoint_path, "checkpoint.json".to_string());
}

#[test]
fn test_checkpoint_config_custom() {
    let config = CheckpointConfig {
        enabled: false,
        save_after_each_phase: false,
        checkpoint_path: "custom/path/checkpoint.json".to_string(),
    };

    assert!(!config.enabled);
    assert!(!config.save_after_each_phase);
    assert_eq!(config.checkpoint_path, "custom/path/checkpoint.json".to_string());
}

#[test]
fn checkpoint_validation_errors() {
    let ok = Checkpoint::new("scan-1", "/repo", "2024-01-01T00:00:00Z".to_string());
    assert!(ok.validate().is_ok());
    let no_id = Checkpoint::new("", "/repo", "2024-01-01T00:00:00Z".to_string());
    assert_eq!(no_id.validate(), Err("scan_id is empty".to_string()));
    let no_path = Checkpoint::new("scan-1", "", "2024-01-01T00:00:00Z".to_string());
    assert_eq!(no_path.validate(), Err("project_path is empty".to_string()));
}

#[test]
fn completed_phases_up_to_validate() {
    let done = completed_phases_through(&ScanPhase::Validate);
    assert_eq!(done.len(), 9);
    assert_eq!(done[0], ScanPhase::Indexing);
    assert_eq!(done[8], ScanPhase::Validate);
    assert!(completed_phases_through(&ScanPhase::Complete).is_empty());
    assert_eq!(completed_phases_through(&ScanPhase::Reporting).len(), 24);
}

#[test]
fn resume_phase_follows_pipeline() {
    let mut cp = Checkpoint::new("s", "p", "t".to_string());
    cp.current_phase = ScanPhase::LlmStaticAnalysis;
    assert_eq!(cp.resume_phase(), ScanPhase::CweRouting);
    cp.current_phase = ScanPhase::Reporting;
    assert_eq!(cp.resume_phase(), ScanPhase::Complete);
}

#[test]
fn resume_from_loaded_checkpoint() {
    let mut cp = Checkpoint::new("scan-1", "/p", "2024-01-01T00:00:00Z".to_string());
    cp.current_phase = ScanPhase::LlmVerification;
    assert_eq!(Checkpoint::resume_from_loaded(Ok(cp)), Ok(ScanPhase::Validate));
    let no_id = Checkpoint::new("", "/p", "t".to_string());
    assert_eq!(Checkpoint::resume_from_loaded(Ok(no_id)), Err("scan_id is empty".to_string()));
    let no_path = Checkpoint::new("s", "", "t".to_string());
    assert_eq!(Checkpoint::resume_from_loaded(Ok(no_path)), Err("project_path is empty".to_string()));
    assert_eq!(
        Checkpoint::resume_from_loaded(Err(LoadFailure::Read("missing".to_string()))),
        Err("Failed to read checkpoint: missing".to_string())
    );
    assert_eq!(
        Checkpoint::resume_from_loaded(Err(LoadFailure::Parse("bad".to_string()))),
        Err("Failed to parse checkpoint: bad".to_string())
    );
    let done = Checkpoint::new("s", "/p", "t".to_string());
    let loaded = Checkpoint::from_loaded(Ok(done)).unwrap();
    assert_eq!(loaded.current_phase, ScanPhase::Indexing);
}
