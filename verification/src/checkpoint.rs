//! Checkpoints of a scan: what is saved after each phase, its validity,
//! which phases it records as completed, and where a scan resumes.

use vstd::prelude::*;
use crate::finding::{same_findings, copy_findings, VulnerabilityFinding};
use crate::phase::{
    is_pipeline_phase, law_pipeline_phases_distinct, lemma_phase_at_position, phase_at, position, spec_all,
    spec_resume_from, PhaseSpec, ScanPhase,
};
use crate::scan::phase_listed;
use crate::text::cat;

verus! {

/// The state of a scan saved after a phase.
pub struct Checkpoint {
    pub scan_id: String,
    pub project_path: String,
    /// When the scan started, in RFC 3339.
    pub started_at: String,
    pub current_phase: ScanPhase,
    pub completed_phases: Vec<ScanPhase>,
    pub findings_so_far: Vec<VulnerabilityFinding>,
    pub file_count: usize,
    pub analyzed_files: Vec<String>,
}

/// Why a checkpoint file could not be loaded: it could not be read, or
/// its text is no checkpoint; each with the reason given.
pub enum LoadFailure {
    Read(String),
    Parse(String),
}

/// The message of a load failure.
pub open spec fn load_failure_message(f: LoadFailure) -> Seq<char> {
    match f {
        LoadFailure::Read(m) => "Failed to read checkpoint: "@ + m@,
        LoadFailure::Parse(m) => "Failed to parse checkpoint: "@ + m@,
    }
}

impl Checkpoint {
    /// A checkpoint of a scan that has just started: at indexing, nothing
    /// completed, nothing found.
    pub fn new(scan_id: &str, project_path: &str, started_at: String) -> (c: Self)
        ensures
            c.scan_id@ == scan_id@,
            c.project_path@ == project_path@,
            c.started_at == started_at,
            c.current_phase == ScanPhase::Indexing,
            c.completed_phases@.len() == 0,
            c.findings_so_far@.len() == 0,
            c.file_count == 0,
            c.analyzed_files@.len() == 0,
    {
        Checkpoint {
            scan_id: String::from_str(scan_id),
            project_path: String::from_str(project_path),
            started_at,
            current_phase: ScanPhase::Indexing,
            completed_phases: Vec::new(),
            findings_so_far: Vec::new(),
            file_count: 0,
            analyzed_files: Vec::new(),
        }
    }

    /// A checkpoint is valid when it names its scan and its project.
    pub fn validate(&self) -> (r: Result<(), String>)
        ensures
            r is Ok <==> (self.scan_id@.len() > 0 && self.project_path@.len() > 0),
            r matches Err(m) ==> m@ == (if self.scan_id@.len() == 0 { "scan_id is empty"@ } else { "project_path is empty"@ }),
    {
        if self.scan_id.as_str().is_empty() {
            return Err(String::from_str("scan_id is empty"));
        }
        if self.project_path.as_str().is_empty() {
            return Err(String::from_str("project_path is empty"));
        }
        Ok(())
    }

    /// The phase a scan resumes from after this checkpoint.
    pub fn resume_phase(&self) -> (p: ScanPhase)
        ensures
            p == spec_resume_from(self.current_phase),
    {
        PhaseSpec::resume_from(&self.current_phase)
    }

    /// What loading a checkpoint gives, from what reading and parsing its
    /// file gave: the read or parse failure with its reason, else the
    /// checkpoint when it is valid, else why it is not.
    pub fn from_loaded(loaded: Result<Checkpoint, LoadFailure>) -> (r: Result<Checkpoint, String>)
        ensures
            match loaded {
                Err(f) => r matches Err(m) && m@ == load_failure_message(f),
                Ok(c) => if c.scan_id@.len() == 0 {
                    r matches Err(m) && m@ == "scan_id is empty"@
                } else if c.project_path@.len() == 0 {
                    r matches Err(m) && m@ == "project_path is empty"@
                } else {
                    r == Ok::<Checkpoint, String>(c)
                },
            },
    {
        match loaded {
            Err(LoadFailure::Read(m)) => Err(cat("Failed to read checkpoint: ", m.as_str())),
            Err(LoadFailure::Parse(m)) => Err(cat("Failed to parse checkpoint: ", m.as_str())),
            Ok(c) => match c.validate() {
                Ok(()) => Ok(c),
                Err(m) => Err(m),
            },
        }
    }

    /// The phase a scan resumes from, from what reading and parsing the
    /// checkpoint file gave: the load's error when it fails, else the phase
    /// after the checkpoint's current one.
    pub fn resume_from_loaded(loaded: Result<Checkpoint, LoadFailure>) -> (r: Result<ScanPhase, String>)
        ensures
            match loaded {
                Err(f) => r matches Err(m) && m@ == load_failure_message(f),
                Ok(c) => if c.scan_id@.len() == 0 {
                    r matches Err(m) && m@ == "scan_id is empty"@
                } else if c.project_path@.len() == 0 {
                    r matches Err(m) && m@ == "project_path is empty"@
                } else {
                    r == Ok::<ScanPhase, String>(spec_resume_from(c.current_phase))
                },
            },
    {
        match Checkpoint::from_loaded(loaded) {
            Ok(c) => Ok(c.resume_phase()),
            Err(m) => Err(m),
        }
    }

    /// Whether the scan is finished: reporting is completed.
    pub fn is_complete(&self) -> (r: bool)
        ensures
            r == self.completed_phases@.contains(ScanPhase::Reporting),
    {
        phase_listed(self.completed_phases.as_slice(), &ScanPhase::Reporting)
    }
}

/// The phases a checkpoint saved after `p` records as completed: the
/// pipeline up to and including `p`; none for a phase outside it.
pub open spec fn completed_through(p: ScanPhase) -> Seq<ScanPhase> {
    if is_pipeline_phase(p) {
        spec_all().subrange(0, position(p) + 1)
    } else {
        Seq::empty()
    }
}

/// The phases completed once `phase` is done.
pub fn completed_phases_through(phase: &ScanPhase) -> (v: Vec<ScanPhase>)
    ensures
        v@ == completed_through(*phase),
{
    match phase.slot_index() {
        Some(k) => {
            let all = PhaseSpec::all();
            let mut v: Vec<ScanPhase> = Vec::new();
            let mut j: usize = 0;
            while j <= k
                invariant
                    j <= k + 1,
                    k < 24,
                    all@ == spec_all(),
                    v@ == spec_all().subrange(0, j as int),
                decreases k + 1 - j,
            {
                v.push(all[j]);
                j = j + 1;
                assert(v@ =~= spec_all().subrange(0, j as int));
            }
            v
        },
        None => Vec::new(),
    }
}

/// The findings a checkpoint holds for `phase`: all of them when the phase
/// is recorded as completed, none otherwise.
pub fn findings_for_phase(checkpoint: &Checkpoint, phase: &ScanPhase) -> (fs: Vec<VulnerabilityFinding>)
    ensures
        if checkpoint.completed_phases@.contains(*phase) {
            same_findings(fs@, checkpoint.findings_so_far@)
        } else {
            fs@.len() == 0
        },
{
    if phase_listed(checkpoint.completed_phases.as_slice(), phase) {
        copy_findings(&checkpoint.findings_so_far)
    } else {
        Vec::new()
    }
}

/// Settings of checkpointing.
pub struct CheckpointConfig {
    pub enabled: bool,
    pub save_after_each_phase: bool,
    pub checkpoint_path: String,
}

impl Default for CheckpointConfig {
    fn default() -> (c: Self)
        ensures
            c.enabled,
            c.save_after_each_phase,
            c.checkpoint_path@ == "checkpoint.json"@,
    {
        CheckpointConfig {
            enabled: true,
            save_after_each_phase: true,
            checkpoint_path: String::from_str("checkpoint.json"),
        }
    }
}

/// The state saved for resuming a scan.
pub struct ScanCheckpoint {
    pub last_completed_phase: ScanPhase,
    pub findings: Vec<VulnerabilityFinding>,
    pub analyzed_files: Vec<String>,
    /// When it was saved, in RFC 3339.
    pub timestamp: String,
}

/// Saves and loads the resumption state at one path.
pub struct CheckpointManager {
    pub checkpoint_path: String,
}

impl CheckpointManager {
    /// A manager for the checkpoint at `checkpoint_path`.
    pub fn new(checkpoint_path: String) -> (m: Self)
        ensures
            m.checkpoint_path == checkpoint_path,
    {
        CheckpointManager { checkpoint_path }
    }

    /// The state to save after `phase`.
    pub fn snapshot(phase: &ScanPhase, findings: &[VulnerabilityFinding], analyzed_files: &[String], timestamp: String) -> (c: ScanCheckpoint)
        ensures
            c.last_completed_phase == *phase,
            same_findings(c.findings@, findings@),
            c.analyzed_files@ == analyzed_files@,
            c.timestamp == timestamp,
    {
        let mut fs: Vec<VulnerabilityFinding> = Vec::new();
        let mut i: usize = 0;
        while i < findings.len()
            invariant
                i <= findings@.len(),
                fs@.len() == i,
                forall|k: int| 0 <= k < i ==> crate::finding::same_finding(#[trigger] fs@[k], findings@[k]),
            decreases findings@.len() - i,
        {
            fs.push(findings[i].duplicate());
            i = i + 1;
        }
        let mut files: Vec<String> = Vec::new();
        let mut j: usize = 0;
        while j < analyzed_files.len()
            invariant
                j <= analyzed_files@.len(),
                files@ == analyzed_files@.subrange(0, j as int),
            decreases analyzed_files@.len() - j,
        {
            files.push(analyzed_files[j].clone());
            j = j + 1;
            assert(files@ =~= analyzed_files@.subrange(0, j as int));
        }
        assert(files@ =~= analyzed_files@);
        ScanCheckpoint { last_completed_phase: *phase, findings: fs, analyzed_files: files, timestamp }
    }
}

/// A checkpoint saved after phase `p` records the pipeline up to `p` as
/// completed, ending with `p`; resuming from it starts at the first phase
/// it does not record (for every phase before Reporting), so no phase is
/// run twice and none is skipped.
pub proof fn law_resume_starts_after_completed(p: ScanPhase)
    requires
        is_pipeline_phase(p),
    ensures
        completed_through(p).len() == position(p) + 1,
        completed_through(p).last() == p,
        p != ScanPhase::Reporting ==> spec_resume_from(p) == spec_all()[completed_through(p).len() as int],
        p != ScanPhase::Reporting ==> !completed_through(p).contains(spec_resume_from(p)),
{
    lemma_phase_at_position(p);
    law_pipeline_phases_distinct();
    if p != ScanPhase::Reporting {
        let k = position(p) + 1;
        assert(k < 24);
        let next = spec_resume_from(p);
        assert(next == phase_at(k));
        if completed_through(p).contains(next) {
            let i = choose|i: int| 0 <= i < completed_through(p).len() && completed_through(p)[i] == next;
            assert(spec_all()[i] == spec_all()[k]);
        }
    }
}

} // verus!
