//! Data shared by the advanced scan features: CVE data, root-cause groups,
//! patch candidates and their validation, proof-of-concept compilation,
//! and the project's stack.

use vstd::prelude::*;
use crate::finding::{opt_view, strings_view};

verus! {

/// Type of access a vulnerability provides.
#[derive(Debug, Clone, Copy, PartialEq, Eq, Structural)]
pub enum AccessType {
    Read,
    Write,
    Both,
}

impl Default for AccessType {
    fn default() -> (a: Self)
        ensures
            a == AccessType::Read,
    {
        AccessType::Read
    }
}

/// Blast radius of a successful exploit.
#[derive(Debug, Clone, Copy, PartialEq, Eq, Structural)]
pub enum BlastRadius {
    Low,
    Medium,
    High,
    Critical,
}

impl Default for BlastRadius {
    fn default() -> (b: Self)
        ensures
            b == BlastRadius::High,
    {
        BlastRadius::High
    }
}

/// Severity levels, CVSS-compatible.
#[derive(Debug, Clone, Copy, PartialEq, Eq, Structural)]
pub enum V3Severity {
    Low,
    Medium,
    High,
    Critical,
}

impl Default for V3Severity {
    fn default() -> (s: Self)
        ensures
            s == V3Severity::Low,
    {
        V3Severity::Low
    }
}

/// Source of CVE data.
#[derive(Debug, Clone, Copy, PartialEq, Eq, Structural)]
pub enum CveSource {
    NVD,
    /// CISA Known Exploited Vulnerabilities, of higher priority.
    KEV,
}

impl Default for CveSource {
    fn default() -> (s: Self)
        ensures
            s == CveSource::NVD,
    {
        CveSource::NVD
    }
}

/// A CVE entry from CISA KEV or NVD.
#[derive(Debug, Clone, PartialEq)]
pub struct CveEntry {
    pub cve_id: String,
    pub description: String,
    pub severity: V3Severity,
    pub source: CveSource,
    pub affected_products: Vec<String>,
    pub published_date: Option<String>,
}

impl CveEntry {
    /// An entry with no affected products and no publication date.
    pub fn new(cve_id: &str, description: &str, severity: V3Severity, source: CveSource) -> (e: Self)
        ensures
            e.cve_id@ == cve_id@,
            e.description@ == description@,
            e.severity == severity,
            e.source == source,
            e.affected_products@.len() == 0,
            e.published_date is None,
    {
        CveEntry {
            cve_id: String::from_str(cve_id),
            description: String::from_str(description),
            severity,
            source,
            affected_products: Vec::new(),
            published_date: None,
        }
    }
}

/// Findings that share one root cause.
#[derive(Debug, Clone, PartialEq)]
pub struct RootCauseGroup {
    /// Hash of the code slice at the root cause.
    pub root_cause_id: String,
    /// Ids of the findings in the group.
    pub findings: Vec<String>,
    pub description: String,
    /// File and line of each finding.
    pub all_locations: Vec<(String, u32)>,
    pub severity: V3Severity,
}

/// The locations of a group as text and line.
pub open spec fn locations_view(v: Seq<(String, u32)>) -> Seq<(Seq<char>, u32)> {
    v.map_values(|p: (String, u32)| (p.0@, p.1))
}

impl RootCauseGroup {
    /// An empty group.
    pub fn new(root_cause_id: &str, description: &str, severity: V3Severity) -> (g: Self)
        ensures
            g.root_cause_id@ == root_cause_id@,
            g.description@ == description@,
            g.severity == severity,
            g.findings@.len() == 0,
            g.all_locations@.len() == 0,
    {
        RootCauseGroup {
            root_cause_id: String::from_str(root_cause_id),
            findings: Vec::new(),
            description: String::from_str(description),
            all_locations: Vec::new(),
            severity,
        }
    }

    /// Adds a finding: its id to the ids, its location to the locations.
    pub fn add_finding(&mut self, finding_id: &str, file_path: &str, line_number: u32)
        ensures
            strings_view(final(self).findings@) == strings_view(old(self).findings@).push(finding_id@),
            locations_view(final(self).all_locations@) == locations_view(old(self).all_locations@).push((file_path@, line_number)),
            final(self).root_cause_id == old(self).root_cause_id,
            final(self).description == old(self).description,
            final(self).severity == old(self).severity,
    {
        self.findings.push(String::from_str(finding_id));
        self.all_locations.push((String::from_str(file_path), line_number));
        proof {
            assert(strings_view(self.findings@) =~= strings_view(old(self).findings@).push(finding_id@));
            assert(locations_view(self.all_locations@) =~= locations_view(old(self).all_locations@).push((file_path@, line_number)));
        }
    }
}

/// Verdict of one verifier in multi-verifier voting.
#[derive(Debug, Clone, Copy, PartialEq, Eq, Structural, Hash)]
pub enum VerifierVerdict {
    Confirmed,
    Rejected,
    Inconclusive,
}

impl Default for VerifierVerdict {
    fn default() -> (v: Self)
        ensures
            v == VerifierVerdict::Inconclusive,
    {
        VerifierVerdict::Inconclusive
    }
}

/// Result of validating a patch.
#[derive(Debug, Clone, PartialEq)]
pub struct PatchValidationResult {
    pub compiles: bool,
    pub tests_pass: bool,
    pub warnings: u32,
    pub error_message: Option<String>,
}

impl Default for PatchValidationResult {
    fn default() -> (r: Self)
        ensures
            !r.compiles,
            !r.tests_pass,
            r.warnings == 0,
            r.error_message is None,
    {
        PatchValidationResult { compiles: false, tests_pass: false, warnings: 0, error_message: None }
    }
}

impl PatchValidationResult {
    /// A patch that compiles and passes its tests.
    pub fn success() -> (r: Self)
        ensures
            r.compiles,
            r.tests_pass,
            r.warnings == 0,
            r.error_message is None,
    {
        PatchValidationResult { compiles: true, tests_pass: true, warnings: 0, error_message: None }
    }

    /// A patch that failed, with the reason.
    pub fn failure(error_message: &str) -> (r: Self)
        ensures
            !r.compiles,
            !r.tests_pass,
            r.warnings == 0,
            opt_view(r.error_message) == Some(error_message@),
    {
        PatchValidationResult {
            compiles: false,
            tests_pass: false,
            warnings: 0,
            error_message: Some(String::from_str(error_message)),
        }
    }
}

/// A candidate patch.
#[derive(Debug, Clone, PartialEq)]
pub struct PatchCandidate {
    pub diff: String,
    pub file_path: String,
    pub applied: bool,
    pub validation_result: Option<PatchValidationResult>,
}

impl Default for PatchCandidate {
    fn default() -> (c: Self)
        ensures
            c.diff@.len() == 0,
            c.file_path@.len() == 0,
            !c.applied,
            c.validation_result is None,
    {
        PatchCandidate { diff: String::new(), file_path: String::new(), applied: false, validation_result: None }
    }
}

impl PatchCandidate {
    /// A candidate not yet applied nor validated.
    pub fn new(diff: &str, file_path: &str) -> (c: Self)
        ensures
            c.diff@ == diff@,
            c.file_path@ == file_path@,
            !c.applied,
            c.validation_result is None,
    {
        PatchCandidate {
            diff: String::from_str(diff),
            file_path: String::from_str(file_path),
            applied: false,
            validation_result: None,
        }
    }
}

/// Result of compiling a proof of concept.
#[derive(Debug, Clone, PartialEq)]
pub struct PoCCompileResult {
    pub language: String,
    pub compiles: bool,
    pub errors: Vec<String>,
}

impl Default for PoCCompileResult {
    fn default() -> (r: Self)
        ensures
            r.language@.len() == 0,
            !r.compiles,
            r.errors@.len() == 0,
    {
        PoCCompileResult { language: String::new(), compiles: false, errors: Vec::new() }
    }
}

impl PoCCompileResult {
    /// A proof of concept that compiles.
    pub fn success(language: &str) -> (r: Self)
        ensures
            r.language@ == language@,
            r.compiles,
            r.errors@.len() == 0,
    {
        PoCCompileResult { language: String::from_str(language), compiles: true, errors: Vec::new() }
    }

    /// A proof of concept that does not compile, with its errors.
    pub fn failure(language: &str, errors: Vec<String>) -> (r: Self)
        ensures
            r.language@ == language@,
            !r.compiles,
            r.errors == errors,
    {
        PoCCompileResult { language: String::from_str(language), compiles: false, errors }
    }
}

/// Package ecosystem of a dependency.
#[derive(Debug, Clone, Copy, PartialEq, Eq, Structural)]
pub enum DependencyEcosystem {
    CratesIo,
    Npm,
    PyPi,
    Maven,
    GoModules,
}

impl Default for DependencyEcosystem {
    fn default() -> (e: Self)
        ensures
            e == DependencyEcosystem::CratesIo,
    {
        DependencyEcosystem::CratesIo
    }
}

/// A dependency of the scanned project.
#[derive(Debug, Clone, PartialEq)]
pub struct Dependency {
    pub name: String,
    pub version: String,
    pub ecosystem: DependencyEcosystem,
}

/// Languages, frameworks and dependencies of the scanned project.
#[derive(Debug, Clone, PartialEq)]
pub struct ProjectStack {
    pub languages: Vec<String>,
    pub frameworks: Vec<String>,
    pub dependencies: Vec<Dependency>,
}

impl Default for ProjectStack {
    fn default() -> (s: Self)
        ensures
            s.languages@.len() == 0,
            s.frameworks@.len() == 0,
            s.dependencies@.len() == 0,
    {
        ProjectStack { languages: Vec::new(), frameworks: Vec::new(), dependencies: Vec::new() }
    }
}

/// A cluster of CVEs of one pattern.
#[derive(Debug, Clone, PartialEq)]
pub struct CveCluster {
    pub pattern_name: String,
    pub cve_count: u32,
    pub example_cves: Vec<String>,
    pub affected_dependencies: Vec<String>,
}

} // verus!
