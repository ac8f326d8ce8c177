//! The vulnerability finding record that flows through the scan phases.
//!
//! Confidence is kept in basis points: 10_000 stands for a confidence of
//! 1.0, 7_000 for 0.7.

use vstd::prelude::*;
use crate::digest::{sha256_hex, spec_hex, spec_sha256};
use crate::text::{dec, decimal, str_eq};

verus! {

/// Full confidence, in basis points.
pub const FULL_CONFIDENCE: u32 = 10000;

/// Severity of a finding, from least to most severe.
#[derive(Debug, Clone, Copy, PartialEq, Eq, Structural, Hash)]
pub enum Severity {
    Info,
    Low,
    Medium,
    High,
    Critical,
}

/// Rank of a severity: 0 for `Info` up to 4 for `Critical`.
pub open spec fn severity_rank(s: Severity) -> int {
    match s {
        Severity::Info => 0,
        Severity::Low => 1,
        Severity::Medium => 2,
        Severity::High => 3,
        Severity::Critical => 4,
    }
}

impl Severity {
    /// Rank of this severity: 0 for `Info` up to 4 for `Critical`.
    pub fn rank(&self) -> (r: u8)
        ensures
            r == severity_rank(*self),
    {
        match self {
            Severity::Info => 0,
            Severity::Low => 1,
            Severity::Medium => 2,
            Severity::High => 3,
            Severity::Critical => 4,
        }
    }

    /// Whether this severity is Medium or above (Medium, High, Critical).
    pub fn is_medium_or_above(&self) -> (r: bool)
        ensures
            r == (severity_rank(*self) >= 2),
    {
        self.rank() >= 2
    }
}

/// Outcome of verifying a finding.
#[derive(Debug, Clone, Copy, PartialEq, Eq, Structural, Hash)]
pub enum VerificationStatus {
    Confirmed,
    FalsePositive,
    NeedsReview,
    /// The verification could not be carried out.
    Failed,
}

/// Triage verdict of the 7-question gate.
#[derive(Debug, Clone, Copy, PartialEq, Eq, Structural)]
pub enum TriageVerdict {
    Pass,
    Kill,
    Downgrade { adjusted_severity: Severity },
    ChainRequired,
}

/// Where a piece of evidence for a finding comes from.
#[derive(Debug, Clone)]
pub enum EvidenceSource {
    /// A semgrep rule, by id.
    Semgrep(String),
    /// An LLM analysis phase, by name.
    LlmAnalysis(String),
    /// A known vulnerability specification, by id.
    CweSpec(String),
}

/// A piece of evidence for a finding.
#[derive(Debug, Clone)]
pub struct Evidence {
    pub source: EvidenceSource,
    /// Weight in basis points (10_000 = 1.0).
    pub weight_bp: u32,
    pub detail: String,
    /// When it was recorded, in RFC 3339.
    pub timestamp: String,
}

/// A vulnerability finding.
#[derive(Debug, Clone)]
pub struct VulnerabilityFinding {
    pub id: String,
    pub title: String,
    pub description: String,
    pub severity: Severity,
    /// Confidence in basis points (10_000 = 1.0).
    pub confidence_bp: u32,
    pub cwe_id: Option<String>,
    pub file_path: String,
    pub line_number: Option<u32>,
    pub code_snippet: Option<String>,
    pub recommendation: Option<String>,
    pub code_location: Option<String>,
    pub already_reported: bool,
    pub sources: Vec<String>,
    pub verification_status: Option<VerificationStatus>,
    pub verification_notes: Option<String>,
    pub llm_model: Option<String>,
    pub triage_verdict: Option<TriageVerdict>,
    /// First and last line of the flagged statement.
    pub statement_range: Option<(u32, u32)>,
    /// The fixed code proposed for the finding.
    pub diff_hunk: Option<String>,
    /// Where the agent that checked the finding left its evidence.
    pub agent_evidence_path: Option<String>,
    /// Proof-of-concept code for the finding.
    pub poc_code: Option<String>,
    /// Language of the proof of concept.
    pub poc_format: Option<String>,
    /// Code that mitigates the finding.
    pub mitigation_code: Option<String>,
    /// The evidence gathered for the finding.
    pub evidence: Vec<Evidence>,
}

/// The text of an optional string.
pub open spec fn opt_view(o: Option<String>) -> Option<Seq<char>> {
    match o {
        Some(s) => Some(s@),
        None => None,
    }
}

/// The texts of a list of strings.
pub open spec fn strings_view(v: Seq<String>) -> Seq<Seq<char>> {
    v.map_values(|s: String| s@)
}

/// Every field of `a` but the sources equals that of `b`.
pub open spec fn same_except_sources(a: VulnerabilityFinding, b: VulnerabilityFinding) -> bool {
    &&& a.id == b.id
    &&& a.title == b.title
    &&& a.description == b.description
    &&& a.severity == b.severity
    &&& a.confidence_bp == b.confidence_bp
    &&& a.cwe_id == b.cwe_id
    &&& a.file_path == b.file_path
    &&& a.line_number == b.line_number
    &&& a.code_snippet == b.code_snippet
    &&& a.recommendation == b.recommendation
    &&& a.code_location == b.code_location
    &&& a.already_reported == b.already_reported
    &&& a.verification_status == b.verification_status
    &&& a.verification_notes == b.verification_notes
    &&& a.llm_model == b.llm_model
    &&& a.triage_verdict == b.triage_verdict
    &&& a.statement_range == b.statement_range
    &&& same_extras(a, b)
}

/// `f` has no fix, evidence or proof of concept yet.
pub open spec fn no_extras(f: VulnerabilityFinding) -> bool {
    &&& f.diff_hunk is None
    &&& f.agent_evidence_path is None
    &&& f.poc_code is None
    &&& f.poc_format is None
    &&& f.mitigation_code is None
}

/// `a` and `b` agree on the fix, evidence and proof-of-concept fields.
pub open spec fn same_extras(a: VulnerabilityFinding, b: VulnerabilityFinding) -> bool {
    &&& a.diff_hunk == b.diff_hunk
    &&& a.agent_evidence_path == b.agent_evidence_path
    &&& a.poc_code == b.poc_code
    &&& a.poc_format == b.poc_format
    &&& a.mitigation_code == b.mitigation_code
    &&& a.evidence@ == b.evidence@
}

/// `a` and `b` agree on everything but what a verification sets: the
/// confidence, the verification status and notes, and the triage verdict.
pub open spec fn same_except_verdict(a: VulnerabilityFinding, b: VulnerabilityFinding) -> bool {
    &&& a.id == b.id
    &&& a.title == b.title
    &&& a.description == b.description
    &&& a.severity == b.severity
    &&& a.cwe_id == b.cwe_id
    &&& a.file_path == b.file_path
    &&& a.line_number == b.line_number
    &&& a.code_snippet == b.code_snippet
    &&& a.recommendation == b.recommendation
    &&& a.code_location == b.code_location
    &&& a.already_reported == b.already_reported
    &&& a.sources@ == b.sources@
    &&& a.llm_model == b.llm_model
    &&& a.statement_range == b.statement_range
    &&& same_extras(a, b)
}

/// `a` and `b` agree on everything but the confidence.
pub open spec fn same_but_confidence(a: VulnerabilityFinding, b: VulnerabilityFinding) -> bool {
    &&& same_except_verdict(a, b)
    &&& a.verification_status == b.verification_status
    &&& a.verification_notes == b.verification_notes
    &&& a.triage_verdict == b.triage_verdict
}

/// `a` and `b` hold the same finding.
pub open spec fn same_finding(a: VulnerabilityFinding, b: VulnerabilityFinding) -> bool {
    same_except_sources(a, b) && a.sources@ == b.sources@
}

/// Two lists hold the same findings in the same order.
pub open spec fn same_findings(a: Seq<VulnerabilityFinding>, b: Seq<VulnerabilityFinding>) -> bool {
    a.len() == b.len() && forall|i: int| 0 <= i < a.len() ==> same_finding(#[trigger] a[i], b[i])
}

/// The line of a finding, 0 when it has none.
pub open spec fn line_of(f: VulnerabilityFinding) -> int {
    match f.line_number {
        Some(l) => l as int,
        None => 0,
    }
}

/// Whether `v` holds the text `s`.
pub fn string_listed(v: &[String], s: &str) -> (r: bool)
    ensures
        r == strings_view(v@).contains(s@),
{
    let mut i: usize = 0;
    while i < v.len()
        invariant
            i <= v@.len(),
            forall|k: int| 0 <= k < i ==> strings_view(v@)[k] != s@,
        decreases v@.len() - i,
    {
        if str_eq(v[i].as_str(), s) {
            assert(strings_view(v@)[i as int] == s@);
            return true;
        }
        i = i + 1;
    }
    false
}

/// Copy of a string.
pub fn copy_string(s: &String) -> (r: String)
    ensures
        r == *s,
{
    s.clone()
}

/// Copy of an optional string.
pub fn copy_opt_string(s: &Option<String>) -> (r: Option<String>)
    ensures
        r == *s,
{
    match s {
        Some(x) => Some(x.clone()),
        None => None,
    }
}

/// Copy of a list of strings.
pub fn copy_strings(v: &Vec<String>) -> (r: Vec<String>)
    ensures
        r@ == v@,
{
    let mut r: Vec<String> = Vec::new();
    let mut i: usize = 0;
    while i < v.len()
        invariant
            i <= v@.len(),
            r@ == v@.subrange(0, i as int),
        decreases v@.len() - i,
    {
        r.push(v[i].clone());
        i = i + 1;
    }
    assert(r@ =~= v@);
    r
}

/// Equality of two optional strings by their text.
pub fn opt_str_eq(a: &Option<String>, b: &Option<String>) -> (r: bool)
    ensures
        r == (opt_view(*a) == opt_view(*b)),
{
    match (a, b) {
        (Some(x), Some(y)) => crate::text::str_eq(x.as_str(), y.as_str()),
        (None, None) => true,
        _ => false,
    }
}

/// The text hashed into a finding's identifier: path, line (empty when
/// there is none) and weakness id, separated by colons.
pub open spec fn finding_id_input(path: Seq<char>, line: Option<u32>, cwe: Seq<char>) -> Seq<char> {
    let line_text = match line {
        Some(l) => dec(l as nat),
        None => Seq::empty(),
    };
    path + ":"@ + line_text + ":"@ + cwe
}

/// Identifier of a finding: SHA-256 of its id input in UTF-8, in
/// lowercase hexadecimal.
pub open spec fn spec_finding_id(path: Seq<char>, line: Option<u32>, cwe: Seq<char>) -> Seq<char> {
    spec_hex(spec_sha256(vstd::utf8::encode_utf8(finding_id_input(path, line, cwe))))
}

impl VulnerabilityFinding {
    /// Identifier of the finding at `file_path`, `line_number` with weakness
    /// `cwe_id`: the same location and weakness always give the same id.
    pub fn generate_id(file_path: &str, line_number: Option<u32>, cwe_id: &str) -> (id: String)
        ensures
            id@ == spec_finding_id(file_path@, line_number, cwe_id@),
    {
        let mut input = String::from_str(file_path);
        input.append(":");
        if let Some(l) = line_number {
            let d = decimal(l as u64);
            input.append(d.as_str());
        }
        input.append(":");
        input.append(cwe_id);
        proof {
            assert(input@ =~= finding_id_input(file_path@, line_number, cwe_id@));
        }
        sha256_hex(input.as_str())
    }

    /// An identical copy of this finding.
    pub fn duplicate(&self) -> (r: Self)
        ensures
            same_finding(r, *self),
    {
        let r = VulnerabilityFinding {
            id: self.id.clone(),
            title: self.title.clone(),
            description: self.description.clone(),
            severity: self.severity,
            confidence_bp: self.confidence_bp,
            cwe_id: copy_opt_string(&self.cwe_id),
            file_path: self.file_path.clone(),
            line_number: self.line_number,
            code_snippet: copy_opt_string(&self.code_snippet),
            recommendation: copy_opt_string(&self.recommendation),
            code_location: copy_opt_string(&self.code_location),
            already_reported: self.already_reported,
            sources: copy_strings(&self.sources),
            verification_status: self.verification_status,
            verification_notes: copy_opt_string(&self.verification_notes),
            llm_model: copy_opt_string(&self.llm_model),
            triage_verdict: self.triage_verdict,
            statement_range: self.statement_range,
            diff_hunk: copy_opt_string(&self.diff_hunk),
            agent_evidence_path: copy_opt_string(&self.agent_evidence_path),
            poc_code: copy_opt_string(&self.poc_code),
            poc_format: copy_opt_string(&self.poc_format),
            mitigation_code: copy_opt_string(&self.mitigation_code),
            evidence: copy_evidence(&self.evidence),
        };
        assert(r.sources@ =~= self.sources@);
        r
    }

    /// The line of this finding, 0 when it has none.
    pub fn line_or_zero(&self) -> (l: u32)
        ensures
            l == line_of(*self),
    {
        match self.line_number {
            Some(l) => l,
            None => 0,
        }
    }
}

/// Copy of a piece of evidence.
pub fn copy_one_evidence(e: &Evidence) -> (r: Evidence)
    ensures
        r == *e,
{
    let source = match &e.source {
        EvidenceSource::Semgrep(s) => EvidenceSource::Semgrep(s.clone()),
        EvidenceSource::LlmAnalysis(s) => EvidenceSource::LlmAnalysis(s.clone()),
        EvidenceSource::CweSpec(s) => EvidenceSource::CweSpec(s.clone()),
    };
    Evidence { source, weight_bp: e.weight_bp, detail: e.detail.clone(), timestamp: e.timestamp.clone() }
}

/// Copy of a list of evidence.
pub fn copy_evidence(v: &Vec<Evidence>) -> (r: Vec<Evidence>)
    ensures
        r@ == v@,
{
    let mut r: Vec<Evidence> = Vec::new();
    let mut i: usize = 0;
    while i < v.len()
        invariant
            i <= v@.len(),
            r@ == v@.take(i as int),
        decreases v@.len() - i,
    {
        r.push(copy_one_evidence(&v[i]));
        i = i + 1;
        assert(r@ =~= v@.take(i as int));
    }
    assert(v@.take(v@.len() as int) =~= v@);
    r
}

/// Copy of a list of findings.
pub fn copy_findings(v: &Vec<VulnerabilityFinding>) -> (r: Vec<VulnerabilityFinding>)
    ensures
        same_findings(r@, v@),
{
    let mut r: Vec<VulnerabilityFinding> = Vec::new();
    let mut i: usize = 0;
    while i < v.len()
        invariant
            i <= v@.len(),
            r@.len() == i,
            forall|k: int| 0 <= k < i ==> same_finding(#[trigger] r@[k], v@[k]),
        decreases v@.len() - i,
    {
        r.push(v[i].duplicate());
        i = i + 1;
    }
    r
}

} // verus!
