//! Semgrep integration: rule exclusion, severity from rule ids, and the
//! turning of `semgrep --json` output into findings, one per rule.

use vstd::prelude::*;
use crate::digest::{sha256_hex, spec_hex, spec_sha256};
use crate::json::{json_array_len_at, json_parse_error, json_str_at, json_u64_at, JsonDoc};
use crate::finding::{copy_opt_string, no_extras, Evidence, EvidenceSource, opt_view, spec_finding_id, strings_view, Severity, VulnerabilityFinding};
use crate::snippet::{code_snippet, spec_snippet, SourceText};
use crate::text::{
    ascii_lower, cat, contains_seq, dec, is_ascii_char, decimal, has_prefix, lowercase, spec_lowercase, str_contains,
    str_starts_with,
};

verus! {

/// How semgrep is run: an optional rules file and the rule ids (or
/// prefixes of them) whose results are dropped.
#[derive(Clone)]
pub struct SemgrepRunner {
    pub config_path: Option<String>,
    pub exclude_rules: Vec<String>,
}

/// A rule id is excluded when some pattern equals it or is a prefix of it
/// (an exact match is the case of a prefix of full length).
pub open spec fn excluded_by(rules: Seq<Seq<char>>, check_id: Seq<char>) -> bool {
    exists|i: int| 0 <= i < rules.len() && has_prefix(check_id, #[trigger] rules[i])
}

/// Severity named by a lower-cased rule id: the first of `critical`,
/// `high`, `medium`, `low` it contains, else `Info`.
pub open spec fn severity_of_lowered(lowered: Seq<char>) -> Severity {
    if contains_seq(lowered, "critical"@) {
        Severity::Critical
    } else if contains_seq(lowered, "high"@) {
        Severity::High
    } else if contains_seq(lowered, "medium"@) {
        Severity::Medium
    } else if contains_seq(lowered, "low"@) {
        Severity::Low
    } else {
        Severity::Info
    }
}

/// Severity of a rule id, by keywords in its lower-cased form.
pub open spec fn spec_severity(check_id: Seq<char>) -> Severity {
    severity_of_lowered(spec_lowercase(check_id))
}

/// Whether `check_id` is excluded by one of `rules`.
pub fn rule_excluded(rules: &[String], check_id: &str) -> (r: bool)
    ensures
        r == excluded_by(strings_view(rules@), check_id@),
{
    let mut i: usize = 0;
    while i < rules.len()
        invariant
            i <= rules@.len(),
            forall|k: int| 0 <= k < i ==> !has_prefix(check_id@, #[trigger] strings_view(rules@)[k]),
        decreases rules@.len() - i,
    {
        if str_starts_with(check_id, rules[i].as_str()) {
            assert(has_prefix(check_id@, strings_view(rules@)[i as int]));
            return true;
        }
        i = i + 1;
    }
    false
}

impl SemgrepRunner {
    /// A runner with the given rules file and exclusion patterns.
    pub fn new(config_path: Option<String>, exclude_rules: Vec<String>) -> (r: Self)
        ensures
            r.config_path == config_path,
            r.exclude_rules == exclude_rules,
    {
        SemgrepRunner { config_path, exclude_rules }
    }

    /// Whether results of rule `check_id` are dropped: some exclusion
    /// pattern equals it or is a prefix of it.
    pub fn should_exclude_rule(&self, check_id: &str) -> (r: bool)
        ensures
            r == excluded_by(strings_view(self.exclude_rules@), check_id@),
    {
        rule_excluded(self.exclude_rules.as_slice(), check_id)
    }
}

/// Severity of a rule id: `critical`, `high`, `medium` or `low` in its
/// lower-cased form, checked in that order; `Info` otherwise.
pub fn parse_severity(check_id: &str) -> (s: Severity)
    ensures
        s == spec_severity(check_id@),
        (forall|i: int| 0 <= i < check_id@.len() ==> is_ascii_char(#[trigger] check_id@[i]))
            ==> s == severity_of_lowered(check_id@.map_values(|c: char| ascii_lower(c))),
{
    let l = lowercase(check_id);
    if str_contains(l.as_str(), "critical") {
        Severity::Critical
    } else if str_contains(l.as_str(), "high") {
        Severity::High
    } else if str_contains(l.as_str(), "medium") {
        Severity::Medium
    } else if str_contains(l.as_str(), "low") {
        Severity::Low
    } else {
        Severity::Info
    }
}

/// The fields of one semgrep result that the logic reads.
pub struct SemgrepResult {
    /// `check_id`, when it is a string.
    pub check_id: Option<String>,
    /// `path`, when it is a string.
    pub path: Option<String>,
    /// `start.line`, when it is an unsigned integer.
    pub start_line: Option<u64>,
    /// `end.line`, when it is an unsigned integer.
    pub end_line: Option<u64>,
    /// `extra.message`, when it is a string.
    pub message: Option<String>,
    /// The first entry of `extra.metadata.cwe`, when that is an array whose
    /// first entry is a string.
    pub cwe: Option<String>,
}

/// A semgrep result as text and numbers.
pub struct ResultView {
    pub check_id: Option<Seq<char>>,
    pub path: Option<Seq<char>>,
    pub start_line: Option<u64>,
    pub end_line: Option<u64>,
    pub message: Option<Seq<char>>,
    pub cwe: Option<Seq<char>>,
}

impl View for SemgrepResult {
    type V = ResultView;

    open spec fn view(&self) -> ResultView {
        ResultView {
            check_id: opt_view(self.check_id),
            path: opt_view(self.path),
            start_line: self.start_line,
            end_line: self.end_line,
            message: opt_view(self.message),
            cwe: opt_view(self.cwe),
        }
    }
}

/// One accepted result before results of the same rule are put together.
pub struct RawFinding {
    pub path: String,
    pub line: u32,
    pub end_line: u32,
    pub severity: Severity,
    pub cwe_id: Option<String>,
    pub message: Option<String>,
}

/// A raw finding as text and numbers.
pub struct RawView {
    pub path: Seq<char>,
    pub line: u32,
    pub end_line: u32,
    pub severity: Severity,
    pub cwe_id: Option<Seq<char>>,
    pub message: Option<Seq<char>>,
}

impl View for RawFinding {
    type V = RawView;

    open spec fn view(&self) -> RawView {
        RawView {
            path: self.path@,
            line: self.line,
            end_line: self.end_line,
            severity: self.severity,
            cwe_id: opt_view(self.cwe_id),
            message: opt_view(self.message),
        }
    }
}

impl RawFinding {
    /// An identical copy.
    pub fn duplicate(&self) -> (r: Self)
        ensures
            r@ == self@,
    {
        RawFinding {
            path: self.path.clone(),
            line: self.line,
            end_line: self.end_line,
            severity: self.severity,
            cwe_id: crate::finding::copy_opt_string(&self.cwe_id),
            message: crate::finding::copy_opt_string(&self.message),
        }
    }
}

/// A result is kept when it has a rule id that no pattern excludes, a path
/// and a start line.
pub open spec fn accepts(r: ResultView, rules: Seq<Seq<char>>) -> bool {
    &&& r.check_id is Some
    &&& !excluded_by(rules, r.check_id->0)
    &&& r.path is Some
    &&& r.start_line is Some
}

/// The raw finding of a kept result: lines cut to 32 bits, the end line
/// defaulting to the start line.
pub open spec fn raw_of(r: ResultView) -> RawView {
    let start = r.start_line->0;
    let end = match r.end_line {
        Some(e) => e,
        None => start,
    };
    RawView {
        path: r.path->0,
        line: start as u32,
        end_line: end as u32,
        severity: spec_severity(r.check_id->0),
        cwe_id: r.cwe,
        message: r.message,
    }
}

/// The kept results, in order, each with its rule id.
pub open spec fn accepted_raws(rs: Seq<ResultView>, rules: Seq<Seq<char>>) -> Seq<(Seq<char>, RawView)>
    decreases rs.len(),
{
    if rs.len() == 0 {
        Seq::empty()
    } else {
        let prev = accepted_raws(rs.drop_last(), rules);
        let r = rs.last();
        if accepts(r, rules) {
            prev.push((r.check_id->0, raw_of(r)))
        } else {
            prev
        }
    }
}

/// Index of the first group of rule `c` at or after `from`, or -1.
pub open spec fn find_group(gs: Seq<(Seq<char>, Seq<RawView>)>, c: Seq<char>, from: int) -> int
    decreases gs.len() - from,
{
    if from < 0 || from >= gs.len() {
        -1
    } else if gs[from].0 == c {
        from
    } else {
        find_group(gs, c, from + 1)
    }
}

/// `find_group` gives -1 or the index of a group of rule `c` at or after
/// `from`, with no such group between `from` and it.
pub proof fn lemma_find_group(gs: Seq<(Seq<char>, Seq<RawView>)>, c: Seq<char>, from: int)
    requires
        0 <= from,
    ensures
        find_group(gs, c, from) == -1 || (from <= find_group(gs, c, from) < gs.len() && gs[find_group(gs, c, from)].0 == c),
        find_group(gs, c, from) == -1 ==> forall|k: int| from <= k < gs.len() ==> gs[k].0 != c,
        forall|k: int| from <= k < gs.len() && gs[k].0 == c ==> find_group(gs, c, from) <= k,
    decreases gs.len() - from,
{
    if from < gs.len() && gs[from].0 != c {
        lemma_find_group(gs, c, from + 1);
    }
}

/// Groups with one more raw finding of rule `c`: appended to that rule's
/// group, or a new group at the end.
pub open spec fn add_raw(gs: Seq<(Seq<char>, Seq<RawView>)>, c: Seq<char>, r: RawView) -> Seq<(Seq<char>, Seq<RawView>)> {
    let j = find_group(gs, c, 0);
    if j < 0 {
        gs.push((c, seq![r]))
    } else {
        gs.update(j, (c, gs[j].1.push(r)))
    }
}

/// The raw findings grouped by rule id: groups in the order in which their
/// rule first appears, members in their order.
pub open spec fn group_raws(s: Seq<(Seq<char>, RawView)>) -> Seq<(Seq<char>, Seq<RawView>)>
    decreases s.len(),
{
    if s.len() == 0 {
        Seq::empty()
    } else {
        add_raw(group_raws(s.drop_last()), s.last().0, s.last().1)
    }
}

/// The views of a list of results.
pub open spec fn results_view(rs: Seq<SemgrepResult>) -> Seq<ResultView> {
    rs.map_values(|r: SemgrepResult| r@)
}

/// The views of a list of rule-tagged raw findings.
pub open spec fn raws_view(v: Seq<(String, RawFinding)>) -> Seq<(Seq<char>, RawView)> {
    v.map_values(|p: (String, RawFinding)| (p.0@, p.1@))
}

/// The views of a list of groups.
pub open spec fn groups_view(v: Seq<(String, Vec<RawFinding>)>) -> Seq<(Seq<char>, Seq<RawView>)> {
    v.map_values(|p: (String, Vec<RawFinding>)| (p.0@, p.1@.map_values(|r: RawFinding| r@)))
}

/// The raw finding of a kept result.
fn raw_finding_of(r: &SemgrepResult) -> (out: (String, RawFinding))
    requires
        r.check_id is Some,
        r.path is Some,
        r.start_line is Some,
    ensures
        out.0@ == r@.check_id->0,
        out.1@ == raw_of(r@),
{
    let check_id = r.check_id.as_ref().unwrap();
    let start: u64 = *r.start_line.as_ref().unwrap();
    let end: u64 = match r.end_line {
        Some(e) => e,
        None => start,
    };
    let rf = RawFinding {
        path: r.path.as_ref().unwrap().clone(),
        line: #[verifier::truncate] (start as u32),
        end_line: #[verifier::truncate] (end as u32),
        severity: parse_severity(check_id.as_str()),
        cwe_id: crate::finding::copy_opt_string(&r.cwe),
        message: crate::finding::copy_opt_string(&r.message),
    };
    (check_id.clone(), rf)
}

/// The kept results, in order, each with its rule id.
pub fn collect_raws(results: &[SemgrepResult], exclude_rules: &[String]) -> (out: Vec<(String, RawFinding)>)
    ensures
        raws_view(out@) == accepted_raws(results_view(results@), strings_view(exclude_rules@)),
{
    let ghost rules = strings_view(exclude_rules@);
    let mut out: Vec<(String, RawFinding)> = Vec::new();
    let mut i: usize = 0;
    while i < results.len()
        invariant
            i <= results@.len(),
            rules == strings_view(exclude_rules@),
            raws_view(out@) == accepted_raws(results_view(results@.take(i as int)), rules),
        decreases results@.len() - i,
    {
        let r = &results[i];
        proof {
            assert(results_view(results@.take(i + 1)).drop_last() =~= results_view(results@.take(i as int)));
            assert(results_view(results@.take(i + 1)).last() == r@);
        }
        let keep = match &r.check_id {
            Some(c) => !rule_excluded(exclude_rules, c.as_str()) && r.path.is_some() && r.start_line.is_some(),
            None => false,
        };
        if keep {
            let p = raw_finding_of(r);
            out.push(p);
            proof {
                assert(raws_view(out@) =~= accepted_raws(results_view(results@.take(i as int)), rules).push((r@.check_id->0, raw_of(r@))));
            }
        }
        i = i + 1;
    }
    assert(results@.take(results@.len() as int) =~= results@);
    out
}

/// Index of the first group of rule `c`, or `None`.
fn find_group_exec(groups: &Vec<(String, Vec<RawFinding>)>, c: &String) -> (j: Option<usize>)
    ensures
        match j {
            Some(k) => find_group(groups_view(groups@), c@, 0) == k as int,
            None => find_group(groups_view(groups@), c@, 0) == -1,
        },
{
    let ghost gs = groups_view(groups@);
    let mut k: usize = 0;
    while k < groups.len()
        invariant
            k <= groups@.len(),
            gs == groups_view(groups@),
            find_group(gs, c@, 0) == find_group(gs, c@, k as int),
        decreases groups@.len() - k,
    {
        if groups[k].0 == *c {
            return Some(k);
        }
        k = k + 1;
    }
    None
}

/// The raw findings grouped by rule id, groups in order of first
/// appearance of their rule.
pub fn group_by_rule(raws: &Vec<(String, RawFinding)>) -> (groups: Vec<(String, Vec<RawFinding>)>)
    ensures
        groups_view(groups@) == group_raws(raws_view(raws@)),
{
    let mut groups: Vec<(String, Vec<RawFinding>)> = Vec::new();
    let mut i: usize = 0;
    while i < raws.len()
        invariant
            i <= raws@.len(),
            groups_view(groups@) == group_raws(raws_view(raws@.take(i as int))),
        decreases raws@.len() - i,
    {
        let c = &raws[i].0;
        let rf = raws[i].1.duplicate();
        let ghost before = groups_view(groups@);
        proof {
            assert(raws_view(raws@.take(i + 1)).drop_last() =~= raws_view(raws@.take(i as int)));
            assert(raws_view(raws@.take(i + 1)).last() == (c@, rf@));
        }
        proof {
            lemma_find_group(before, c@, 0);
        }
        match find_group_exec(&groups, c) {
            Some(j) => {
                let ghost old_groups = groups@;
                groups[j].1.push(rf);
                proof {
                    assert(groups@.len() == old_groups.len());
                    assert(forall|k: int| 0 <= k < groups@.len() && k != j ==> groups@[k] == old_groups[k]);
                    assert(groups@[j as int].0 == old_groups[j as int].0);
                    assert(groups@[j as int].1@ == old_groups[j as int].1@.push(rf));
                    assert(groups@[j as int].1@.map_values(|r: RawFinding| r@) =~= old_groups[j as int].1@.map_values(|r: RawFinding| r@).push(rf@));
                    assert(groups_view(groups@) =~= before.update(j as int, (c@, before[j as int].1.push(rf@))));
                }
            }
            None => {
                let mut members: Vec<RawFinding> = Vec::new();
                members.push(rf);
                let key = c.clone();
                groups.push((key, members));
                proof {
                    assert(members@.map_values(|r: RawFinding| r@) =~= seq![rf@]);
                    assert(groups_view(groups@) =~= before.push((c@, seq![rf@])));
                }
            }
        }
        i = i + 1;
    }
    assert(raws@.take(raws@.len() as int) =~= raws@);
    groups
}

/// Confidence of a semgrep finding, in basis points.
pub const SEMGREP_CONFIDENCE: u32 = 7000;

/// `path:line` of a raw finding.
pub open spec fn location_text(r: RawView) -> Seq<char> {
    r.path + ":"@ + dec(r.line as nat)
}

/// The locations of a group's members.
pub open spec fn locations(g: Seq<RawView>) -> Seq<Seq<char>> {
    g.map_values(|r: RawView| location_text(r))
}

/// Lines joined with `\n` between them.
pub open spec fn join_lines(s: Seq<Seq<char>>) -> Seq<char>
    decreases s.len(),
{
    if s.len() == 0 {
        Seq::empty()
    } else if s.len() == 1 {
        s[0]
    } else {
        join_lines(s.drop_last()) + "\n"@ + s.last()
    }
}

/// The plural ending for `n` things.
pub open spec fn plural(n: nat) -> Seq<char> {
    if n == 1 { Seq::empty() } else { "s"@ }
}

/// Description of a group of results of rule `c`: the first member's
/// message with a count of the other locations, or, without a message, the
/// rule id and the number of locations.
pub open spec fn group_description(c: Seq<char>, g: Seq<RawView>) -> Seq<char> {
    let count = g.len();
    let other = (count - 1) as nat;
    let base = match g[0].message {
        Some(m) => m,
        None => Seq::empty(),
    };
    if base.len() == 0 {
        if other > 0 {
            c + " detected in "@ + dec(count) + " locations"@
        } else {
            c + " detected by Semgrep"@
        }
    } else if other > 0 {
        base + " (and "@ + dec(other) + " other location"@ + plural(other) + ")"@
    } else {
        base
    }
}

/// Snippet of a group: how many files, then one location per line.
pub open spec fn group_snippet(g: Seq<RawView>) -> Seq<char> {
    "Found in "@ + dec(g.len()) + " file"@ + plural(g.len()) + ":\n"@ + join_lines(locations(g))
}

/// Identifier of the finding that stands for all results of rule `c`:
/// SHA-256 of the rule id followed by `aggregated`, in lowercase hex.
pub open spec fn aggregated_id(c: Seq<char>) -> Seq<char> {
    spec_hex(spec_sha256(vstd::utf8::encode_utf8(c + "aggregated"@)))
}

/// What every semgrep finding of rule `c` has in common.
pub open spec fn semgrep_common(f: VulnerabilityFinding, c: Seq<char>) -> bool {
    &&& f.title@ == c
    &&& f.confidence_bp == SEMGREP_CONFIDENCE
    &&& opt_view(f.recommendation) == Some("Review and fix this issue"@)
    &&& !f.already_reported
    &&& strings_view(f.sources@) == seq!["semgrep"@]
    &&& f.verification_status is None
    &&& f.verification_notes is None
    &&& opt_view(f.llm_model) == Some("semgrep"@)
    &&& f.triage_verdict is None
    &&& semgrep_evidence(f, c)
}

/// The one piece of evidence of a semgrep finding of rule `c`: the rule,
/// weight 0.7, and a note naming it.
pub open spec fn semgrep_evidence(f: VulnerabilityFinding, c: Seq<char>) -> bool {
    &&& f.evidence@.len() == 1
    &&& f.evidence@[0].source matches EvidenceSource::Semgrep(id) && id@ == c
    &&& f.evidence@[0].weight_bp == SEMGREP_CONFIDENCE
    &&& f.evidence@[0].detail@ == "Detected by Semgrep rule "@ + c
}

/// The current time in RFC 3339 (`chrono::Utc::now`, then
/// `DateTime::to_rfc3339`). Nothing is stated of it: it is the time.
#[verifier::external_body]
fn clock_now() -> (t: String) {
    chrono::Utc::now().to_rfc3339()
}

/// The evidence of a semgrep finding of rule `c` recorded at `timestamp`.
fn semgrep_evidence_of(c: &String, timestamp: String) -> (v: Vec<Evidence>)
    ensures
        v@.len() == 1,
        v@[0].source matches EvidenceSource::Semgrep(id) && id@ == c@,
        v@[0].weight_bp == SEMGREP_CONFIDENCE,
        v@[0].detail@ == "Detected by Semgrep rule "@ + c@,
        v@[0].timestamp == timestamp,
{
    let mut v: Vec<Evidence> = Vec::new();
    v.push(Evidence {
        source: EvidenceSource::Semgrep(c.clone()),
        weight_bp: SEMGREP_CONFIDENCE,
        detail: cat("Detected by Semgrep rule ", c.as_str()),
        timestamp,
    });
    v
}

/// The finding for the one result of rule `c`, its snippet taken from
/// something `read_source` may give for the result's path.
pub open spec fn single_finding<F: Fn(&str) -> SourceText>(
    f: VulnerabilityFinding,
    c: Seq<char>,
    r: RawView,
    read_source: F,
) -> bool {
    let cwe = match r.cwe_id {
        Some(w) => w,
        None => "unknown"@,
    };
    &&& f.id@ == spec_finding_id(r.path, Some(r.line), cwe)
    &&& f.description@ == match r.message {
        Some(m) => m,
        None => c + " detected by Semgrep"@,
    }
    &&& f.severity == r.severity
    &&& opt_view(f.cwe_id) == r.cwe_id
    &&& f.file_path@ == r.path
    &&& f.line_number == Some(r.line)
    &&& exists|p: &str, src: SourceText|
        p@ == r.path && #[trigger] call_ensures(read_source, (p,), src)
            && opt_view(f.code_snippet) == Some(spec_snippet(src, r.line, 2))
    &&& opt_view(f.code_location) == Some(location_text(r))
    &&& f.statement_range == Some((r.line, r.end_line))
    &&& no_extras(f)
}

/// The one finding for all results of rule `c` when there are several.
pub open spec fn aggregated_finding(f: VulnerabilityFinding, c: Seq<char>, g: Seq<RawView>) -> bool {
    &&& f.id@ == aggregated_id(c)
    &&& f.description@ == group_description(c, g)
    &&& f.severity == g[0].severity
    &&& opt_view(f.cwe_id) == g[0].cwe_id
    &&& f.file_path@ == "multiple_files"@
    &&& f.line_number is None
    &&& opt_view(f.code_snippet) == Some(group_snippet(g))
    &&& f.code_location is None
    &&& f.statement_range is None
    &&& no_extras(f)
}

/// `f` is the finding for the group `g` of results of rule `c`.
pub open spec fn group_finding<F: Fn(&str) -> SourceText>(
    f: VulnerabilityFinding,
    c: Seq<char>,
    g: Seq<RawView>,
    read_source: F,
) -> bool {
    &&& semgrep_common(f, c)
    &&& if g.len() == 1 {
        single_finding(f, c, g[0], read_source)
    } else {
        aggregated_finding(f, c, g)
    }
}

/// The views of a group's members.
pub open spec fn members_view(g: Seq<RawFinding>) -> Seq<RawView> {
    g.map_values(|r: RawFinding| r@)
}

/// `path:line` of a raw finding.
fn location_of(r: &RawFinding) -> (s: String)
    ensures
        s@ == location_text(r@),
{
    let mut s = r.path.clone();
    s.append(":");
    let d = decimal(r.line as u64);
    s.append(d.as_str());
    s
}

/// The members' locations, one per line.
fn joined_locations(g: &Vec<RawFinding>) -> (s: String)
    ensures
        s@ == join_lines(locations(members_view(g@))),
{
    let mut s = String::new();
    let mut i: usize = 0;
    while i < g.len()
        invariant
            i <= g@.len(),
            s@ == join_lines(locations(members_view(g@.take(i as int)))),
        decreases g@.len() - i,
    {
        let loc = location_of(&g[i]);
        proof {
            let prev = locations(members_view(g@.take(i as int)));
            let next = locations(members_view(g@.take(i + 1)));
            assert(next.drop_last() =~= prev);
            assert(next.last() == location_text(g@[i as int]@));
            if i == 0 {
                assert(prev.len() == 0);
            }
        }
        if i > 0 {
            s.append("\n");
        }
        s.append(loc.as_str());
        proof {
            if i == 0 {
                assert(s@ =~= locations(members_view(g@.take(1)))[0]);
            }
        }
        i = i + 1;
    }
    assert(g@.take(g@.len() as int) =~= g@);
    s
}

/// Description of a group of at least one result of rule `c`.
fn describe_group(c: &String, g: &Vec<RawFinding>) -> (s: String)
    requires
        g@.len() >= 1,
    ensures
        s@ == group_description(c@, members_view(g@)),
{
    let count = g.len();
    let other = count - 1;
    let base: &str = match &g[0].message {
        Some(m) => m.as_str(),
        None => "",
    };
    proof {
        reveal_strlit("");
    }
    if base.is_empty() {
        if other > 0 {
            let mut s = c.clone();
            s.append(" detected in ");
            let d = decimal(count as u64);
            s.append(d.as_str());
            s.append(" locations");
            s
        } else {
            cat(c.as_str(), " detected by Semgrep")
        }
    } else if other > 0 {
        let mut s = String::from_str(base);
        s.append(" (and ");
        let d = decimal(other as u64);
        s.append(d.as_str());
        s.append(" other location");
        if other != 1 {
            s.append("s");
        }
        s.append(")");
        s
    } else {
        String::from_str(base)
    }
}

/// Snippet of a group: the number of files, then the locations.
fn snippet_of_group(g: &Vec<RawFinding>) -> (s: String)
    ensures
        s@ == group_snippet(members_view(g@)),
{
    let mut s = String::from_str("Found in ");
    let d = decimal(g.len() as u64);
    s.append(d.as_str());
    s.append(" file");
    if g.len() != 1 {
        s.append("s");
    }
    s.append(":\n");
    let locs = joined_locations(g);
    s.append(locs.as_str());
    s
}

/// The `semgrep` source list.
fn semgrep_sources() -> (v: Vec<String>)
    ensures
        strings_view(v@) == seq!["semgrep"@],
{
    let mut v: Vec<String> = Vec::new();
    v.push(String::from_str("semgrep"));
    assert(strings_view(v@) =~= seq!["semgrep"@]);
    v
}

/// The finding for the one result `r` of rule `c`.
fn single_finding_of<F: Fn(&str) -> SourceText>(c: &String, r: &RawFinding, read_source: &F, timestamp: String) -> (f: VulnerabilityFinding)
    requires
        forall|p: &str| #[trigger] call_requires(*read_source, (p,)),
    ensures
        semgrep_common(f, c@),
        f.evidence@[0].timestamp == timestamp,
        single_finding(f, c@, r@, *read_source),
{
    let cwe_text: String = match &r.cwe_id {
        Some(w) => w.clone(),
        None => String::from_str("unknown"),
    };
    let id = VulnerabilityFinding::generate_id(r.path.as_str(), Some(r.line), cwe_text.as_str());
    let description = match &r.message {
        Some(m) => m.clone(),
        None => cat(c.as_str(), " detected by Semgrep"),
    };
    let p: &str = r.path.as_str();
    let src = read_source(p);
    let snippet = code_snippet(&src, r.line, 2);
    let f = VulnerabilityFinding {
        id,
        title: c.clone(),
        description,
        severity: r.severity,
        confidence_bp: SEMGREP_CONFIDENCE,
        cwe_id: copy_opt_string(&r.cwe_id),
        file_path: r.path.clone(),
        line_number: Some(r.line),
        code_snippet: Some(snippet),
        recommendation: Some(String::from_str("Review and fix this issue")),
        code_location: Some(location_of(r)),
        already_reported: false,
        sources: semgrep_sources(),
        verification_status: None,
        verification_notes: None,
        llm_model: Some(String::from_str("semgrep")),
        triage_verdict: None,
        statement_range: Some((r.line, r.end_line)),
        diff_hunk: None,
        agent_evidence_path: None,
        poc_code: None,
        poc_format: None,
        mitigation_code: None,
        evidence: semgrep_evidence_of(c, timestamp),
    };
    assert(call_ensures(*read_source, (p,), src));
    f
}

/// The one finding for the results `g` (at least two) of rule `c`.
fn aggregated_finding_of(c: &String, g: &Vec<RawFinding>, timestamp: String) -> (f: VulnerabilityFinding)
    requires
        g@.len() >= 1,
    ensures
        semgrep_common(f, c@),
        f.evidence@[0].timestamp == timestamp,
        aggregated_finding(f, c@, members_view(g@)),
{
    let mut key = c.clone();
    key.append("aggregated");
    let id = sha256_hex(key.as_str());
    VulnerabilityFinding {
        id,
        title: c.clone(),
        description: describe_group(c, g),
        severity: g[0].severity,
        confidence_bp: SEMGREP_CONFIDENCE,
        cwe_id: copy_opt_string(&g[0].cwe_id),
        file_path: String::from_str("multiple_files"),
        line_number: None,
        code_snippet: Some(snippet_of_group(g)),
        recommendation: Some(String::from_str("Review and fix this issue")),
        code_location: None,
        already_reported: false,
        sources: semgrep_sources(),
        verification_status: None,
        verification_notes: None,
        llm_model: Some(String::from_str("semgrep")),
        triage_verdict: None,
        statement_range: None,
        diff_hunk: None,
        agent_evidence_path: None,
        poc_code: None,
        poc_format: None,
        mitigation_code: None,
        evidence: semgrep_evidence_of(c, timestamp),
    }
}

/// The finding for the group `g` of results of rule `c`.
pub fn finding_for_group<F: Fn(&str) -> SourceText>(c: &String, g: &Vec<RawFinding>, read_source: &F, timestamp: String) -> (f: VulnerabilityFinding)
    requires
        g@.len() >= 1,
        forall|p: &str| #[trigger] call_requires(*read_source, (p,)),
    ensures
        group_finding(f, c@, members_view(g@), *read_source),
        f.evidence@[0].timestamp == timestamp,
{
    if g.len() == 1 {
        single_finding_of(c, &g[0], read_source, timestamp)
    } else {
        aggregated_finding_of(c, g, timestamp)
    }
}

/// Every group has at least one member.
pub proof fn lemma_groups_nonempty(s: Seq<(Seq<char>, RawView)>)
    ensures
        forall|i: int| 0 <= i < group_raws(s).len() ==> #[trigger] group_raws(s)[i].1.len() >= 1,
    decreases s.len(),
{
    if s.len() > 0 {
        let prev = group_raws(s.drop_last());
        lemma_groups_nonempty(s.drop_last());
        lemma_find_group(prev, s.last().0, 0);
    }
}

/// `fs` are the findings for the results `rs` with exclusion patterns
/// `rules`: one per rule with kept results, in the order in which the
/// rules first appear.
pub open spec fn semgrep_findings<F: Fn(&str) -> SourceText>(
    fs: Seq<VulnerabilityFinding>,
    rs: Seq<ResultView>,
    rules: Seq<Seq<char>>,
    read_source: F,
) -> bool {
    let gs = group_raws(accepted_raws(rs, rules));
    &&& fs.len() == gs.len()
    &&& forall|i: int| 0 <= i < fs.len() ==> group_finding(#[trigger] fs[i], gs[i].0, gs[i].1, read_source)
}

/// The findings for a list of semgrep results: results without a rule id,
/// a path or a start line, or of an excluded rule, are dropped; the rest
/// are put together by rule, and each rule gives one finding.
pub fn findings_from_results<F: Fn(&str) -> SourceText>(
    results: &[SemgrepResult],
    exclude_rules: &[String],
    read_source: &F,
) -> (fs: Vec<VulnerabilityFinding>)
    requires
        forall|p: &str| #[trigger] call_requires(*read_source, (p,)),
    ensures
        semgrep_findings(fs@, results_view(results@), strings_view(exclude_rules@), *read_source),
{
    let raws = collect_raws(results, exclude_rules);
    let groups = group_by_rule(&raws);
    let ghost gs = group_raws(accepted_raws(results_view(results@), strings_view(exclude_rules@)));
    proof {
        lemma_groups_nonempty(accepted_raws(results_view(results@), strings_view(exclude_rules@)));
    }
    let mut fs: Vec<VulnerabilityFinding> = Vec::new();
    let mut i: usize = 0;
    while i < groups.len()
        invariant
            i <= groups@.len(),
            gs == groups_view(groups@),
            forall|k: int| 0 <= k < gs.len() ==> #[trigger] gs[k].1.len() >= 1,
            forall|p: &str| #[trigger] call_requires(*read_source, (p,)),
            fs@.len() == i,
            forall|k: int| 0 <= k < i ==> group_finding(#[trigger] fs@[k], gs[k].0, gs[k].1, *read_source),
        decreases groups@.len() - i,
    {
        assert(gs[i as int].1 == members_view(groups@[i as int].1@));
        assert(gs[i as int].1.len() >= 1);
        let f = finding_for_group(&groups[i].0, &groups[i].1, read_source, clock_now());
        fs.push(f);
        i = i + 1;
    }
    fs
}

/// JSON Pointer to field `suffix` of the `i`-th result.
pub open spec fn result_pointer(i: nat, suffix: Seq<char>) -> Seq<char> {
    "/results/"@ + dec(i) + suffix
}

/// The `i`-th result of the semgrep output `text`, as the logic reads it.
pub open spec fn result_at(text: Seq<u8>, i: nat) -> ResultView {
    ResultView {
        check_id: json_str_at(text, result_pointer(i, "/check_id"@)),
        path: json_str_at(text, result_pointer(i, "/path"@)),
        start_line: json_u64_at(text, result_pointer(i, "/start/line"@)),
        end_line: json_u64_at(text, result_pointer(i, "/end/line"@)),
        message: json_str_at(text, result_pointer(i, "/extra/message"@)),
        cwe: match json_array_len_at(text, result_pointer(i, "/extra/metadata/cwe"@)) {
            Some(n) => if n > 0 {
                json_str_at(text, result_pointer(i, "/extra/metadata/cwe/0"@))
            } else {
                None
            },
            None => None,
        },
    }
}

/// Number of results in the semgrep output `text`: the length of its
/// `results` array, 0 when there is none.
pub open spec fn results_count(text: Seq<u8>) -> nat {
    match json_array_len_at(text, "/results"@) {
        Some(n) => n,
        None => 0,
    }
}

/// The results of the semgrep output `text`.
pub open spec fn results_in(text: Seq<u8>) -> Seq<ResultView> {
    Seq::new(results_count(text), |i: int| result_at(text, i as nat))
}

/// Pointer to field `suffix` of the `i`-th result.
fn pointer_to(i: usize, suffix: &str) -> (s: String)
    ensures
        s@ == result_pointer(i as nat, suffix@),
{
    let mut s = String::from_str("/results/");
    let d = decimal(i as u64);
    s.append(d.as_str());
    s.append(suffix);
    s
}

/// The `i`-th result of a parsed semgrep output.
fn result_of(doc: &JsonDoc, i: usize) -> (r: SemgrepResult)
    ensures
        r@ == result_at(doc.text(), i as nat),
{
    let check_id = doc.str_at(pointer_to(i, "/check_id").as_str());
    let path = doc.str_at(pointer_to(i, "/path").as_str());
    let start_line = doc.u64_at(pointer_to(i, "/start/line").as_str());
    let end_line = doc.u64_at(pointer_to(i, "/end/line").as_str());
    let message = doc.str_at(pointer_to(i, "/extra/message").as_str());
    let cwe = match doc.array_len_at(pointer_to(i, "/extra/metadata/cwe").as_str()) {
        Some(n) => if n > 0 {
            doc.str_at(pointer_to(i, "/extra/metadata/cwe/0").as_str())
        } else {
            None
        },
        None => None,
    };
    SemgrepResult { check_id, path, start_line, end_line, message, cwe }
}

/// The results of a parsed semgrep output.
pub(crate) fn read_results(doc: &JsonDoc) -> (rs: Vec<SemgrepResult>)
    ensures
        results_view(rs@) == results_in(doc.text()),
{
    let n: usize = match doc.array_len_at("/results") {
        Some(n) => n,
        None => 0,
    };
    let mut rs: Vec<SemgrepResult> = Vec::new();
    let mut i: usize = 0;
    while i < n
        invariant
            i <= n,
            n == results_count(doc.text()),
            rs@.len() == i,
            forall|k: int| 0 <= k < i ==> (#[trigger] rs@[k])@ == result_at(doc.text(), k as nat),
        decreases n - i,
    {
        rs.push(result_of(doc, i));
        i = i + 1;
    }
    assert(results_view(rs@) =~= results_in(doc.text()));
    rs
}

/// Findings from `semgrep --json` output: an error when `json` is not a
/// JSON document; otherwise the findings for its results.
pub fn parse_json_output<F: Fn(&str) -> SourceText>(
    json: &[u8],
    exclude_rules: &[String],
    read_source: &F,
) -> (r: Result<Vec<VulnerabilityFinding>, String>)
    requires
        forall|p: &str| #[trigger] call_requires(*read_source, (p,)),
    ensures
        match r {
            Ok(fs) => json_parse_error(json@) is None
                && semgrep_findings(fs@, results_in(json@), strings_view(exclude_rules@), *read_source),
            Err(e) => json_parse_error(json@) matches Some(m)
                && e@ == "Failed to parse semgrep JSON: "@ + m,
        },
{
    match JsonDoc::parse(json) {
        Ok(doc) => {
            let results = read_results(&doc);
            Ok(findings_from_results(results.as_slice(), exclude_rules, read_source))
        }
        Err(m) => Err(cat("Failed to parse semgrep JSON: ", m.as_str())),
    }
}

impl SemgrepRunner {
    /// Findings from `semgrep --json` output with this runner's exclusion
    /// patterns.
    pub fn parse_json_output<F: Fn(&str) -> SourceText>(&self, json: &[u8], read_source: &F) -> (r: Result<Vec<VulnerabilityFinding>, String>)
        requires
            forall|p: &str| #[trigger] call_requires(*read_source, (p,)),
        ensures
            match r {
                Ok(fs) => json_parse_error(json@) is None
                    && semgrep_findings(fs@, results_in(json@), strings_view(self.exclude_rules@), *read_source),
                Err(e) => json_parse_error(json@) matches Some(m)
                    && e@ == "Failed to parse semgrep JSON: "@ + m,
            },
    {
        parse_json_output(json, self.exclude_rules.as_slice(), read_source)
    }
}

/// Adding a raw finding keeps the rule id at each existing index, and the
/// groups then hold one of rule `c`; the ids stay distinct.
pub proof fn lemma_add_raw_keys(gs: Seq<(Seq<char>, Seq<RawView>)>, c: Seq<char>, r: RawView)
    ensures
        gs.len() <= add_raw(gs, c, r).len() <= gs.len() + 1,
        forall|i: int| 0 <= i < gs.len() ==> (#[trigger] add_raw(gs, c, r)[i]).0 == gs[i].0,
        forall|i: int| gs.len() <= i < add_raw(gs, c, r).len() ==> (#[trigger] add_raw(gs, c, r)[i]).0 == c,
        exists|i: int| 0 <= i < add_raw(gs, c, r).len() && (#[trigger] add_raw(gs, c, r)[i]).0 == c,
        (forall|i: int, k: int| 0 <= i < k < gs.len() ==> #[trigger] gs[i].0 != #[trigger] gs[k].0) ==>
            (forall|i: int, k: int| 0 <= i < k < add_raw(gs, c, r).len() ==>
                #[trigger] add_raw(gs, c, r)[i].0 != #[trigger] add_raw(gs, c, r)[k].0),
{
    lemma_find_group(gs, c, 0);
    let j = find_group(gs, c, 0);
    let n = add_raw(gs, c, r);
    if j < 0 {
        assert(n[gs.len() as int].0 == c);
    } else {
        assert(n[j].0 == c);
    }
}

/// The groups of `s` have distinct rule ids.
pub proof fn lemma_group_keys_distinct(s: Seq<(Seq<char>, RawView)>)
    ensures
        forall|i: int, k: int| 0 <= i < k < group_raws(s).len() ==> #[trigger] group_raws(s)[i].0 != #[trigger] group_raws(s)[k].0,
    decreases s.len(),
{
    if s.len() > 0 {
        lemma_group_keys_distinct(s.drop_last());
        lemma_add_raw_keys(group_raws(s.drop_last()), s.last().0, s.last().1);
    }
}

/// Each group's rule id is the id of some raw finding of `s`.
pub proof fn lemma_group_keys_origin(s: Seq<(Seq<char>, RawView)>)
    ensures
        forall|i: int| #![trigger group_raws(s)[i]] 0 <= i < group_raws(s).len() ==>
            exists|j: int| 0 <= j < s.len() && #[trigger] s[j].0 == group_raws(s)[i].0,
    decreases s.len(),
{
    if s.len() > 0 {
        let t = s.drop_last();
        let prev = group_raws(t);
        lemma_group_keys_origin(t);
        lemma_add_raw_keys(prev, s.last().0, s.last().1);
        let gs = group_raws(s);
        assert forall|i: int| #![trigger gs[i]] 0 <= i < gs.len() implies
            exists|j: int| 0 <= j < s.len() && #[trigger] s[j].0 == gs[i].0 by {
            if i < prev.len() {
                assert(gs[i].0 == prev[i].0);
                let j = choose|j: int| 0 <= j < t.len() && #[trigger] t[j].0 == prev[i].0;
                assert(s[j] == t[j]);
            } else {
                assert(s[s.len() - 1].0 == gs[i].0);
            }
        }
    }
}

/// Every rule id of `s` has a group.
pub proof fn lemma_group_keys_cover(s: Seq<(Seq<char>, RawView)>)
    ensures
        forall|j: int| #![trigger s[j]] 0 <= j < s.len() ==>
            exists|i: int| 0 <= i < group_raws(s).len() && #[trigger] group_raws(s)[i].0 == s[j].0,
    decreases s.len(),
{
    if s.len() > 0 {
        let t = s.drop_last();
        let prev = group_raws(t);
        lemma_group_keys_cover(t);
        lemma_add_raw_keys(prev, s.last().0, s.last().1);
        let gs = group_raws(s);
        assert forall|j: int| #![trigger s[j]] 0 <= j < s.len() implies
            exists|i: int| 0 <= i < gs.len() && #[trigger] gs[i].0 == s[j].0 by {
            if j < t.len() {
                assert(t[j] == s[j]);
                let i = choose|i: int| 0 <= i < prev.len() && #[trigger] prev[i].0 == t[j].0;
                assert(gs[i].0 == prev[i].0);
            }
        }
    }
}

/// Every kept raw finding has a rule id that no pattern excludes.
pub proof fn lemma_accepted_not_excluded(rs: Seq<ResultView>, rules: Seq<Seq<char>>)
    ensures
        forall|j: int| 0 <= j < accepted_raws(rs, rules).len() ==> !excluded_by(rules, #[trigger] accepted_raws(rs, rules)[j].0),
    decreases rs.len(),
{
    if rs.len() > 0 {
        let t = rs.drop_last();
        lemma_accepted_not_excluded(t, rules);
        let prev = accepted_raws(t, rules);
        let cur = accepted_raws(rs, rules);
        assert forall|j: int| 0 <= j < cur.len() implies !excluded_by(rules, #[trigger] cur[j].0) by {
            if j < prev.len() {
                assert(cur[j] == prev[j]);
            }
        }
    }
}

/// Every result that is kept has its rule id among the kept raw findings.
pub proof fn lemma_accepted_present(rs: Seq<ResultView>, rules: Seq<Seq<char>>)
    ensures
        forall|k: int| #![trigger rs[k]] 0 <= k < rs.len() && accepts(rs[k], rules) ==> exists|j: int|
            0 <= j < accepted_raws(rs, rules).len() && #[trigger] accepted_raws(rs, rules)[j].0 == rs[k].check_id->0,
    decreases rs.len(),
{
    if rs.len() > 0 {
        let t = rs.drop_last();
        lemma_accepted_present(t, rules);
        let prev = accepted_raws(t, rules);
        let cur = accepted_raws(rs, rules);
        assert forall|k: int| #![trigger rs[k]] 0 <= k < rs.len() && accepts(rs[k], rules) implies exists|j: int|
            0 <= j < cur.len() && #[trigger] cur[j].0 == rs[k].check_id->0 by {
            if k < t.len() {
                assert(t[k] == rs[k]);
                let j = choose|j: int| 0 <= j < prev.len() && #[trigger] prev[j].0 == t[k].check_id->0;
                assert(cur[j] == prev[j]);
            } else {
                assert(cur[prev.len() as int].0 == rs[k].check_id->0);
            }
        }
    }
}

/// Findings never carry a rule that the exclusion patterns exclude.
pub proof fn law_excluded_rules_never_reported<F: Fn(&str) -> SourceText>(
    fs: Seq<VulnerabilityFinding>,
    rs: Seq<ResultView>,
    rules: Seq<Seq<char>>,
    read_source: F,
)
    requires
        semgrep_findings(fs, rs, rules, read_source),
    ensures
        forall|i: int| 0 <= i < fs.len() ==> !excluded_by(rules, (#[trigger] fs[i]).title@),
{
    let a = accepted_raws(rs, rules);
    lemma_group_keys_origin(a);
    lemma_accepted_not_excluded(rs, rules);
    assert forall|i: int| 0 <= i < fs.len() implies !excluded_by(rules, (#[trigger] fs[i]).title@) by {
        let gs = group_raws(a);
        assert(group_finding(fs[i], gs[i].0, gs[i].1, read_source));
        let j = choose|j: int| 0 <= j < a.len() && #[trigger] a[j].0 == gs[i].0;
    }
}

/// Each rule gives at most one finding: the titles of the findings are
/// distinct.
pub proof fn law_one_finding_per_rule<F: Fn(&str) -> SourceText>(
    fs: Seq<VulnerabilityFinding>,
    rs: Seq<ResultView>,
    rules: Seq<Seq<char>>,
    read_source: F,
)
    requires
        semgrep_findings(fs, rs, rules, read_source),
    ensures
        forall|i: int, k: int| 0 <= i < k < fs.len() ==> (#[trigger] fs[i]).title@ != (#[trigger] fs[k]).title@,
{
    let a = accepted_raws(rs, rules);
    lemma_group_keys_distinct(a);
    let gs = group_raws(a);
    assert forall|i: int, k: int| 0 <= i < k < fs.len() implies (#[trigger] fs[i]).title@ != (#[trigger] fs[k]).title@ by {
        assert(group_finding(fs[i], gs[i].0, gs[i].1, read_source));
        assert(group_finding(fs[k], gs[k].0, gs[k].1, read_source));
    }
}

/// Every result with a rule id, a path and a start line, of a rule not
/// excluded, is reported: some finding carries its rule.
pub proof fn law_kept_results_reported<F: Fn(&str) -> SourceText>(
    fs: Seq<VulnerabilityFinding>,
    rs: Seq<ResultView>,
    rules: Seq<Seq<char>>,
    read_source: F,
)
    requires
        semgrep_findings(fs, rs, rules, read_source),
    ensures
        forall|k: int| #![trigger rs[k]] 0 <= k < rs.len() && accepts(rs[k], rules) ==>
            exists|i: int| 0 <= i < fs.len() && (#[trigger] fs[i]).title@ == rs[k].check_id->0,
{
    let a = accepted_raws(rs, rules);
    lemma_group_keys_cover(a);
    lemma_accepted_present(rs, rules);
    let gs = group_raws(a);
    assert forall|k: int| #![trigger rs[k]] 0 <= k < rs.len() && accepts(rs[k], rules) implies
        exists|i: int| 0 <= i < fs.len() && (#[trigger] fs[i]).title@ == rs[k].check_id->0 by {
        let j = choose|j: int| 0 <= j < a.len() && #[trigger] a[j].0 == rs[k].check_id->0;
        let i = choose|i: int| 0 <= i < gs.len() && #[trigger] gs[i].0 == a[j].0;
        assert(group_finding(fs[i], gs[i].0, gs[i].1, read_source));
    }
}

/// An empty exclusion pattern excludes every rule.
pub proof fn law_empty_pattern_excludes_all(rules: Seq<Seq<char>>, check_id: Seq<char>)
    requires
        rules.contains(Seq::<char>::empty()),
    ensures
        excluded_by(rules, check_id),
{
    let i = choose|i: int| 0 <= i < rules.len() && rules[i] == Seq::<char>::empty();
    assert(check_id.subrange(0, 0) =~= Seq::<char>::empty());
    assert(has_prefix(check_id, rules[i]));
}

/// A rule id equal to a pattern is excluded, and so is every id that
/// extends it.
pub proof fn law_pattern_excludes_its_extensions(rules: Seq<Seq<char>>, pattern: Seq<char>, rest: Seq<char>)
    requires
        rules.contains(pattern),
    ensures
        excluded_by(rules, pattern),
        excluded_by(rules, pattern + rest),
{
    let i = choose|i: int| 0 <= i < rules.len() && rules[i] == pattern;
    assert(pattern.subrange(0, pattern.len() as int) =~= pattern);
    assert((pattern + rest).subrange(0, pattern.len() as int) =~= pattern);
    assert(has_prefix(pattern, rules[i]));
    assert(has_prefix(pattern + rest, rules[i]));
}

} // verus!
