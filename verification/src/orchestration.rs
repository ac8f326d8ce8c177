//! The LLM orchestration phases (hunt, independent verify, validate): what
//! they decide around the model calls, which the caller makes.

use vstd::prelude::*;
use vstd::slice::SliceAdditionalExecFns;
use crate::finding::{
    line_of, no_extras, opt_view, same_but_confidence, same_except_verdict, same_finding, spec_finding_id, strings_view, Severity,
    VulnerabilityFinding, FULL_CONFIDENCE,
};
use crate::gate::{apply_gate_results, gate_for, gated, parse_7question_gate, reply_gates, GateResult, clean_reply, item_ptr, reply_text, str_or_empty, str_or_empty_at};
use crate::json::{json_array_len_at, json_i64_at, json_parse_error, json_str_at, JsonDoc};
use crate::text::{dec, decimal, lowercase, spec_lowercase, str_eq, cat};

verus! {

/// Settings shared by the orchestration phases.
pub struct OrchestrationConfig {
    pub enabled: bool,
    /// Attack classes the hunt phase runs; empty means all.
    pub hunt_classes: Vec<String>,
    pub validate_batch_size: usize,
    pub independent_verify: bool,
}

impl Default for OrchestrationConfig {
    fn default() -> (c: Self)
        ensures
            !c.enabled,
            c.hunt_classes@.len() == 0,
            c.validate_batch_size == 0,
            !c.independent_verify,
    {
        OrchestrationConfig {
            enabled: false,
            hunt_classes: Vec::new(),
            validate_batch_size: 0,
            independent_verify: false,
        }
    }
}

/// An error of an orchestration phase.
pub struct PhaseError(pub String);

impl PhaseError {
    /// `Phase error: ` and the message.
    pub fn message(&self) -> (s: String)
        ensures
            s@ == "Phase error: "@ + self.0@,
    {
        cat("Phase error: ", self.0.as_str())
    }
}

/// Pointer to field `f` of the `idx`-th item of a reply array.
pub open spec fn item_field(idx: nat, f: Seq<char>) -> Seq<char> {
    item_ptr(idx) + f
}

/// Severity a model reports, from its lower-cased word: `critical`,
/// `high`, `medium`; anything else is `Low`.
pub open spec fn reported_severity(l: Seq<char>) -> Severity {
    if l == "critical"@ {
        Severity::Critical
    } else if l == "high"@ {
        Severity::High
    } else if l == "medium"@ {
        Severity::Medium
    } else {
        Severity::Low
    }
}

/// The `idx`-th reply item has a severity, a title and a line.
pub open spec fn item_kept(text: Seq<u8>, idx: nat) -> bool {
    &&& json_str_at(text, item_field(idx, "/severity"@)) is Some
    &&& json_str_at(text, item_field(idx, "/title"@)) is Some
    &&& json_i64_at(text, item_field(idx, "/line"@)) is Some
}

/// Indices, ascending, of the first `n` reply items that are kept.
pub open spec fn kept_items(text: Seq<u8>, n: nat) -> Seq<int>
    decreases n,
{
    if n == 0 {
        Seq::empty()
    } else {
        let prev = kept_items(text, (n - 1) as nat);
        if item_kept(text, (n - 1) as nat) {
            prev.push(n - 1)
        } else {
            prev
        }
    }
}

/// `f` is the finding a reply item with severity word `sev`, title
/// `title`, line `line`, description `desc` and weakness `cwe` reports in
/// `path`, tagged with `source`.
pub open spec fn item_finding(
    f: VulnerabilityFinding,
    sev: Seq<char>,
    title: Seq<char>,
    line: i64,
    desc: Seq<char>,
    cwe: Option<Seq<char>>,
    path: Seq<char>,
    source: Seq<char>,
) -> bool {
    let l = line as u32;
    &&& f.id@ == spec_finding_id(path, Some(l), match cwe {
        Some(c) => c,
        None => "CWE-000"@,
    })
    &&& f.title@ == title
    &&& f.description@ == desc
    &&& f.severity == reported_severity(spec_lowercase(sev))
    &&& f.confidence_bp == 7000
    &&& opt_view(f.cwe_id) == cwe
    &&& f.file_path@ == path
    &&& f.line_number == Some(l)
    &&& f.code_snippet is None
    &&& f.recommendation is None
    &&& f.code_location is None
    &&& !f.already_reported
    &&& strings_view(f.sources@) == seq![source]
    &&& f.verification_status is None
    &&& f.verification_notes is None
    &&& f.llm_model is None
    &&& f.triage_verdict is None
    &&& f.statement_range is None
    &&& no_extras(f)
    &&& f.evidence@.len() == 0
}

/// `f` is the finding the kept reply item `idx` reports in `path`, tagged
/// with `source`.
pub open spec fn reported_finding(f: VulnerabilityFinding, text: Seq<u8>, idx: nat, path: Seq<char>, source: Seq<char>) -> bool {
    item_finding(
        f,
        json_str_at(text, item_field(idx, "/severity"@))->0,
        json_str_at(text, item_field(idx, "/title"@))->0,
        json_i64_at(text, item_field(idx, "/line"@))->0,
        str_or_empty(json_str_at(text, item_field(idx, "/description"@))),
        json_str_at(text, item_field(idx, "/cwe_id"@)),
        path,
        source,
    )
}

/// `fs` are the findings a model reply reports: none unless the cleaned
/// reply is a JSON array; then one per item with a severity, a title and a
/// line, in order.
pub open spec fn reply_findings(fs: Seq<VulnerabilityFinding>, reply: Seq<char>, path: Seq<char>, source: Seq<char>) -> bool {
    let text = reply_text(reply);
    if json_parse_error(text) is None && json_array_len_at(text, ""@) is Some {
        let ids = kept_items(text, json_array_len_at(text, ""@)->0);
        &&& fs.len() == ids.len()
        &&& forall|k: int| 0 <= k < fs.len() ==> reported_finding(#[trigger] fs[k], text, ids[k] as nat, path, source)
    } else {
        fs.len() == 0
    }
}

/// Severity a model reports.
fn read_severity(word: &str) -> (s: Severity)
    ensures
        s == reported_severity(spec_lowercase(word@)),
{
    let l = lowercase(word);
    if str_eq(l.as_str(), "critical") {
        Severity::Critical
    } else if str_eq(l.as_str(), "high") {
        Severity::High
    } else if str_eq(l.as_str(), "medium") {
        Severity::Medium
    } else {
        Severity::Low
    }
}

/// Pointer to field `f` of the `idx`-th item.
fn field_pointer(idx: usize, f: &str) -> (s: String)
    ensures
        s@ == item_field(idx as nat, f@),
{
    let mut s = String::from_str("/");
    let d = decimal(idx as u64);
    s.append(d.as_str());
    s.append(f);
    s
}

/// The finding a reply item reports in `file_path`, tagged with `source`,
/// from the values read from it: its severity word, title, line,
/// description (empty when absent) and weakness.
pub fn finding_from_item(
    severity_word: &str,
    title: String,
    line: i64,
    description: String,
    cwe_id: Option<String>,
    file_path: &str,
    source: &str,
) -> (f: VulnerabilityFinding)
    ensures
        item_finding(f, severity_word@, title@, line, description@, opt_view(cwe_id), file_path@, source@),
{
    let line_number: u32 = #[verifier::truncate] (line as u32);
    let id = match &cwe_id {
        Some(c) => VulnerabilityFinding::generate_id(file_path, Some(line_number), c.as_str()),
        None => VulnerabilityFinding::generate_id(file_path, Some(line_number), "CWE-000"),
    };
    let mut sources: Vec<String> = Vec::new();
    sources.push(String::from_str(source));
    proof {
        assert(strings_view(sources@) =~= seq![source@]);
    }
    VulnerabilityFinding {
        id,
        title,
        description,
        severity: read_severity(severity_word),
        confidence_bp: 7000,
        cwe_id,
        file_path: String::from_str(file_path),
        line_number: Some(line_number),
        code_snippet: None,
        recommendation: None,
        code_location: None,
        already_reported: false,
        sources,
        verification_status: None,
        verification_notes: None,
        llm_model: None,
        triage_verdict: None,
        statement_range: None,
        diff_hunk: None,
        agent_evidence_path: None,
        poc_code: None,
        poc_format: None,
        mitigation_code: None,
        evidence: Vec::new(),
    }
}

/// The finding the `idx`-th reply item reports, if it is kept.
fn reported_at(doc: &JsonDoc, idx: usize, file_path: &str, source: &str) -> (r: Option<VulnerabilityFinding>)
    ensures
        r is Some <==> item_kept(doc.text(), idx as nat),
        r matches Some(f) ==> reported_finding(f, doc.text(), idx as nat, file_path@, source@),
{
    let severity_word = doc.str_at(field_pointer(idx, "/severity").as_str());
    let title = doc.str_at(field_pointer(idx, "/title").as_str());
    let line = doc.i64_at(field_pointer(idx, "/line").as_str());
    let description = str_or_empty_at(doc, field_pointer(idx, "/description").as_str());
    let cwe_id = doc.str_at(field_pointer(idx, "/cwe_id").as_str());
    match (severity_word, title, line) {
        (Some(w), Some(t), Some(l)) => Some(finding_from_item(w.as_str(), t, l, description, cwe_id, file_path, source)),
        _ => None,
    }
}

/// The findings a model reply reports for `file_path`, tagged with
/// `source`: the reply, without whitespace and code fence, must be a JSON
/// array; each item with a severity, a title and a line gives a finding.
pub fn parse_findings(reply: &str, file_path: &str, source: &str) -> (fs: Vec<VulnerabilityFinding>)
    ensures
        reply_findings(fs@, reply@, file_path@, source@),
{
    let cleaned = clean_reply(reply);
    let mut fs: Vec<VulnerabilityFinding> = Vec::new();
    match JsonDoc::parse(cleaned.as_str().as_bytes()) {
        Err(_) => {},
        Ok(doc) => {
            proof {
                reveal_strlit("");
            }
            match doc.array_len_at("") {
                Some(n) => {
                    let ghost text = doc.text();
                    let mut idx: usize = 0;
                    while idx < n
                        invariant
                            idx <= n,
                            text == doc.text(),
                            json_array_len_at(text, ""@) == Some(n as nat),
                            fs@.len() == kept_items(text, idx as nat).len(),
                            forall|k: int| 0 <= k < fs@.len() ==> reported_finding(#[trigger] fs@[k], text,
                                kept_items(text, idx as nat)[k] as nat, file_path@, source@),
                        decreases n - idx,
                    {
                        match reported_at(&doc, idx, file_path, source) {
                            Some(f) => {
                                fs.push(f);
                            },
                            None => {},
                        }
                        idx = idx + 1;
                    }
                },
                None => {},
            }
        },
    }
    fs
}

/// The attack classes the hunt phase knows, in the order it runs them.
pub open spec fn attack_classes() -> Seq<Seq<char>> {
    seq!["injection"@, "auth"@, "xss"@, "path_traversal"@, "crypto"@, "resource"@, "deserialization"@]
}

/// The classes of `cs` that `named` selects, in order: all when it names
/// none, else those it names.
pub open spec fn keep_named(cs: Seq<Seq<char>>, named: Seq<Seq<char>>) -> Seq<Seq<char>>
    decreases cs.len(),
{
    if cs.len() == 0 {
        Seq::empty()
    } else {
        let prev = keep_named(cs.drop_last(), named);
        if named.len() == 0 || named.contains(cs.last()) {
            prev.push(cs.last())
        } else {
            prev
        }
    }
}

/// The attack classes a configuration selects, in order: all when it
/// names none, else those it names.
pub open spec fn selected_classes(named: Seq<Seq<char>>) -> Seq<Seq<char>> {
    keep_named(attack_classes(), named)
}

/// Key under which hunt findings are merged: line (0 when none) and
/// weakness id (empty when none).
pub open spec fn hunt_key(f: VulnerabilityFinding) -> (int, Seq<char>) {
    (line_of(f), str_or_empty(opt_view(f.cwe_id)))
}

/// Index of the first tally entry at or after `from` with key `k`, or -1.
pub open spec fn find_key(gs: Seq<(VulnerabilityFinding, nat)>, k: (int, Seq<char>), from: int) -> int
    decreases gs.len() - from,
{
    if from < 0 || from >= gs.len() {
        -1
    } else if hunt_key(gs[from].0) == k {
        from
    } else {
        find_key(gs, k, from + 1)
    }
}

/// Findings counted by key: the first finding of each key with the number
/// of findings of that key, keys in order of first appearance.
pub open spec fn tally(s: Seq<VulnerabilityFinding>) -> Seq<(VulnerabilityFinding, nat)>
    decreases s.len(),
{
    if s.len() == 0 {
        Seq::empty()
    } else {
        let prev = tally(s.drop_last());
        let f = s.last();
        let j = find_key(prev, hunt_key(f), 0);
        if 0 <= j < prev.len() {
            prev.update(j, (prev[j].0, prev[j].1 + 1))
        } else {
            prev.push((f, 1))
        }
    }
}

/// Confidence of a finding reported by `count` attack classes: 15 points
/// more for each class past the first, capped at full confidence.
pub open spec fn class_boosted(c: u32, count: nat) -> u32 {
    if count > 1 {
        let raised = c + 1500 * (count - 1);
        if raised < FULL_CONFIDENCE { raised as u32 } else { FULL_CONFIDENCE }
    } else {
        c
    }
}

/// The lists one after another.
pub open spec fn concat_all(s: Seq<Seq<VulnerabilityFinding>>) -> Seq<VulnerabilityFinding>
    decreases s.len(),
{
    if s.len() == 0 {
        Seq::empty()
    } else {
        concat_all(s.drop_last()) + s.last()
    }
}

/// The contents of a list of finding lists.
pub open spec fn lists_view(v: Seq<Vec<VulnerabilityFinding>>) -> Seq<Seq<VulnerabilityFinding>> {
    v.map_values(|l: Vec<VulnerabilityFinding>| l@)
}

/// `out` is the merge of the hunt findings `all`: one finding per key, the
/// first found, its confidence raised for every further class that found
/// it.
pub open spec fn hunt_merged(out: Seq<VulnerabilityFinding>, all: Seq<VulnerabilityFinding>) -> bool {
    let t = tally(all);
    &&& out.len() == t.len()
    &&& forall|k: int| 0 <= k < out.len() ==> same_but_confidence(#[trigger] out[k], t[k].0)
        && out[k].confidence_bp == class_boosted(t[k].0.confidence_bp, t[k].1)
}

/// `find_key` gives -1 or the first index at or after `from` with the key.
pub proof fn lemma_find_key(gs: Seq<(VulnerabilityFinding, nat)>, k: (int, Seq<char>), from: int)
    requires
        0 <= from,
    ensures
        find_key(gs, k, from) == -1 || (from <= find_key(gs, k, from) < gs.len()
            && hunt_key(gs[find_key(gs, k, from)].0) == k),
    decreases gs.len() - from,
{
    if from < gs.len() && hunt_key(gs[from].0) != k {
        lemma_find_key(gs, k, from + 1);
    }
}

/// Whether two findings share a hunt key.
fn same_hunt_key(a: &VulnerabilityFinding, b: &VulnerabilityFinding) -> (r: bool)
    ensures
        r == (hunt_key(*a) == hunt_key(*b)),
{
    if a.line_or_zero() != b.line_or_zero() {
        return false;
    }
    proof {
        reveal_strlit("");
    }
    let x: &str = match &a.cwe_id {
        Some(c) => c.as_str(),
        None => "",
    };
    let y: &str = match &b.cwe_id {
        Some(c) => c.as_str(),
        None => "",
    };
    assert(x@ == hunt_key(*a).1);
    assert(y@ == hunt_key(*b).1);
    str_eq(x, y)
}

/// All findings of all lists, one list after another.
pub fn concat_findings(lists: Vec<Vec<VulnerabilityFinding>>) -> (out: Vec<VulnerabilityFinding>)
    ensures
        out@ == concat_all(lists_view(lists@)),
{
    let ghost orig = lists_view(lists@);
    let mut lists = lists;
    let mut out: Vec<VulnerabilityFinding> = Vec::new();
    let mut i: usize = 0;
    while i < lists.len()
        invariant
            i <= lists@.len(),
            orig.len() == lists@.len(),
            forall|k: int| i <= k < lists@.len() ==> (#[trigger] lists@[k])@ == orig[k],
            out@ == concat_all(orig.take(i as int)),
        decreases lists@.len() - i,
    {
        let ghost before = lists@;
        let mut taken: Vec<VulnerabilityFinding> = Vec::new();
        std::mem::swap(&mut taken, &mut lists[i]);
        proof {
            assert(taken@ == orig[i as int]);
            assert(orig.take(i + 1).drop_last() =~= orig.take(i as int));
            assert(forall|k: int| i < k < lists@.len() ==> lists@[k] == before[k]);
        }
        out.append(&mut taken);
        i = i + 1;
    }
    assert(orig.take(lists@.len() as int) =~= orig);
    out
}

/// The hunt findings of all attack classes merged: findings at the same
/// line with the same weakness id become one, the first found, whose
/// confidence rises by 15 points for every further class that reported it.
pub fn merge_hunt_findings(per_class: Vec<Vec<VulnerabilityFinding>>) -> (out: Vec<VulnerabilityFinding>)
    ensures
        hunt_merged(out@, concat_all(lists_view(per_class@))),
{
    let mut all = concat_findings(per_class);
    let ghost orig = all@;
    let mut firsts: Vec<VulnerabilityFinding> = Vec::new();
    let mut counts: Vec<usize> = Vec::new();
    let mut i: usize = 0;
    let n = all.len();
    while i < n
        invariant
            i <= n,
            n == orig.len(),
            all@ == orig.subrange(i as int, n as int),
            firsts@.len() == counts@.len(),
            firsts@.len() == tally(orig.take(i as int)).len(),
            forall|k: int| 0 <= k < firsts@.len() ==> (#[trigger] firsts@[k]) == tally(orig.take(i as int))[k].0
                && counts@[k] as nat == tally(orig.take(i as int))[k].1,
            forall|k: int| 0 <= k < counts@.len() ==> #[trigger] counts@[k] <= i,
        decreases n - i,
    {
        let f = all.remove(0);
        let ghost prev = tally(orig.take(i as int));
        proof {
            assert(f == orig[i as int]);
            assert(orig.take(i + 1).drop_last() =~= orig.take(i as int));
            assert(orig.take(i + 1).last() == f);
            assert(all@ =~= orig.subrange(i + 1, n as int));
            lemma_find_key(prev, hunt_key(f), 0);
        }
        let mut j: usize = 0;
        let mut found = false;
        while j < firsts.len()
            invariant_except_break
                !found,
            invariant
                j <= firsts@.len(),
                firsts@.len() == prev.len(),
                forall|k: int| 0 <= k < firsts@.len() ==> (#[trigger] firsts@[k]) == prev[k].0,
                find_key(prev, hunt_key(f), 0) == find_key(prev, hunt_key(f), j as int),
            ensures
                found ==> j < firsts@.len() && find_key(prev, hunt_key(f), 0) == j,
                !found ==> find_key(prev, hunt_key(f), 0) == -1,
            decreases firsts@.len() - j,
        {
            if same_hunt_key(&firsts[j], &f) {
                found = true;
                break;
            }
            j = j + 1;
        }
        if found {
            let c = counts[j];
            counts.set(j, c + 1);
            proof {
                assert(tally(orig.take(i + 1)) == prev.update(j as int, (prev[j as int].0, prev[j as int].1 + 1)));
            }
        } else {
            firsts.push(f);
            counts.push(1);
            proof {
                assert(find_key(prev, hunt_key(f), 0) == -1);
                assert(tally(orig.take(i + 1)) == prev.push((f, 1)));
            }
        }
        i = i + 1;
    }
    assert(orig.take(n as int) =~= orig);
    let ghost t = tally(orig);
    let mut out: Vec<VulnerabilityFinding> = Vec::new();
    let mut k: usize = 0;
    let m = firsts.len();
    while k < m
        invariant
            k <= m,
            m == t.len(),
            firsts@.len() == m,
            counts@.len() == m,
            forall|q: int| 0 <= q < m ==> (#[trigger] firsts@[q]) == t[q].0 && counts@[q] as nat == t[q].1,
            out@.len() == k,
            forall|q: int| 0 <= q < k ==> same_but_confidence(#[trigger] out@[q], t[q].0)
                && out@[q].confidence_bp == class_boosted(t[q].0.confidence_bp, t[q].1),
        decreases m - k,
    {
        let mut f = firsts[k].duplicate();
        let count = counts[k];
        if count > 1 {
            let extra = count - 1;
            if extra >= 10 {
                f.confidence_bp = FULL_CONFIDENCE;
            } else {
                let raised: u64 = f.confidence_bp as u64 + 1500 * (extra as u64);
                f.confidence_bp = if raised < FULL_CONFIDENCE as u64 { raised as u32 } else { FULL_CONFIDENCE };
            }
        }
        out.push(f);
        k = k + 1;
    }
    out
}

/// The prior findings hold one with the same line and weakness id.
pub open spec fn matches_prior(f: VulnerabilityFinding, prior: Seq<VulnerabilityFinding>) -> bool {
    exists|i: int| 0 <= i < prior.len() && #[trigger] hunt_key(prior[i]) == hunt_key(f)
}

/// Note appended to an independently confirmed finding.
pub open spec fn confirmed_note() -> Seq<char> {
    "Independent verification confirmed; "@
}

/// `new` is `old` confirmed by an independent run: confidence up 20
/// points, capped at full, and the confirmation appended to its notes.
pub open spec fn confirmed(new: VulnerabilityFinding, old: VulnerabilityFinding) -> bool {
    &&& same_except_verdict(new, old)
    &&& new.verification_status == old.verification_status
    &&& new.triage_verdict == old.triage_verdict
    &&& new.confidence_bp == (if old.confidence_bp + 2000 < FULL_CONFIDENCE {
        (old.confidence_bp + 2000) as u32
    } else {
        FULL_CONFIDENCE
    })
    &&& opt_view(new.verification_notes) == Some(str_or_empty(opt_view(old.verification_notes)) + confirmed_note())
}

/// Whether some prior finding has the hunt key of `f`.
fn has_prior(f: &VulnerabilityFinding, prior: &[VulnerabilityFinding]) -> (r: bool)
    ensures
        r == matches_prior(*f, prior@),
{
    let mut i: usize = 0;
    while i < prior.len()
        invariant
            i <= prior@.len(),
            forall|k: int| 0 <= k < i ==> hunt_key(#[trigger] prior@[k]) != hunt_key(*f),
        decreases prior@.len() - i,
    {
        if same_hunt_key(&prior[i], f) {
            return true;
        }
        i = i + 1;
    }
    false
}

/// Raises the confidence of each independent finding that a prior phase
/// also reported (same line and weakness id) and notes the confirmation;
/// the others stay as they are.
pub fn boost_independent_confidence(independent_findings: &mut [VulnerabilityFinding], prior_findings: &[VulnerabilityFinding])
    ensures
        final(independent_findings)@.len() == old(independent_findings)@.len(),
        forall|i: int| 0 <= i < old(independent_findings)@.len() ==> if matches_prior(old(independent_findings)@[i], prior_findings@) {
            confirmed(#[trigger] final(independent_findings)@[i], old(independent_findings)@[i])
        } else {
            final(independent_findings)@[i] == old(independent_findings)@[i]
        },
{
    let ghost orig = independent_findings@;
    let mut i: usize = 0;
    while i < independent_findings.len()
        invariant
            i <= independent_findings@.len(),
            independent_findings@.len() == orig.len(),
            forall|k: int| i <= k < orig.len() ==> #[trigger] independent_findings@[k] == orig[k],
            forall|k: int| 0 <= k < i ==> if matches_prior(orig[k], prior_findings@) {
                confirmed(#[trigger] independent_findings@[k], orig[k])
            } else {
                independent_findings@[k] == orig[k]
            },
        decreases orig.len() - i,
    {
        if has_prior(&independent_findings[i], prior_findings) {
            let mut f = independent_findings[i].duplicate();
            let c = f.confidence_bp as u64 + 2000;
            f.confidence_bp = if c < FULL_CONFIDENCE as u64 { c as u32 } else { FULL_CONFIDENCE };
            let mut notes = match &independent_findings[i].verification_notes {
                Some(n) => n.clone(),
                None => String::new(),
            };
            notes.append("Independent verification confirmed; ");
            f.verification_notes = Some(notes);
            independent_findings.set(i, f);
        }
        i = i + 1;
    }
}

/// The prompt of the independent verification.
pub open spec fn spec_independent_prompt(source: Seq<char>) -> Seq<char> {
    "Analyze this code for security vulnerabilities. Report each with location, CWE, severity, and description.\n\nReturn JSON array with format:\n[\n  {\n    \"severity\": \"critical|high|medium|low\",\n    \"title\": \"short vulnerability title\",\n    \"description\": \"detailed explanation\",\n    \"line\": line_number,\n    \"cwe_id\": \"CWE-XXX\"\n  }\n]\n\nCode:\n```\n"@
        + source + "\n```"@
}

/// The hunt phase: one model call per selected attack class, findings
/// merged across classes.
pub struct HuntPhase {
    pub config: OrchestrationConfig,
}

/// The independent verification phase: one fresh model call per file.
pub struct IndependentVerifyPhase {
    pub config: OrchestrationConfig,
}

/// The validate phase: findings sent in batches through the triage.
pub struct ValidatePhase {
    pub config: OrchestrationConfig,
}

impl HuntPhase {
    /// A hunt phase with the given settings.
    pub fn new(config: OrchestrationConfig) -> (p: Self)
        ensures
            p.config == config,
    {
        HuntPhase { config }
    }

    /// The attack classes to run, in order: none when the phase is off;
    /// else all, or those the settings name.
    pub fn classes_to_run(&self) -> (v: Vec<&'static str>)
        ensures
            v@.map_values(|c: &str| c@) == (if self.config.enabled {
                selected_classes(strings_view(self.config.hunt_classes@))
            } else {
                Seq::empty()
            }),
    {
        let mut v: Vec<&'static str> = Vec::new();
        if !self.config.enabled {
            assert(v@.map_values(|c: &str| c@) =~= Seq::<Seq<char>>::empty());
            return v;
        }
        let named = &self.config.hunt_classes;
        let ghost names = strings_view(named@);
        let all: [&'static str; 7] = ["injection", "auth", "xss", "path_traversal", "crypto", "resource", "deserialization"];
        let ghost all_view = attack_classes();
        assert(all@.map_values(|c: &str| c@) =~= all_view);
        let mut i: usize = 0;
        while i < 7
            invariant
                i <= 7,
                names == strings_view(named@),
                all@.map_values(|c: &str| c@) == all_view,
                v@.map_values(|c: &str| c@) == keep_named(all_view.take(i as int), names),
            decreases 7 - i,
        {
            let c = all[i];
            let mut wanted = named.len() == 0;
            if !wanted {
                let mut k: usize = 0;
                while k < named.len()
                    invariant
                        k <= named@.len(),
                        names == strings_view(named@),
                        !wanted ==> forall|q: int| 0 <= q < k ==> names[q] != c@,
                        wanted ==> names.contains(c@),
                    decreases named@.len() - k,
                {
                    if str_eq(named[k].as_str(), c) {
                        assert(names[k as int] == c@);
                        wanted = true;
                    }
                    k = k + 1;
                }
                proof {
                    if !wanted {
                        assert(!names.contains(c@));
                    }
                }
            }
            proof {
                assert(all_view.take(i + 1).drop_last() =~= all_view.take(i as int));
                assert(all_view.take(i + 1).last() == c@);
            }
            let ghost before = v@;
            if wanted {
                v.push(c);
                assert(v@.map_values(|c: &str| c@) =~= before.map_values(|c: &str| c@).push(c@));
            }
            i = i + 1;
        }
        assert(all_view.take(7) =~= all_view);
        v
    }

    /// The findings one attack class's reply reports for `file_path`: none
    /// when the call failed.
    pub fn findings_from_reply(reply: &Result<String, String>, file_path: &str) -> (fs: Vec<VulnerabilityFinding>)
        ensures
            match reply {
                Ok(r) => reply_findings(fs@, r@, file_path@, "hunt"@),
                Err(_) => fs@.len() == 0,
            },
    {
        match reply {
            Ok(r) => parse_findings(r.as_str(), file_path, "hunt"),
            Err(_) => Vec::new(),
        }
    }
}

impl IndependentVerifyPhase {
    /// An independent verification phase with the given settings.
    pub fn new(config: OrchestrationConfig) -> (p: Self)
        ensures
            p.config == config,
    {
        IndependentVerifyPhase { config }
    }

    /// Whether the phase runs at all.
    pub fn is_enabled(&self) -> (r: bool)
        ensures
            r == self.config.enabled,
    {
        self.config.enabled
    }

    /// The prompt asking for an independent analysis of `source`.
    pub fn independent_verify_prompt(source: &str) -> (p: String)
        ensures
            p@ == spec_independent_prompt(source@),
    {
        let mut p = String::from_str("Analyze this code for security vulnerabilities. Report each with location, CWE, severity, and description.\n\nReturn JSON array with format:\n[\n  {\n    \"severity\": \"critical|high|medium|low\",\n    \"title\": \"short vulnerability title\",\n    \"description\": \"detailed explanation\",\n    \"line\": line_number,\n    \"cwe_id\": \"CWE-XXX\"\n  }\n]\n\nCode:\n```\n");
        p.append(source);
        p.append("\n```");
        p
    }

    /// The findings the reply reports for `file_path`: none when the call
    /// failed.
    pub fn findings_from_reply(reply: &Result<String, String>, file_path: &str) -> (fs: Vec<VulnerabilityFinding>)
        ensures
            match reply {
                Ok(r) => reply_findings(fs@, r@, file_path@, "independent_verify"@),
                Err(_) => fs@.len() == 0,
            },
    {
        match reply {
            Ok(r) => parse_findings(r.as_str(), file_path, "independent_verify"),
            Err(_) => Vec::new(),
        }
    }
}

/// The lines describing finding `f`, numbered `n`, in a validation batch.
pub open spec fn batch_entry(f: VulnerabilityFinding, n: nat) -> Seq<char> {
    "\n--- Finding "@ + dec(n) + " ---\n"@
        + "Title: "@ + f.title@ + "\n"@
        + "Location: "@ + f.file_path@ + ":"@ + dec(line_of(f) as nat) + "\n"@
        + "Description: "@ + f.description@ + "\n"@
        + (match f.cwe_id { Some(c) => "CWE: "@ + c@ + "\n"@, None => Seq::empty() })
        + (match f.code_snippet { Some(c) => "Code snippet: "@ + c@ + "\n"@, None => Seq::empty() })
}

/// The entries of the first `n` findings of a batch, numbered from 1.
pub open spec fn batch_entries(fs: Seq<VulnerabilityFinding>, n: int) -> Seq<char>
    decreases n,
{
    if n <= 0 {
        Seq::empty()
    } else {
        batch_entries(fs, n - 1) + batch_entry(fs[n - 1], n as nat)
    }
}

/// The prompt of a validation batch: the phase's prompt, the source code,
/// then each finding.
pub open spec fn batch_prompt(template: Seq<char>, fs: Seq<VulnerabilityFinding>, source: Seq<char>) -> Seq<char> {
    template + "\n\nCode:\n```\n"@ + source + "\n```\n\nFindings to analyze:\n"@ + batch_entries(fs, fs.len() as int)
}

/// The lines describing finding `f`, numbered `n`.
fn batch_entry_text(f: &VulnerabilityFinding, n: usize) -> (s: String)
    ensures
        s@ == batch_entry(*f, n as nat),
{
    let mut s = String::from_str("\n--- Finding ");
    let num = decimal(n as u64);
    s.append(num.as_str());
    s.append(" ---\n");
    s.append("Title: ");
    s.append(f.title.as_str());
    s.append("\n");
    s.append("Location: ");
    s.append(f.file_path.as_str());
    s.append(":");
    let l = decimal(f.line_or_zero() as u64);
    s.append(l.as_str());
    s.append("\n");
    s.append("Description: ");
    s.append(f.description.as_str());
    s.append("\n");
    let ghost base = s@;
    if let Some(c) = &f.cwe_id {
        s.append("CWE: ");
        s.append(c.as_str());
        s.append("\n");
    }
    let ghost with_cwe = s@;
    if let Some(c) = &f.code_snippet {
        s.append("Code snippet: ");
        s.append(c.as_str());
        s.append("\n");
    }
    proof {
        assert(s@ =~= batch_entry(*f, n as nat));
    }
    s
}

impl ValidatePhase {
    /// A validate phase with the given settings.
    pub fn new(config: OrchestrationConfig) -> (p: Self)
        ensures
            p.config == config,
    {
        ValidatePhase { config }
    }

    /// The prompt for a batch of findings in `source`, after the phase's
    /// prompt `template`.
    pub fn build_batch_prompt(template: &str, findings: &[VulnerabilityFinding], source: &str) -> (p: String)
        ensures
            p@ == batch_prompt(template@, findings@, source@),
    {
        let mut prompt = String::from_str(template);
        prompt.append("\n\nCode:\n```\n");
        prompt.append(source);
        prompt.append("\n```\n\nFindings to analyze:\n");
        let ghost head = prompt@;
        let mut i: usize = 0;
        while i < findings.len()
            invariant
                i <= findings@.len(),
                prompt@ == head + batch_entries(findings@, i as int),
            decreases findings@.len() - i,
        {
            let entry = batch_entry_text(&findings[i], i + 1);
            prompt.append(entry.as_str());
            proof {
                assert(prompt@ =~= head + batch_entries(findings@, i + 1));
            }
            i = i + 1;
        }
        prompt
    }

    /// Whether findings pass through untouched: the phase is off, or there
    /// is nothing to validate.
    pub fn passes_through(&self, findings: &[VulnerabilityFinding]) -> (r: bool)
        ensures
            r == (!self.config.enabled || findings@.len() == 0),
    {
        !self.config.enabled || findings.len() == 0
    }

    /// Number of findings per gate call: the configured size, at least 1.
    pub fn batch_size(&self) -> (n: usize)
        ensures
            n == (if self.config.validate_batch_size > 1 { self.config.validate_batch_size } else { 1 }),
    {
        if self.config.validate_batch_size > 1 { self.config.validate_batch_size } else { 1 }
    }

    /// Appends the findings of a batch after the triage: with a reply, each
    /// through its gate result; when the call failed, as they were.
    pub fn absorb_reply(&self, batch: &[VulnerabilityFinding], reply: &Result<String, String>, results: &mut Vec<VulnerabilityFinding>)
        ensures
            final(results)@.len() == old(results)@.len() + batch@.len(),
            forall|j: int| 0 <= j < old(results)@.len() ==> final(results)@[j] == old(results)@[j],
            match reply {
                Ok(r) => exists|gs: Seq<(usize, GateResult)>| reply_gates(gs, r@)
                    && forall|i: int| 0 <= i < batch@.len() ==> gated(#[trigger] final(results)@[old(results)@.len() + i],
                        batch@[i], gate_for(gs, i)),
                Err(_) => forall|i: int| 0 <= i < batch@.len() ==> same_finding(#[trigger] final(results)@[old(results)@.len() + i], batch@[i]),
            },
    {
        match reply {
            Ok(r) => {
                let gs = parse_7question_gate(r.as_str());
                let ghost g = gs@;
                apply_gate_results(batch, results, gs);
                assert(reply_gates(g, r@));
            },
            Err(_) => {
                let ghost base = results@;
                let mut i: usize = 0;
                while i < batch.len()
                    invariant
                        i <= batch@.len(),
                        results@.len() == base.len() + i,
                        forall|j: int| 0 <= j < base.len() ==> results@[j] == base[j],
                        forall|k: int| 0 <= k < i ==> same_finding(#[trigger] results@[base.len() + k], batch@[k]),
                    decreases batch@.len() - i,
                {
                    results.push(batch[i].duplicate());
                    i = i + 1;
                }
            },
        }
    }
}

/// One tally step keeps each entry's finding and adds at most an entry,
/// for the new key; the keys stay distinct.
pub proof fn lemma_tally_step(s: Seq<VulnerabilityFinding>)
    requires
        s.len() > 0,
    ensures
        tally(s.drop_last()).len() <= tally(s).len() <= tally(s.drop_last()).len() + 1,
        forall|i: int| 0 <= i < tally(s.drop_last()).len() ==> (#[trigger] tally(s)[i]).0 == tally(s.drop_last())[i].0,
        forall|i: int| tally(s.drop_last()).len() <= i < tally(s).len() ==> (#[trigger] tally(s)[i]).0 == s.last(),
        (forall|i: int, k: int| 0 <= i < k < tally(s.drop_last()).len() ==>
            hunt_key(#[trigger] tally(s.drop_last())[i].0) != hunt_key(#[trigger] tally(s.drop_last())[k].0)) ==>
            (forall|i: int, k: int| 0 <= i < k < tally(s).len() ==>
                hunt_key(#[trigger] tally(s)[i].0) != hunt_key(#[trigger] tally(s)[k].0)),
{
    lemma_find_key(tally(s.drop_last()), hunt_key(s.last()), 0);
    let prev = tally(s.drop_last());
    let j = find_key(prev, hunt_key(s.last()), 0);
    if j < 0 {
        assert forall|i: int| 0 <= i < prev.len() implies hunt_key(prev[i].0) != hunt_key(s.last()) by {
            lemma_find_key_absent(prev, hunt_key(s.last()), 0, i);
        }
    }
}

/// When `find_key` finds nothing, no entry from `from` on has the key.
pub proof fn lemma_find_key_absent(gs: Seq<(VulnerabilityFinding, nat)>, k: (int, Seq<char>), from: int, i: int)
    requires
        0 <= from <= i < gs.len(),
        find_key(gs, k, from) == -1,
    ensures
        hunt_key(gs[i].0) != k,
    decreases i - from,
{
    if from < i {
        lemma_find_key_absent(gs, k, from + 1, i);
    }
}

/// The tally's keys are distinct, and each of its findings is one of `s`.
pub proof fn lemma_tally(s: Seq<VulnerabilityFinding>)
    ensures
        forall|i: int, k: int| 0 <= i < k < tally(s).len() ==>
            hunt_key(#[trigger] tally(s)[i].0) != hunt_key(#[trigger] tally(s)[k].0),
        forall|i: int| #![trigger tally(s)[i]] 0 <= i < tally(s).len() ==>
            exists|j: int| 0 <= j < s.len() && #[trigger] s[j] == tally(s)[i].0,
        tally(s).len() <= s.len(),
    decreases s.len(),
{
    if s.len() > 0 {
        let t = s.drop_last();
        lemma_tally(t);
        lemma_tally_step(s);
        let cur = tally(s);
        let prev = tally(t);
        assert forall|i: int| #![trigger cur[i]] 0 <= i < cur.len() implies
            exists|j: int| 0 <= j < s.len() && #[trigger] s[j] == cur[i].0 by {
            if i < prev.len() {
                let j = choose|j: int| 0 <= j < t.len() && #[trigger] t[j] == prev[i].0;
                assert(s[j] == t[j]);
            } else {
                assert(s[s.len() - 1] == cur[i].0);
            }
        }
    }
}

/// Merged hunt findings have distinct keys (line and weakness id), are no
/// more than the findings merged, and keep confidences within full
/// confidence when the merged findings had them there.
pub proof fn law_hunt_merge(out: Seq<VulnerabilityFinding>, all: Seq<VulnerabilityFinding>)
    requires
        hunt_merged(out, all),
    ensures
        forall|i: int, k: int| 0 <= i < k < out.len() ==> hunt_key(#[trigger] out[i]) != hunt_key(#[trigger] out[k]),
        out.len() <= all.len(),
        (forall|j: int| 0 <= j < all.len() ==> (#[trigger] all[j]).confidence_bp <= FULL_CONFIDENCE) ==>
            (forall|i: int| 0 <= i < out.len() ==> (#[trigger] out[i]).confidence_bp <= FULL_CONFIDENCE),
{
    lemma_tally(all);
    let t = tally(all);
    assert forall|i: int, k: int| 0 <= i < k < out.len() implies hunt_key(#[trigger] out[i]) != hunt_key(#[trigger] out[k]) by {
        assert(hunt_key(out[i]) == hunt_key(t[i].0));
        assert(hunt_key(out[k]) == hunt_key(t[k].0));
    }
    if forall|j: int| 0 <= j < all.len() ==> (#[trigger] all[j]).confidence_bp <= FULL_CONFIDENCE {
        assert forall|i: int| 0 <= i < out.len() implies (#[trigger] out[i]).confidence_bp <= FULL_CONFIDENCE by {
            let j = choose|j: int| 0 <= j < all.len() && #[trigger] all[j] == t[i].0;
        }
    }
}

/// Every finding's key is the key of some tally entry.
proof fn lemma_tally_covers(s: Seq<VulnerabilityFinding>)
    ensures
        forall|j: int| 0 <= j < s.len() ==> exists|i: int| 0 <= i < tally(s).len()
            && #[trigger] hunt_key(tally(s)[i].0) == hunt_key(#[trigger] s[j]),
    decreases s.len(),
{
    if s.len() > 0 {
        let t = s.drop_last();
        lemma_tally_covers(t);
        lemma_tally_step(s);
        let prev = tally(t);
        let cur = tally(s);
        lemma_find_key(prev, hunt_key(s.last()), 0);
        let jj = find_key(prev, hunt_key(s.last()), 0);
        assert forall|j: int| 0 <= j < s.len() implies exists|i: int| 0 <= i < cur.len()
            && #[trigger] hunt_key(cur[i].0) == hunt_key(#[trigger] s[j]) by {
            if j < s.len() - 1 {
                assert(s[j] == t[j]);
                let i = choose|i: int| 0 <= i < prev.len() && #[trigger] hunt_key(prev[i].0) == hunt_key(t[j]);
                assert(cur[i].0 == prev[i].0);
            } else if 0 <= jj < prev.len() {
                assert(cur[jj].0 == prev[jj].0);
            } else {
                assert(cur[prev.len() as int].0 == s.last());
            }
        }
    }
}

/// Merging hunt findings keeps one finding for each pair of line (0 when
/// none) and weakness id (empty when none) found by any class, and no
/// two for one pair: findings with different weakness ids, or at
/// different lines, are never merged. Each kept finding is one that was
/// found.
pub proof fn law_hunt_merge_one_per_pair(out: Seq<VulnerabilityFinding>, all: Seq<VulnerabilityFinding>)
    requires
        hunt_merged(out, all),
    ensures
        forall|j: int| 0 <= j < all.len() ==> exists|i: int| 0 <= i < out.len()
            && line_of(#[trigger] out[i]) == line_of(#[trigger] all[j])
            && str_or_empty(opt_view(out[i].cwe_id)) == str_or_empty(opt_view(all[j].cwe_id)),
        forall|i: int, k: int| 0 <= i < k < out.len() ==>
            line_of(#[trigger] out[i]) != line_of(#[trigger] out[k])
            || str_or_empty(opt_view(out[i].cwe_id)) != str_or_empty(opt_view(out[k].cwe_id)),
        forall|i: int| 0 <= i < out.len() ==> exists|j: int| 0 <= j < all.len()
            && (#[trigger] out[i]).line_number == (#[trigger] all[j]).line_number
            && out[i].cwe_id == all[j].cwe_id && out[i].title == all[j].title,
{
    lemma_merge_covers(out, all);
    lemma_merge_distinct(out, all);
    lemma_merge_found(out, all);
}

proof fn lemma_merge_covers(out: Seq<VulnerabilityFinding>, all: Seq<VulnerabilityFinding>)
    requires
        hunt_merged(out, all),
    ensures
        forall|j: int| 0 <= j < all.len() ==> exists|i: int| 0 <= i < out.len()
            && line_of(#[trigger] out[i]) == line_of(#[trigger] all[j])
            && str_or_empty(opt_view(out[i].cwe_id)) == str_or_empty(opt_view(all[j].cwe_id)),
{
    lemma_tally_covers(all);
    let t = tally(all);
    assert forall|j: int| 0 <= j < all.len() implies exists|i: int| 0 <= i < out.len()
        && line_of(#[trigger] out[i]) == line_of(#[trigger] all[j])
        && str_or_empty(opt_view(out[i].cwe_id)) == str_or_empty(opt_view(all[j].cwe_id)) by {
        let i = choose|i: int| 0 <= i < t.len() && #[trigger] hunt_key(t[i].0) == hunt_key(all[j]);
        assert(same_but_confidence(out[i], t[i].0));
        assert(hunt_key(out[i]) == hunt_key(all[j]));
    }
}

proof fn lemma_merge_distinct(out: Seq<VulnerabilityFinding>, all: Seq<VulnerabilityFinding>)
    requires
        hunt_merged(out, all),
    ensures
        forall|i: int, k: int| 0 <= i < k < out.len() ==>
            line_of(#[trigger] out[i]) != line_of(#[trigger] out[k])
            || str_or_empty(opt_view(out[i].cwe_id)) != str_or_empty(opt_view(out[k].cwe_id)),
{
    lemma_tally(all);
    let t = tally(all);
    assert forall|i: int, k: int| 0 <= i < k < out.len() implies
        line_of(#[trigger] out[i]) != line_of(#[trigger] out[k])
        || str_or_empty(opt_view(out[i].cwe_id)) != str_or_empty(opt_view(out[k].cwe_id)) by {
        assert(same_but_confidence(out[i], t[i].0));
        assert(same_but_confidence(out[k], t[k].0));
        assert(hunt_key(t[i].0) != hunt_key(t[k].0));
        assert(hunt_key(out[i]) != hunt_key(out[k]));
    }
}

proof fn lemma_merge_found(out: Seq<VulnerabilityFinding>, all: Seq<VulnerabilityFinding>)
    requires
        hunt_merged(out, all),
    ensures
        forall|i: int| 0 <= i < out.len() ==> exists|j: int| 0 <= j < all.len()
            && (#[trigger] out[i]).line_number == (#[trigger] all[j]).line_number
            && out[i].cwe_id == all[j].cwe_id && out[i].title == all[j].title,
{
    lemma_tally(all);
    let t = tally(all);
    assert forall|i: int| 0 <= i < out.len() implies exists|j: int| 0 <= j < all.len()
        && (#[trigger] out[i]).line_number == (#[trigger] all[j]).line_number
        && out[i].cwe_id == all[j].cwe_id && out[i].title == all[j].title by {
        assert(same_but_confidence(out[i], t[i].0));
        let j = choose|j: int| 0 <= j < all.len() && #[trigger] all[j] == t[i].0;
        assert(all[j] == t[i].0);
    }
}

/// An independent confirmation raises the confidence and keeps it within
/// full confidence.
pub proof fn law_confirmation_raises_confidence(new: VulnerabilityFinding, old: VulnerabilityFinding)
    requires
        confirmed(new, old),
        old.confidence_bp <= FULL_CONFIDENCE,
    ensures
        old.confidence_bp <= new.confidence_bp <= FULL_CONFIDENCE,
{
}

} // verus!
