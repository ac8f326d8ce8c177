//! LLM discovery: the vendor and product a dependency is looked up under,
//! the prompt that asks a model to enrich a finding, and how its reply,
//! or an agent's refined finding, updates the finding.

use vstd::prelude::*;
use crate::finding::{copy_opt_string, line_of, opt_view, strings_view, VulnerabilityFinding};
use crate::json::{json_parse_error, json_str_at, JsonDoc};
use crate::text::{cat, chars_of, dec, decimal, join_strings, joined, string_from_chars, sub_chars};

verus! {

/// `k` is the first position of `c` in `s`.
pub open spec fn first_at(s: Seq<char>, c: char, k: int) -> bool {
    &&& 0 <= k < s.len()
    &&& s[k] == c
    &&& forall|j: int| 0 <= j < k ==> s[j] != c
}

/// The part of `s` before its first `c`; all of `s` when it has none.
pub open spec fn head_before(s: Seq<char>, c: char) -> Seq<char> {
    if exists|k: int| first_at(s, c, k) {
        s.take(choose|k: int| first_at(s, c, k))
    } else {
        s
    }
}

/// The part of `s` after its first `c`; nothing when it has none.
pub open spec fn rest_after(s: Seq<char>, c: char) -> Seq<char> {
    if exists|k: int| first_at(s, c, k) {
        s.skip((choose|k: int| first_at(s, c, k)) + 1)
    } else {
        Seq::empty()
    }
}

/// The first position of a character is unique.
proof fn lemma_first_at_unique(s: Seq<char>, c: char, k1: int, k2: int)
    requires
        first_at(s, c, k1),
        first_at(s, c, k2),
    ensures
        k1 == k2,
{
    if k1 < k2 {
        assert(s[k1] != c);
    } else if k2 < k1 {
        assert(s[k2] != c);
    }
}

/// The first position of `c` in `s`, if it occurs.
fn find_first(s: &Vec<char>, c: char) -> (r: Option<usize>)
    ensures
        match r {
            Some(k) => first_at(s@, c, k as int),
            None => !s@.contains(c),
        },
{
    let mut i: usize = 0;
    while i < s.len()
        invariant
            i <= s@.len(),
            forall|j: int| 0 <= j < i ==> s@[j] != c,
        decreases s@.len() - i,
    {
        if s[i] == c {
            return Some(i);
        }
        i = i + 1;
    }
    proof {
        assert forall|j: int| 0 <= j < s@.len() implies s@[j] != c by {}
    }
    None
}

/// Splits `s` at its first `c`: the parts before and after it, or `None`
/// when `c` does not occur.
fn split_first(s: &Vec<char>, c: char) -> (r: Option<(Vec<char>, Vec<char>)>)
    ensures
        match r {
            Some(p) => s@.contains(c) && p.0@ == head_before(s@, c) && p.1@ == rest_after(s@, c),
            None => !s@.contains(c) && head_before(s@, c) == s@,
        },
{
    match find_first(s, c) {
        Some(k) => {
            proof {
                let w = choose|j: int| first_at(s@, c, j);
                assert(first_at(s@, c, k as int));
                lemma_first_at_unique(s@, c, w, k as int);
                assert(s@[k as int] == c);
            }
            assert(k < s.len());
            Some((sub_chars(s, 0, k), sub_chars(s, k + 1, s.len())))
        },
        None => {
            proof {
                if exists|j: int| first_at(s@, c, j) {
                    let w = choose|j: int| first_at(s@, c, j);
                    assert(s@[w] == c);
                }
            }
            None
        },
    }
}

/// The vendor and product a dependency name is looked up under: the first
/// two `/`-separated parts; without a `/`, the part before the first `-`
/// and the whole name.
pub open spec fn vendor_product(name: Seq<char>) -> (Seq<char>, Seq<char>) {
    if name.contains('/') {
        (head_before(name, '/'), head_before(rest_after(name, '/'), '/'))
    } else {
        (head_before(name, '-'), name)
    }
}

/// The vendor and product the dependency `name` is looked up under.
pub fn dependency_vendor_product(name: &str) -> (r: (String, String))
    ensures
        (r.0@, r.1@) == vendor_product(name@),
{
    let cs = chars_of(name);
    match split_first(&cs, '/') {
        Some((vendor, rest)) => {
            let product = match split_first(&rest, '/') {
                Some((p, _)) => p,
                None => rest,
            };
            (string_from_chars(&vendor), string_from_chars(&product))
        },
        None => {
            let vendor = match split_first(&cs, '-') {
                Some((v, _)) => v,
                None => cs,
            };
            (string_from_chars(&vendor), name.to_string())
        },
    }
}

/// Heading of the note on findings of earlier runs.
pub open spec fn prior_header() -> Seq<char> {
    "KNOWN FINDINGS FROM PRIOR RUNS (do not re-report these; seek NEW distinct issues):\n"@
}

/// Number of earlier findings the note lists.
pub open spec fn prior_listed(keys: Seq<Seq<char>>, paths: Seq<Seq<char>>) -> nat {
    let n = if keys.len() < paths.len() { keys.len() } else { paths.len() };
    if n < 50 { n } else { 50 }
}

/// The line of the note for earlier finding `i`.
pub open spec fn prior_line(keys: Seq<Seq<char>>, paths: Seq<Seq<char>>, i: int) -> Seq<char> {
    "- "@ + keys[i] + " at "@ + paths[i]
}

/// The lines of the note: one per listed finding (keys paired with the
/// paths of the findings, at most 50), then how many keys were left out.
pub open spec fn prior_lines(keys: Seq<Seq<char>>, paths: Seq<Seq<char>>) -> Seq<Seq<char>> {
    let listed = Seq::new(prior_listed(keys, paths), |i: int| prior_line(keys, paths, i));
    if keys.len() > 50 {
        listed.push("+ "@ + dec((keys.len() - 50) as nat) + " more"@)
    } else {
        listed
    }
}

/// The note on findings of earlier runs: none when there are no keys.
pub open spec fn prior_note(keys: Seq<Seq<char>>, paths: Seq<Seq<char>>) -> Option<Seq<char>> {
    if keys.len() == 0 {
        None
    } else {
        Some(prior_header() + joined(prior_lines(keys, paths), "\n"@))
    }
}

/// The note that tells the model not to report again the findings of
/// earlier runs, from their skip keys and the paths of the findings.
pub fn prior_runs_note(skip_keys: &[String], prior_paths: &[String]) -> (r: Option<String>)
    ensures
        opt_view(r) == prior_note(strings_view(skip_keys@), strings_view(prior_paths@)),
{
    if skip_keys.len() == 0 {
        return None;
    }
    let ghost keys = strings_view(skip_keys@);
    let ghost paths = strings_view(prior_paths@);
    let n = if skip_keys.len() < prior_paths.len() { skip_keys.len() } else { prior_paths.len() };
    let n = if n < 50 { n } else { 50 };
    let mut lines: Vec<String> = Vec::new();
    let mut i: usize = 0;
    while i < n
        invariant
            i <= n,
            n == prior_listed(keys, paths),
            n <= skip_keys@.len(),
            n <= prior_paths@.len(),
            keys == strings_view(skip_keys@),
            paths == strings_view(prior_paths@),
            lines@.len() == i,
            forall|k: int| 0 <= k < i ==> #[trigger] lines@[k]@ == prior_line(keys, paths, k),
        decreases n - i,
    {
        let mut l = String::from_str("- ");
        l.append(skip_keys[i].as_str());
        l.append(" at ");
        l.append(prior_paths[i].as_str());
        lines.push(l);
        i = i + 1;
    }
    if skip_keys.len() > 50 {
        let more = decimal((skip_keys.len() - 50) as u64);
        let mut l = String::from_str("+ ");
        l.append(more.as_str());
        l.append(" more");
        lines.push(l);
    }
    assert(lines@.map_values(|x: String| x@) =~= prior_lines(keys, paths));
    let body = join_strings(lines.as_slice(), "\n");
    Some(cat("KNOWN FINDINGS FROM PRIOR RUNS (do not re-report these; seek NEW distinct issues):\n", body.as_str()))
}

/// The hunt module blocks for the domains that have a prompt, in order.
pub open spec fn hunt_blocks(m: Seq<(String, Option<String>)>) -> Seq<char>
    decreases m.len(),
{
    if m.len() == 0 {
        Seq::empty()
    } else {
        hunt_blocks(m.drop_last()) + match m.last().1 {
            Some(p) => "\n\n=== HUNT MODULE: "@ + m.last().0@ + " ===\n"@ + p@,
            None => Seq::empty(),
        }
    }
}

/// Some domain has a prompt.
pub open spec fn has_hunt_prompt(m: Seq<(String, Option<String>)>) -> bool {
    exists|i: int| 0 <= i < m.len() && (#[trigger] m[i]).1 is Some
}

/// The hunt guidance for the selected domains, each with its prompt if it
/// has one: a block per prompt, or none when no domain has one.
pub fn hunt_context(modules: &[(String, Option<String>)]) -> (r: Option<String>)
    ensures
        opt_view(r) == if has_hunt_prompt(modules@) { Some(hunt_blocks(modules@)) } else { None },
{
    let mut s = String::new();
    let mut any = false;
    let mut i: usize = 0;
    while i < modules.len()
        invariant
            i <= modules@.len(),
            s@ == hunt_blocks(modules@.take(i as int)),
            any == exists|k: int| 0 <= k < i && (#[trigger] modules@[k]).1 is Some,
        decreases modules@.len() - i,
    {
        proof {
            assert(modules@.take(i + 1).drop_last() =~= modules@.take(i as int));
        }
        match &modules[i].1 {
            Some(p) => {
                s.append("\n\n=== HUNT MODULE: ");
                s.append(modules[i].0.as_str());
                s.append(" ===\n");
                s.append(p.as_str());
                any = true;
            },
            None => {},
        }
        i = i + 1;
    }
    assert(modules@.take(modules@.len() as int) =~= modules@);
    if any {
        Some(s)
    } else {
        None
    }
}

/// The request to enrich finding `f`.
pub open spec fn enrich_request(f: VulnerabilityFinding) -> Seq<char> {
    "Vulnerability: "@ + f.title@ + "\nLocation: "@ + f.file_path@ + ":"@ + dec(line_of(f) as nat)
        + "\nCurrent description: "@ + f.description@
        + "\n\nRespond with ONLY JSON:\n{\n  \"description\": \"Enriched description\",\n  \"fix_code\": \"The secure version of the code\"\n}"@
}

/// The prompt that asks a model to enrich `f`: the note on earlier runs
/// first, then the request, the hunt guidance and the organisation's
/// context.
pub open spec fn spec_discovery_prompt(
    f: VulnerabilityFinding,
    prior: Option<Seq<char>>,
    hunt: Option<Seq<char>>,
    org: Option<Seq<char>>,
) -> Seq<char> {
    let base = match prior {
        Some(p) => p + "\n\n"@ + enrich_request(f),
        None => enrich_request(f),
    };
    let with_hunt = match hunt {
        Some(h) => base + h,
        None => base,
    };
    match org {
        Some(o) => with_hunt + "\n\n"@ + o,
        None => with_hunt,
    }
}

/// The prompt that asks a model to enrich `finding`.
pub fn discovery_prompt(
    finding: &VulnerabilityFinding,
    prior_note: &Option<String>,
    hunt: &Option<String>,
    org_context: &Option<String>,
) -> (s: String)
    ensures
        s@ == spec_discovery_prompt(*finding, opt_view(*prior_note), opt_view(*hunt), opt_view(*org_context)),
{
    let mut req = String::from_str("Vulnerability: ");
    req.append(finding.title.as_str());
    req.append("\nLocation: ");
    req.append(finding.file_path.as_str());
    req.append(":");
    let line = decimal(finding.line_or_zero() as u64);
    req.append(line.as_str());
    req.append("\nCurrent description: ");
    req.append(finding.description.as_str());
    req.append("\n\nRespond with ONLY JSON:\n{\n  \"description\": \"Enriched description\",\n  \"fix_code\": \"The secure version of the code\"\n}");
    let mut s = match prior_note {
        Some(p) => {
            let mut s = String::from_str(p.as_str());
            s.append("\n\n");
            s.append(req.as_str());
            s
        },
        None => req,
    };
    if let Some(h) = hunt {
        s.append(h.as_str());
    }
    if let Some(o) = org_context {
        s.append("\n\n");
        s.append(o.as_str());
    }
    s
}

/// `a` and `b` agree on everything but the description and the fix.
pub open spec fn same_but_enrichment(a: VulnerabilityFinding, b: VulnerabilityFinding) -> bool {
    &&& a.id == b.id
    &&& a.title == b.title
    &&& a.severity == b.severity
    &&& a.confidence_bp == b.confidence_bp
    &&& a.cwe_id == b.cwe_id
    &&& a.file_path == b.file_path
    &&& a.line_number == b.line_number
    &&& a.code_snippet == b.code_snippet
    &&& a.recommendation == b.recommendation
    &&& a.code_location == b.code_location
    &&& a.already_reported == b.already_reported
    &&& a.sources == b.sources
    &&& a.verification_status == b.verification_status
    &&& a.verification_notes == b.verification_notes
    &&& a.llm_model == b.llm_model
    &&& a.triage_verdict == b.triage_verdict
    &&& a.statement_range == b.statement_range
    &&& a.agent_evidence_path == b.agent_evidence_path
    &&& a.poc_code == b.poc_code
    &&& a.poc_format == b.poc_format
    &&& a.mitigation_code == b.mitigation_code
    &&& a.evidence@ == b.evidence@
}

/// The bytes of a model reply.
pub open spec fn reply_bytes(reply: Seq<char>) -> Seq<u8> {
    vstd::utf8::encode_utf8(reply)
}

/// Updates `finding` with what a reply gave: its description, when there
/// is one, replaces the description; its fix, when there is one, becomes
/// the fix.
pub fn apply_discovery_fields(finding: &mut VulnerabilityFinding, description: Option<String>, fix_code: Option<String>)
    ensures
        same_but_enrichment(*final(finding), *old(finding)),
        final(finding).description@ == match description {
            Some(d) => d@,
            None => old(finding).description@,
        },
        opt_view(final(finding).diff_hunk) == match fix_code {
            Some(f) => Some(f@),
            None => opt_view(old(finding).diff_hunk),
        },
{
    if let Some(d) = description {
        finding.description = d;
    }
    if let Some(fix) = fix_code {
        finding.diff_hunk = Some(fix);
    }
}

/// Updates `finding` from the model's reply: when the reply is a JSON
/// document, its `description` string replaces the description and its
/// `fix_code` string becomes the fix; returns whether it was one.
pub fn apply_discovery_reply(finding: &mut VulnerabilityFinding, reply: &str) -> (parsed: bool)
    ensures
        parsed == (json_parse_error(reply_bytes(reply@)) is None),
        same_but_enrichment(*final(finding), *old(finding)),
        final(finding).description@ == match json_str_at(reply_bytes(reply@), "/description"@) {
            Some(d) if parsed => d,
            _ => old(finding).description@,
        },
        opt_view(final(finding).diff_hunk) == match json_str_at(reply_bytes(reply@), "/fix_code"@) {
            Some(d) if parsed => Some(d),
            _ => opt_view(old(finding).diff_hunk),
        },
{
    match JsonDoc::parse(reply.as_bytes()) {
        Ok(doc) => {
            apply_discovery_fields(finding, doc.str_at("/description"), doc.str_at("/fix_code"));
            true
        },
        Err(_) => false,
    }
}

/// An optional string, or `fallback` when it is absent.
pub open spec fn or_else(a: Option<String>, fallback: Option<String>) -> Option<String> {
    match a {
        Some(x) => Some(x),
        None => fallback,
    }
}

/// `a` and `b` agree on everything an agent's discovery does not change.
pub open spec fn same_but_discovery(a: VulnerabilityFinding, b: VulnerabilityFinding) -> bool {
    &&& a.id == b.id
    &&& a.title == b.title
    &&& a.confidence_bp == b.confidence_bp
    &&& a.file_path == b.file_path
    &&& a.code_snippet == b.code_snippet
    &&& a.recommendation == b.recommendation
    &&& a.code_location == b.code_location
    &&& a.already_reported == b.already_reported
    &&& a.sources == b.sources
    &&& a.verification_status == b.verification_status
    &&& a.verification_notes == b.verification_notes
    &&& a.llm_model == b.llm_model
    &&& a.triage_verdict == b.triage_verdict
    &&& a.statement_range == b.statement_range
    &&& a.poc_code == b.poc_code
    &&& a.poc_format == b.poc_format
    &&& a.mitigation_code == b.mitigation_code
    &&& a.evidence@ == b.evidence@
}

/// Takes what an agent's analysis found for `finding`: its description
/// and severity; its weakness, line and fix where it has them; and its
/// evidence path where the finding has none yet.
pub fn merge_agent_discovery(finding: &mut VulnerabilityFinding, refined: &VulnerabilityFinding)
    ensures
        same_but_discovery(*final(finding), *old(finding)),
        final(finding).description == refined.description,
        final(finding).severity == refined.severity,
        final(finding).cwe_id == or_else(refined.cwe_id, old(finding).cwe_id),
        final(finding).line_number == match refined.line_number {
            Some(l) => Some(l),
            None => old(finding).line_number,
        },
        final(finding).diff_hunk == or_else(refined.diff_hunk, old(finding).diff_hunk),
        final(finding).agent_evidence_path == (if old(finding).agent_evidence_path is None {
            refined.agent_evidence_path
        } else {
            old(finding).agent_evidence_path
        }),
{
    finding.description = refined.description.clone();
    finding.severity = refined.severity;
    if refined.cwe_id.is_some() {
        finding.cwe_id = copy_opt_string(&refined.cwe_id);
    }
    if refined.line_number.is_some() {
        finding.line_number = refined.line_number;
    }
    if refined.diff_hunk.is_some() {
        finding.diff_hunk = copy_opt_string(&refined.diff_hunk);
    }
    if finding.agent_evidence_path.is_none() {
        finding.agent_evidence_path = copy_opt_string(&refined.agent_evidence_path);
    }
}

} // verus!
