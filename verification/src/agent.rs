//! What the verification agents' results do to a finding: the call-graph
//! context handed to the agent, how its verdict, evidence and logs are
//! recorded, and how a proof of concept's compile check settles the
//! verdict.

use vstd::prelude::*;
use crate::discovery::or_else;
use crate::finding::{copy_opt_string, opt_view, strings_view, VerificationStatus, VulnerabilityFinding};
use crate::text::{cat, dec, decimal, join_strings, joined};

verus! {

/// The paths an agent is shown: at most `max_rounds` of the sampled ones.
pub open spec fn paths_used(paths: Seq<Vec<String>>, max_rounds: nat) -> nat {
    if paths.len() < max_rounds { paths.len() } else { max_rounds }
}

/// A call-graph path rendered: its functions joined with ` -> `.
pub open spec fn path_text(p: Vec<String>) -> Seq<char> {
    joined(strings_view(p@), " -> "@)
}

/// The indented lines of the first `n` paths.
pub open spec fn path_lines(paths: Seq<Vec<String>>, n: nat) -> Seq<char>
    decreases n,
{
    if n == 0 {
        Seq::empty()
    } else {
        path_lines(paths, (n - 1) as nat) + "  "@ + path_text(paths[n - 1]) + "\n"@
    }
}

/// The call-graph part of the context: empty when no path is used.
pub open spec fn paths_section(target: Seq<char>, paths: Seq<Vec<String>>, max_rounds: nat) -> Seq<char> {
    let n = paths_used(paths, max_rounds);
    if n == 0 {
        Seq::empty()
    } else {
        "Call graph paths to "@ + target + ":\n"@ + path_lines(paths, n)
    }
}

/// The context an agent gets for target function `target`: the call-graph
/// paths to it and its source, each when there is one; none when neither.
pub open spec fn spec_scaffold_context(
    target: Seq<char>,
    paths: Seq<Vec<String>>,
    max_rounds: nat,
    source: Seq<char>,
) -> Option<Seq<char>> {
    let ps = paths_section(target, paths, max_rounds);
    if ps.len() == 0 && source.len() == 0 {
        None
    } else {
        let head = "Agent scaffold context for "@ + target + ":\n\n"@;
        let with_paths = if ps.len() > 0 { head + "Call graph paths:\n"@ + ps + "\n"@ } else { head };
        Some(if source.len() > 0 { with_paths + "Target function source:\n"@ + source } else { with_paths })
    }
}

/// The context handed to the agent that verifies a finding in function
/// `target`, from the sampled call-graph paths to it and its source.
pub fn scaffold_context(target: &str, paths: &[Vec<String>], max_rounds: usize, fn_source: &str) -> (r: Option<String>)
    ensures
        opt_view(r) == spec_scaffold_context(target@, paths@, max_rounds as nat, fn_source@),
{
    let n = if paths.len() < max_rounds { paths.len() } else { max_rounds };
    let mut lines = String::new();
    let mut i: usize = 0;
    while i < n
        invariant
            i <= n,
            n <= paths@.len(),
            lines@ == path_lines(paths@, i as nat),
        decreases n - i,
    {
        let joined_path = join_strings(paths[i].as_slice(), " -> ");
        lines.append("  ");
        lines.append(joined_path.as_str());
        lines.append("\n");
        i = i + 1;
    }
    let section = if n == 0 {
        String::new()
    } else {
        let mut s = String::from_str("Call graph paths to ");
        s.append(target);
        s.append(":\n");
        s.append(lines.as_str());
        s
    };
    assert(section@ == paths_section(target@, paths@, max_rounds as nat));
    let section_empty = section.as_str().is_empty();
    let source_empty = fn_source.is_empty();
    if section_empty && source_empty {
        return None;
    }
    let mut ctx = String::from_str("Agent scaffold context for ");
    ctx.append(target);
    ctx.append(":\n\n");
    if !section_empty {
        ctx.append("Call graph paths:\n");
        ctx.append(section.as_str());
        ctx.append("\n");
    }
    if !source_empty {
        ctx.append("Target function source:\n");
        ctx.append(fn_source);
    }
    Some(ctx)
}

/// What a security agent's run reports.
pub struct AgentRun {
    /// The compiled proof it left, if any.
    pub compile_path: Option<String>,
    /// The test source it wrote, if any.
    pub test_source_path: Option<String>,
    pub agent_turns: usize,
    /// Number of tools it used.
    pub tools_used: usize,
    pub test_log: Option<String>,
}

/// The evidence path a run gives: the compiled proof, else the test
/// source, else a summary of its turns and tools when it took any.
pub open spec fn run_evidence(run: AgentRun, old_path: Option<String>) -> Option<Seq<char>> {
    match run.compile_path {
        Some(p) => Some(p@),
        None => match run.test_source_path {
            Some(p) => Some(p@),
            None => if run.agent_turns > 0 {
                Some(dec(run.agent_turns as nat) + " turns, "@ + dec(run.tools_used as nat) + " tools"@)
            } else {
                opt_view(old_path)
            },
        },
    }
}

/// `a` and `b` agree on everything but the verification notes and the
/// evidence path.
pub open spec fn same_but_agent_notes(a: VulnerabilityFinding, b: VulnerabilityFinding) -> bool {
    &&& a.id == b.id
    &&& a.title == b.title
    &&& a.description == b.description
    &&& a.severity == b.severity
    &&& a.confidence_bp == b.confidence_bp
    &&& a.cwe_id == b.cwe_id
    &&& a.file_path == b.file_path
    &&& a.line_number == b.line_number
    &&& a.code_snippet == b.code_snippet
    &&& a.recommendation == b.recommendation
    &&& a.code_location == b.code_location
    &&& a.already_reported == b.already_reported
    &&& a.sources == b.sources
    &&& a.llm_model == b.llm_model
    &&& a.triage_verdict == b.triage_verdict
    &&& a.statement_range == b.statement_range
    &&& a.diff_hunk == b.diff_hunk
    &&& a.poc_code == b.poc_code
    &&& a.poc_format == b.poc_format
    &&& a.mitigation_code == b.mitigation_code
    &&& a.evidence@ == b.evidence@
}

/// Records a finished agent run on `finding`: the evidence path; the test
/// log as notes when there are none; then the call-graph context as notes
/// when there are still none.
pub fn apply_agent_run(finding: &mut VulnerabilityFinding, run: &AgentRun, scaffold: Option<String>)
    ensures
        same_but_agent_notes(*final(finding), *old(finding)),
        final(finding).verification_status == old(finding).verification_status,
        opt_view(final(finding).agent_evidence_path) == run_evidence(*run, old(finding).agent_evidence_path),
        final(finding).verification_notes == or_else(old(finding).verification_notes, or_else(run.test_log, scaffold)),
{
    match &run.compile_path {
        Some(p) => finding.agent_evidence_path = Some(p.clone()),
        None => match &run.test_source_path {
            Some(p) => finding.agent_evidence_path = Some(p.clone()),
            None => {
                if run.agent_turns > 0 {
                    let mut s = decimal(run.agent_turns as u64);
                    s.append(" turns, ");
                    let t = decimal(run.tools_used as u64);
                    s.append(t.as_str());
                    s.append(" tools");
                    finding.agent_evidence_path = Some(s);
                }
            },
        },
    }
    if finding.verification_notes.is_none() {
        finding.verification_notes = copy_opt_string(&run.test_log);
    }
    if finding.verification_notes.is_none() {
        finding.verification_notes = scaffold;
    }
}

/// Records a failed agent run on `finding`: the verification failed; the
/// call-graph context becomes the notes when there are none, else the
/// notes say why the run failed.
pub fn apply_agent_failure(finding: &mut VulnerabilityFinding, error: &str, scaffold: Option<String>)
    ensures
        same_but_agent_notes(*final(finding), *old(finding)),
        final(finding).agent_evidence_path == old(finding).agent_evidence_path,
        final(finding).verification_status == Some(VerificationStatus::Failed),
        opt_view(final(finding).verification_notes) == if scaffold is Some && old(finding).verification_notes is None {
            opt_view(scaffold)
        } else {
            Some("Agent verification failed: "@ + error@)
        },
{
    finding.verification_status = Some(VerificationStatus::Failed);
    if scaffold.is_some() && finding.verification_notes.is_none() {
        finding.verification_notes = scaffold;
    } else {
        finding.verification_notes = Some(cat("Agent verification failed: ", error));
    }
}

/// Records an agent's verdict on `finding` in agent verification: its
/// status; its notes, or the finding's own when it has none; its evidence
/// path where the finding has none yet.
pub fn merge_agent_verdict(finding: &mut VulnerabilityFinding, verdict: &VulnerabilityFinding)
    ensures
        same_but_agent_notes(*final(finding), *old(finding)),
        final(finding).verification_status == verdict.verification_status,
        final(finding).verification_notes == or_else(verdict.verification_notes, old(finding).verification_notes),
        final(finding).agent_evidence_path == (if old(finding).agent_evidence_path is None {
            verdict.agent_evidence_path
        } else {
            old(finding).agent_evidence_path
        }),
{
    finding.verification_status = verdict.verification_status;
    if verdict.verification_notes.is_some() {
        finding.verification_notes = copy_opt_string(&verdict.verification_notes);
    }
    if finding.agent_evidence_path.is_none() {
        finding.agent_evidence_path = copy_opt_string(&verdict.agent_evidence_path);
    }
}

/// Records that the agent could not verify `finding`: it needs review,
/// with the error as notes.
pub fn apply_agent_error(finding: &mut VulnerabilityFinding, error: &str)
    ensures
        same_but_agent_notes(*final(finding), *old(finding)),
        final(finding).agent_evidence_path == old(finding).agent_evidence_path,
        final(finding).verification_status == Some(VerificationStatus::NeedsReview),
        opt_view(final(finding).verification_notes) == Some("Agent error: "@ + error@),
{
    finding.verification_status = Some(VerificationStatus::NeedsReview);
    finding.verification_notes = Some(cat("Agent error: ", error));
}

/// The language a proof of concept is compiled as: its recorded format,
/// else Rust.
pub fn poc_language(finding: &VulnerabilityFinding) -> (s: String)
    ensures
        s@ == match finding.poc_format {
            Some(f) => f@,
            None => "rust"@,
        },
{
    match &finding.poc_format {
        Some(f) => f.clone(),
        None => String::from_str("rust"),
    }
}

/// Records a compile check of the finding's proof of concept: one that
/// compiles confirms the finding; one that does not marks the
/// verification failed, with the compiler's errors as notes (after a line
/// break when the finding had notes).
pub fn apply_poc_check(finding: &mut VulnerabilityFinding, compiles: bool, errors: &[String])
    ensures
        same_but_agent_notes(*final(finding), *old(finding)),
        final(finding).agent_evidence_path == old(finding).agent_evidence_path,
        final(finding).verification_status == Some(if compiles {
            VerificationStatus::Confirmed
        } else {
            VerificationStatus::Failed
        }),
        compiles ==> final(finding).verification_notes == old(finding).verification_notes,
        !compiles ==> opt_view(final(finding).verification_notes) == Some(
            (if opt_view(old(finding).verification_notes) matches Some(n) && n.len() > 0 { "\n"@ } else { Seq::empty() })
                + "PoC compilation failed: "@ + joined(strings_view(errors@), ", "@)),
{
    if compiles {
        finding.verification_status = Some(VerificationStatus::Confirmed);
    } else {
        finding.verification_status = Some(VerificationStatus::Failed);
        let had_notes = match &finding.verification_notes {
            Some(n) => !n.as_str().is_empty(),
            None => false,
        };
        let mut s = if had_notes { String::from_str("\n") } else { String::new() };
        s.append("PoC compilation failed: ");
        let list = join_strings(errors, ", ");
        s.append(list.as_str());
        finding.verification_notes = Some(s);
    }
}

} // verus!
