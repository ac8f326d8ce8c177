//! The adversarial validation gate: seven yes/no questions asked of each
//! finding, the verdict they lead to, and what the verdict does to the
//! finding.

use vstd::prelude::*;
use crate::finding::{
    opt_view, same_except_verdict, Severity, TriageVerdict, VerificationStatus, VulnerabilityFinding,
    FULL_CONFIDENCE,
};
use crate::json::{json_array_len_at, json_bool_at, json_has_at, json_parse_error, json_str_at, JsonDoc};
use crate::text::{
    ascii_lower, cat, chars_of, dec, decimal, is_ascii_char, lowercase, spec_lowercase, spec_trim,
    str_eq, string_from_chars, strip_leading, strip_leading_chars, strip_trailing,
    strip_trailing_chars, trim,
};

verus! {

/// Answer to one gate question.
#[derive(Debug, Clone, Copy, PartialEq, Eq, Structural)]
pub enum GateAnswer {
    Yes,
    No,
    Unknown,
}

/// How an answer is written in verification notes.
pub open spec fn answer_label(a: GateAnswer) -> Seq<char> {
    match a {
        GateAnswer::Yes => "YES"@,
        GateAnswer::No => "NO"@,
        GateAnswer::Unknown => "UNKNOWN"@,
    }
}

impl GateAnswer {
    /// `YES`, `NO` or `UNKNOWN`.
    pub fn label(&self) -> (s: &'static str)
        ensures
            s@ == answer_label(*self),
    {
        match self {
            GateAnswer::Yes => "YES",
            GateAnswer::No => "NO",
            GateAnswer::Unknown => "UNKNOWN",
        }
    }
}

/// The answer a reply gives: `yes`, `no` in any case; anything else, or no
/// string at all, is unknown.
pub open spec fn answer_of(value: Option<Seq<char>>) -> GateAnswer {
    match value {
        Some(s) => answer_of_lowered(spec_lowercase(s)),
        None => GateAnswer::Unknown,
    }
}

/// The answer a lower-cased reply gives.
pub open spec fn answer_of_lowered(l: Seq<char>) -> GateAnswer {
    if l == "yes"@ {
        GateAnswer::Yes
    } else if l == "no"@ {
        GateAnswer::No
    } else {
        GateAnswer::Unknown
    }
}

/// The answer a reply gives: `yes`, `no` in any case; anything else, or no
/// string at all, is unknown.
pub fn parse_gate_answer(value: &Option<String>) -> (a: GateAnswer)
    ensures
        a == answer_of(opt_view(*value)),
        value matches Some(s) ==> ((forall|i: int| 0 <= i < s@.len() ==> is_ascii_char(#[trigger] s@[i]))
            ==> a == answer_of_lowered(s@.map_values(|c: char| ascii_lower(c)))),
{
    match value {
        Some(s) => {
            let l = lowercase(s.as_str());
            if str_eq(l.as_str(), "yes") {
                GateAnswer::Yes
            } else if str_eq(l.as_str(), "no") {
                GateAnswer::No
            } else {
                GateAnswer::Unknown
            }
        },
        None => GateAnswer::Unknown,
    }
}

/// A concrete account of how the flaw is exploited.
pub struct ConcreteImpactProof {
    pub attack_vector: String,
    pub consequence: String,
    pub is_theoretical: bool,
}

/// Verdict of the triage. Q1 unreachable, Q2 uncontrollable or Q3
/// preconditions required kill the finding; a theoretical or missing
/// impact proof, or an impact answered no, downgrades it to Low; yes to
/// all of Q4..Q7 passes it; anything else downgrades it to Medium.
pub open spec fn gate_verdict(
    reachability: GateAnswer,
    controllability: GateAnswer,
    preconditions: GateAnswer,
    impact: GateAnswer,
    context: GateAnswer,
    evidence: GateAnswer,
    confidence: GateAnswer,
    weak_proof: bool,
) -> TriageVerdict {
    if reachability == GateAnswer::No || controllability == GateAnswer::No
        || preconditions == GateAnswer::Yes {
        TriageVerdict::Kill
    } else if weak_proof || impact == GateAnswer::No {
        TriageVerdict::Downgrade { adjusted_severity: Severity::Low }
    } else if impact == GateAnswer::Yes && context == GateAnswer::Yes && evidence == GateAnswer::Yes
        && confidence == GateAnswer::Yes {
        TriageVerdict::Pass
    } else {
        TriageVerdict::Downgrade { adjusted_severity: Severity::Medium }
    }
}

/// The impact proof is missing or only theoretical.
pub open spec fn weak_proof(p: Option<&ConcreteImpactProof>) -> bool {
    match p {
        Some(proof) => proof.is_theoretical,
        None => true,
    }
}

/// The verdict the seven answers and the impact proof lead to.
pub fn apply_gate_logic(
    reachability: GateAnswer,
    controllability: GateAnswer,
    preconditions: GateAnswer,
    impact: GateAnswer,
    context: GateAnswer,
    evidence: GateAnswer,
    confidence: GateAnswer,
    concrete_proof: Option<&ConcreteImpactProof>,
) -> (v: TriageVerdict)
    ensures
        v == gate_verdict(reachability, controllability, preconditions, impact, context, evidence,
            confidence, weak_proof(concrete_proof)),
{
    if reachability == GateAnswer::No {
        return TriageVerdict::Kill;
    }
    if controllability == GateAnswer::No {
        return TriageVerdict::Kill;
    }
    if preconditions == GateAnswer::Yes {
        return TriageVerdict::Kill;
    }
    let weak = match concrete_proof {
        Some(p) => p.is_theoretical,
        None => true,
    };
    if weak || impact == GateAnswer::No {
        return TriageVerdict::Downgrade { adjusted_severity: Severity::Low };
    }
    if impact == GateAnswer::Yes && context == GateAnswer::Yes && evidence == GateAnswer::Yes
        && confidence == GateAnswer::Yes {
        return TriageVerdict::Pass;
    }
    TriageVerdict::Downgrade { adjusted_severity: Severity::Medium }
}

/// What the triage said about one finding.
pub struct GateResult {
    pub reachability: GateAnswer,
    pub controllability: GateAnswer,
    pub preconditions: GateAnswer,
    pub impact: GateAnswer,
    pub context: GateAnswer,
    pub evidence: GateAnswer,
    pub confidence: GateAnswer,
    pub concrete_impact_proof: Option<ConcreteImpactProof>,
    pub triage_verdict: TriageVerdict,
    pub verification_notes: String,
    pub verification_status: Option<VerificationStatus>,
}

/// The text of an optional string, empty when there is none.
pub open spec fn str_or_empty(v: Option<Seq<char>>) -> Seq<char> {
    match v {
        Some(s) => s,
        None => Seq::empty(),
    }
}

/// Pointer to question `q` of the triage of the reply item at `item`.
pub open spec fn question_ptr(item: Seq<char>, q: Seq<char>) -> Seq<char> {
    item + "/seven_question_gate/"@ + q
}

/// The reply item at `item` answers all seven questions.
pub open spec fn gate_present(text: Seq<u8>, item: Seq<char>) -> bool {
    &&& json_has_at(text, question_ptr(item, "reachability"@))
    &&& json_has_at(text, question_ptr(item, "controllability"@))
    &&& json_has_at(text, question_ptr(item, "preconditions"@))
    &&& json_has_at(text, question_ptr(item, "impact"@))
    &&& json_has_at(text, question_ptr(item, "context"@))
    &&& json_has_at(text, question_ptr(item, "evidence"@))
    &&& json_has_at(text, question_ptr(item, "confidence"@))
}

/// Pointer to field `f` of the impact proof of the reply item at `item`.
pub open spec fn proof_ptr(item: Seq<char>, f: Seq<char>) -> Seq<char> {
    item + "/concrete_impact_proof/"@ + f
}

/// Verification status named by a reply.
pub open spec fn status_of(v: Option<Seq<char>>) -> Option<VerificationStatus> {
    match v {
        Some(s) => if s == "confirmed"@ {
            Some(VerificationStatus::Confirmed)
        } else if s == "false_positive"@ {
            Some(VerificationStatus::FalsePositive)
        } else if s == "needs_review"@ {
            Some(VerificationStatus::NeedsReview)
        } else {
            None
        },
        None => None,
    }
}

/// `g` is the triage result given by the values a reply item holds: the
/// seven answers, the impact proof's attack vector, consequence and
/// theoretical flag, the notes and the status word.
pub open spec fn gate_from_values(
    g: GateResult,
    reachability: Option<Seq<char>>,
    controllability: Option<Seq<char>>,
    preconditions: Option<Seq<char>>,
    impact: Option<Seq<char>>,
    context: Option<Seq<char>>,
    evidence: Option<Seq<char>>,
    confidence: Option<Seq<char>>,
    attack_vector: Option<Seq<char>>,
    consequence: Option<Seq<char>>,
    is_theoretical: Option<bool>,
    notes: Option<Seq<char>>,
    status: Option<Seq<char>>,
) -> bool {
    let vector = str_or_empty(attack_vector);
    let cons = str_or_empty(consequence);
    let theoretical = match is_theoretical {
        Some(b) => b,
        None => false,
    };
    let given = vector.len() > 0 || cons.len() > 0;
    &&& g.reachability == answer_of(reachability)
    &&& g.controllability == answer_of(controllability)
    &&& g.preconditions == answer_of(preconditions)
    &&& g.impact == answer_of(impact)
    &&& g.context == answer_of(context)
    &&& g.evidence == answer_of(evidence)
    &&& g.confidence == answer_of(confidence)
    &&& if given {
        g.concrete_impact_proof matches Some(x) && x.attack_vector@ == vector && x.consequence@ == cons
            && x.is_theoretical == theoretical
    } else {
        g.concrete_impact_proof is None
    }
    &&& g.triage_verdict == gate_verdict(g.reachability, g.controllability, g.preconditions,
        g.impact, g.context, g.evidence, g.confidence, !given || theoretical)
    &&& g.verification_notes@ == str_or_empty(notes)
    &&& g.verification_status == status_of(status)
}

/// `g` is what the triage says about the reply item at `item`.
pub open spec fn gate_matches(g: GateResult, text: Seq<u8>, item: Seq<char>) -> bool {
    gate_from_values(
        g,
        json_str_at(text, question_ptr(item, "reachability"@)),
        json_str_at(text, question_ptr(item, "controllability"@)),
        json_str_at(text, question_ptr(item, "preconditions"@)),
        json_str_at(text, question_ptr(item, "impact"@)),
        json_str_at(text, question_ptr(item, "context"@)),
        json_str_at(text, question_ptr(item, "evidence"@)),
        json_str_at(text, question_ptr(item, "confidence"@)),
        json_str_at(text, proof_ptr(item, "attack_vector"@)),
        json_str_at(text, proof_ptr(item, "consequence"@)),
        json_bool_at(text, proof_ptr(item, "is_theoretical"@)),
        json_str_at(text, item + "/verification_notes"@),
        json_str_at(text, item + "/verification_status"@),
    )
}

/// The values a reply item holds for the triage.
pub struct GateReply {
    pub reachability: Option<String>,
    pub controllability: Option<String>,
    pub preconditions: Option<String>,
    pub impact: Option<String>,
    pub context: Option<String>,
    pub evidence: Option<String>,
    pub confidence: Option<String>,
    pub attack_vector: Option<String>,
    pub consequence: Option<String>,
    pub is_theoretical: Option<bool>,
    pub verification_notes: Option<String>,
    pub verification_status: Option<String>,
}

/// `g` is the triage result the values `r` give.
pub open spec fn gate_of_reply(g: GateResult, r: GateReply) -> bool {
    gate_from_values(g, opt_view(r.reachability), opt_view(r.controllability), opt_view(r.preconditions),
        opt_view(r.impact), opt_view(r.context), opt_view(r.evidence), opt_view(r.confidence),
        opt_view(r.attack_vector), opt_view(r.consequence), r.is_theoretical, opt_view(r.verification_notes),
        opt_view(r.verification_status))
}

/// An optional string, empty when absent.
fn or_empty(v: Option<String>) -> (s: String)
    ensures
        s@ == str_or_empty(opt_view(v)),
{
    match v {
        Some(s) => s,
        None => String::new(),
    }
}

/// Builds a triage result from the values of one reply item: the seven
/// answers, the triage decision they lead to, the impact proof when there
/// is an attack vector or a consequence, the notes and the status.
pub fn gate_result_from(r: GateReply) -> (g: GateResult)
    ensures
        gate_of_reply(g, r),
{
    let ghost r0 = r;
    let reachability = parse_gate_answer(&r.reachability);
    let controllability = parse_gate_answer(&r.controllability);
    let preconditions = parse_gate_answer(&r.preconditions);
    let impact = parse_gate_answer(&r.impact);
    let context = parse_gate_answer(&r.context);
    let evidence = parse_gate_answer(&r.evidence);
    let confidence = parse_gate_answer(&r.confidence);
    let verification_status = read_status(&r.verification_status);
    let attack_vector = or_empty(r.attack_vector);
    let consequence = or_empty(r.consequence);
    let is_theoretical = match r.is_theoretical {
        Some(b) => b,
        None => false,
    };
    let concrete_impact_proof = if attack_vector.as_str().is_empty() && consequence.as_str().is_empty() {
        None
    } else {
        Some(ConcreteImpactProof { attack_vector, consequence, is_theoretical })
    };
    let triage_verdict = apply_gate_logic(reachability, controllability, preconditions, impact,
        context, evidence, confidence, concrete_impact_proof.as_ref());
    let verification_notes = or_empty(r.verification_notes);
    GateResult {
        reachability,
        controllability,
        preconditions,
        impact,
        context,
        evidence,
        confidence,
        concrete_impact_proof,
        triage_verdict,
        verification_notes,
        verification_status,
    }
}

/// Concatenation of three pieces.
fn cat3(a: &str, b: &str, c: &str) -> (r: String)
    ensures
        r@ == a@ + b@ + c@,
{
    let mut r = String::from_str(a);
    r.append(b);
    r.append(c);
    r
}

/// Whether the item at `item` answers question `q`.
fn has_answer(doc: &JsonDoc, item: &str, q: &str) -> (r: bool)
    ensures
        r == json_has_at(doc.text(), question_ptr(item@, q@)),
{
    let p = cat3(item, "/seven_question_gate/", q);
    doc.has_at(p.as_str())
}

/// The string at `pointer`, empty when there is none.
pub(crate) fn str_or_empty_at(doc: &JsonDoc, pointer: &str) -> (s: String)
    ensures
        s@ == str_or_empty(json_str_at(doc.text(), pointer@)),
{
    match doc.str_at(pointer) {
        Some(s) => s,
        None => {
            proof {
                reveal_strlit("");
            }
            String::from_str("")
        },
    }
}

/// Verification status named by a reply.
fn read_status(v: &Option<String>) -> (r: Option<VerificationStatus>)
    ensures
        r == status_of(opt_view(*v)),
{
    match v {
        Some(s) => if str_eq(s.as_str(), "confirmed") {
            Some(VerificationStatus::Confirmed)
        } else if str_eq(s.as_str(), "false_positive") {
            Some(VerificationStatus::FalsePositive)
        } else if str_eq(s.as_str(), "needs_review") {
            Some(VerificationStatus::NeedsReview)
        } else {
            None
        },
        None => None,
    }
}

/// The triage result of the reply item at `item`: none unless it answers
/// all seven questions.
pub(crate) fn extract_gate_result(doc: &JsonDoc, item: &str) -> (r: Option<GateResult>)
    ensures
        r is Some <==> gate_present(doc.text(), item@),
        r matches Some(g) ==> gate_matches(g, doc.text(), item@),
{
    if !(has_answer(doc, item, "reachability") && has_answer(doc, item, "controllability")
        && has_answer(doc, item, "preconditions") && has_answer(doc, item, "impact")
        && has_answer(doc, item, "context") && has_answer(doc, item, "evidence")
        && has_answer(doc, item, "confidence")) {
        return None;
    }
    let r = GateReply {
        reachability: doc.str_at(cat3(item, "/seven_question_gate/", "reachability").as_str()),
        controllability: doc.str_at(cat3(item, "/seven_question_gate/", "controllability").as_str()),
        preconditions: doc.str_at(cat3(item, "/seven_question_gate/", "preconditions").as_str()),
        impact: doc.str_at(cat3(item, "/seven_question_gate/", "impact").as_str()),
        context: doc.str_at(cat3(item, "/seven_question_gate/", "context").as_str()),
        evidence: doc.str_at(cat3(item, "/seven_question_gate/", "evidence").as_str()),
        confidence: doc.str_at(cat3(item, "/seven_question_gate/", "confidence").as_str()),
        attack_vector: doc.str_at(cat3(item, "/concrete_impact_proof/", "attack_vector").as_str()),
        consequence: doc.str_at(cat3(item, "/concrete_impact_proof/", "consequence").as_str()),
        is_theoretical: doc.bool_at(cat3(item, "/concrete_impact_proof/", "is_theoretical").as_str()),
        verification_notes: doc.str_at(cat(item, "/verification_notes").as_str()),
        verification_status: doc.str_at(cat(item, "/verification_status").as_str()),
    };
    Some(gate_result_from(r))
}

/// A reply with surrounding whitespace and a Markdown code fence
/// (opening "```json" or "```", closing "```") taken off.
pub open spec fn cleaned_reply(reply: Seq<char>) -> Seq<char> {
    spec_trim(strip_trailing(strip_leading(strip_leading(spec_trim(reply), "```json"@), "```"@), "```"@))
}

/// A reply without surrounding whitespace and code fence.
pub fn clean_reply(reply: &str) -> (r: String)
    ensures
        r@ == cleaned_reply(reply@),
{
    let t = chars_of(trim(reply));
    let a = strip_leading_chars(&t, &chars_of("```json"));
    let b = strip_leading_chars(&a, &chars_of("```"));
    let c = strip_trailing_chars(&b, &chars_of("```"));
    let inner = string_from_chars(&c);
    String::from_str(trim(inner.as_str()))
}

/// The bytes of the cleaned reply.
pub open spec fn reply_text(reply: Seq<char>) -> Seq<u8> {
    vstd::utf8::encode_utf8(cleaned_reply(reply))
}

/// Pointer to the `idx`-th item of a reply that is an array.
pub open spec fn item_ptr(idx: nat) -> Seq<char> {
    "/"@ + dec(idx)
}

/// Indices, ascending, of the first `n` array items that answer all
/// seven questions.
pub open spec fn gate_items(text: Seq<u8>, n: nat) -> Seq<int>
    decreases n,
{
    if n == 0 {
        Seq::empty()
    } else {
        let prev = gate_items(text, (n - 1) as nat);
        if gate_present(text, item_ptr((n - 1) as nat)) {
            prev.push(n - 1)
        } else {
            prev
        }
    }
}

/// `r` is what the triage reply `reply` says: nothing when it is not JSON;
/// for an array, each item that answers all questions with its index; for
/// anything else, the reply itself as item 0 when it answers them.
pub open spec fn reply_gates(r: Seq<(usize, GateResult)>, reply: Seq<char>) -> bool {
    let text = reply_text(reply);
    if json_parse_error(text) is Some {
        r.len() == 0
    } else {
        match json_array_len_at(text, ""@) {
            Some(n) => {
                let ids = gate_items(text, n);
                &&& r.len() == ids.len()
                &&& forall|k: int| 0 <= k < r.len() ==> (#[trigger] r[k]).0 == ids[k]
                    && gate_matches(r[k].1, text, item_ptr(ids[k] as nat))
            },
            None => if gate_present(text, ""@) {
                r.len() == 1 && r[0].0 == 0 && gate_matches(r[0].1, text, ""@)
            } else {
                r.len() == 0
            },
        }
    }
}

/// The triage results a reply gives, each with the index of its item.
pub fn parse_7question_gate(reply: &str) -> (r: Vec<(usize, GateResult)>)
    ensures
        reply_gates(r@, reply@),
{
    let cleaned = clean_reply(reply);
    let mut out: Vec<(usize, GateResult)> = Vec::new();
    match JsonDoc::parse(cleaned.as_str().as_bytes()) {
        Err(_) => {},
        Ok(doc) => {
            proof {
                reveal_strlit("");
            }
            match doc.array_len_at("") {
                Some(n) => {
                    let ghost text = doc.text();
                    let mut idx: usize = 0;
                    while idx < n
                        invariant
                            idx <= n,
                            text == doc.text(),
                            json_array_len_at(text, ""@) == Some(n as nat),
                            out@.len() == gate_items(text, idx as nat).len(),
                            forall|k: int| 0 <= k < out@.len() ==> (#[trigger] out@[k]).0 == gate_items(text, idx as nat)[k]
                                && gate_matches(out@[k].1, text, item_ptr(gate_items(text, idx as nat)[k] as nat)),
                        decreases n - idx,
                    {
                        let mut p = String::from_str("/");
                        let d = decimal(idx as u64);
                        p.append(d.as_str());
                        match extract_gate_result(&doc, p.as_str()) {
                            Some(g) => {
                                out.push((idx, g));
                            },
                            None => {},
                        }
                        idx = idx + 1;
                    }
                },
                None => {
                    match extract_gate_result(&doc, "") {
                        Some(g) => {
                            out.push((0, g));
                        },
                        None => {},
                    }
                },
            }
        },
    }
    out
}

/// Verification notes for a gate result: the seven answers, then the
/// impact proof (or that it is theoretical), then the reasoning given.
pub open spec fn gate_notes(g: GateResult) -> Seq<char> {
    let answers = "7-question gate: R="@ + answer_label(g.reachability) + " C="@
        + answer_label(g.controllability) + " P="@ + answer_label(g.preconditions) + " I="@
        + answer_label(g.impact) + " Ct="@ + answer_label(g.context) + " E="@
        + answer_label(g.evidence) + " Conf="@ + answer_label(g.confidence);
    let proof_part = match g.concrete_impact_proof {
        Some(p) => if p.is_theoretical {
            " | Impact: THEORETICAL - downgraded"@
        } else {
            " | Impact proof: "@ + p.attack_vector@
        },
        None => Seq::empty(),
    };
    let reasoning = if g.verification_notes@.len() == 0 {
        Seq::empty()
    } else {
        " | Reasoning: "@ + g.verification_notes@
    };
    answers + proof_part + reasoning
}

/// Confidence once the verdict is known: `Pass` multiplies it by 1.15, capped at
/// full confidence; `Kill` drops it to 0; `Downgrade` halves it;
/// `ChainRequired` leaves it.
pub open spec fn adjusted_confidence(c: u32, v: TriageVerdict) -> u32 {
    match v {
        TriageVerdict::Pass => {
            let raised = c * 115 / 100;
            if raised < FULL_CONFIDENCE { raised as u32 } else { FULL_CONFIDENCE }
        },
        TriageVerdict::Kill => 0,
        TriageVerdict::Downgrade { .. } => c / 2,
        TriageVerdict::ChainRequired => c,
    }
}

/// Notes given to a finding for which the triage gave no result.
pub open spec fn skipped_notes() -> Seq<char> {
    "7-question gate skipped - parsing failed"@
}

/// `new` is `old` after the triage: with a result, its verdict, notes,
/// status and adjusted confidence; without one, marked for review.
pub open spec fn gated(new: VulnerabilityFinding, old: VulnerabilityFinding, g: Option<GateResult>) -> bool {
    &&& same_except_verdict(new, old)
    &&& match g {
        Some(g) => {
            &&& new.triage_verdict == Some(g.triage_verdict)
            &&& opt_view(new.verification_notes) == Some(gate_notes(g))
            &&& new.verification_status == g.verification_status
            &&& new.confidence_bp == adjusted_confidence(old.confidence_bp, g.triage_verdict)
        },
        None => {
            &&& new.triage_verdict == old.triage_verdict
            &&& opt_view(new.verification_notes) == Some(skipped_notes())
            &&& new.verification_status == Some(VerificationStatus::NeedsReview)
            &&& new.confidence_bp == old.confidence_bp
        },
    }
}

/// Index of the first gate result at or after `from` for item `i`, or -1.
pub open spec fn first_gate(gs: Seq<(usize, GateResult)>, i: int, from: int) -> int
    decreases gs.len() - from,
{
    if from < 0 || from >= gs.len() {
        -1
    } else if gs[from].0 == i {
        from
    } else {
        first_gate(gs, i, from + 1)
    }
}

/// The triage result for item `i`: the first one with its index.
pub open spec fn gate_for(gs: Seq<(usize, GateResult)>, i: int) -> Option<GateResult> {
    let k = first_gate(gs, i, 0);
    if 0 <= k < gs.len() {
        Some(gs[k].1)
    } else {
        None
    }
}

/// Confidence after a verdict.
pub fn adjust_confidence(c: u32, v: &TriageVerdict) -> (r: u32)
    ensures
        r == adjusted_confidence(c, *v),
{
    match v {
        TriageVerdict::Pass => {
            let raised: u64 = (c as u64) * 115 / 100;
            if raised < FULL_CONFIDENCE as u64 { raised as u32 } else { FULL_CONFIDENCE }
        },
        TriageVerdict::Kill => 0,
        TriageVerdict::Downgrade { .. } => c / 2,
        TriageVerdict::ChainRequired => c,
    }
}

/// Verification notes for a gate result.
pub fn notes_for(g: &GateResult) -> (s: String)
    ensures
        s@ == gate_notes(*g),
{
    let mut s = String::from_str("7-question gate: R=");
    s.append(g.reachability.label());
    s.append(" C=");
    s.append(g.controllability.label());
    s.append(" P=");
    s.append(g.preconditions.label());
    s.append(" I=");
    s.append(g.impact.label());
    s.append(" Ct=");
    s.append(g.context.label());
    s.append(" E=");
    s.append(g.evidence.label());
    s.append(" Conf=");
    s.append(g.confidence.label());
    let ghost answers = s@;
    match &g.concrete_impact_proof {
        Some(p) => {
            if p.is_theoretical {
                s.append(" | Impact: THEORETICAL - downgraded");
            } else {
                s.append(" | Impact proof: ");
                s.append(p.attack_vector.as_str());
            }
        },
        None => {},
    }
    if !g.verification_notes.as_str().is_empty() {
        s.append(" | Reasoning: ");
        s.append(g.verification_notes.as_str());
    }
    proof {
        assert(s@ =~= gate_notes(*g));
    }
    s
}

/// Index of the first gate result for item `i`.
fn find_gate(gs: &Vec<(usize, GateResult)>, i: usize) -> (k: Option<usize>)
    ensures
        match k {
            Some(k) => first_gate(gs@, i as int, 0) == k as int && k < gs@.len(),
            None => first_gate(gs@, i as int, 0) == -1,
        },
{
    let mut k: usize = 0;
    while k < gs.len()
        invariant
            k <= gs@.len(),
            first_gate(gs@, i as int, 0) == first_gate(gs@, i as int, k as int),
        decreases gs@.len() - k,
    {
        if gs[k].0 == i {
            return Some(k);
        }
        k = k + 1;
    }
    None
}

/// A finding after the triage.
pub fn gate_finding(finding: &VulnerabilityFinding, gate: Option<&GateResult>) -> (f: VulnerabilityFinding)
    ensures
        gated(f, *finding, match gate { Some(g) => Some(*g), None => None }),
{
    let mut f = finding.duplicate();
    match gate {
        Some(g) => {
            f.triage_verdict = Some(g.triage_verdict);
            f.verification_notes = Some(notes_for(g));
            f.verification_status = g.verification_status;
            f.confidence_bp = adjust_confidence(finding.confidence_bp, &g.triage_verdict);
        },
        None => {
            f.verification_notes = Some(String::from_str("7-question gate skipped - parsing failed"));
            f.verification_status = Some(VerificationStatus::NeedsReview);
        },
    }
    f
}

/// Appends to `results` each finding of `batch` after the triage, using the
/// first gate result with the finding's index.
pub fn apply_gate_results(
    batch: &[VulnerabilityFinding],
    results: &mut Vec<VulnerabilityFinding>,
    gate_results: Vec<(usize, GateResult)>,
)
    ensures
        final(results)@.len() == old(results)@.len() + batch@.len(),
        forall|j: int| 0 <= j < old(results)@.len() ==> final(results)@[j] == old(results)@[j],
        forall|i: int| 0 <= i < batch@.len() ==> gated(#[trigger] final(results)@[old(results)@.len() + i],
            batch@[i], gate_for(gate_results@, i)),
{
    let ghost base = results@;
    let mut i: usize = 0;
    while i < batch.len()
        invariant
            i <= batch@.len(),
            results@.len() == base.len() + i,
            forall|j: int| 0 <= j < base.len() ==> results@[j] == base[j],
            forall|k: int| 0 <= k < i ==> gated(#[trigger] results@[base.len() + k], batch@[k], gate_for(gate_results@, k)),
        decreases batch@.len() - i,
    {
        let f = match find_gate(&gate_results, i) {
            Some(k) => gate_finding(&batch[i], Some(&gate_results[k].1)),
            None => gate_finding(&batch[i], None),
        };
        results.push(f);
        proof {
            assert(results@[base.len() + i as int] == f);
        }
        i = i + 1;
    }
}

/// A finding is killed exactly when it is unreachable, uncontrollable, or
/// blocked by preconditions; it passes only when those do not hold, the
/// impact proof is concrete, and the last four questions are answered yes.
pub proof fn law_triage_verdicts(
    reachability: GateAnswer,
    controllability: GateAnswer,
    preconditions: GateAnswer,
    impact: GateAnswer,
    context: GateAnswer,
    evidence: GateAnswer,
    confidence: GateAnswer,
    weak: bool,
)
    ensures
        (gate_verdict(reachability, controllability, preconditions, impact, context, evidence, confidence, weak)
            == TriageVerdict::Kill) <==> (reachability == GateAnswer::No || controllability == GateAnswer::No
            || preconditions == GateAnswer::Yes),
        (gate_verdict(reachability, controllability, preconditions, impact, context, evidence, confidence, weak)
            == TriageVerdict::Pass) <==> (reachability != GateAnswer::No && controllability != GateAnswer::No
            && preconditions != GateAnswer::Yes && !weak && impact == GateAnswer::Yes && context == GateAnswer::Yes
            && evidence == GateAnswer::Yes && confidence == GateAnswer::Yes),
{
}

/// The verdicts keep a confidence within full confidence, and a kill
/// takes all of it away.
pub proof fn law_adjusted_confidence_bounded(c: u32, v: TriageVerdict)
    requires
        c <= FULL_CONFIDENCE,
    ensures
        adjusted_confidence(c, v) <= FULL_CONFIDENCE,
        v == TriageVerdict::Kill ==> adjusted_confidence(c, v) == 0,
        v == TriageVerdict::Pass ==> adjusted_confidence(c, v) >= c,
        v is Downgrade ==> adjusted_confidence(c, v) <= c,
        v is Downgrade ==> adjusted_confidence(c, v) * 2 <= c && c <= adjusted_confidence(c, v) * 2 + 1,
        v is Downgrade && c > 0 ==> adjusted_confidence(c, v) < c,
        v == TriageVerdict::ChainRequired ==> adjusted_confidence(c, v) == c,
        v == TriageVerdict::Pass ==> (adjusted_confidence(c, v) == FULL_CONFIDENCE && c * 115 >= FULL_CONFIDENCE * 100)
            || (adjusted_confidence(c, v) * 100 <= c * 115 && c * 115 < adjusted_confidence(c, v) * 100 + 100),
{
    if v == TriageVerdict::Pass {
        assert(c * 115 / 100 >= c) by (nonlinear_arith)
            requires c >= 0;
    }
}

/// The confidence of a triaged finding follows the triage outcome:
/// a pass raises it by 15% (rounded down, capped at full confidence), a
/// kill drops it to 0, a downgrade halves it (rounded down), a required
/// chain leaves it; without a result it stays.
pub proof fn law_gate_sets_confidence(new: VulnerabilityFinding, old: VulnerabilityFinding, g: Option<GateResult>)
    requires
        gated(new, old, g),
        old.confidence_bp <= FULL_CONFIDENCE,
    ensures
        g is None ==> new.confidence_bp == old.confidence_bp,
        g matches Some(r) && r.triage_verdict == TriageVerdict::Kill ==> new.confidence_bp == 0,
        g matches Some(r) && r.triage_verdict is Downgrade ==>
            new.confidence_bp * 2 <= old.confidence_bp && old.confidence_bp <= new.confidence_bp * 2 + 1,
        g matches Some(r) && r.triage_verdict == TriageVerdict::ChainRequired ==> new.confidence_bp == old.confidence_bp,
        g matches Some(r) && r.triage_verdict == TriageVerdict::Pass ==>
            (new.confidence_bp == FULL_CONFIDENCE && old.confidence_bp * 115 >= FULL_CONFIDENCE * 100)
            || (new.confidence_bp * 100 <= old.confidence_bp * 115 && old.confidence_bp * 115 < new.confidence_bp * 100 + 100),
{
    if let Some(r) = g {
        law_adjusted_confidence_bounded(old.confidence_bp, r.triage_verdict);
    }
}

} // verus!
