//! LLM static analysis around the model calls: the policy-sampling prompt
//! and the weaknesses its replies name, the context put before the
//! analysis, and the triage of files before deep analysis.

use vstd::prelude::*;
use crate::finding::{opt_view, string_listed, strings_view};
use crate::text::{
    chars_of, join_strings, joined, spec_trim, str_eq, string_from_chars, strip_leading, strip_leading_chars,
    strip_trailing, strip_trailing_chars, trim,
};

verus! {

/// The language label of a file's language hint in a sampling prompt.
pub open spec fn spec_sampling_language(hint: Seq<char>) -> Seq<char> {
    if hint == "rust"@ || hint == "Rust"@ {
        "rust"@
    } else if hint == "c"@ || hint == "C"@ {
        "c"@
    } else if hint == "python"@ || hint == "Python"@ {
        "python"@
    } else if hint == "javascript"@ || hint == "JavaScript"@ || hint == "typescript"@ || hint == "TypeScript"@ {
        "javascript"@
    } else {
        "plaintext"@
    }
}

/// The language label for the language hint `hint`.
pub fn sampling_language(hint: &str) -> (s: &'static str)
    ensures
        s@ == spec_sampling_language(hint@),
{
    if str_eq(hint, "rust") || str_eq(hint, "Rust") {
        "rust"
    } else if str_eq(hint, "c") || str_eq(hint, "C") {
        "c"
    } else if str_eq(hint, "python") || str_eq(hint, "Python") {
        "python"
    } else if str_eq(hint, "javascript") || str_eq(hint, "JavaScript") || str_eq(hint, "typescript")
        || str_eq(hint, "TypeScript") {
        "javascript"
    } else {
        "plaintext"
    }
}

/// The prompt of one policy sample for the file at `path` in language
/// `lang` with contents `content`.
pub open spec fn spec_sampling_prompt(path: Seq<char>, lang: Seq<char>, content: Seq<char>) -> Seq<char> {
    "Analyze this file for vulnerabilities. List CWE IDs you suspect.\n\nFile: "@ + path + "\n```"@ + lang + "\n"@
        + content + "\n```"@
}

/// The prompt of one policy sample.
pub fn policy_sampling_prompt(path: &str, lang: &str, content: &str) -> (s: String)
    ensures
        s@ == spec_sampling_prompt(path@, lang@, content@),
{
    let mut s = String::from_str("Analyze this file for vulnerabilities. List CWE IDs you suspect.\n\nFile: ");
    s.append(path);
    s.append("\n```");
    s.append(lang);
    s.append("\n");
    s.append(content);
    s.append("\n```");
    s
}

/// The successive non-overlapping matches of the regular expression
/// `pattern` in `text`, as the `regex` crate finds them; none when the
/// pattern does not compile.
pub uninterp spec fn regex_all_matches(pattern: Seq<char>, text: Seq<char>) -> Seq<Seq<char>>;

/// The matches of `pattern` in `text` (`Regex::new`, then
/// `Regex::find_iter`).
#[verifier::external_body]
fn all_matches(pattern: &str, text: &str) -> (r: Vec<String>)
    ensures
        strings_view(r@) == regex_all_matches(pattern@, text@),
{
    match regex::Regex::new(pattern) {
        Ok(re) => re.find_iter(text).map(|m| m.as_str().to_string()).collect(),
        Err(_) => Vec::new(),
    }
}

/// The weakness ids a reply names, in order of appearance.
pub open spec fn named_cwes(reply: Seq<char>) -> Seq<Seq<char>> {
    regex_all_matches("CWE-\\d+"@, reply)
}

/// `s` without the items already in `seen`, in order, each once.
pub open spec fn new_distinct(seen: Seq<Seq<char>>, s: Seq<Seq<char>>) -> Seq<Seq<char>>
    decreases s.len(),
{
    if s.len() == 0 {
        seen
    } else {
        let prev = new_distinct(seen, s.drop_last());
        if prev.contains(s.last()) { prev } else { prev.push(s.last()) }
    }
}

/// Adds the weakness ids `reply` names to `cwes`, each once.
pub fn collect_policy_cwes(cwes: &mut Vec<String>, reply: &str)
    ensures
        strings_view(final(cwes)@) == new_distinct(strings_view(old(cwes)@), named_cwes(reply@)),
{
    let found = all_matches("CWE-\\d+", reply);
    let ghost seen = strings_view(cwes@);
    let ghost ids = strings_view(found@);
    let mut i: usize = 0;
    while i < found.len()
        invariant
            i <= found@.len(),
            ids == strings_view(found@),
            strings_view(cwes@) == new_distinct(seen, ids.take(i as int)),
        decreases found@.len() - i,
    {
        proof {
            assert(ids.take(i + 1).drop_last() =~= ids.take(i as int));
        }
        if !string_listed(cwes.as_slice(), found[i].as_str()) {
            let ghost before = strings_view(cwes@);
            cwes.push(found[i].clone());
            assert(strings_view(cwes@) =~= before.push(ids[i as int]));
        }
        i = i + 1;
    }
    assert(ids.take(found@.len() as int) =~= ids);
}

/// The note on the weaknesses policy sampling found: none when it found
/// none.
pub open spec fn spec_policy_note(cwes: Seq<Seq<char>>) -> Option<Seq<char>> {
    if cwes.len() == 0 {
        None
    } else {
        Some("Policy sampling suggests these CWEs may be present: "@ + joined(cwes, ", "@) + ". Verify carefully."@)
    }
}

/// The note on the weaknesses policy sampling found.
pub fn policy_note(cwes: &[String]) -> (r: Option<String>)
    ensures
        opt_view(r) == spec_policy_note(strings_view(cwes@)),
{
    if cwes.len() == 0 {
        return None;
    }
    let list = join_strings(cwes, ", ");
    let mut s = String::from_str("Policy sampling suggests these CWEs may be present: ");
    s.append(list.as_str());
    s.append(". Verify carefully.");
    Some(s)
}

/// The context put before the analysis of a file: the built context and
/// the policy note, separated by a blank line when there are both.
pub fn combined_context_prefix(context: Option<String>, policy: Option<String>) -> (r: Option<String>)
    ensures
        opt_view(r) == match (opt_view(context), opt_view(policy)) {
            (Some(c), Some(p)) => Some(c + "\n\n"@ + p),
            (Some(c), None) => Some(c),
            (None, Some(p)) => Some(p),
            (None, None) => None,
        },
{
    match (context, policy) {
        (Some(c), Some(p)) => {
            let mut s = c;
            s.append("\n\n");
            s.append(p.as_str());
            Some(s)
        },
        (Some(c), None) => Some(c),
        (None, Some(p)) => Some(p),
        (None, None) => None,
    }
}

/// A triage reply without surrounding whitespace, its leading code fences
/// and its trailing fences.
pub open spec fn cleaned_triage(reply: Seq<char>) -> Seq<char> {
    spec_trim(strip_trailing(strip_trailing(strip_leading(strip_leading(spec_trim(reply), "```json"@), "```"@), "```"@), "~~~"@))
}

/// A triage reply without its code fences.
pub fn clean_triage_reply(reply: &str) -> (r: String)
    ensures
        r@ == cleaned_triage(reply@),
{
    let t = chars_of(trim(reply));
    let a = strip_leading_chars(&t, &chars_of("```json"));
    let b = strip_leading_chars(&a, &chars_of("```"));
    let c = strip_trailing_chars(&b, &chars_of("```"));
    let d = strip_trailing_chars(&c, &chars_of("~~~"));
    let s = string_from_chars(&d);
    String::from_str(trim(s.as_str()))
}

/// The files of a batch that were not analyzed before, in order.
pub open spec fn not_yet_analyzed(batch: Seq<Seq<char>>, analyzed: Seq<Seq<char>>) -> Seq<Seq<char>>
    decreases batch.len(),
{
    if batch.len() == 0 {
        Seq::empty()
    } else {
        let prev = not_yet_analyzed(batch.drop_last(), analyzed);
        if analyzed.contains(batch.last()) { prev } else { prev.push(batch.last()) }
    }
}

/// The files of `batch` not analyzed before: those triage sends to
/// analysis, and those analyzed anyway when the triage call fails.
pub fn unanalyzed_files(batch: &[String], analyzed_files: &[String]) -> (r: Vec<String>)
    ensures
        strings_view(r@) == not_yet_analyzed(strings_view(batch@), strings_view(analyzed_files@)),
{
    let ghost b = strings_view(batch@);
    let ghost a = strings_view(analyzed_files@);
    let mut r: Vec<String> = Vec::new();
    let mut i: usize = 0;
    while i < batch.len()
        invariant
            i <= batch@.len(),
            b == strings_view(batch@),
            a == strings_view(analyzed_files@),
            strings_view(r@) == not_yet_analyzed(b.take(i as int), a),
        decreases batch@.len() - i,
    {
        proof {
            assert(b.take(i + 1).drop_last() =~= b.take(i as int));
        }
        if !string_listed(analyzed_files, batch[i].as_str()) {
            let ghost before = strings_view(r@);
            r.push(batch[i].clone());
            assert(strings_view(r@) =~= before.push(b[i as int]));
        }
        i = i + 1;
    }
    assert(b.take(batch@.len() as int) =~= b);
    r
}

/// One file the triage reply judged: its path and whether its suspicion
/// reached the threshold.
pub struct TriageItem {
    pub file: String,
    pub passes: bool,
}

/// The files triage sends to analysis and those it skips, after the first
/// `n` judged items: a passing item sends its file when the batch holds
/// it; a failing one skips the file it names.
pub open spec fn triage_split(batch: Seq<Seq<char>>, items: Seq<TriageItem>, n: int) -> (Seq<Seq<char>>, Seq<Seq<char>>)
    decreases n,
{
    if n <= 0 {
        (Seq::empty(), Seq::empty())
    } else {
        let prev = triage_split(batch, items, n - 1);
        let it = items[n - 1];
        if it.passes {
            if batch.contains(it.file@) { (prev.0.push(it.file@), prev.1) } else { prev }
        } else {
            (prev.0, prev.1.push(it.file@))
        }
    }
}

/// Splits a batch by the triage reply's judgements: the files to analyze
/// and those skipped.
pub fn triage_batch(batch: &[String], items: &[TriageItem]) -> (r: (Vec<String>, Vec<String>))
    ensures
        (strings_view(r.0@), strings_view(r.1@)) == triage_split(strings_view(batch@), items@, items@.len() as int),
{
    let ghost b = strings_view(batch@);
    let mut analyze: Vec<String> = Vec::new();
    let mut skipped: Vec<String> = Vec::new();
    let mut i: usize = 0;
    while i < items.len()
        invariant
            i <= items@.len(),
            b == strings_view(batch@),
            (strings_view(analyze@), strings_view(skipped@)) == triage_split(b, items@, i as int),
        decreases items@.len() - i,
    {
        let it = &items[i];
        if it.passes {
            if string_listed(batch, it.file.as_str()) {
                let ghost before = strings_view(analyze@);
                analyze.push(it.file.clone());
                assert(strings_view(analyze@) =~= before.push(it.file@));
            }
        } else {
            let ghost before = strings_view(skipped@);
            skipped.push(it.file.clone());
            assert(strings_view(skipped@) =~= before.push(it.file@));
        }
        i = i + 1;
    }
    (analyze, skipped)
}

} // verus!
