//! The LLM call budget of static analysis: which files are sent for
//! analysis, and the share of calls kept for high-risk files.

use vstd::prelude::*;
use crate::finding::{string_listed, strings_view};
use crate::text::{contains_seq, str_contains};

verus! {

/// A file name that marks a high-risk (entry-point) file.
pub open spec fn high_risk_name(name: Seq<char>) -> bool {
    ||| contains_seq(name, "main."@)
    ||| contains_seq(name, "index."@)
    ||| contains_seq(name, "app."@)
    ||| contains_seq(name, "server."@)
    ||| contains_seq(name, "__init__."@)
}

/// Whether `file_name` marks a high-risk (entry-point) file.
pub fn is_high_risk_file(file_name: &str) -> (r: bool)
    ensures
        r == high_risk_name(file_name@),
{
    str_contains(file_name, "main.") || str_contains(file_name, "index.") || str_contains(file_name, "app.")
        || str_contains(file_name, "server.") || str_contains(file_name, "__init__.")
}

/// What happens to a file in static analysis.
#[derive(Debug, Clone, Copy, PartialEq, Eq, Structural)]
pub enum FileStep {
    /// Analyzed in an earlier run.
    AlreadyAnalyzed,
    /// Its share of the budget is spent.
    OverBudget,
    Analyze,
}

/// The LLM call budget of one static analysis run.
pub struct LlmBudget {
    /// Calls allowed in all.
    pub max_calls: usize,
    /// Calls allowed for files that are not high-risk; the calls above it
    /// are reserved for high-risk files.
    pub normal_cap: usize,
    /// Successful calls so far.
    pub calls: usize,
    /// High-risk files sent for analysis out of the reserve.
    pub high_risk_protected: usize,
    /// Files skipped because their share of the budget was spent.
    pub skipped_by_budget: Vec<String>,
}

/// The calls a file may use: all for a high-risk file, the normal share
/// for any other.
pub open spec fn file_cap(b: LlmBudget, name: Seq<char>) -> usize {
    if high_risk_name(name) { b.max_calls } else { b.normal_cap }
}

/// What happens to the file at `path` named `name`: skipped when it was
/// analyzed before, or when the calls made reach its cap; analyzed
/// otherwise.
pub open spec fn spec_file_step(b: LlmBudget, analyzed: Seq<Seq<char>>, path: Seq<char>, name: Seq<char>) -> FileStep {
    if analyzed.contains(path) {
        FileStep::AlreadyAnalyzed
    } else if b.calls >= file_cap(b, name) {
        FileStep::OverBudget
    } else {
        FileStep::Analyze
    }
}

impl LlmBudget {
    /// The normal share lies within the budget, and so do the calls made.
    pub open spec fn wf(self) -> bool {
        self.normal_cap <= self.max_calls && self.calls <= self.max_calls
    }

    /// A budget of `max_calls` calls of which `reserve` are kept for
    /// high-risk files (all of them when `reserve` exceeds the budget).
    pub fn new(max_calls: usize, reserve: usize) -> (b: Self)
        ensures
            b.wf(),
            b.max_calls == max_calls,
            b.normal_cap == (if reserve <= max_calls { max_calls - reserve } else { 0 }),
            b.calls == 0,
            b.high_risk_protected == 0,
            b.skipped_by_budget@.len() == 0,
    {
        LlmBudget {
            max_calls,
            normal_cap: max_calls.saturating_sub(reserve),
            calls: 0,
            high_risk_protected: 0,
            skipped_by_budget: Vec::new(),
        }
    }

    /// Decides what happens to the file at `path` named `file_name`,
    /// given the files analyzed before: a file over budget is recorded as
    /// skipped; a high-risk file analyzed once the normal share is spent
    /// is counted as protected by the reserve.
    pub fn next_file(&mut self, analyzed_files: &[String], path: &str, file_name: &str) -> (s: FileStep)
        requires
            old(self).wf(),
            old(self).high_risk_protected < usize::MAX,
        ensures
            s == spec_file_step(*old(self), strings_view(analyzed_files@), path@, file_name@),
            final(self).wf(),
            final(self).max_calls == old(self).max_calls,
            final(self).normal_cap == old(self).normal_cap,
            final(self).calls == old(self).calls,
            strings_view(final(self).skipped_by_budget@) == if s == FileStep::OverBudget {
                strings_view(old(self).skipped_by_budget@).push(path@)
            } else {
                strings_view(old(self).skipped_by_budget@)
            },
            final(self).high_risk_protected == old(self).high_risk_protected + if s == FileStep::Analyze
                && high_risk_name(file_name@) && old(self).calls >= old(self).normal_cap { 1int } else { 0int },
    {
        if string_listed(analyzed_files, path) {
            return FileStep::AlreadyAnalyzed;
        }
        let high_risk = is_high_risk_file(file_name);
        let cap = if high_risk { self.max_calls } else { self.normal_cap };
        if self.calls >= cap {
            let ghost before = strings_view(self.skipped_by_budget@);
            self.skipped_by_budget.push(path.to_string());
            assert(strings_view(self.skipped_by_budget@) =~= before.push(path@));
            return FileStep::OverBudget;
        }
        if high_risk && self.calls >= self.normal_cap {
            self.high_risk_protected = self.high_risk_protected + 1;
        }
        FileStep::Analyze
    }

    /// Records a successful call.
    pub fn record_call(&mut self)
        requires
            old(self).wf(),
            old(self).calls < old(self).max_calls,
        ensures
            final(self).wf(),
            final(self).calls == old(self).calls + 1,
            final(self).max_calls == old(self).max_calls,
            final(self).normal_cap == old(self).normal_cap,
            final(self).high_risk_protected == old(self).high_risk_protected,
            final(self).skipped_by_budget@ == old(self).skipped_by_budget@,
    {
        self.calls = self.calls + 1;
    }
}

/// A file is sent for analysis only while calls are left: within the
/// whole budget always, and within the normal share unless it is
/// high-risk; so a successful call can always be recorded.
pub proof fn law_analysis_within_budget(b: LlmBudget, analyzed: Seq<Seq<char>>, path: Seq<char>, name: Seq<char>)
    requires
        b.wf(),
        spec_file_step(b, analyzed, path, name) == FileStep::Analyze,
    ensures
        b.calls < b.max_calls,
        !high_risk_name(name) ==> b.calls < b.normal_cap,
        !analyzed.contains(path),
{
}

/// Once the normal share is spent, only high-risk files are analyzed.
pub proof fn law_reserve_only_for_high_risk(b: LlmBudget, analyzed: Seq<Seq<char>>, path: Seq<char>, name: Seq<char>)
    requires
        b.wf(),
        b.calls >= b.normal_cap,
        spec_file_step(b, analyzed, path, name) == FileStep::Analyze,
    ensures
        high_risk_name(name),
{
}

/// Entry-point files (a name holding `main.`, `index.`, `app.`,
/// `server.` or `__init__.`) not analyzed before are analyzed while any
/// call of the whole budget is left, the reserve included; any other file
/// is skipped once the normal share is spent.
pub proof fn law_entry_points_use_reserve(b: LlmBudget, analyzed: Seq<Seq<char>>, path: Seq<char>, name: Seq<char>)
    requires
        b.wf(),
        !analyzed.contains(path),
    ensures
        (contains_seq(name, "main."@) || contains_seq(name, "index."@) || contains_seq(name, "app."@)
            || contains_seq(name, "server."@) || contains_seq(name, "__init__."@)) && b.calls < b.max_calls
            ==> spec_file_step(b, analyzed, path, name) == FileStep::Analyze,
        !(contains_seq(name, "main."@) || contains_seq(name, "index."@) || contains_seq(name, "app."@)
            || contains_seq(name, "server."@) || contains_seq(name, "__init__."@)) && b.calls >= b.normal_cap
            ==> spec_file_step(b, analyzed, path, name) == FileStep::OverBudget,
{
}

} // verus!
