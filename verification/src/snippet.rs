//! Code snippets: a window of source lines around a target line, each
//! line numbered, the target marked with `>>`.

use vstd::prelude::*;
use crate::text::{dec, decimal, decimal_padded, pad_left, spec_lines, text_lines};

verus! {

/// What reading a source file gave.
#[derive(Debug)]
pub enum SourceText {
    /// No file at the path.
    Missing,
    /// The file exists but could not be read.
    Unreadable,
    /// The file's contents.
    Text(String),
}

/// First and one-past-last line index of the window around `target`
/// (1-based; 0 counts as 1) with `ctx` lines of context, in a text of `n`
/// lines; a target past the end shows the last `ctx` lines.
pub open spec fn window(n: int, target: int, ctx: int) -> (int, int) {
    let t = if target >= 1 { target - 1 } else { 0 };
    if t >= n {
        if n > ctx { (n - ctx, n) } else { (0, n) }
    } else {
        (if t >= ctx { t - ctx } else { 0 }, if t + ctx + 1 < n { t + ctx + 1 } else { n })
    }
}

/// Line `idx` (0-based) rendered: marker, number padded to 4, ` | `, text.
pub open spec fn render_line(lines: Seq<Seq<char>>, idx: int, target: u32) -> Seq<char> {
    let num = (idx + 1) as u32;
    let marker = if num == target { " >> "@ } else { "    "@ };
    marker + pad_left(dec(num as nat), 4) + " | "@ + lines[idx] + "\n"@
}

/// Lines `start..end` rendered one after the other.
pub open spec fn render_lines(lines: Seq<Seq<char>>, start: int, end: int, target: u32) -> Seq<char>
    decreases end - start,
{
    if end <= start {
        Seq::empty()
    } else {
        render_lines(lines, start, end - 1, target) + render_line(lines, end - 1, target)
    }
}

/// The snippet for `target` with `ctx` context lines, from what reading
/// the file gave.
pub open spec fn spec_snippet(src: SourceText, target: u32, ctx: nat) -> Seq<char> {
    match src {
        SourceText::Missing => "Line "@ + dec(target as nat) + ": [file not found]"@,
        SourceText::Unreadable => "Line "@ + dec(target as nat) + ": [unable to read file]"@,
        SourceText::Text(t) => {
            let lines = spec_lines(t@);
            let w = window(lines.len() as int, target as int, ctx as int);
            render_lines(lines, w.0, w.1, target)
        }
    }
}

/// The snippet for `target_line` with `context_lines` lines of context
/// around it, from what reading the file gave.
pub fn code_snippet(src: &SourceText, target_line: u32, context_lines: usize) -> (s: String)
    ensures
        s@ == spec_snippet(*src, target_line, context_lines as nat),
{
    match src {
        SourceText::Missing => {
            let mut s = String::from_str("Line ");
            let d = decimal(target_line as u64);
            s.append(d.as_str());
            s.append(": [file not found]");
            s
        }
        SourceText::Unreadable => {
            let mut s = String::from_str("Line ");
            let d = decimal(target_line as u64);
            s.append(d.as_str());
            s.append(": [unable to read file]");
            s
        }
        SourceText::Text(content) => {
            let lines = text_lines(content.as_str());
            let ghost ls = spec_lines(content@);
            let n = lines.len();
            let t: usize = if target_line >= 1 { (target_line - 1) as usize } else { 0 };
            let (start, end) = if t >= n {
                if n > context_lines { (n - context_lines, n) } else { (0, n) }
            } else {
                (if t >= context_lines { t - context_lines } else { 0 },
                 if context_lines < n - t - 1 { t + context_lines + 1 } else { n })
            };
            assert((start as int, end as int) == window(ls.len() as int, target_line as int, context_lines as int));
            let mut s = String::new();
            let mut idx: usize = start;
            while idx < end
                invariant
                    start <= idx <= end <= n,
                    n == lines@.len(),
                    lines@.len() == ls.len(),
                    forall|i: int| 0 <= i < lines@.len() ==> #[trigger] lines@[i]@ == ls[i],
                    s@ == render_lines(ls, start as int, idx as int, target_line),
                decreases end - idx,
            {
                let num: u32 = #[verifier::truncate] ((idx + 1) as u32);
                if num == target_line {
                    s.append(" >> ");
                } else {
                    s.append("    ");
                }
                let d = decimal_padded(num as u64, 4);
                s.append(d.as_str());
                s.append(" | ");
                s.append(lines[idx].as_str());
                s.append("\n");
                idx = idx + 1;
            }
            s
        }
    }
}

} // verus!
