//! Owner and repository name from a git remote URL.

use vstd::prelude::*;
use crate::text::{
    chars_of, has_prefix, spec_trim, str_starts_with, string_from_chars, strip_leading,
    strip_leading_chars, strip_trailing, strip_trailing_chars, sub_chars, trim,
};

verus! {

/// Index of the first `c` in `s` at or after `from`, or -1.
pub open spec fn index_of(s: Seq<char>, c: char, from: int) -> int
    decreases s.len() - from,
{
    if from < 0 || from >= s.len() {
        -1
    } else if s[from] == c {
        from
    } else {
        index_of(s, c, from + 1)
    }
}

/// `s` cut at its first `c` (`str::split_once`): the parts before and
/// after it, or none when `c` does not occur.
pub open spec fn split_once(s: Seq<char>, c: char) -> Option<(Seq<char>, Seq<char>)> {
    let i = index_of(s, c, 0);
    if i < 0 {
        None
    } else {
        Some((s.subrange(0, i), s.subrange(i + 1, s.len() as int)))
    }
}

/// The part of `s` before its first `c`, all of `s` when there is none
/// (the first piece of `str::split`).
pub open spec fn before_first(s: Seq<char>, c: char) -> Seq<char> {
    match split_once(s, c) {
        Some(p) => p.0,
        None => s,
    }
}

/// Owner and repository of a remote URL: after trimming, an SSH URL
/// `git@host:owner/repo` or an HTTP(S) URL `scheme://host/owner/repo[/...]`;
/// a trailing `.git` is dropped from the repository; anything else gives
/// none.
pub open spec fn owner_repo(url: Seq<char>) -> Option<(Seq<char>, Seq<char>)> {
    let u = spec_trim(url);
    if has_prefix(u, "git@"@) {
        match split_once(strip_leading(u, "git@"@), ':') {
            Some(host_rest) => match split_once(host_rest.1, '/') {
                Some(owner_repo) => Some((owner_repo.0, strip_trailing(owner_repo.1, ".git"@))),
                None => None,
            },
            None => None,
        }
    } else if has_prefix(u, "https://"@) || has_prefix(u, "http://"@) {
        match split_once(strip_leading(strip_leading(u, "https://"@), "http://"@), '/') {
            Some(host_rest) => match split_once(host_rest.1, '/') {
                Some(owner_tail) => Some((owner_tail.0, strip_trailing(before_first(owner_tail.1, '/'), ".git"@))),
                None => None,
            },
            None => None,
        }
    } else {
        None
    }
}

/// Index of the first `c` in `s`, or `None`.
fn find_char(s: &Vec<char>, c: char) -> (r: Option<usize>)
    ensures
        match r {
            Some(i) => index_of(s@, c, 0) == i as int && i < s@.len(),
            None => index_of(s@, c, 0) == -1,
        },
{
    let mut i: usize = 0;
    while i < s.len()
        invariant
            i <= s@.len(),
            index_of(s@, c, 0) == index_of(s@, c, i as int),
        decreases s@.len() - i,
    {
        if s[i] == c {
            return Some(i);
        }
        i = i + 1;
    }
    None
}

/// `s` cut at its first `c`.
fn split_chars_once(s: &Vec<char>, c: char) -> (r: Option<(Vec<char>, Vec<char>)>)
    ensures
        match r {
            Some(p) => split_once(s@, c) == Some((p.0@, p.1@)),
            None => split_once(s@, c) is None,
        },
{
    let found = find_char(s, c);
    match found {
        Some(i) => {
            let n = s.len();
            assert(i < n);
            Some((sub_chars(s, 0, i), sub_chars(s, i + 1, n)))
        },
        None => None,
    }
}

/// Owner and repository name of a git remote URL (SSH `git@host:owner/repo`
/// or HTTP(S) `https://host/owner/repo`), without a trailing `.git`; none
/// when the URL has neither form.
pub fn extract_owner_repo_from_url(url: &str) -> (r: Option<(String, String)>)
    ensures
        match r {
            Some(p) => owner_repo(url@) == Some((p.0@, p.1@)),
            None => owner_repo(url@) is None,
        },
{
    let t = trim(url);
    let u = chars_of(t);
    if str_starts_with(t, "git@") {
        let w = strip_leading_chars(&u, &chars_of("git@"));
        match split_chars_once(&w, ':') {
            Some((_host, rest)) => match split_chars_once(&rest, '/') {
                Some((owner, repo)) => {
                    let repo = strip_trailing_chars(&repo, &chars_of(".git"));
                    Some((string_from_chars(&owner), string_from_chars(&repo)))
                },
                None => None,
            },
            None => None,
        }
    } else if str_starts_with(t, "https://") || str_starts_with(t, "http://") {
        let a = strip_leading_chars(&u, &chars_of("https://"));
        let w = strip_leading_chars(&a, &chars_of("http://"));
        match split_chars_once(&w, '/') {
            Some((_host, rest)) => match split_chars_once(&rest, '/') {
                Some((owner, tail)) => {
                    let repo_part = match split_chars_once(&tail, '/') {
                        Some((r, _)) => r,
                        None => tail,
                    };
                    let repo = strip_trailing_chars(&repo_part, &chars_of(".git"));
                    Some((string_from_chars(&owner), string_from_chars(&repo)))
                },
                None => None,
            },
            None => None,
        }
    } else {
        None
    }
}

} // verus!
