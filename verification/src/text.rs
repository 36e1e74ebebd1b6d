//! Small verified helpers on text.

use vstd::prelude::*;

verus! {

/// The texts that strings hold, one for one.
pub open spec fn texts(strings: Seq<String>) -> Seq<Seq<char>> {
    strings.map_values(|s: String| s@)
}

/// The text that an optional string holds, if any.
pub open spec fn opt_text(string: Option<String>) -> Option<Seq<char>> {
    match string {
        Some(s) => Some(s@),
        None => None,
    }
}

/// The text that an optional string slice holds, if any.
pub open spec fn opt_str_text(string: Option<&str>) -> Option<Seq<char>> {
    match string {
        Some(s) => Some(s@),
        None => None,
    }
}

/// Whether two string slices hold the same characters.
pub fn same_text(a: &str, b: &str) -> (same: bool)
    ensures
        same == (a@ == b@),
{
    let left: String = a.to_owned();
    let right: String = b.to_owned();
    left == right
}

/// `s` ends with `suffix`.
pub open spec fn spec_ends_with(s: Seq<char>, suffix: Seq<char>) -> bool {
    suffix.len() <= s.len() && s.subrange(s.len() - suffix.len(), s.len() as int) == suffix
}

/// Whether `s` ends with `suffix`, character for character.
pub fn ends_with(s: &str, suffix: &str) -> (yes: bool)
    ensures
        yes == spec_ends_with(s@, suffix@),
{
    let n: usize = s.unicode_len();
    let m: usize = suffix.unicode_len();
    if m > n {
        return false;
    }
    let tail: &str = s.substring_char(n - m, n);
    same_text(tail, suffix)
}

/// What follows the last `/` of `path`; the whole of `path` when it has none.
pub open spec fn spec_last_segment(path: Seq<char>) -> Seq<char>
    decreases path.len(),
{
    if path.len() == 0 {
        path
    } else if path.last() == '/' {
        Seq::<char>::empty()
    } else {
        spec_last_segment(path.drop_last()).push(path.last())
    }
}

/// The segment of a URL path after its last `/`.
pub fn last_segment(path: &str) -> (segment: String)
    ensures
        segment@ == spec_last_segment(path@),
{
    let n: usize = path.unicode_len();
    let mut start: usize = n;
    while start > 0 && path.get_char(start - 1) != '/'
        invariant
            start <= n,
            n == path@.len(),
            forall|k: int| start <= k < n ==> path@[k] != '/',
        decreases start,
    {
        start = start - 1;
    }
    proof {
        lemma_last_segment(path@, start as int);
    }
    path.substring_char(start, n).to_owned()
}

/// A path whose characters from `start` on hold no `/`, and which is empty
/// before `start` or has a `/` just before it, has its tail from `start` as
/// its last segment.
pub proof fn lemma_last_segment(path: Seq<char>, start: int)
    requires
        0 <= start <= path.len(),
        forall|k: int| start <= k < path.len() ==> path[k] != '/',
        start == 0 || path[start - 1] == '/',
    ensures
        spec_last_segment(path) == path.subrange(start, path.len() as int),
    decreases path.len(),
{
    if start < path.len() {
        lemma_last_segment(path.drop_last(), start);
    }
}

/// The text `s` followed by a line feed.
pub fn with_newline(s: &str) -> (line: String)
    ensures
        line@ == s@.push('\n'),
{
    let owned: String = s.to_owned();
    let line = owned.concat("\n");
    proof {
        reveal_strlit("\n");
    }
    line
}

} // verus!
