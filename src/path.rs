use vstd::prelude::*;

verus! {

/// Index of the first `/` in `s` at or after `i`, or `s.len()` when there is none.
pub open spec fn next_slash(s: Seq<char>, i: int) -> int
    decreases s.len() - i,
{
    if i < 0 || i >= s.len() {
        s.len() as int
    } else if s[i] == '/' {
        i
    } else {
        next_slash(s, i + 1)
    }
}

/// The `n`-th `/`-delimited segment of `s`, counting from the segment that
/// starts at index `i`; `None` when there are not that many.
pub open spec fn segment_from(s: Seq<char>, i: int, n: nat) -> Option<Seq<char>>
    decreases n,
{
    let e = next_slash(s, i);
    if n == 0 {
        Some(s.subrange(i, e))
    } else if e >= s.len() {
        None
    } else {
        segment_from(s, e + 1, (n - 1) as nat)
    }
}

/// What `s.split('/').nth(n)` gives.
pub open spec fn nth_segment(s: Seq<char>, n: nat) -> Option<Seq<char>> {
    segment_from(s, 0, n)
}

/// Number of `/` in `s` from index `i` on.
pub open spec fn slashes_from(s: Seq<char>, i: int) -> nat
    decreases s.len() - i,
{
    if i < 0 || i >= s.len() {
        0
    } else {
        (if s[i] == '/' { 1nat } else { 0nat }) + slashes_from(s, i + 1)
    }
}

/// Number of `/`-delimited segments of `s`: one more than its slashes.
pub open spec fn segment_count(s: Seq<char>) -> nat {
    slashes_from(s, 0) + 1
}

proof fn lemma_next_slash_bounds(s: Seq<char>, i: int)
    requires
        0 <= i <= s.len(),
    ensures
        i <= next_slash(s, i) <= s.len(),
        next_slash(s, i) < s.len() ==> s[next_slash(s, i)] == '/',
        forall|k: int| i <= k < next_slash(s, i) ==> s[k] != '/',
    decreases s.len() - i,
{
    if i < s.len() && s[i] != '/' {
        lemma_next_slash_bounds(s, i + 1);
    }
}

/// `next_slash` is the first slash: with no slash in `s[i..j]` and one at `j`
/// (or `j` at the end), it is `j`.
pub proof fn lemma_next_slash_at(s: Seq<char>, i: int, j: int)
    requires
        0 <= i <= j <= s.len(),
        j == s.len() || s[j] == '/',
        forall|k: int| i <= k < j ==> s[k] != '/',
    ensures
        next_slash(s, i) == j,
    decreases j - i,
{
    if i < j {
        lemma_next_slash_at(s, i + 1, j);
    }
}

proof fn lemma_slashes_skip(s: Seq<char>, i: int)
    requires
        0 <= i <= s.len(),
    ensures
        slashes_from(s, i) == slashes_from(s, next_slash(s, i)),
    decreases s.len() - i,
{
    if i < s.len() && s[i] != '/' {
        lemma_slashes_skip(s, i + 1);
    }
}

/// A string with fewer than `n + 1` segments has no `n`-th one.
pub proof fn lemma_segment_needs_slashes(s: Seq<char>, i: int, n: nat)
    requires
        0 <= i <= s.len(),
        slashes_from(s, i) < n,
    ensures
        segment_from(s, i, n) is None,
    decreases n,
{
    lemma_next_slash_bounds(s, i);
    lemma_slashes_skip(s, i);
    let e = next_slash(s, i);
    if e < s.len() {
        assert(slashes_from(s, e) == 1 + slashes_from(s, e + 1));
        lemma_segment_needs_slashes(s, e + 1, (n - 1) as nat);
    }
}

/// Finds the first `/` in `text` at or after `i`.
fn find_slash(text: &str, len: usize, i: usize) -> (r: usize)
    requires
        len == text@.len(),
        i <= len,
    ensures
        r == next_slash(text@, i as int),
        i <= r <= len,
{
    let mut j: usize = i;
    while j < len && text.get_char(j) != '/'
        invariant
            len == text@.len(),
            i <= j <= len,
            next_slash(text@, i as int) == next_slash(text@, j as int),
        decreases len - j,
    {
        j = j + 1;
    }
    j
}

/// The `n`-th `/`-delimited segment of `text`, counting from zero: what
/// `text.split('/').nth(n)` gives.
pub fn path_segment(text: &str, n: usize) -> (r: Option<String>)
    ensures
        r is Some <==> nth_segment(text@, n as nat) is Some,
        r matches Some(seg) ==> Some(seg@) == nth_segment(text@, n as nat),
{
    let len = text.unicode_len();
    let mut start: usize = 0;
    let mut k: usize = 0;
    while k < n
        invariant
            len == text@.len(),
            start <= len,
            k <= n,
            nth_segment(text@, n as nat) == segment_from(text@, start as int, (n - k) as nat),
        decreases n - k,
    {
        let e = find_slash(text, len, start);
        if e >= len {
            return None;
        }
        start = e + 1;
        k = k + 1;
    }
    let e = find_slash(text, len, start);
    let seg = text.substring_char(start, e);
    Some(seg.to_owned())
}

} // verus!
