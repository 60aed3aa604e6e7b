//! Splitting of delimited configuration strings, shared by the target
//! resolver (hyphen-delimited descriptor segments) and the feature-flag
//! parser (comma-delimited tokens).

use vstd::prelude::*;
use vstd::string::*;

verus! {

/// Index of the first occurrence of `sep` in `s`, or `s.len()` if absent.
pub open spec fn first_sep(s: Seq<char>, sep: char) -> int
    decreases s.len(),
{
    if s.len() == 0 {
        0
    } else if s[0] == sep {
        0
    } else {
        1 + first_sep(s.subrange(1, s.len() as int), sep)
    }
}

/// The segments of `s` delimited by `sep`: one more segment than there are
/// separators, in order, each free of `sep`.
pub open spec fn split_on(s: Seq<char>, sep: char) -> Seq<Seq<char>>
    decreases s.len(),
{
    let f = first_sep(s, sep);
    if 0 <= f < s.len() {
        seq![s.subrange(0, f)] + split_on(s.subrange(f + 1, s.len() as int), sep)
    } else {
        seq![s]
    }
}

/// The views of a sequence of owned strings.
pub open spec fn views_of(v: Seq<String>) -> Seq<Seq<char>> {
    v.map_values(|t: String| t@)
}

pub proof fn lemma_first_sep_props(s: Seq<char>, sep: char)
    ensures
        0 <= first_sep(s, sep) <= s.len(),
        forall|j: int| 0 <= j < first_sep(s, sep) ==> s[j] != sep,
        first_sep(s, sep) < s.len() ==> s[first_sep(s, sep)] == sep,
    decreases s.len(),
{
    if s.len() == 0 {
    } else if s[0] == sep {
    } else {
        let tail = s.subrange(1, s.len() as int);
        lemma_first_sep_props(tail, sep);
        assert(forall|j: int| 1 <= j < first_sep(s, sep) ==> s[j] == tail[j - 1]);
    }
}

/// `first_sep` is pinned by any index that the separator first appears at.
pub proof fn lemma_first_sep_at(s: Seq<char>, sep: char, k: int)
    requires
        0 <= k <= s.len(),
        forall|j: int| 0 <= j < k ==> s[j] != sep,
        k < s.len() ==> s[k] == sep,
    ensures
        first_sep(s, sep) == k,
    decreases s.len(),
{
    if s.len() == 0 {
    } else if k == 0 {
    } else {
        let tail = s.subrange(1, s.len() as int);
        assert(forall|j: int| 0 <= j < k - 1 ==> tail[j] != sep);
        lemma_first_sep_at(tail, sep, k - 1);
    }
}

/// A string without the separator splits into itself alone.
pub proof fn lemma_split_no_sep(s: Seq<char>, sep: char)
    requires
        forall|j: int| 0 <= j < s.len() ==> s[j] != sep,
    ensures
        split_on(s, sep) == seq![s],
{
    lemma_first_sep_at(s, sep, s.len() as int);
}

/// Splitting a separator-free prefix followed by a separator peels off that
/// prefix as the first segment.
pub proof fn lemma_split_prepend(a: Seq<char>, sep: char, rest: Seq<char>)
    requires
        forall|j: int| 0 <= j < a.len() ==> a[j] != sep,
    ensures
        split_on(a + seq![sep] + rest, sep) == seq![a] + split_on(rest, sep),
{
    let s = a + seq![sep] + rest;
    assert(forall|j: int| 0 <= j < a.len() ==> s[j] != sep);
    assert(s[a.len() as int] == sep);
    lemma_first_sep_at(s, sep, a.len() as int);
    assert(s.subrange(0, a.len() as int) =~= a);
    assert(s.subrange(a.len() as int + 1, s.len() as int) =~= rest);
}

/// Every segment produced by `split_on` is free of the separator.
pub proof fn lemma_split_parts_no_sep(s: Seq<char>, sep: char)
    ensures
        forall|k: int, j: int|
            0 <= k < split_on(s, sep).len() && 0 <= j < split_on(s, sep)[k].len() ==> #[trigger] split_on(
                s,
                sep,
            )[k][j] != sep,
    decreases s.len(),
{
    lemma_first_sep_props(s, sep);
    let f = first_sep(s, sep);
    if 0 <= f < s.len() {
        lemma_split_parts_no_sep(s.subrange(f + 1, s.len() as int), sep);
        let head = s.subrange(0, f);
        let rest = split_on(s.subrange(f + 1, s.len() as int), sep);
        assert(split_on(s, sep) == seq![head] + rest);
        assert(forall|j: int| 0 <= j < head.len() ==> head[j] != sep);
        assert(forall|k: int| 1 <= k < split_on(s, sep).len() ==> split_on(s, sep)[k] == rest[k
            - 1]);
    }
}

/// The index of the first `sep` in `s`, or its length if `sep` is absent.
pub fn find_first(s: &str, sep: char) -> (r: usize)
    ensures
        r as int == first_sep(s@, sep),
        r <= s@.len(),
{
    let n = s.unicode_len();
    let mut i: usize = 0;
    while i < n
        invariant
            i <= n,
            n == s@.len(),
            forall|j: int| 0 <= j < i ==> s@[j] != sep,
        decreases n - i,
    {
        if s.get_char(i) == sep {
            proof {
                lemma_first_sep_at(s@, sep, i as int);
            }
            return i;
        }
        i += 1;
    }
    proof {
        lemma_first_sep_at(s@, sep, n as int);
    }
    n
}

/// Split `s` at every occurrence of `sep`, yielding the delimited segments
/// in order.
pub fn split_str(s: &str, sep: char) -> (r: Vec<String>)
    ensures
        views_of(r@) == split_on(s@, sep),
    decreases s@.len(),
{
    let n = s.unicode_len();
    let f = find_first(s, sep);
    if f < n {
        let head = s.substring_char(0, f).to_owned();
        let tail = s.substring_char(f + 1, n);
        let mut r = split_str(tail, sep);
        let ghost rest0 = r@;
        r.insert(0, head);
        proof {
            assert(r@ =~= seq![head] + rest0);
            assert(views_of(r@) =~= seq![head@] + views_of(rest0));
            assert(head@ == s@.subrange(0, f as int));
            assert(tail@ == s@.subrange(f as int + 1, s@.len() as int));
            assert(views_of(r@) == split_on(s@, sep));
        }
        r
    } else {
        let mut r: Vec<String> = Vec::new();
        r.push(s.to_owned());
        proof {
            assert(views_of(r@) =~= seq![s@]);
        }
        r
    }
}

} // verus!
