//! Small helpers on the characters of a string.
use vstd::prelude::*;

verus! {

broadcast use vstd::string::group_string_axioms;

/// The characters of `s`, in order.
pub(crate) fn char_vec(s: &str) -> (r: Vec<char>)
    ensures
        r@ == s@,
{
    let mut out: Vec<char> = Vec::new();
    for c in it: s.chars()
        invariant
            out@ == it.seq().take(it.index() as int),
    {
        out.push(c);
    }
    assert(out@ =~= s@);
    out
}

/// The number of characters of `s` from `from` on that come before the first
/// `c`, or before the end where no `c` follows.
pub open spec fn span_before(s: Seq<char>, c: char, from: int) -> nat
    decreases s.len() - from,
{
    if from < 0 || from >= s.len() || s[from] == c {
        0
    } else {
        1 + span_before(s, c, from + 1)
    }
}

/// Dropping a prefix of `s` does not change a span that starts after it.
pub proof fn lemma_span_shift(s: Seq<char>, c: char, d: int, from: int)
    requires
        0 <= d <= from <= s.len(),
    ensures
        span_before(s, c, from) == span_before(s.subrange(d, s.len() as int), c, from - d),
    decreases s.len() - from,
{
    if from < s.len() {
        assert(s.subrange(d, s.len() as int)[from - d] == s[from]);
    }
    if from < s.len() && s[from] != c {
        lemma_span_shift(s, c, d, from + 1);
    }
}

/// A span never runs past the end of `s`.
pub proof fn lemma_span_bound(s: Seq<char>, c: char, from: int)
    requires
        0 <= from <= s.len(),
    ensures
        from + span_before(s, c, from) <= s.len(),
        from + span_before(s, c, from) < s.len() ==> s[from + span_before(s, c, from)] == c,
    decreases s.len() - from,
{
    if from < s.len() && s[from] != c {
        lemma_span_bound(s, c, from + 1);
    }
}

/// Over a run without `c` that ends in a `c`, the span is the run's length.
pub proof fn lemma_span_run(s: Seq<char>, c: char, from: int, to: int)
    requires
        0 <= from <= to < s.len(),
        s[to] == c,
        forall|k: int| from <= k < to ==> s[k] != c,
    ensures
        span_before(s, c, from) == to - from,
    decreases to - from,
{
    if from < to {
        lemma_span_run(s, c, from + 1, to);
    }
}

/// A span that finds its `c` is not changed by what follows `s`.
pub proof fn lemma_span_append(s: Seq<char>, t: Seq<char>, c: char, from: int)
    requires
        0 <= from,
        from + span_before(s, c, from) < s.len(),
    ensures
        span_before(s + t, c, from) == span_before(s, c, from),
    decreases s.len() - from,
{
    if s[from] != c {
        lemma_span_append(s, t, c, from + 1);
    }
}

/// A span in `s` is the same span in `p + s`, moved by `p`'s length.
pub proof fn lemma_span_prepend(p: Seq<char>, s: Seq<char>, c: char, from: int)
    requires
        0 <= from,
    ensures
        span_before(p + s, c, p.len() + from) == span_before(s, c, from),
    decreases s.len() - from,
{
    if from < s.len() && s[from] != c {
        lemma_span_prepend(p, s, c, from + 1);
    }
}

/// The position of the first `c` in `text[from..hi]`, or `hi` if there is none.
pub(crate) fn find_char(text: &[char], c: char, from: usize, hi: usize) -> (r: usize)
    requires
        from <= hi <= text@.len(),
    ensures
        r == from + span_before(text@.subrange(0, hi as int), c, from as int),
        from <= r <= hi,
{
    let ghost s = text@.subrange(0, hi as int);
    let mut k: usize = from;
    while k < hi && text[k] != c
        invariant
            from <= k <= hi <= text@.len(),
            s == text@.subrange(0, hi as int),
            span_before(s, c, from as int) == (k - from) + span_before(s, c, k as int),
        decreases hi - k,
    {
        k = k + 1;
    }
    k
}

/// Relies on `String::push`: appends one character at the end.
#[verifier::external_body]
pub(crate) fn push_char(s: &mut String, c: char)
    ensures
        final(s)@ == old(s)@.push(c),
{
    s.push(c)
}

/// Appends `text[lo..hi]` to `out`.
pub(crate) fn push_range(out: &mut String, text: &[char], lo: usize, hi: usize)
    requires
        lo <= hi <= text@.len(),
    ensures
        final(out)@ == old(out)@ + text@.subrange(lo as int, hi as int),
{
    let mut k: usize = lo;
    while k < hi
        invariant
            lo <= k <= hi <= text@.len(),
            out@ == old(out)@ + text@.subrange(lo as int, k as int),
        decreases hi - k,
    {
        push_char(out, text[k]);
        assert(text@.subrange(lo as int, k + 1) =~= text@.subrange(lo as int, k as int).push(text@[k as int]));
        k = k + 1;
    }
}

} // verus!
