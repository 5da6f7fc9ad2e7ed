use vstd::prelude::*;

verus! {

/// The ASCII whitespace characters that trimming removes. Unicode
/// whitespace beyond these — a no-break space, say — is deliberately
/// left in place: the completions and catalog strings the pipeline
/// trims are ASCII-framed, and a closed set keeps the spec exact.
pub open spec fn is_space(c: char) -> bool {
    c == ' ' || c == '\t' || c == '\n' || c == '\r' || c == '\u{000B}' || c == '\u{000C}'
}

/// `s` without its leading whitespace.
pub open spec fn trim_start_spec(s: Seq<char>) -> Seq<char>
    decreases s.len(),
{
    if s.len() > 0 && is_space(s[0]) {
        trim_start_spec(s.drop_first())
    } else {
        s
    }
}

/// `s` without its trailing whitespace.
pub open spec fn trim_end_spec(s: Seq<char>) -> Seq<char>
    decreases s.len(),
{
    if s.len() > 0 && is_space(s.last()) {
        trim_end_spec(s.drop_last())
    } else {
        s
    }
}

/// `s` without leading and trailing whitespace.
pub open spec fn trim_spec(s: Seq<char>) -> Seq<char> {
    trim_end_spec(trim_start_spec(s))
}

/// A string that trimming would leave unchanged.
pub open spec fn trimmed(s: Seq<char>) -> bool {
    s.len() > 0 ==> !is_space(s[0]) && !is_space(s.last())
}

/// `s` starts with the prefix `p`.
pub open spec fn starts_with_spec(s: Seq<char>, p: Seq<char>) -> bool {
    s.len() >= p.len() && s.take(p.len() as int) == p
}

/// `s` ends with the suffix `p`.
pub open spec fn ends_with_spec(s: Seq<char>, p: Seq<char>) -> bool {
    s.len() >= p.len() && s.skip(s.len() - p.len()) == p
}

/// The views of a sequence of owned strings.
pub open spec fn views_of(items: Seq<String>) -> Seq<Seq<char>> {
    items.map_values(|s: String| s@)
}

/// The pieces of `xs` joined with the separator `sep` between neighbours.
pub open spec fn joined(xs: Seq<Seq<char>>, sep: Seq<char>) -> Seq<char>
    decreases xs.len(),
{
    if xs.len() == 0 {
        Seq::<char>::empty()
    } else if xs.len() == 1 {
        xs[0]
    } else {
        joined(xs.drop_last(), sep) + sep + xs.last()
    }
}

/// How many times the character `c` occurs in `s`.
pub open spec fn count_char(s: Seq<char>, c: char) -> nat
    decreases s.len(),
{
    if s.len() == 0 {
        0
    } else {
        count_char(s.drop_last(), c) + (if s.last() == c {
            1nat
        } else {
            0nat
        })
    }
}

/// The index of the first newline in `s`, or `s.len()` if there is none.
pub open spec fn nl_pos(s: Seq<char>) -> int
    decreases s.len(),
{
    if s.len() == 0 {
        0
    } else if s[0] == '\n' {
        0
    } else {
        1 + nl_pos(s.drop_first())
    }
}

/// The text before the first newline: the whole string when there is none.
pub open spec fn first_line_spec(s: Seq<char>) -> Seq<char> {
    s.take(nl_pos(s))
}

/// The text between the first and the second newline; empty when `s` has
/// no newline at all.
pub open spec fn second_line_spec(s: Seq<char>) -> Seq<char> {
    if nl_pos(s) == s.len() {
        Seq::<char>::empty()
    } else {
        first_line_spec(s.skip(nl_pos(s) + 1))
    }
}

/// Decides [`is_space`] on a concrete character.
pub fn is_space_char(c: char) -> (r: bool)
    ensures
        r == is_space(c),
{
    c == ' ' || c == '\t' || c == '\n' || c == '\r' || c == '\u{000B}' || c == '\u{000C}'
}

proof fn lemma_nl_pos_bounds(s: Seq<char>)
    ensures
        0 <= nl_pos(s) <= s.len(),
    decreases s.len(),
{
    if s.len() > 0 && s[0] != '\n' {
        lemma_nl_pos_bounds(s.drop_first());
    }
}

/// The slice of `s` that survives trimming on both sides.
pub fn trim(s: &str) -> (r: &str)
    ensures
        r@ == trim_spec(s@),
{
    let len = s.unicode_len();
    let mut lo: usize = 0;
    proof {
        assert(s@.skip(0) =~= s@);
    }
    while lo < len && is_space_char(s.get_char(lo))
        invariant
            lo <= len,
            len == s@.len(),
            trim_start_spec(s@) == trim_start_spec(s@.skip(lo as int)),
        decreases len - lo,
    {
        proof {
            assert(s@.skip(lo as int)[0] == s@[lo as int]);
            assert(s@.skip(lo as int).drop_first() =~= s@.skip(lo as int + 1));
        }
        lo = lo + 1;
    }
    proof {
        if lo < len {
            assert(s@.skip(lo as int)[0] == s@[lo as int]);
        }
        assert(trim_start_spec(s@) == s@.skip(lo as int));
    }
    let mut hi: usize = len;
    while hi > lo && is_space_char(s.get_char(hi - 1))
        invariant
            lo <= hi <= len,
            len == s@.len(),
            trim_start_spec(s@) == s@.skip(lo as int),
            trim_end_spec(s@.subrange(lo as int, len as int)) == trim_end_spec(
                s@.subrange(lo as int, hi as int),
            ),
        decreases hi,
    {
        proof {
            let cur = s@.subrange(lo as int, hi as int);
            assert(cur.last() == s@[hi as int - 1]);
            assert(cur.drop_last() =~= s@.subrange(lo as int, hi as int - 1));
        }
        hi = hi - 1;
    }
    let r = s.substring_char(lo, hi);
    proof {
        let cur = s@.subrange(lo as int, hi as int);
        if hi > lo {
            assert(cur.last() == s@[hi as int - 1]);
            assert(!is_space(cur.last()));
        }
        assert(trim_end_spec(cur) == cur);
        assert(s@.skip(lo as int) =~= s@.subrange(lo as int, len as int));
    }
    r
}

/// Trimming never leaves whitespace at the start.
pub proof fn lemma_trim_start_no_leading(s: Seq<char>)
    ensures
        trim_start_spec(s).len() > 0 ==> !is_space(trim_start_spec(s)[0]),
    decreases s.len(),
{
    if s.len() > 0 && is_space(s[0]) {
        lemma_trim_start_no_leading(s.drop_first());
    }
}

/// Trimming never leaves whitespace at the end.
pub proof fn lemma_trim_end_no_trailing(s: Seq<char>)
    ensures
        trim_end_spec(s).len() > 0 ==> !is_space(trim_end_spec(s).last()),
    decreases s.len(),
{
    if s.len() > 0 && is_space(s.last()) {
        lemma_trim_end_no_trailing(s.drop_last());
    }
}

/// End-trimming keeps a prefix of the string unchanged.
pub proof fn lemma_trim_end_prefix(s: Seq<char>)
    ensures
        trim_end_spec(s).len() <= s.len(),
        forall|i: int| 0 <= i < trim_end_spec(s).len() ==> trim_end_spec(s)[i] == s[i],
    decreases s.len(),
{
    if s.len() > 0 && is_space(s.last()) {
        lemma_trim_end_prefix(s.drop_last());
        assert forall|i: int| 0 <= i < trim_end_spec(s).len() implies trim_end_spec(s)[i] == s[i] by {
            assert(trim_end_spec(s) == trim_end_spec(s.drop_last()));
            assert(s.drop_last()[i] == s[i]);
        }
    }
}

/// The result of a trim is itself trimmed.
pub proof fn lemma_trim_spec_trimmed(s: Seq<char>)
    ensures
        trimmed(trim_spec(s)),
{
    let t1 = trim_start_spec(s);
    lemma_trim_start_no_leading(s);
    lemma_trim_end_no_trailing(t1);
    lemma_trim_end_prefix(t1);
    if trim_spec(s).len() > 0 {
        assert(trim_spec(s)[0] == t1[0]);
    }
}

/// Trimming a string that is already trimmed returns it unchanged.
pub proof fn lemma_trim_of_trimmed(s: Seq<char>)
    requires
        trimmed(s),
    ensures
        trim_spec(s) == s,
{
    assert(trim_start_spec(s) == s);
    assert(trim_end_spec(s) == s);
}

/// Trimming is idempotent.
pub proof fn lemma_trim_idempotent(s: Seq<char>)
    ensures
        trim_spec(trim_spec(s)) == trim_spec(s),
{
    lemma_trim_spec_trimmed(s);
    lemma_trim_of_trimmed(trim_spec(s));
}

/// A string without an occurrence of `c` counts none.
pub proof fn lemma_count_char_zero(s: Seq<char>, c: char)
    requires
        forall|i: int| 0 <= i < s.len() ==> s[i] != c,
    ensures
        count_char(s, c) == 0,
    decreases s.len(),
{
    if s.len() > 0 {
        assert(forall|i: int| 0 <= i < s.drop_last().len() ==> s.drop_last()[i] == s[i]);
        lemma_count_char_zero(s.drop_last(), c);
    }
}

/// Occurrence counts add up across concatenation.
pub proof fn lemma_count_char_concat(a: Seq<char>, b: Seq<char>, c: char)
    ensures
        count_char(a + b, c) == count_char(a, c) + count_char(b, c),
    decreases b.len(),
{
    if b.len() == 0 {
        assert(a + b =~= a);
    } else {
        assert((a + b).drop_last() =~= a + b.drop_last());
        assert((a + b).last() == b.last());
        lemma_count_char_concat(a, b.drop_last(), c);
    }
}

/// In a join of pieces free of `c`, every occurrence of `c` comes from
/// a separator: one separator fewer than there are pieces.
pub proof fn lemma_joined_count(xs: Seq<Seq<char>>, sep: Seq<char>, c: char)
    requires
        xs.len() > 0,
        forall|i: int| 0 <= i < xs.len() ==> count_char(#[trigger] xs[i], c) == 0,
    ensures
        count_char(joined(xs, sep), c) == (xs.len() - 1) * count_char(sep, c),
    decreases xs.len(),
{
    if xs.len() == 1 {
        assert(joined(xs, sep) == xs[0]);
        assert(count_char(xs[0], c) == 0);
        assert((xs.len() - 1) * count_char(sep, c) == 0);
    } else {
        let ys = xs.drop_last();
        assert(forall|i: int| 0 <= i < ys.len() ==> ys[i] == xs[i]);
        lemma_joined_count(ys, sep, c);
        lemma_count_char_concat(joined(ys, sep), sep, c);
        lemma_count_char_concat(joined(ys, sep) + sep, xs.last(), c);
        assert(count_char(xs.last(), c) == 0);
        assert(joined(xs, sep) == joined(ys, sep) + sep + xs.last());
        assert(count_char(joined(xs, sep), c) == count_char(joined(ys, sep), c) + count_char(
            sep,
            c,
        ));
        assert(count_char(joined(ys, sep), c) == (ys.len() - 1) * count_char(sep, c));
        assert((xs.len() - 2) * count_char(sep, c) + count_char(sep, c) == (xs.len() - 1)
            * count_char(sep, c)) by (nonlinear_arith);
    }
}

/// Joins the strings of `items`, writing `sep` between neighbours.
pub fn join_strings(items: &Vec<String>, sep: &str) -> (r: String)
    ensures
        r@ == joined(views_of(items@), sep@),
{
    let ghost xs = views_of(items@);
    let mut r = String::new();
    let mut i: usize = 0;
    while i < items.len()
        invariant
            i <= items.len(),
            xs == views_of(items@),
            xs.len() == items@.len(),
            r@ == joined(xs.take(i as int), sep@),
        decreases items.len() - i,
    {
        if i > 0 {
            r.append(sep);
        }
        r.append(items[i].as_str());
        proof {
            assert(xs.take(i as int + 1).drop_last() =~= xs.take(i as int));
            assert(xs.take(i as int + 1).last() == xs[i as int]);
            assert(xs[i as int] == items@[i as int]@);
            if i == 0 {
                assert(joined(xs.take(1), sep@) == xs[0]);
                assert(Seq::<char>::empty() + xs[0] =~= xs[0]);
            }
        }
        i = i + 1;
    }
    proof {
        assert(xs.take(items@.len() as int) =~= xs);
    }
    r
}

/// Decides whether `s` starts with the prefix `p`.
pub fn starts_with(s: &str, p: &str) -> (r: bool)
    ensures
        r == starts_with_spec(s@, p@),
{
    let sl = s.unicode_len();
    let pl = p.unicode_len();
    if sl < pl {
        return false;
    }
    let mut i: usize = 0;
    while i < pl
        invariant
            i <= pl,
            pl <= sl,
            sl == s@.len(),
            pl == p@.len(),
            forall|k: int| 0 <= k < i ==> s@[k] == p@[k],
        decreases pl - i,
    {
        if s.get_char(i) != p.get_char(i) {
            proof {
                assert(s@.take(pl as int)[i as int] == s@[i as int]);
            }
            return false;
        }
        i = i + 1;
    }
    proof {
        assert(s@.take(pl as int) =~= p@);
    }
    true
}

/// Decides whether `s` ends with the suffix `p`.
pub fn ends_with(s: &str, p: &str) -> (r: bool)
    ensures
        r == ends_with_spec(s@, p@),
{
    let sl = s.unicode_len();
    let pl = p.unicode_len();
    if sl < pl {
        return false;
    }
    let off = sl - pl;
    let mut i: usize = 0;
    while i < pl
        invariant
            i <= pl,
            off == sl - pl,
            pl <= sl,
            sl == s@.len(),
            pl == p@.len(),
            forall|k: int| 0 <= k < i ==> s@[off + k] == p@[k],
        decreases pl - i,
    {
        if s.get_char(off + i) != p.get_char(i) {
            proof {
                assert(s@.skip(off as int)[i as int] == s@[off + i]);
            }
            return false;
        }
        i = i + 1;
    }
    proof {
        assert(s@.skip(off as int) =~= p@);
    }
    true
}

/// The index of the first newline of `s`, or its length if none occurs.
pub fn find_newline(s: &str) -> (i: usize)
    ensures
        i as int == nl_pos(s@),
        i <= s@.len(),
{
    let len = s.unicode_len();
    let mut i: usize = 0;
    proof {
        assert(s@.skip(0) =~= s@);
    }
    while i < len && s.get_char(i) != '\n'
        invariant
            i <= len,
            len == s@.len(),
            nl_pos(s@) == i + nl_pos(s@.skip(i as int)),
        decreases len - i,
    {
        proof {
            assert(s@.skip(i as int)[0] == s@[i as int]);
            assert(s@.skip(i as int).drop_first() =~= s@.skip(i as int + 1));
        }
        i = i + 1;
    }
    proof {
        if i < len {
            assert(s@.skip(i as int)[0] == s@[i as int]);
        }
        lemma_nl_pos_bounds(s@.skip(i as int));
    }
    i
}

} // verus!
