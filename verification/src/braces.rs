//! The explorer's brace convention: a nested JSON source object is emitted
//! with every brace doubled. Decoding collapses each leftmost `{{` to `{`
//! and then each `}}` to `}`, across the whole string. This is a narrow,
//! explorer-specific convention, not a general escaping scheme: it is only
//! correct because the explorer never emits a genuinely doubled brace at the
//! top level of real source text.

use vstd::prelude::*;

verus! {

/// `s` with each leftmost pair `cc` collapsed to a single `c`, scanning
/// left to right without overlap.
pub open spec fn collapse_pairs(s: Seq<char>, c: char) -> Seq<char>
    decreases s.len(),
{
    if s.len() == 0 {
        Seq::empty()
    } else if s.len() >= 2 && s[0] == c && s[1] == c {
        seq![c] + collapse_pairs(s.skip(2), c)
    } else {
        seq![s[0]] + collapse_pairs(s.skip(1), c)
    }
}

/// The decoded form of an explorer source payload: doubled `{` collapsed,
/// then doubled `}` collapsed.
pub open spec fn spec_unescape(s: Seq<char>) -> Seq<char> {
    collapse_pairs(collapse_pairs(s, '{'), '}')
}

/// `s` with every `{` and `}` doubled: the explorer's encoding.
pub open spec fn spec_double_braces(s: Seq<char>) -> Seq<char>
    decreases s.len(),
{
    if s.len() == 0 {
        Seq::empty()
    } else if s[0] == '{' || s[0] == '}' {
        seq![s[0], s[0]] + spec_double_braces(s.skip(1))
    } else {
        seq![s[0]] + spec_double_braces(s.skip(1))
    }
}

/// `s` with only every `}` doubled: the encoding once `{` pairs are undone.
pub open spec fn spec_double_close(s: Seq<char>) -> Seq<char>
    decreases s.len(),
{
    if s.len() == 0 {
        Seq::empty()
    } else if s[0] == '}' {
        seq![s[0], s[0]] + spec_double_close(s.skip(1))
    } else {
        seq![s[0]] + spec_double_close(s.skip(1))
    }
}

/// Collapses each leftmost pair `cc` in `v` to a single `c`.
pub fn collapse_pairs_exec(v: &Vec<char>, c: char) -> (r: Vec<char>)
    ensures
        r@ == collapse_pairs(v@, c),
{
    let n = v.len();
    let mut out: Vec<char> = Vec::new();
    let mut i: usize = 0;
    proof {
        assert(v@.skip(0) =~= v@);
        assert(out@ + collapse_pairs(v@, c) =~= collapse_pairs(v@, c));
    }
    while i < n
        invariant
            i <= n == v@.len(),
            collapse_pairs(v@, c) =~= out@ + collapse_pairs(v@.skip(i as int), c),
        decreases n - i,
    {
        let ghost pre = out@;
        let ghost suf = v@.skip(i as int);
        if i + 1 < n && v[i] == c && v[i + 1] == c {
            out.push(c);
            i = i + 2;
            proof {
                assert(suf.len() >= 2 && suf[0] == c && suf[1] == c);
                assert(suf.skip(2) =~= v@.skip(i as int));
                assert(collapse_pairs(suf, c) =~= seq![c] + collapse_pairs(v@.skip(i as int), c));
                assert(out@ =~= pre + seq![c]);
                assert(collapse_pairs(v@, c) =~= out@ + collapse_pairs(v@.skip(i as int), c));
            }
        } else {
            let ch = v[i];
            out.push(ch);
            i = i + 1;
            proof {
                assert(!(suf.len() >= 2 && suf[0] == c && suf[1] == c));
                assert(suf.skip(1) =~= v@.skip(i as int));
                assert(collapse_pairs(suf, c) =~= seq![ch] + collapse_pairs(
                    v@.skip(i as int),
                    c,
                ));
                assert(out@ =~= pre + seq![ch]);
                assert(collapse_pairs(v@, c) =~= out@ + collapse_pairs(v@.skip(i as int), c));
            }
        }
    }
    proof {
        assert(v@.skip(n as int) =~= Seq::<char>::empty());
        assert(collapse_pairs(v@, c) =~= out@);
    }
    out
}

/// Undoes the explorer's brace doubling: each `{{` becomes `{`, then each
/// `}}` becomes `}`.
pub fn unescape_braces(v: &Vec<char>) -> (r: Vec<char>)
    ensures
        r@ == spec_unescape(v@),
{
    let opened = collapse_pairs_exec(v, '{');
    collapse_pairs_exec(&opened, '}')
}

/// Collapsing with `c` leaves a sequence that does not start with `c`
/// unchanged in its head; helper: prepending a non-`c` head commutes.
proof fn lemma_collapse_cons_other(h: char, t: Seq<char>, c: char)
    requires
        h != c,
    ensures
        collapse_pairs(seq![h] + t, c) == seq![h] + collapse_pairs(t, c),
{
    let s = seq![h] + t;
    assert(s.len() >= 1 && s[0] == h);
    assert(s.skip(1) =~= t);
}

/// Collapsing with `c` turns a leading `cc` into one `c`.
proof fn lemma_collapse_cons_pair(t: Seq<char>, c: char)
    ensures
        collapse_pairs(seq![c, c] + t, c) == seq![c] + collapse_pairs(t, c),
{
    let s = seq![c, c] + t;
    assert(s.len() >= 2 && s[0] == c && s[1] == c);
    assert(s.skip(2) =~= t);
}

/// Collapsing `{{` pairs in the fully doubled form leaves only `}` doubled.
proof fn lemma_collapse_open(s: Seq<char>)
    ensures
        collapse_pairs(spec_double_braces(s), '{') == spec_double_close(s),
    decreases s.len(),
{
    if s.len() == 0 {
    } else {
        let h = s[0];
        let t = s.skip(1);
        lemma_collapse_open(t);
        if h == '{' {
            assert(spec_double_braces(s) =~= seq![h, h] + spec_double_braces(t));
            lemma_collapse_cons_pair(spec_double_braces(t), '{');
            assert(spec_double_close(s) =~= seq![h] + spec_double_close(t));
        } else if h == '}' {
            assert(spec_double_braces(s) =~= seq![h] + (seq![h] + spec_double_braces(t)));
            lemma_collapse_cons_other(h, seq![h] + spec_double_braces(t), '{');
            lemma_collapse_cons_other(h, spec_double_braces(t), '{');
            assert(spec_double_close(s) =~= seq![h] + (seq![h] + spec_double_close(t)));
        } else {
            assert(spec_double_braces(s) =~= seq![h] + spec_double_braces(t));
            lemma_collapse_cons_other(h, spec_double_braces(t), '{');
            assert(spec_double_close(s) =~= seq![h] + spec_double_close(t));
        }
    }
}

/// Collapsing `}}` pairs in the close-doubled form restores the original.
proof fn lemma_collapse_close(s: Seq<char>)
    ensures
        collapse_pairs(spec_double_close(s), '}') == s,
    decreases s.len(),
{
    if s.len() == 0 {
        assert(collapse_pairs(spec_double_close(s), '}') =~= s);
    } else {
        let h = s[0];
        let t = s.skip(1);
        lemma_collapse_close(t);
        if h == '}' {
            assert(spec_double_close(s) =~= seq![h, h] + spec_double_close(t));
            lemma_collapse_cons_pair(spec_double_close(t), '}');
            assert(collapse_pairs(spec_double_close(s), '}') =~= seq![h] + t);
            assert(seq![h] + t =~= s);
        } else {
            assert(spec_double_close(s) =~= seq![h] + spec_double_close(t));
            lemma_collapse_cons_other(h, spec_double_close(t), '}');
            assert(collapse_pairs(spec_double_close(s), '}') =~= seq![h] + t);
            assert(seq![h] + t =~= s);
        }
    }
}

/// Round trip: decoding the explorer's doubled-brace encoding of any text
/// gives back exactly that text.
pub proof fn lemma_unescape_double_roundtrip(s: Seq<char>)
    ensures
        spec_unescape(spec_double_braces(s)) == s,
{
    lemma_collapse_open(s);
    lemma_collapse_close(s);
}

} // verus!
