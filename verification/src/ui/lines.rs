//! Lines of text as the panes draw them: each line a sequence of spans.

use vstd::prelude::*;
use crate::text::{chars_of, string_of, string_views};

verus! {

/// The spans of each line.
pub open spec fn line_views(lines: Seq<Vec<String>>) -> Seq<Seq<Seq<char>>> {
    lines.map_values(|l: Vec<String>| string_views(l@))
}

/// One line per text: the prefix spans, then the text.
pub open spec fn prefixed(prefix: Seq<Seq<char>>, texts: Seq<Seq<char>>) -> Seq<Seq<Seq<char>>> {
    texts.map_values(|t: Seq<char>| prefix.push(t))
}

/// A span holding the characters of `s`.
pub fn span(s: &str) -> (r: String)
    ensures
        r@ == s@,
{
    string_of(chars_of(s).as_slice())
}

/// A line of the given spans.
pub fn line_of(spans: Vec<String>) -> (r: Vec<String>)
    ensures
        string_views(r@) == string_views(spans@),
{
    spans
}

/// A line of one span.
pub fn line1(a: String) -> (r: Vec<String>)
    ensures
        string_views(r@) == seq![a@],
{
    let mut v: Vec<String> = Vec::new();
    v.push(a);
    proof {
        assert(string_views(v@) =~= seq![a@]);
    }
    v
}

/// A line of two spans.
pub fn line2(a: String, b: String) -> (r: Vec<String>)
    ensures
        string_views(r@) == seq![a@, b@],
{
    let mut v: Vec<String> = Vec::new();
    v.push(a);
    v.push(b);
    proof {
        assert(string_views(v@) =~= seq![a@, b@]);
    }
    v
}

/// Appends a span to a line.
pub fn push_span(line: &mut Vec<String>, s: String)
    ensures
        string_views(final(line)@) == string_views(old(line)@).push(s@),
{
    let ghost before = string_views(line@);
    line.push(s);
    proof {
        assert(string_views(line@) =~= before.push(s@));
    }
}

/// Appends a line.
pub fn push_line(out: &mut Vec<Vec<String>>, l: Vec<String>)
    ensures
        line_views(final(out)@) == line_views(old(out)@).push(string_views(l@)),
{
    let ghost before = line_views(out@);
    out.push(l);
    proof {
        assert(line_views(out@) =~= before.push(string_views(l@)));
    }
}

/// Appends one line per text: a copy of the prefix spans, then the text.
pub fn push_prefixed(out: &mut Vec<Vec<String>>, prefix: &Vec<String>, texts: &Vec<String>)
    ensures
        line_views(final(out)@) == line_views(old(out)@) + prefixed(string_views(prefix@), string_views(texts@)),
{
    let ghost start = line_views(out@);
    let ghost pv = string_views(prefix@);
    let ghost tv = string_views(texts@);
    let n = texts.len();
    let m = prefix.len();
    let mut i: usize = 0;
    while i < n
        invariant
            n == texts@.len(),
            m == prefix@.len(),
            pv == string_views(prefix@),
            tv == string_views(texts@),
            0 <= i <= n,
            line_views(out@) == start + prefixed(pv, tv.take(i as int)),
        decreases n - i,
    {
        let mut l: Vec<String> = Vec::new();
        let mut j: usize = 0;
        while j < m
            invariant
                m == prefix@.len(),
                pv == string_views(prefix@),
                0 <= j <= m,
                string_views(l@) == pv.take(j as int),
            decreases m - j,
        {
            push_span(&mut l, prefix[j].clone());
            proof {
                assert(pv.take(j + 1) =~= pv.take(j as int).push(prefix@[j as int]@));
            }
            j += 1;
        }
        proof {
            assert(pv.take(m as int) =~= pv);
        }
        push_span(&mut l, texts[i].clone());
        push_line(out, l);
        proof {
            assert(prefixed(pv, tv.take(i + 1)) =~= prefixed(pv, tv.take(i as int)).push(
                pv.push(texts@[i as int]@),
            ));
        }
        i += 1;
    }
    proof {
        assert(tv.take(n as int) =~= tv);
    }
}

} // verus!
