//! The ICY and songs tickers: which history entries a filter shows (newest
//! first), the source badge of a recognition, and the ICY log read back as
//! entries.

use vstd::prelude::*;
use crate::ui::sat_sub;
use crate::songs::{display_spec, sources_spec, source_label_spec, RecognitionResult, RecognitionSource, RowView};
use crate::text::{
    append_chars, chars_of, join, join_chars, lines, lines_chars, lowercase, string_of, to_lowercase,
    trim, trim_chars, views, words, words_chars,
};
use crate::ui::app_state::TickerEntry;
use crate::ui::search::{all_in, all_terms_in, query_words_in};
use crate::text::{contains_seq, lemma_contains_extend};
use crate::ui::keys::{Key, Mouse};

verus! {

/// Indices `n-1` down to `0` that satisfy `keep`, newest first.
pub open spec fn newest_first_where(n: nat, keep: spec_fn(int) -> bool) -> Seq<usize>
    decreases n,
{
    if n == 0 {
        Seq::<usize>::empty()
    } else {
        let rest = newest_first_where((n - 1) as nat, keep);
        if keep(n - 1) {
            seq![(n - 1) as usize] + rest
        } else {
            rest
        }
    }
}

/// `text` plus a space and the lowercased value, when there is one.
pub open spec fn with_lower(text: Seq<char>, o: Option<Seq<char>>) -> Seq<char> {
    match o {
        Some(s) => text + seq![' '] + lowercase(s),
        None => text,
    }
}

/// The text a songs-ticker filter is matched against: the lowercased
/// display text, station, NTS show and ICY title.
pub open spec fn song_text(r: RowView) -> Seq<char> {
    with_lower(with_lower(with_lower(lowercase(display_spec(r)), r.station), r.nts_show), r.icy_info)
}

/// Whether a filter shows an entry whose text is `text`: an empty filter
/// shows everything; otherwise every word of the lowercased filter must
/// occur in the text.
pub open spec fn filter_shows(filter: Seq<char>, text: Seq<char>) -> bool {
    lowercase(filter).len() == 0 || all_terms_in(words(lowercase(filter)), text)
}

/// The ICY-ticker text: the lowercased display text and station.
pub open spec fn icy_text(display: Seq<char>, station: Option<Seq<char>>) -> Seq<char> {
    with_lower(lowercase(display), station)
}

proof fn lemma_newest_first_where_has(n: nat, keep: spec_fn(int) -> bool, i: int)
    requires
        0 <= i < n,
        keep(i),
        n <= usize::MAX,
    ensures
        newest_first_where(n, keep).contains(i as usize),
    decreases n,
{
    let rest = newest_first_where((n - 1) as nat, keep);
    if i == n - 1 {
        assert((seq![(n - 1) as usize] + rest)[0] == (n - 1) as usize);
    } else {
        lemma_newest_first_where_has((n - 1) as nat, keep, i);
        let k = choose|k: int| 0 <= k < rest.len() && rest[k] == i as usize;
        if keep(n - 1) {
            assert((seq![(n - 1) as usize] + rest)[k + 1] == i as usize);
        }
    }
}

proof fn lemma_words_in_suffix(f: Seq<char>, x: Seq<char>, a: Seq<char>)
    requires
        query_words_in(f, a),
    ensures
        query_words_in(f, x + a),
{
    assert forall|i: int| 0 <= i < words(lowercase(f)).len() implies contains_seq(
        x + a,
        #[trigger] words(lowercase(f))[i],
    ) by {
        lemma_contains_extend(x, a, Seq::<char>::empty(), words(lowercase(f))[i]);
    }
}

proof fn lemma_words_in_prefix(f: Seq<char>, a: Seq<char>, y: Seq<char>)
    requires
        query_words_in(f, a),
    ensures
        query_words_in(f, a + y),
{
    assert forall|i: int| 0 <= i < words(lowercase(f)).len() implies contains_seq(
        a + y,
        #[trigger] words(lowercase(f))[i],
    ) by {
        lemma_contains_extend(Seq::<char>::empty(), a, y, words(lowercase(f))[i]);
    }
}

proof fn lemma_with_lower_keeps(f: Seq<char>, text: Seq<char>, o: Option<Seq<char>>)
    requires
        query_words_in(f, text),
    ensures
        query_words_in(f, with_lower(text, o)),
{
    match o {
        Some(s) => {
            lemma_words_in_prefix(f, text, seq![' '] + lowercase(s));
            assert(text + (seq![' '] + lowercase(s)) =~= text + seq![' '] + lowercase(s));
        },
        None => {},
    }
}

proof fn lemma_with_lower_adds(f: Seq<char>, text: Seq<char>, s: Seq<char>)
    requires
        query_words_in(f, lowercase(s)),
    ensures
        query_words_in(f, with_lower(text, Some(s))),
{
    lemma_words_in_suffix(f, text + seq![' '], lowercase(s));
}

/// Law: the songs ticker shows an entry for a filter whose every word,
/// lowercased, occurs in the entry's lowercased display text, station,
/// NTS show or ICY title (whatever the display text is).
pub proof fn law_songs_filter_fields(h: Seq<RecognitionResult>, f: Seq<char>, i: int)
    requires
        0 <= i < h.len(),
        h.len() <= usize::MAX,
    ensures
        ({
            let r = h[i]@;
            let shown = newest_first_where(h.len(), |j: int| filter_shows(f, song_text(h[j]@))).contains(
                i as usize,
            );
            &&& query_words_in(f, lowercase(display_spec(r))) ==> shown
            &&& (r.station matches Some(s) && query_words_in(f, lowercase(s))) ==> shown
            &&& (r.nts_show matches Some(s) && query_words_in(f, lowercase(s))) ==> shown
            &&& (r.icy_info matches Some(s) && query_words_in(f, lowercase(s))) ==> shown
        }),
{
    let r = h[i]@;
    let keep = |j: int| filter_shows(f, song_text(h[j]@));
    let d = lowercase(display_spec(r));
    let t1 = with_lower(d, r.station);
    let t2 = with_lower(t1, r.nts_show);
    let t3 = with_lower(t2, r.icy_info);
    assert(t3 == song_text(r));
    let any = query_words_in(f, d) || (r.station matches Some(s) && query_words_in(f, lowercase(s)))
        || (r.nts_show matches Some(s) && query_words_in(f, lowercase(s))) || (r.icy_info matches Some(s)
        && query_words_in(f, lowercase(s)));
    if any {
        if query_words_in(f, d) {
            lemma_with_lower_keeps(f, d, r.station);
            lemma_with_lower_keeps(f, t1, r.nts_show);
            lemma_with_lower_keeps(f, t2, r.icy_info);
        } else if r.station is Some && query_words_in(f, lowercase(r.station->0)) {
            lemma_with_lower_adds(f, d, r.station->0);
            lemma_with_lower_keeps(f, t1, r.nts_show);
            lemma_with_lower_keeps(f, t2, r.icy_info);
        } else if r.nts_show is Some && query_words_in(f, lowercase(r.nts_show->0)) {
            lemma_with_lower_adds(f, t1, r.nts_show->0);
            lemma_with_lower_keeps(f, t2, r.icy_info);
        } else {
            lemma_with_lower_adds(f, t2, r.icy_info->0);
        }
        assert(query_words_in(f, t3));
        assert(all_terms_in(words(lowercase(f)), t3));
        assert(keep(i));
        lemma_newest_first_where_has(h.len(), keep, i);
    }
}

fn push_lower_opt(text: &mut Vec<char>, o: &Option<String>)
    ensures
        final(text)@ == with_lower(old(text)@, crate::text::opt_view(*o)),
{
    match o {
        Some(s) => {
            text.push(' ');
            let l = to_lowercase(s.as_str());
            let c = chars_of(l.as_str());
            append_chars(text, c.as_slice());
        },
        None => {},
    }
}

/// The songs-history entries a filter shows, newest first.
pub fn songs_visible_indices(history: &Vec<RecognitionResult>, filter: &str) -> (r: Vec<usize>)
    ensures
        r@ == newest_first_where(
            history@.len(),
            |i: int| filter_shows(filter@, song_text(history@[i]@)),
        ),
{
    let ghost keep = |i: int| filter_shows(filter@, song_text(history@[i]@));
    let q = to_lowercase(filter);
    let qc = chars_of(q.as_str());
    let terms = words_chars(qc.as_slice());
    let n = history.len();
    let mut out: Vec<usize> = Vec::new();
    let mut i: usize = n;
    while i > 0
        invariant
            n == history@.len(),
            0 <= i <= n,
            qc@ == lowercase(filter@),
            views(terms@) == words(qc@),
            keep == (|i: int| filter_shows(filter@, song_text(history@[i]@))),
            newest_first_where(n as nat, keep) == out@ + newest_first_where(i as nat, keep),
        decreases i,
    {
        let k = i - 1;
        let e = &history[k];
        let shown = if qc.len() == 0 {
            true
        } else {
            let d = e.display();
            let dl = to_lowercase(d.as_str());
            let mut text = chars_of(dl.as_str());
            push_lower_opt(&mut text, &e.station);
            push_lower_opt(&mut text, &e.nts_show);
            push_lower_opt(&mut text, &e.icy_info);
            proof {
                assert(text@ == song_text(history@[k as int]@));
            }
            all_in(&terms, text.as_slice())
        };
        proof {
            assert(shown == keep(k as int));
        }
        if shown {
            let ghost before = out@;
            out.push(k);
            proof {
                assert(before + newest_first_where(i as nat, keep) =~= out@ + newest_first_where(
                    k as nat,
                    keep,
                ));
            }
        } else {
            proof {
                assert(newest_first_where(i as nat, keep) == newest_first_where(k as nat, keep));
            }
        }
        i = k;
    }
    proof {
        assert(out@ + Seq::<usize>::empty() =~= out@);
    }
    out
}

/// The ICY-history entries a filter shows, newest first.
pub fn icy_visible_indices(history: &Vec<TickerEntry>, filter: &str) -> (r: Vec<usize>)
    ensures
        r@ == newest_first_where(
            history@.len(),
            |i: int|
                filter_shows(
                    filter@,
                    icy_text(history@[i].display@, crate::text::opt_view(history@[i].station)),
                ),
        ),
{
    let ghost keep = |i: int|
        filter_shows(filter@, icy_text(history@[i].display@, crate::text::opt_view(history@[i].station)));
    let q = to_lowercase(filter);
    let qc = chars_of(q.as_str());
    let terms = words_chars(qc.as_slice());
    let n = history.len();
    let mut out: Vec<usize> = Vec::new();
    let mut i: usize = n;
    while i > 0
        invariant
            n == history@.len(),
            0 <= i <= n,
            qc@ == lowercase(filter@),
            views(terms@) == words(qc@),
            keep == (|i: int|
                filter_shows(
                    filter@,
                    icy_text(history@[i].display@, crate::text::opt_view(history@[i].station)),
                )),
            newest_first_where(n as nat, keep) == out@ + newest_first_where(i as nat, keep),
        decreases i,
    {
        let k = i - 1;
        let e = &history[k];
        let shown = if qc.len() == 0 {
            true
        } else {
            let dl = to_lowercase(e.display.as_str());
            let mut text = chars_of(dl.as_str());
            push_lower_opt(&mut text, &e.station);
            proof {
                assert(text@ == icy_text(history@[k as int].display@, crate::text::opt_view(history@[k as int].station)));
            }
            all_in(&terms, text.as_slice())
        };
        proof {
            assert(shown == keep(k as int));
        }
        if shown {
            let ghost before = out@;
            out.push(k);
            proof {
                assert(before + newest_first_where(i as nat, keep) =~= out@ + newest_first_where(
                    k as nat,
                    keep,
                ));
            }
        } else {
            proof {
                assert(newest_first_where(i as nat, keep) == newest_first_where(k as nat, keep));
            }
        }
        i = k;
    }
    proof {
        assert(out@ + Seq::<usize>::empty() =~= out@);
    }
    out
}

// ── badges ──────────────────────────────────────────────────────────────────
/// The source badge: "…" before any source has reported, the one source's
/// label, or the first label followed by the others in parentheses.
pub open spec fn badge_spec(srcs: Seq<RecognitionSource>) -> Seq<char> {
    if srcs.len() == 0 {
        seq!['\u{2026}']
    } else if srcs.len() == 1 {
        source_label_spec(srcs[0])
    } else {
        source_label_spec(srcs[0]) + seq![' ', '('] + join(
            srcs.skip(1).map_values(|s: RecognitionSource| source_label_spec(s)),
            seq![' '],
        ) + seq![')']
    }
}

pub fn source_badge_str(entry: &RecognitionResult) -> (r: String)
    ensures
        r@ == badge_spec(sources_spec(entry@)),
{
    let srcs = entry.sources();
    let n = srcs.len();
    if n == 0 {
        let mut v: Vec<char> = Vec::new();
        v.push('\u{2026}');
        proof {
            assert(v@ =~= seq!['\u{2026}']);
        }
        return string_of(v.as_slice());
    }
    let first = chars_of(srcs[0].label());
    if n == 1 {
        return string_of(first.as_slice());
    }
    let mut rest: Vec<Vec<char>> = Vec::new();
    let mut i: usize = 1;
    while i < n
        invariant
            n == srcs@.len(),
            1 <= i <= n,
            views(rest@) == srcs@.subrange(1, i as int).map_values(
                |s: RecognitionSource| source_label_spec(s),
            ),
        decreases n - i,
    {
        let l = chars_of(srcs[i].label());
        let ghost before = views(rest@);
        rest.push(l);
        proof {
            assert(views(rest@) =~= before.push(l@));
            assert(srcs@.subrange(1, i + 1).map_values(|s: RecognitionSource| source_label_spec(s))
                =~= srcs@.subrange(1, i as int).map_values(
                |s: RecognitionSource| source_label_spec(s),
            ).push(source_label_spec(srcs@[i as int])));
        }
        i += 1;
    }
    let sp: Vec<char> = vec![' '];
    let joined = join_chars(&rest, sp.as_slice());
    let mut out = first;
    out.push(' ');
    out.push('(');
    append_chars(&mut out, joined.as_slice());
    out.push(')');
    proof {
        assert(sp@ =~= seq![' ']);
        assert(srcs@.subrange(1, n as int) =~= srcs@.skip(1));
        assert(out@ =~= badge_spec(sources_spec(entry@)));
    }
    string_of(out.as_slice())
}

// ── ICY log ─────────────────────────────────────────────────────────────────
/// How many of the newest ICY log lines are read back.
pub const ICY_LOG_LINES: usize = 200;

/// The last `ICY_LOG_LINES` lines of the ICY log, trimmed.
pub open spec fn icy_log_lines(content: Seq<char>) -> Seq<Seq<char>> {
    let ls = lines(content);
    let start = if ls.len() > ICY_LOG_LINES { ls.len() - ICY_LOG_LINES } else { 0 };
    ls.skip(start).map_values(|l: Seq<char>| trim(l))
}

/// The ICY log read back as ticker entries: each of the last lines, trimmed,
/// as both raw and display text, with nothing else known.
pub fn icy_log_entries(content: &str) -> (r: Vec<TickerEntry>)
    ensures
        r@.len() == icy_log_lines(content@).len(),
        forall|i: int|
            0 <= i < r@.len() ==> {
                &&& (#[trigger] r@[i]).raw@ == icy_log_lines(content@)[i]
                &&& r@[i].display@ == icy_log_lines(content@)[i]
                &&& r@[i].station is None
                &&& r@[i].show is None
                &&& r@[i].url is None
                &&& r@[i].comment is None
            },
{
    let c = chars_of(content);
    let ls = lines_chars(c.as_slice());
    let n = ls.len();
    let start = if n > ICY_LOG_LINES {
        n - ICY_LOG_LINES
    } else {
        0
    };
    let ghost want = icy_log_lines(content@);
    let mut out: Vec<TickerEntry> = Vec::new();
    let mut i: usize = start;
    while i < n
        invariant
            n == ls@.len(),
            views(ls@) == lines(content@),
            want == icy_log_lines(content@),
            start <= i <= n,
            start == (if n > ICY_LOG_LINES { n - ICY_LOG_LINES } else { 0 }),
            out@.len() == i - start,
            forall|k: int|
                0 <= k < out@.len() ==> {
                    &&& (#[trigger] out@[k]).raw@ == want[k]
                    &&& out@[k].display@ == want[k]
                    &&& out@[k].station is None
                    &&& out@[k].show is None
                    &&& out@[k].url is None
                    &&& out@[k].comment is None
                },
        decreases n - i,
    {
        let t = trim_chars(ls[i].as_slice());
        proof {
            assert(views(ls@)[i as int] == ls@[i as int]@);
            assert(want[i - start] == trim(ls@[i as int]@));
        }
        let e = TickerEntry {
            raw: string_of(t.as_slice()),
            display: string_of(t.as_slice()),
            station: None,
            show: None,
            url: None,
            comment: None,
        };
        out.push(e);
        i += 1;
    }
    out
}

// ── ICY history ─────────────────────────────────────────────────────────────
/// How many ICY titles the ticker keeps.
pub const ICY_HISTORY_CAP: usize = 200;

/// The raw title of the newest entry, empty when there is none.
pub open spec fn last_raw(h: Seq<TickerEntry>) -> Seq<char> {
    if h.len() > 0 {
        h.last().raw@
    } else {
        Seq::<char>::empty()
    }
}

/// Records a stream title in the ICY history when it differs from the
/// newest one: the entry shows the time and the title, remembers the
/// station, and the oldest entry goes once the history holds more than
/// `ICY_HISTORY_CAP`. Returns whether an entry was added.
pub fn record_icy_title(
    history: &mut Vec<TickerEntry>,
    title: &str,
    time_text: &str,
    station: Option<String>,
) -> (added: bool)
    ensures
        added == (last_raw(old(history)@) != title@),
        !added ==> final(history)@ == old(history)@,
        added ==> {
            let drop: int = if old(history)@.len() + 1 > ICY_HISTORY_CAP {
                1
            } else {
                0
            };
            let h = final(history)@;
            &&& h.len() == old(history)@.len() + 1 - drop
            &&& forall|i: int| 0 <= i < h.len() - 1 ==> h[i] == old(history)@[i + drop]
            &&& h.last().raw@ == title@
            &&& h.last().display@ == time_text@ + seq![' ', ' '] + title@
            &&& crate::text::opt_view(h.last().station) == crate::text::opt_view(station)
            &&& h.last().show is None && h.last().url is None && h.last().comment is None
        },
{
    let t = chars_of(title);
    let last = if history.len() > 0 {
        let k = history.len() - 1;
        chars_of(history[k].raw.as_str())
    } else {
        Vec::new()
    };
    proof {
        if history@.len() == 0 {
            assert(last@ =~= last_raw(history@));
        }
    }
    if crate::text::eq_chars(last.as_slice(), t.as_slice()) {
        return false;
    }
    let mut display = chars_of(time_text);
    display.push(' ');
    display.push(' ');
    append_chars(&mut display, t.as_slice());
    let entry = TickerEntry {
        raw: string_of(t.as_slice()),
        display: string_of(display.as_slice()),
        station,
        show: None,
        url: None,
        comment: None,
    };
    let ghost before = history@;
    history.push(entry);
    if history.len() > ICY_HISTORY_CAP {
        history.remove(0);
        proof {
            assert forall|i: int| 0 <= i < history@.len() - 1 implies history@[i] == before[i + 1] by {
                assert(history@[i] == before.push(entry)[i + 1]);
            }
        }
    }
    proof {
        assert(display@ =~= time_text@ + seq![' ', ' '] + title@);
    }
    true
}

// ── selection and scrolling ─────────────────────────────────────────────────
/// The selection clamped into a list of `total` rows (`total > 0`).
pub open spec fn clamped(selected: usize, total: usize) -> int {
    if selected >= total {
        sat_sub(total as int, 1)
    } else {
        selected as int
    }
}

/// The scroll offset that keeps row `sel` of a view `height` rows tall in
/// sight, moving as little as it can from `offset`.
pub open spec fn offset_for(sel: int, offset: usize, height: usize) -> int {
    if sel < offset {
        sel
    } else if sel >= offset + height {
        sat_sub(sel, sat_sub(height as int, 1))
    } else {
        offset as int
    }
}

/// The selection and scroll offset for drawing `total` rows in a view
/// `height` rows tall: unchanged when there are no rows; else the selection
/// clamped into the rows, and the offset moved just enough to show it.
fn in_view(selected: usize, scroll: usize, total: usize, height: usize) -> (r: (usize, usize))
    requires
        scroll + height <= usize::MAX,
    ensures
        total == 0 ==> r == (selected, scroll),
        total > 0 ==> r.0 == clamped(selected, total) && r.1 == offset_for(clamped(selected, total), scroll, height),
        total > 0 && height > 0 ==> r.0 < total && r.1 <= r.0 && r.0 < r.1 + height,
{
    if total == 0 {
        return (selected, scroll);
    }
    let sel = if selected >= total {
        total - 1
    } else {
        selected
    };
    let off = if sel < scroll {
        sel
    } else if sel >= scroll + height {
        let back = if height >= 1 {
            height - 1
        } else {
            0
        };
        if sel >= back {
            sel - back
        } else {
            0
        }
    } else {
        scroll
    };
    (sel, off)
}

/// The ICY ticker pane: the selected row of the filtered, newest-first
/// view, how far it is scrolled, and the filter text.
pub struct IcyTicker {
    pub selected: usize,
    pub scroll_offset: usize,
    pub filter: String,
    /// The rows of the last drawn view: history indices, newest first.
    pub last_visible: Vec<usize>,
    /// Pane number hint.
    pub number_key: Option<char>,
}

impl IcyTicker {
    /// The first row selected, unscrolled and unfiltered; numbered '2'.
    pub fn new() -> (t: Self)
        ensures
            t.selected == 0,
            t.scroll_offset == 0,
            t.filter@ == Seq::<char>::empty(),
            t.last_visible@ == Seq::<usize>::empty(),
            t.number_key == Some('2'),
    {
        IcyTicker {
            selected: 0,
            scroll_offset: 0,
            filter: String::new(),
            last_visible: Vec::new(),
            number_key: Some('2'),
        }
    }

    /// Moves the selection `n` rows up, stopping at the first row.
    pub fn select_up(&mut self, n: usize)
        ensures
            final(self).selected == sat_sub(old(self).selected as int, n as int),
            final(self).scroll_offset == old(self).scroll_offset,
            final(self).filter == old(self).filter,
            final(self).last_visible == old(self).last_visible,
            final(self).number_key == old(self).number_key,
    {
        self.selected = if self.selected >= n {
            self.selected - n
        } else {
            0
        };
    }

    /// Moves the selection `n` rows down in a view of `max` rows, stopping
    /// at the last row (at row 0 when the view is empty).
    pub fn select_down(&mut self, n: usize, max: usize)
        requires
            old(self).selected + n <= usize::MAX,
        ensures
            final(self).selected == (if old(self).selected + n < sat_sub(max as int, 1) {
                old(self).selected + n
            } else {
                sat_sub(max as int, 1)
            }),
            final(self).scroll_offset == old(self).scroll_offset,
            final(self).filter == old(self).filter,
            final(self).last_visible == old(self).last_visible,
            final(self).number_key == old(self).number_key,
    {
        let last = if max >= 1 {
            max - 1
        } else {
            0
        };
        let target = self.selected + n;
        self.selected = if target < last {
            target
        } else {
            last
        };
    }

    /// Before drawing `total` rows in a view `height` rows tall: clamps the
    /// selection into the rows and scrolls so that it is in sight. Nothing
    /// changes when there are no rows.
    pub fn keep_selected_in_view(&mut self, total: usize, height: usize)
        requires
            old(self).scroll_offset + height <= usize::MAX,
        ensures
            total == 0 ==> final(self).selected == old(self).selected
                && final(self).scroll_offset == old(self).scroll_offset,
            total > 0 ==> final(self).selected == clamped(old(self).selected, total)
                && final(self).scroll_offset == offset_for(
                clamped(old(self).selected, total),
                old(self).scroll_offset,
                height,
            ),
            total > 0 && height > 0 ==> final(self).selected < total && final(self).scroll_offset
                <= final(self).selected && final(self).selected < final(self).scroll_offset + height,
            final(self).filter == old(self).filter,
            final(self).last_visible == old(self).last_visible,
            final(self).number_key == old(self).number_key,
    {
        let (s, o) = in_view(self.selected, self.scroll_offset, total, height);
        self.selected = s;
        self.scroll_offset = o;
    }

    /// A click on row `rel_row` of the view (counted from the first row
    /// under the header) selects that row if the view of `total` rows has
    /// it.
    pub fn click_row(&mut self, rel_row: usize, total: usize)
        requires
            old(self).scroll_offset + rel_row <= usize::MAX,
        ensures
            final(self).selected == (if old(self).scroll_offset + rel_row < total {
                (old(self).scroll_offset + rel_row) as usize
            } else {
                old(self).selected
            }),
            final(self).scroll_offset == old(self).scroll_offset,
            final(self).filter == old(self).filter,
            final(self).last_visible == old(self).last_visible,
            final(self).number_key == old(self).number_key,
    {
        let target = self.scroll_offset + rel_row;
        if target < total {
            self.selected = target;
        }
    }
}

// ── keys and mouse ──────────────────────────────────────────────────────────
/// What a ticker asks of the application.
#[derive(Debug, Clone)]
pub enum TickerAction {
    /// The pane's filter input opens.
    OpenFilter,
    /// The filter was cancelled and closes.
    CloseFilter,
    /// Copy this text to the clipboard.
    CopyToClipboard(String),
    /// Recognise the song that is playing.
    RecognizeSong,
    /// Download the NTS episode at this link.
    Download(String),
}

/// What the filter input reports after taking a key.
#[derive(Debug, Clone)]
pub enum FilterAction {
    /// The query is now this text.
    Changed(String),
    Cancelled,
    Confirmed,
    /// The key changed nothing.
    NoChange,
}

/// The selection after moving `n` rows down in a view of `max` rows.
pub open spec fn moved_down(selected: usize, n: usize, max: usize) -> int {
    if selected + n < sat_sub(max as int, 1) {
        selected + n
    } else {
        sat_sub(max as int, 1)
    }
}

/// The filter input takes every key while it is open, but Up and Down,
/// which still move the selection.
pub open spec fn filter_takes(key: Key, filter_active: bool) -> bool {
    filter_active && key != Key::Up && key != Key::Down
}

/// Where a navigation key moves (selection, scroll offset) in a view of
/// `len` rows; `None` for a key that does not navigate. While the filter is
/// open only the arrow keys navigate.
pub open spec fn nav_spec(key: Key, filter_active: bool, selected: usize, scroll: usize, len: usize) -> Option<(int, int)> {
    if key == Key::Up || (!filter_active && key == Key::Char('k')) {
        Some((sat_sub(selected as int, 1), scroll as int))
    } else if key == Key::Down || (!filter_active && key == Key::Char('j')) {
        Some((moved_down(selected, 1, len), scroll as int))
    } else if filter_active {
        None
    } else if key == Key::PageUp {
        Some((sat_sub(selected as int, 10), scroll as int))
    } else if key == Key::PageDown {
        Some((moved_down(selected, 10, len), scroll as int))
    } else if key == Key::Home || key == Key::Char('g') {
        Some((0, 0))
    } else if key == Key::End || key == Key::Char('G') {
        Some((sat_sub(len as int, 1), scroll as int))
    } else {
        None
    }
}

fn nav(key: Key, filter_active: bool, selected: usize, scroll: usize, len: usize) -> (r: Option<(usize, usize)>)
    requires
        selected + 10 <= usize::MAX,
    ensures
        match nav_spec(key, filter_active, selected, scroll, len) {
            Some((s, o)) => r == Some((s as usize, o as usize)),
            None => r is None,
        },
{
    let last = if len >= 1 {
        len - 1
    } else {
        0
    };
    if key == Key::Up || (!filter_active && key == Key::Char('k')) {
        Some((if selected >= 1 { selected - 1 } else { 0 }, scroll))
    } else if key == Key::Down || (!filter_active && key == Key::Char('j')) {
        Some((if selected + 1 < last { selected + 1 } else { last }, scroll))
    } else if filter_active {
        None
    } else if key == Key::PageUp {
        Some((if selected >= 10 { selected - 10 } else { 0 }, scroll))
    } else if key == Key::PageDown {
        Some((if selected + 10 < last { selected + 10 } else { last }, scroll))
    } else if key == Key::Home || key == Key::Char('g') {
        Some((0, 0))
    } else if key == Key::End || key == Key::Char('G') {
        Some((last, scroll))
    } else {
        None
    }
}

/// The history entry on the selected row of the last drawn view, if both
/// exist.
pub open spec fn selected_entry<T>(last_visible: Seq<usize>, selected: usize, history: Seq<T>) -> Option<T> {
    if selected < last_visible.len() && last_visible[selected as int] < history.len() {
        Some(history[last_visible[selected as int] as int])
    } else {
        None
    }
}

fn entry_index(last_visible: &Vec<usize>, selected: usize, n: usize) -> (r: Option<usize>)
    ensures
        match r {
            Some(i) => selected < last_visible@.len() && i == last_visible@[selected as int] && i < n,
            None => !(selected < last_visible@.len() && last_visible@[selected as int] < n),
        },
{
    if selected < last_visible.len() && last_visible[selected] < n {
        Some(last_visible[selected])
    } else {
        None
    }
}

/// The row a click on screen row `row` selects, counting from `first_row`,
/// the first row of the list; where the row is above the list, the first.
pub open spec fn clicked_row(row: u16, first_row: int, scroll: usize) -> int {
    scroll + sat_sub(row as int, first_row)
}

impl IcyTicker {
    /// Handles a key press while the pane has focus (the filter input, when
    /// open, takes every key but Up and Down, and this does nothing then):
    /// the navigation keys move the selection; '/' opens the filter; 'y'
    /// copies the raw title of the selected entry when it is not empty.
    pub fn handle_key(&mut self, key: Key, filter_active: bool, history: &Vec<TickerEntry>) -> (r: Vec<TickerAction>)
        requires
            old(self).selected + 10 <= usize::MAX,
        ensures
            final(self).filter == old(self).filter,
            final(self).last_visible == old(self).last_visible,
            final(self).number_key == old(self).number_key,
            filter_takes(key, filter_active) ==> r@.len() == 0 && final(self).selected == old(self).selected
                && final(self).scroll_offset == old(self).scroll_offset,
            !filter_takes(key, filter_active) ==> match nav_spec(
                key,
                filter_active,
                old(self).selected,
                old(self).scroll_offset,
                old(self).last_visible@.len() as usize,
            ) {
                Some((s, o)) => final(self).selected == s && final(self).scroll_offset == o && r@.len() == 0,
                None => {
                    &&& final(self).selected == old(self).selected
                    &&& final(self).scroll_offset == old(self).scroll_offset
                    &&& if key == Key::Char('/') {
                        r@.len() == 1 && r@[0] is OpenFilter
                    } else if key == Key::Char('y') {
                        match selected_entry(old(self).last_visible@, old(self).selected, history@) {
                            Some(e) => if e.raw@.len() > 0 {
                                r@.len() == 1 && (r@[0] matches TickerAction::CopyToClipboard(t) && t@ == e.raw@)
                            } else {
                                r@.len() == 0
                            },
                            None => r@.len() == 0,
                        }
                    } else {
                        r@.len() == 0
                    }
                },
            },
    {
        let mut out: Vec<TickerAction> = Vec::new();
        if filter_active && key != Key::Up && key != Key::Down {
            return out;
        }
        match nav(key, filter_active, self.selected, self.scroll_offset, self.last_visible.len()) {
            Some((s, o)) => {
                self.selected = s;
                self.scroll_offset = o;
                return out;
            },
            None => {},
        }
        if key == Key::Char('/') {
            out.push(TickerAction::OpenFilter);
        } else if key == Key::Char('y') {
            match entry_index(&self.last_visible, self.selected, history.len()) {
                Some(i) => {
                    let raw = history[i].raw.clone();
                    if chars_of(raw.as_str()).len() > 0 {
                        out.push(TickerAction::CopyToClipboard(raw));
                    }
                },
                None => {},
            }
        }
        out
    }

    /// Handles what the filter input reported: a changed query filters
    /// from the first row again; a cancel clears the query and closes the
    /// filter.
    pub fn apply_filter_action(&mut self, fa: FilterAction) -> (r: Vec<TickerAction>)
        ensures
            final(self).last_visible == old(self).last_visible,
            final(self).number_key == old(self).number_key,
            match fa {
                FilterAction::Changed(q) => final(self).filter@ == q@ && final(self).selected == 0
                    && final(self).scroll_offset == 0 && r@.len() == 0,
                FilterAction::Cancelled => final(self).filter@ == Seq::<char>::empty()
                    && final(self).selected == 0 && final(self).scroll_offset == old(self).scroll_offset
                    && r@.len() == 1 && r@[0] is CloseFilter,
                _ => final(self).filter == old(self).filter && final(self).selected == old(self).selected
                    && final(self).scroll_offset == old(self).scroll_offset && r@.len() == 0,
            },
    {
        let mut out: Vec<TickerAction> = Vec::new();
        match fa {
            FilterAction::Changed(q) => {
                self.filter = q;
                self.selected = 0;
                self.scroll_offset = 0;
            },
            FilterAction::Cancelled => {
                self.filter = String::new();
                self.selected = 0;
                out.push(TickerAction::CloseFilter);
            },
            _ => {},
        }
        out
    }

    /// The filter is cleared from outside: empty query, first row.
    pub fn clear_filter(&mut self)
        ensures
            final(self).filter@ == Seq::<char>::empty(),
            final(self).selected == 0,
            final(self).scroll_offset == old(self).scroll_offset,
            final(self).last_visible == old(self).last_visible,
            final(self).number_key == old(self).number_key,
    {
        self.filter = String::new();
        self.selected = 0;
    }

    /// Handles a mouse event over the pane whose top border is on screen
    /// row `area_y` (the list starts one row below, under the header):
    /// the wheel moves the selection, a left click selects the row under
    /// it if the view has that row.
    pub fn handle_mouse(&mut self, m: Mouse, area_y: u16)
        requires
            area_y < u16::MAX,
            old(self).selected + 1 <= usize::MAX,
            old(self).scroll_offset + u16::MAX as usize <= usize::MAX,
        ensures
            final(self).filter == old(self).filter,
            final(self).last_visible == old(self).last_visible,
            final(self).number_key == old(self).number_key,
            final(self).scroll_offset == old(self).scroll_offset,
            final(self).selected == (match m {
                Mouse::ScrollUp => sat_sub(old(self).selected as int, 1),
                Mouse::ScrollDown => moved_down(old(self).selected, 1, old(self).last_visible@.len() as usize),
                Mouse::LeftDown { row } => {
                    let t = clicked_row(row, area_y + 1, old(self).scroll_offset);
                    if t < old(self).last_visible@.len() {
                        t
                    } else {
                        old(self).selected as int
                    }
                },
                Mouse::Other => old(self).selected as int,
            }),
    {
        match m {
            Mouse::ScrollUp => self.select_up(1),
            Mouse::ScrollDown => {
                let max = self.last_visible.len();
                self.select_down(1, max);
            },
            Mouse::LeftDown { row } => {
                let top = area_y + 1;
                let rel = if row >= top {
                    (row - top) as usize
                } else {
                    0
                };
                let total = self.last_visible.len();
                self.click_row(rel, total);
            },
            Mouse::Other => {},
        }
    }

    /// Before drawing the ICY history in a view `height` rows tall: the
    /// rows the filter shows, then the selection clamped and scrolled into
    /// sight.
    pub fn refresh(&mut self, history: &Vec<TickerEntry>, height: usize)
        requires
            old(self).scroll_offset + height <= usize::MAX,
        ensures
            final(self).last_visible@ == newest_first_where(
                history@.len(),
                |i: int|
                    filter_shows(
                        old(self).filter@,
                        icy_text(history@[i].display@, crate::text::opt_view(history@[i].station)),
                    ),
            ),
            final(self).filter == old(self).filter,
            final(self).number_key == old(self).number_key,
            final(self).last_visible@.len() > 0 && height > 0 ==> final(self).selected < final(self).last_visible@.len()
                && final(self).scroll_offset <= final(self).selected
                && final(self).selected < final(self).scroll_offset + height,
    {
        let v = icy_visible_indices(history, self.filter.as_str());
        let total = v.len();
        self.last_visible = v;
        self.keep_selected_in_view(total, height);
    }
}

/// The songs ticker pane: the selected row of the filtered, newest-first
/// view of recognised songs, how far it is scrolled, and the filter text.
pub struct SongsTicker {
    pub selected: usize,
    pub scroll_offset: usize,
    pub filter: String,
    /// The rows of the last drawn view: history indices, newest first.
    pub last_visible: Vec<usize>,
    /// Pane number hint.
    pub number_key: Option<char>,
}

impl SongsTicker {
    /// The first row selected, unscrolled and unfiltered; numbered '3'.
    pub fn new() -> (t: Self)
        ensures
            t.selected == 0,
            t.scroll_offset == 0,
            t.filter@ == Seq::<char>::empty(),
            t.last_visible@ == Seq::<usize>::empty(),
            t.number_key == Some('3'),
    {
        SongsTicker {
            selected: 0,
            scroll_offset: 0,
            filter: String::new(),
            last_visible: Vec::new(),
            number_key: Some('3'),
        }
    }

    /// Handles a key press while the pane has focus (the filter input, when
    /// open, takes every key but Up and Down, and this does nothing then):
    /// the navigation keys move the selection; '/' opens the filter; 'i'
    /// asks for a recognition; 'y' copies the display text of the selected
    /// song when it is not empty; Enter copies its NTS episode link when it
    /// has one, and 'd' asks for that episode to be downloaded.
    pub fn handle_key(&mut self, key: Key, filter_active: bool, history: &Vec<RecognitionResult>) -> (r: Vec<TickerAction>)
        requires
            old(self).selected + 10 <= usize::MAX,
        ensures
            final(self).filter == old(self).filter,
            final(self).last_visible == old(self).last_visible,
            final(self).number_key == old(self).number_key,
            filter_takes(key, filter_active) ==> r@.len() == 0 && final(self).selected == old(self).selected
                && final(self).scroll_offset == old(self).scroll_offset,
            !filter_takes(key, filter_active) ==> match nav_spec(
                key,
                filter_active,
                old(self).selected,
                old(self).scroll_offset,
                old(self).last_visible@.len() as usize,
            ) {
                Some((s, o)) => final(self).selected == s && final(self).scroll_offset == o && r@.len() == 0,
                None => {
                    &&& final(self).selected == old(self).selected
                    &&& final(self).scroll_offset == old(self).scroll_offset
                    &&& if key == Key::Char('/') {
                        r@.len() == 1 && r@[0] is OpenFilter
                    } else if key == Key::Char('i') {
                        r@.len() == 1 && r@[0] is RecognizeSong
                    } else if key == Key::Char('y') {
                        match selected_entry(old(self).last_visible@, old(self).selected, history@) {
                            Some(e) => if display_spec(e@).len() > 0 {
                                r@.len() == 1 && (r@[0] matches TickerAction::CopyToClipboard(t) && t@
                                    == display_spec(e@))
                            } else {
                                r@.len() == 0
                            },
                            None => r@.len() == 0,
                        }
                    } else if key == Key::Enter {
                        match selected_entry(old(self).last_visible@, old(self).selected, history@) {
                            Some(e) => match e.nts_url {
                                Some(u) => r@.len() == 1 && (r@[0] matches TickerAction::CopyToClipboard(t)
                                    && t@ == u@),
                                None => r@.len() == 0,
                            },
                            None => r@.len() == 0,
                        }
                    } else if key == Key::Char('d') {
                        match selected_entry(old(self).last_visible@, old(self).selected, history@) {
                            Some(e) => match e.nts_url {
                                Some(u) => r@.len() == 1 && (r@[0] matches TickerAction::Download(t) && t@
                                    == u@),
                                None => r@.len() == 0,
                            },
                            None => r@.len() == 0,
                        }
                    } else {
                        r@.len() == 0
                    }
                },
            },
    {
        let mut out: Vec<TickerAction> = Vec::new();
        if filter_active && key != Key::Up && key != Key::Down {
            return out;
        }
        match nav(key, filter_active, self.selected, self.scroll_offset, self.last_visible.len()) {
            Some((s, o)) => {
                self.selected = s;
                self.scroll_offset = o;
                return out;
            },
            None => {},
        }
        if key == Key::Char('/') {
            out.push(TickerAction::OpenFilter);
        } else if key == Key::Char('i') {
            out.push(TickerAction::RecognizeSong);
        } else if key == Key::Char('y') {
            match entry_index(&self.last_visible, self.selected, history.len()) {
                Some(i) => {
                    let text = history[i].display();
                    if chars_of(text.as_str()).len() > 0 {
                        out.push(TickerAction::CopyToClipboard(text));
                    }
                },
                None => {},
            }
        } else if key == Key::Enter {
            match entry_index(&self.last_visible, self.selected, history.len()) {
                Some(i) => match &history[i].nts_url {
                    Some(u) => {
                        out.push(TickerAction::CopyToClipboard(u.clone()));
                    },
                    None => {},
                },
                None => {},
            }
        } else if key == Key::Char('d') {
            match entry_index(&self.last_visible, self.selected, history.len()) {
                Some(i) => match &history[i].nts_url {
                    Some(u) => {
                        out.push(TickerAction::Download(u.clone()));
                    },
                    None => {},
                },
                None => {},
            }
        }
        out
    }

    /// Handles what the filter input reported: a changed query filters
    /// from the first row again; a cancel clears the query and closes the
    /// filter.
    pub fn apply_filter_action(&mut self, fa: FilterAction) -> (r: Vec<TickerAction>)
        ensures
            final(self).last_visible == old(self).last_visible,
            final(self).number_key == old(self).number_key,
            match fa {
                FilterAction::Changed(q) => final(self).filter@ == q@ && final(self).selected == 0
                    && final(self).scroll_offset == 0 && r@.len() == 0,
                FilterAction::Cancelled => final(self).filter@ == Seq::<char>::empty()
                    && final(self).selected == 0 && final(self).scroll_offset == old(self).scroll_offset
                    && r@.len() == 1 && r@[0] is CloseFilter,
                _ => final(self).filter == old(self).filter && final(self).selected == old(self).selected
                    && final(self).scroll_offset == old(self).scroll_offset && r@.len() == 0,
            },
    {
        let mut out: Vec<TickerAction> = Vec::new();
        match fa {
            FilterAction::Changed(q) => {
                self.filter = q;
                self.selected = 0;
                self.scroll_offset = 0;
            },
            FilterAction::Cancelled => {
                self.filter = String::new();
                self.selected = 0;
                out.push(TickerAction::CloseFilter);
            },
            _ => {},
        }
        out
    }

    /// The filter is cleared from outside: empty query, first row.
    pub fn clear_filter(&mut self)
        ensures
            final(self).filter@ == Seq::<char>::empty(),
            final(self).selected == 0,
            final(self).scroll_offset == old(self).scroll_offset,
            final(self).last_visible == old(self).last_visible,
            final(self).number_key == old(self).number_key,
    {
        self.filter = String::new();
        self.selected = 0;
    }

    /// Handles a mouse event over the pane whose first list row is screen
    /// row `area_y`: the wheel moves the selection, a left click selects
    /// the row under it if the view has that row.
    pub fn handle_mouse(&mut self, m: Mouse, area_y: u16)
        requires
            old(self).selected + 1 <= usize::MAX,
            old(self).scroll_offset + u16::MAX as usize <= usize::MAX,
        ensures
            final(self).filter == old(self).filter,
            final(self).last_visible == old(self).last_visible,
            final(self).number_key == old(self).number_key,
            final(self).scroll_offset == old(self).scroll_offset,
            final(self).selected == (match m {
                Mouse::ScrollUp => sat_sub(old(self).selected as int, 1),
                Mouse::ScrollDown => moved_down(old(self).selected, 1, old(self).last_visible@.len() as usize),
                Mouse::LeftDown { row } => {
                    let t = clicked_row(row, area_y as int, old(self).scroll_offset);
                    if t < old(self).last_visible@.len() {
                        t
                    } else {
                        old(self).selected as int
                    }
                },
                Mouse::Other => old(self).selected as int,
            }),
    {
        let len = self.last_visible.len();
        let last = if len >= 1 {
            len - 1
        } else {
            0
        };
        match m {
            Mouse::ScrollUp => {
                self.selected = if self.selected >= 1 {
                    self.selected - 1
                } else {
                    0
                };
            },
            Mouse::ScrollDown => {
                self.selected = if self.selected + 1 < last {
                    self.selected + 1
                } else {
                    last
                };
            },
            Mouse::LeftDown { row } => {
                let rel = if row >= area_y {
                    (row - area_y) as usize
                } else {
                    0
                };
                let target = self.scroll_offset + rel;
                if target < len {
                    self.selected = target;
                }
            },
            Mouse::Other => {},
        }
    }

    /// Before drawing the songs history in a view `height` rows tall: the
    /// rows the filter shows, then the selection clamped and scrolled into
    /// sight.
    pub fn refresh(&mut self, history: &Vec<RecognitionResult>, height: usize)
        requires
            old(self).scroll_offset + height <= usize::MAX,
        ensures
            final(self).last_visible@ == newest_first_where(
                history@.len(),
                |i: int| filter_shows(old(self).filter@, song_text(history@[i]@)),
            ),
            final(self).filter == old(self).filter,
            final(self).number_key == old(self).number_key,
            final(self).last_visible@.len() == 0 ==> final(self).selected == old(self).selected
                && final(self).scroll_offset == old(self).scroll_offset,
            final(self).last_visible@.len() > 0 ==> final(self).selected == clamped(
                old(self).selected,
                final(self).last_visible@.len() as usize,
            ) && final(self).scroll_offset == offset_for(
                clamped(old(self).selected, final(self).last_visible@.len() as usize),
                old(self).scroll_offset,
                height,
            ),
            final(self).last_visible@.len() > 0 && height > 0 ==> final(self).selected < final(self).last_visible@.len()
                && final(self).scroll_offset <= final(self).selected
                && final(self).selected < final(self).scroll_offset + height,
    {
        let v = songs_visible_indices(history, self.filter.as_str());
        let total = v.len();
        self.last_visible = v;
        let (s, o) = in_view(self.selected, self.scroll_offset, total, height);
        self.selected = s;
        self.scroll_offset = o;
    }
}

// ── song rows ───────────────────────────────────────────────────────────────
/// The colour family of a song's badge: the strongest source it has.
#[derive(Debug, Clone, Copy, PartialEq, Eq, Structural)]
pub enum SourceTint {
    Vibra,
    Nts,
    Icy,
    Muted,
}

pub open spec fn source_tint_spec(srcs: Seq<RecognitionSource>) -> SourceTint {
    if srcs.contains(RecognitionSource::Vibra) {
        SourceTint::Vibra
    } else if srcs.contains(RecognitionSource::Nts) {
        SourceTint::Nts
    } else if srcs.contains(RecognitionSource::Icy) {
        SourceTint::Icy
    } else {
        SourceTint::Muted
    }
}

/// The colour family of a song's badge.
pub fn source_color(entry: &RecognitionResult) -> (r: SourceTint)
    ensures
        r == source_tint_spec(sources_spec(entry@)),
{
    let srcs = entry.sources();
    let n = srcs.len();
    let mut vibra = false;
    let mut nts = false;
    let mut icy = false;
    let mut i: usize = 0;
    while i < n
        invariant
            n == srcs@.len(),
            0 <= i <= n,
            vibra == srcs@.take(i as int).contains(RecognitionSource::Vibra),
            nts == srcs@.take(i as int).contains(RecognitionSource::Nts),
            icy == srcs@.take(i as int).contains(RecognitionSource::Icy),
        decreases n - i,
    {
        let s = srcs[i];
        proof {
            let t = srcs@.take(i + 1);
            assert(t =~= srcs@.take(i as int).push(s));
            assert forall|x: RecognitionSource| t.contains(x) == (srcs@.take(i as int).contains(x) || x == s) by {
                if t.contains(x) {
                    let j = choose|j: int| 0 <= j < t.len() && t[j] == x;
                    if j < i {
                        assert(srcs@.take(i as int)[j] == x);
                    }
                }
                if srcs@.take(i as int).contains(x) {
                    let j = choose|j: int| 0 <= j < i && srcs@.take(i as int)[j] == x;
                    assert(t[j] == x);
                }
                if x == s {
                    assert(t[i as int] == x);
                }
            }
        }
        match s {
            RecognitionSource::Vibra => {
                vibra = true;
            },
            RecognitionSource::Nts => {
                nts = true;
            },
            RecognitionSource::Icy => {
                icy = true;
            },
        }
        i += 1;
    }
    proof {
        assert(srcs@.take(n as int) =~= srcs@);
    }
    if vibra {
        SourceTint::Vibra
    } else if nts {
        SourceTint::Nts
    } else if icy {
        SourceTint::Icy
    } else {
        SourceTint::Muted
    }
}

/// `s` padded with spaces on the right to at least `w` characters
/// (`{:w}`).
pub open spec fn pad_right(s: Seq<char>, w: nat) -> Seq<char> {
    if s.len() < w {
        s + Seq::new((w - s.len()) as nat, |i: int| ' ')
    } else {
        s
    }
}

/// The spans of a song's row: its badge padded to six characters, its
/// time (as the caller formatted it) where it has one, its display text,
/// its station, its NTS show, and a link mark where it has an episode
/// link.
pub open spec fn song_row_spec(r: RowView, time_text: Option<Seq<char>>) -> Seq<Seq<char>> {
    seq![seq![' '] + pad_right(badge_spec(sources_spec(r)), 6) + seq![' ']] + (match time_text {
        Some(t) => seq![t + seq![' ']],
        None => Seq::<Seq<char>>::empty(),
    }) + seq![display_spec(r)] + (match r.station {
        Some(s) => seq![seq![' ', ' '] + s],
        None => Seq::<Seq<char>>::empty(),
    }) + (match r.nts_show {
        Some(s) => seq![" · "@, s],
        None => Seq::<Seq<char>>::empty(),
    }) + (if r.nts_url is Some {
        seq![" ↗"@]
    } else {
        Seq::<Seq<char>>::empty()
    })
}

fn push_view(out: &mut Vec<String>, s: String)
    ensures
        crate::text::string_views(final(out)@) == crate::text::string_views(old(out)@).push(s@),
{
    let ghost before = crate::text::string_views(out@);
    let ghost v = s@;
    out.push(s);
    proof {
        assert(crate::text::string_views(out@) =~= before.push(v));
    }
}

/// Builds the spans of a song's row; `time_text` is its timestamp as the
/// pane shows it.
pub fn song_row(entry: &RecognitionResult, time_text: Option<&str>) -> (r: Vec<String>)
    ensures
        crate::text::string_views(r@) == song_row_spec(
            entry@,
            match time_text {
                Some(t) => Some(t@),
                None => None,
            },
        ),
{
    let mut out: Vec<String> = Vec::new();
    let badge = source_badge_str(entry);
    let mut b = Vec::new();
    b.push(' ');
    let bc = chars_of(badge.as_str());
    append_chars(&mut b, bc.as_slice());
    let mut k = bc.len();
    while k < 6
        invariant
            bc@ == badge@,
            k <= 6 || k == bc@.len(),
            k >= bc@.len(),
            b@ == seq![' '] + bc@ + Seq::new((k - bc@.len()) as nat, |i: int| ' '),
        decreases 6 - k,
    {
        b.push(' ');
        proof {
            assert(b@ =~= seq![' '] + bc@ + Seq::new((k + 1 - bc@.len()) as nat, |i: int| ' '));
        }
        k += 1;
    }
    b.push(' ');
    proof {
        assert(b@ =~= seq![' '] + pad_right(badge@, 6) + seq![' ']);
    }
    push_view(&mut out, string_of(b.as_slice()));
    let ghost first = crate::text::string_views(out@);
    match time_text {
        Some(t) => {
            let mut c = chars_of(t);
            c.push(' ');
            proof {
                assert(c@ =~= t@ + seq![' ']);
            }
            push_view(&mut out, string_of(c.as_slice()));
        },
        None => {},
    }
    let ghost second = crate::text::string_views(out@);
    push_view(&mut out, entry.display());
    let ghost third = crate::text::string_views(out@);
    match &entry.station {
        Some(s) => {
            let mut c = chars_of("  ");
            let sc = chars_of(s.as_str());
            append_chars(&mut c, sc.as_slice());
            proof {
                reveal_strlit("  ");
                assert(c@ =~= seq![' ', ' '] + s@);
            }
            push_view(&mut out, string_of(c.as_slice()));
        },
        None => {},
    }
    let ghost fourth = crate::text::string_views(out@);
    match &entry.nts_show {
        Some(s) => {
            push_view(&mut out, string_of(chars_of(" · ").as_slice()));
            push_view(&mut out, s.clone());
        },
        None => {},
    }
    let ghost fifth = crate::text::string_views(out@);
    if entry.nts_url.is_some() {
        push_view(&mut out, string_of(chars_of(" ↗").as_slice()));
    }
    proof {
        let tt = match time_text {
            Some(t) => Some(t@),
            None => None,
        };
        let r = entry@;
        assert(first =~= seq![seq![' '] + pad_right(badge_spec(sources_spec(r)), 6) + seq![' ']]);
        assert(second =~= first + (match tt {
            Some(t) => seq![t + seq![' ']],
            None => Seq::<Seq<char>>::empty(),
        }));
        assert(third =~= second + seq![display_spec(r)]);
        assert(fourth =~= third + (match r.station {
            Some(s) => seq![seq![' ', ' '] + s],
            None => Seq::<Seq<char>>::empty(),
        }));
        assert(fifth =~= fourth + (match r.nts_show {
            Some(s) => seq![" · "@, s],
            None => Seq::<Seq<char>>::empty(),
        }));
        assert(crate::text::string_views(out@) =~= song_row_spec(r, tt));
    }
    out
}

} // verus!
