//! The file metadata pane: the lines it shows for the loaded file, the
//! filter over them, and its scrolling.

use vstd::prelude::*;
use crate::ui::sat_sub;
use crate::text::{
    append_chars, chars_of, contains_chars, contains_seq, decimal, decimal_chars, join, join_chars,
    lowercase, string_of, string_views, to_lowercase, views,
};
use crate::timefmt::{clock_text, fmt_clock};
use crate::ui::app_state::{FileChapter, FileMetadata};
use crate::ui::keys::{Key, Mouse};
use crate::ui::lines::{line1, line2, line_views, push_line, span};
use crate::ui::tickers::{FilterAction, TickerAction};

verus! {

// ── lines ───────────────────────────────────────────────────────────────────
/// What `Path::file_name` gives for a path: its last component, if it has
/// one.
pub uninterp spec fn path_file_name(path: Seq<char>) -> Option<Seq<char>>;

/// Calls `std::path::Path::file_name` on the path and converts the result
/// to a `String`. Nothing but the name is claimed of the result.
#[verifier::external_body]
fn file_name_of(path: &str) -> (r: Option<String>)
    ensures
        match r {
            Some(n) => path_file_name(path@) == Some(n@),
            None => path_file_name(path@) is None,
        },
{
    std::path::Path::new(path).file_name().and_then(|n| n.to_str()).map(|n| n.to_string())
}

/// How many tracklist lines or chapters the pane lists.
pub const LISTED_ITEMS: usize = 200;

/// The technical facts of a file, each present one as a piece: length,
/// codec, bit rate, sample rate, channels.
pub open spec fn info_parts(m: FileMetadata) -> Seq<Seq<char>> {
    (match m.duration_secs {
        Some(d) => seq![clock_text(d as nat)],
        None => Seq::<Seq<char>>::empty(),
    }) + (match m.codec {
        Some(c) => seq![c@],
        None => Seq::<Seq<char>>::empty(),
    }) + (match m.bitrate_kbps {
        Some(b) => seq![decimal(b as nat) + "k"@],
        None => Seq::<Seq<char>>::empty(),
    }) + (match m.sample_rate_hz {
        Some(s) => seq![decimal(s as nat) + "Hz"@],
        None => Seq::<Seq<char>>::empty(),
    }) + (match m.channels {
        Some(c) => seq![decimal(c as nat) + "ch"@],
        None => Seq::<Seq<char>>::empty(),
    })
}

/// The listed part of a sequence: its first `LISTED_ITEMS` elements.
pub open spec fn listed<T>(v: Seq<T>) -> Seq<T> {
    if v.len() > LISTED_ITEMS {
        v.take(LISTED_ITEMS as int)
    } else {
        v
    }
}

/// The line of a chapter: its bounds and its title.
pub open spec fn chapter_line(c: FileChapter) -> Seq<Seq<char>> {
    seq!["  "@, clock_text(c.start_secs as nat) + "-"@ + clock_text(c.end_secs as nat), "  "@, c.title@]
}

/// The lines under the "tracklist" heading: the tracklist where there is
/// one, else the chapters, else a note.
pub open spec fn track_lines(m: FileMetadata) -> Seq<Seq<Seq<char>>> {
    if m.tracklist@.len() > 0 {
        listed(m.tracklist@).map_values(|t: String| seq!["  "@, t@])
    } else if m.chapters@.len() > 0 {
        listed(m.chapters@).map_values(|c: FileChapter| chapter_line(c))
    } else {
        seq![seq!["  "@, "(no tracklist)"@]]
    }
}

/// The genre line, where the metadata has a genre.
pub open spec fn genre_lines(m: FileMetadata) -> Seq<Seq<Seq<char>>> {
    match m.genre {
        Some(g) => seq![seq!["  "@, g@]],
        None => Seq::<Seq<Seq<char>>>::empty(),
    }
}

/// The line of technical facts, joined by " · ", where there are any.
pub open spec fn info_lines(m: FileMetadata) -> Seq<Seq<Seq<char>>> {
    if info_parts(m).len() > 0 {
        seq![seq!["  "@, join(info_parts(m), "  ·  "@)]]
    } else {
        Seq::<Seq<Seq<char>>>::empty()
    }
}

/// The lines of the pane, each a sequence of spans: the loaded file's name,
/// then, once its metadata is known, its genre, its technical facts, a
/// blank line, the "tracklist" heading and the tracklist.
pub open spec fn meta_lines_spec(current_file: Option<Seq<char>>, meta: Option<FileMetadata>) -> Seq<Seq<Seq<char>>> {
    match current_file {
        None => seq![seq!["  no file selected"@]],
        Some(path) => {
            let name = match path_file_name(path) {
                Some(n) => n,
                None => "file"@,
            };
            let head = seq![seq!["  "@, name]];
            match meta {
                None => head.push(seq!["  loading metadata…"@]),
                Some(m) => head + genre_lines(m) + info_lines(m) + seq![seq![""@], seq![" tracklist"@]]
                    + track_lines(m),
            }
        },
    }
}






fn push_piece(parts: &mut Vec<Vec<char>>, p: Vec<char>)
    ensures
        views(final(parts)@) == views(old(parts)@).push(p@),
{
    let ghost before = views(parts@);
    parts.push(p);
    proof {
        assert(views(parts@) =~= before.push(p@));
    }
}

fn number_with(n: u64, unit: &str) -> (r: Vec<char>)
    ensures
        r@ == decimal(n as nat) + unit@,
{
    let mut d = decimal_chars(n);
    let u = chars_of(unit);
    append_chars(&mut d, u.as_slice());
    d
}

fn info_pieces(m: &FileMetadata) -> (r: Vec<Vec<char>>)
    ensures
        views(r@) == info_parts(*m),
{
    let mut parts: Vec<Vec<char>> = Vec::new();
    match m.duration_secs {
        Some(d) => {
            let t = fmt_clock(d);
            push_piece(&mut parts, chars_of(t.as_str()));
        },
        None => {},
    }
    match &m.codec {
        Some(c) => push_piece(&mut parts, chars_of(c.as_str())),
        None => {},
    }
    match m.bitrate_kbps {
        Some(b) => push_piece(&mut parts, number_with(b, "k")),
        None => {},
    }
    match m.sample_rate_hz {
        Some(s) => push_piece(&mut parts, number_with(s as u64, "Hz")),
        None => {},
    }
    match m.channels {
        Some(c) => push_piece(&mut parts, number_with(c as u64, "ch")),
        None => {},
    }
    proof {
        assert(views(parts@) =~= info_parts(*m));
    }
    parts
}

fn push_track_lines(out: &mut Vec<Vec<String>>, m: &FileMetadata)
    ensures
        line_views(final(out)@) == line_views(old(out)@) + track_lines(*m),
{
    let ghost start = line_views(out@);
    if m.tracklist.len() > 0 {
        let n = if m.tracklist.len() > LISTED_ITEMS {
            LISTED_ITEMS
        } else {
            m.tracklist.len()
        };
        let ghost items = listed(m.tracklist@).map_values(|t: String| seq!["  "@, t@]);
        let mut i: usize = 0;
        while i < n
            invariant
                n <= m.tracklist@.len(),
                n == listed(m.tracklist@).len(),
                items == listed(m.tracklist@).map_values(|t: String| seq!["  "@, t@]),
                0 <= i <= n,
                line_views(out@) == start + items.take(i as int),
            decreases n - i,
        {
            let l = line2(span("  "), m.tracklist[i].clone());
            push_line(out, l);
            proof {
                assert(items.take(i + 1) =~= items.take(i as int).push(items[i as int]));
            }
            i += 1;
        }
        proof {
            assert(items.take(n as int) =~= items);
        }
    } else if m.chapters.len() > 0 {
        let n = if m.chapters.len() > LISTED_ITEMS {
            LISTED_ITEMS
        } else {
            m.chapters.len()
        };
        let ghost items = listed(m.chapters@).map_values(|c: FileChapter| chapter_line(c));
        let mut i: usize = 0;
        while i < n
            invariant
                n <= m.chapters@.len(),
                n == listed(m.chapters@).len(),
                items == listed(m.chapters@).map_values(|c: FileChapter| chapter_line(c)),
                0 <= i <= n,
                line_views(out@) == start + items.take(i as int),
            decreases n - i,
        {
            let c = &m.chapters[i];
            let mut bounds = chars_of(fmt_clock(c.start_secs).as_str());
            bounds.push('-');
            let e = chars_of(fmt_clock(c.end_secs).as_str());
            append_chars(&mut bounds, e.as_slice());
            proof {
                reveal_strlit("-");
                assert(bounds@ =~= clock_text(c.start_secs as nat) + "-"@ + clock_text(c.end_secs as nat));
            }
            let mut l: Vec<String> = Vec::new();
            l.push(span("  "));
            l.push(string_of(bounds.as_slice()));
            l.push(span("  "));
            l.push(c.title.clone());
            proof {
                assert(string_views(l@) =~= chapter_line(*c));
            }
            push_line(out, l);
            proof {
                assert(items.take(i + 1) =~= items.take(i as int).push(items[i as int]));
            }
            i += 1;
        }
        proof {
            assert(items.take(n as int) =~= items);
        }
    } else {
        push_line(out, line2(span("  "), span("(no tracklist)")));
        proof {
            assert(line_views(out@) =~= start + track_lines(*m));
        }
    }
}

/// Builds the lines of the pane for the loaded file (if any) and its
/// metadata (if known).
pub fn meta_lines(current_file: Option<&str>, meta: Option<&FileMetadata>) -> (r: Vec<Vec<String>>)
    ensures
        line_views(r@) == meta_lines_spec(
            match current_file {
                Some(p) => Some(p@),
                None => None,
            },
            match meta {
                Some(m) => Some(*m),
                None => None,
            },
        ),
{
    let mut out: Vec<Vec<String>> = Vec::new();
    match current_file {
        None => {
            push_line(&mut out, line1(span("  no file selected")));
            proof {
                assert(line_views(out@) =~= seq![seq!["  no file selected"@]]);
            }
        },
        Some(path) => {
            let name = match file_name_of(path) {
                Some(n) => n,
                None => span("file"),
            };
            push_line(&mut out, line2(span("  "), name));
            let ghost head = line_views(out@);
            match meta {
                None => {
                    push_line(&mut out, line1(span("  loading metadata…")));
                },
                Some(m) => {
                    match &m.genre {
                        Some(g) => push_line(&mut out, line2(span("  "), g.clone())),
                        None => {},
                    }
                    let ghost after_genre = line_views(out@);
                    let parts = info_pieces(m);
                    if parts.len() > 0 {
                        let sep = chars_of("  ·  ");
                        let joined = join_chars(&parts, sep.as_slice());
                        push_line(&mut out, line2(span("  "), string_of(joined.as_slice())));
                    }
                    let ghost after_info = line_views(out@);
                    push_line(&mut out, line1(span("")));
                    push_line(&mut out, line1(span(" tracklist")));
                    let ghost after_heading = line_views(out@);
                    push_track_lines(&mut out, m);
                    proof {
                        assert(after_genre =~= head + genre_lines(*m));
                        assert(after_info =~= head + genre_lines(*m) + info_lines(*m));
                        assert(after_heading =~= head + genre_lines(*m) + info_lines(*m) + seq![
                            seq![""@],
                            seq![" tracklist"@],
                        ]);
                    }
                },
            }
        },
    }
    out
}

/// A line is kept by a (lowercased, non-empty) query when one of its spans,
/// lowercased, holds it.
pub open spec fn line_matches(line: Seq<Seq<char>>, q: Seq<char>) -> bool {
    exists|i: int| 0 <= i < line.len() && contains_seq(lowercase(#[trigger] line[i]), q)
}

/// The lines a filter keeps, in order.
pub open spec fn filter_lines_spec(lines: Seq<Seq<Seq<char>>>, q: Seq<char>) -> Seq<Seq<Seq<char>>>
    decreases lines.len(),
{
    if lines.len() == 0 {
        lines
    } else {
        let rest = filter_lines_spec(lines.drop_last(), q);
        if line_matches(lines.last(), q) {
            rest.push(lines.last())
        } else {
            rest
        }
    }
}

/// The lines the pane shows under a filter: all of them for an empty
/// filter, else those with a span that holds the lowercased filter.
pub open spec fn filtered_lines_spec(lines: Seq<Seq<Seq<char>>>, filter: Seq<char>) -> Seq<Seq<Seq<char>>> {
    if filter.len() == 0 {
        lines
    } else {
        filter_lines_spec(lines, lowercase(filter))
    }
}

fn line_has(line: &Vec<String>, q: &[char]) -> (b: bool)
    ensures
        b == line_matches(string_views(line@), q@),
{
    let n = line.len();
    let mut i: usize = 0;
    while i < n
        invariant
            n == line@.len(),
            0 <= i <= n,
            forall|j: int| 0 <= j < i ==> !contains_seq(lowercase(#[trigger] line@[j]@), q@),
        decreases n - i,
    {
        let l = to_lowercase(line[i].as_str());
        let c = chars_of(l.as_str());
        if contains_chars(c.as_slice(), q) {
            proof {
                assert(string_views(line@)[i as int] == line@[i as int]@);
            }
            return true;
        }
        i += 1;
    }
    proof {
        assert forall|j: int| 0 <= j < string_views(line@).len() implies !contains_seq(
            lowercase(#[trigger] string_views(line@)[j]),
            q@,
        ) by {
            assert(string_views(line@)[j] == line@[j]@);
        }
    }
    false
}

/// Keeps the lines the filter shows.
pub fn filtered_lines(lines: Vec<Vec<String>>, filter: &str) -> (r: Vec<Vec<String>>)
    ensures
        line_views(r@) == filtered_lines_spec(line_views(lines@), filter@),
{
    let fc = chars_of(filter);
    if fc.len() == 0 {
        return lines;
    }
    let ql = to_lowercase(filter);
    let q = chars_of(ql.as_str());
    let n = lines.len();
    let mut out: Vec<Vec<String>> = Vec::new();
    let mut i: usize = 0;
    while i < n
        invariant
            n == lines@.len(),
            0 <= i <= n,
            q@ == lowercase(filter@),
            line_views(out@) == filter_lines_spec(line_views(lines@).take(i as int), q@),
        decreases n - i,
    {
        proof {
            assert(line_views(lines@).take(i + 1).drop_last() =~= line_views(lines@).take(i as int));
            assert(line_views(lines@).take(i + 1).last() == string_views(lines@[i as int]@));
        }
        if line_has(&lines[i], q.as_slice()) {
            let mut copy: Vec<String> = Vec::new();
            let m = lines[i].len();
            let mut j: usize = 0;
            while j < m
                invariant
                    m == lines@[i as int]@.len(),
                    0 <= j <= m,
                    i < n,
                    n == lines@.len(),
                    string_views(copy@) == string_views(lines@[i as int]@).take(j as int),
                decreases m - j,
            {
                let s = lines[i][j].clone();
                let ghost before = string_views(copy@);
                copy.push(s);
                proof {
                    assert(string_views(copy@) =~= before.push(s@));
                    assert(string_views(lines@[i as int]@).take(j + 1) =~= string_views(
                        lines@[i as int]@,
                    ).take(j as int).push(lines@[i as int]@[j as int]@));
                }
                j += 1;
            }
            proof {
                assert(string_views(lines@[i as int]@).take(m as int) =~= string_views(lines@[i as int]@));
            }
            push_line(&mut out, copy);
        }
        i += 1;
    }
    proof {
        assert(line_views(lines@).take(n as int) =~= line_views(lines@));
    }
    out
}

// ── the pane ────────────────────────────────────────────────────────────────
/// The metadata pane: its scroll offset and filter text.
pub struct FileMeta {
    pub scroll: usize,
    pub filter: String,
}

impl FileMeta {
    /// Unscrolled and unfiltered.
    pub fn new() -> (p: Self)
        ensures
            p.scroll == 0,
            p.filter@ == Seq::<char>::empty(),
    {
        FileMeta { scroll: 0, filter: String::new() }
    }

    /// Handles a key press while the pane has focus. The open filter input
    /// takes every key (and this does nothing then). Otherwise arrows and
    /// j/k scroll a line, PageUp/PageDown ten, Home and g to the top, End
    /// and G to the bottom; '/' opens the filter.
    pub fn handle_key(&mut self, key: Key, filter_active: bool) -> (r: Vec<TickerAction>)
        requires
            !filter_active ==> old(self).scroll + 10 <= usize::MAX,
        ensures
            final(self).filter == old(self).filter,
            filter_active ==> final(self).scroll == old(self).scroll && r@.len() == 0,
            !filter_active ==> final(self).scroll == (if key == Key::Up || key == Key::Char('k') {
                sat_sub(old(self).scroll as int, 1)
            } else if key == Key::Down || key == Key::Char('j') {
                old(self).scroll + 1
            } else if key == Key::PageUp {
                sat_sub(old(self).scroll as int, 10)
            } else if key == Key::PageDown {
                old(self).scroll + 10
            } else if key == Key::Home || key == Key::Char('g') {
                0
            } else if key == Key::End || key == Key::Char('G') {
                usize::MAX as int
            } else {
                old(self).scroll as int
            }),
            !filter_active ==> (if key == Key::Char('/') {
                r@.len() == 1 && r@[0] is OpenFilter
            } else {
                r@.len() == 0
            }),
    {
        let mut out: Vec<TickerAction> = Vec::new();
        if filter_active {
            return out;
        }
        if key == Key::Up || key == Key::Char('k') {
            self.scroll = if self.scroll >= 1 { self.scroll - 1 } else { 0 };
        } else if key == Key::Down || key == Key::Char('j') {
            self.scroll = self.scroll + 1;
        } else if key == Key::PageUp {
            self.scroll = if self.scroll >= 10 { self.scroll - 10 } else { 0 };
        } else if key == Key::PageDown {
            self.scroll = self.scroll + 10;
        } else if key == Key::Home || key == Key::Char('g') {
            self.scroll = 0;
        } else if key == Key::End || key == Key::Char('G') {
            self.scroll = usize::MAX;
        } else if key == Key::Char('/') {
            out.push(TickerAction::OpenFilter);
        }
        out
    }

    /// Handles what the filter input reported: a changed query shows the
    /// top again; a cancel clears the query and closes the filter.
    pub fn apply_filter_action(&mut self, fa: FilterAction) -> (r: Vec<TickerAction>)
        ensures
            match fa {
                FilterAction::Changed(q) => final(self).filter@ == q@ && final(self).scroll == 0 && r@.len()
                    == 0,
                FilterAction::Cancelled => final(self).filter@ == Seq::<char>::empty() && final(self).scroll
                    == 0 && r@.len() == 1 && r@[0] is CloseFilter,
                _ => final(self).filter == old(self).filter && final(self).scroll == old(self).scroll
                    && r@.len() == 0,
            },
    {
        let mut out: Vec<TickerAction> = Vec::new();
        match fa {
            FilterAction::Changed(q) => {
                self.filter = q;
                self.scroll = 0;
            },
            FilterAction::Cancelled => {
                self.filter = String::new();
                self.scroll = 0;
                out.push(TickerAction::CloseFilter);
            },
            _ => {},
        }
        out
    }

    /// The filter is cleared from outside: empty query, top of the pane.
    pub fn clear_filter(&mut self)
        ensures
            final(self).filter@ == Seq::<char>::empty(),
            final(self).scroll == 0,
    {
        self.filter = String::new();
        self.scroll = 0;
    }

    /// The wheel scrolls a line.
    pub fn handle_mouse(&mut self, m: Mouse)
        requires
            old(self).scroll + 1 <= usize::MAX,
        ensures
            final(self).filter == old(self).filter,
            final(self).scroll == (match m {
                Mouse::ScrollUp => sat_sub(old(self).scroll as int, 1),
                Mouse::ScrollDown => old(self).scroll + 1,
                _ => old(self).scroll as int,
            }),
    {
        match m {
            Mouse::ScrollUp => {
                self.scroll = if self.scroll >= 1 { self.scroll - 1 } else { 0 };
            },
            Mouse::ScrollDown => {
                self.scroll = self.scroll + 1;
            },
            _ => {},
        }
    }

    /// Before drawing `total` lines in a view `height` rows tall: the
    /// offset is clamped so that the last line is at most at the bottom.
    pub fn clamp_scroll(&mut self, total: usize, height: usize)
        ensures
            final(self).filter == old(self).filter,
            final(self).scroll == (if old(self).scroll > sat_sub(total as int, height as int) {
                sat_sub(total as int, height as int)
            } else {
                old(self).scroll as int
            }),
    {
        let max_scroll = if total >= height {
            total - height
        } else {
            0
        };
        if self.scroll > max_scroll {
            self.scroll = max_scroll;
        }
    }
}

/// The one-line summary of a collapsed pane: "title — artist", or the title
/// alone, when the metadata has a title.
pub open spec fn meta_summary_spec(title: Option<Seq<char>>, artist: Option<Seq<char>>) -> Option<Seq<char>> {
    match (title, artist) {
        (Some(t), Some(a)) => Some(t + " — "@ + a),
        (Some(t), None) => Some(t),
        _ => None,
    }
}

pub fn collapse_summary(meta: Option<&FileMetadata>) -> (r: Option<String>)
    ensures
        match meta {
            Some(m) => match r {
                Some(s) => meta_summary_spec(
                    crate::text::opt_view(m.title),
                    crate::text::opt_view(m.artist),
                ) == Some(s@),
                None => meta_summary_spec(crate::text::opt_view(m.title), crate::text::opt_view(m.artist))
                    is None,
            },
            None => r is None,
        },
{
    match meta {
        None => None,
        Some(m) => match (&m.title, &m.artist) {
            (Some(t), Some(a)) => {
                let mut c = chars_of(t.as_str());
                let d = chars_of(" — ");
                append_chars(&mut c, d.as_slice());
                let e = chars_of(a.as_str());
                append_chars(&mut c, e.as_slice());
                Some(string_of(c.as_slice()))
            },
            (Some(t), None) => Some(t.clone()),
            _ => None,
        },
    }
}

} // verus!
