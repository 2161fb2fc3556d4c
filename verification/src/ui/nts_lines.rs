//! The text of the NTS pane and of its compact hover popup, line by line,
//! each line a sequence of spans.

use vstd::prelude::*;
use crate::ui::sat_sub;
use crate::nts::NtsShowText;
use crate::text::{append_chars, chars_of, join, join_chars, string_of, string_views, strings_chars};
use crate::timefmt::{pad2, push_pad2};
use crate::ui::app_state::{NtsChannel, NtsShow};
use crate::ui::lines::{line1, line2, line_views, prefixed, push_line, push_prefixed, push_span, span};
use crate::ui::nts_panel::{
    col_widths, left_height, right_height, tag_line, word_wrap, word_wrap_spec, wrap_width,
    COMPACT_UPCOMING,
};

verus! {

// ── pieces ──────────────────────────────────────────────────────────────────
/// The mark before a show's title: "(R) " for a replay, "● " when live.
pub open spec fn live_mark(replay: bool) -> Seq<char> {
    if replay {
        "(R) "@
    } else {
        "● "@
    }
}

/// A clock time as `%H:%M`.
pub open spec fn hm_text(t: (u32, u32)) -> Seq<char> {
    pad2(t.0 as nat) + ":"@ + pad2(t.1 as nat)
}

/// A show's time range, "HH:MM – HH:MM".
pub open spec fn time_range_text(s: NtsShow) -> Seq<char> {
    hm_text(s.start) + " – "@ + hm_text(s.end)
}

/// Where a show comes from: the long location, else the short one, where
/// either is given.
pub open spec fn place_of(t: NtsShowText) -> Option<Seq<char>> {
    if t.location_long@.len() > 0 {
        Some(t.location_long@)
    } else if t.location_short@.len() > 0 {
        Some(t.location_short@)
    } else {
        None
    }
}

/// The spans after the time: a separator and the place, where there is one.
pub open spec fn place_spans(t: NtsShowText) -> Seq<Seq<char>> {
    match place_of(t) {
        Some(l) => seq!["  ·  "@, l],
        None => Seq::<Seq<char>>::empty(),
    }
}

/// The short location after two spaces, where it is given.
pub open spec fn short_place_spans(t: NtsShowText) -> Seq<Seq<char>> {
    if t.location_short@.len() > 0 {
        seq!["  "@ + t.location_short@]
    } else {
        Seq::<Seq<char>>::empty()
    }
}

/// The line of an upcoming show in the full pane: time, title, short
/// location and the moods and genres.
pub open spec fn upcoming_line(s: NtsShow) -> Seq<Seq<char>> {
    seq!["   "@, time_range_text(s), "  "@, s.text.broadcast_title@] + short_place_spans(s.text) + (if s.text.moods@.len()
        > 0 || s.text.genres@.len() > 0 {
        seq!["  "@ + tag_line(s.text.moods@ + s.text.genres@)]
    } else {
        Seq::<Seq<char>>::empty()
    })
}

/// The width the full pane wraps moods and the description to: four less
/// than the pane, at least 10.
pub open spec fn pane_wrap_width(area_width: u16) -> usize {
    let w = sat_sub(area_width as int, 4);
    if w < 10 {
        10
    } else {
        w as usize
    }
}

/// The lines of the full NTS pane: the title with its live mark, the time
/// and place, the genres, the wrapped moods, the wrapped description after
/// a blank line, and the upcoming shows under a heading.
pub open spec fn pane_lines_spec(ch: NtsChannel, area_width: u16) -> Seq<Seq<Seq<char>>> {
    let t = ch.now.text;
    seq![
        seq![" "@, live_mark(t.is_replay), t.broadcast_title@],
        seq!["   "@, time_range_text(ch.now)] + place_spans(t),
    ] + pane_detail_spec(t, pane_wrap_width(area_width)) + (if ch.upcoming@.len() > 0 {
        seq![seq![""@], seq![" upcoming"@]] + ch.upcoming@.map_values(|s: NtsShow| upcoming_line(s))
    } else {
        Seq::<Seq<Seq<char>>>::empty()
    })
}

/// The wrapped title of the compact popup: the live mark before the first
/// row, two spaces before the others.
pub open spec fn title_rows(replay: bool, rows: Seq<Seq<char>>) -> Seq<Seq<Seq<char>>> {
    Seq::new(
        rows.len(),
        |i: int|
            if i == 0 {
                seq![live_mark(replay), rows[i]]
            } else {
                seq!["  "@, rows[i]]
            },
    )
}

/// The left column of the compact popup for a column `col_width` wide: the
/// wrapped title, the time and place, the wrapped genres and moods, and the
/// wrapped description after a blank line.
pub open spec fn left_lines_spec(now: NtsShow, col_width: u16) -> Seq<Seq<Seq<char>>> {
    let t = now.text;
    title_rows(t.is_replay, word_wrap_spec(t.broadcast_title@, wrap_width(sat_sub(col_width as int, 4)))) + seq![
        seq![time_range_text(now)] + place_spans(t),
    ] + left_detail_spec(t, wrap_width(sat_sub(col_width as int, 1)))
}

/// The part of the left column after the time: the wrapped genres and
/// moods, and the wrapped description after a blank line.
pub open spec fn left_detail_spec(t: NtsShowText, w: usize) -> Seq<Seq<Seq<char>>> {
    (if t.genres@.len() > 0 {
        prefixed(Seq::<Seq<char>>::empty(), word_wrap_spec(tag_line(t.genres@), w))
    } else {
        Seq::<Seq<Seq<char>>>::empty()
    }) + (if t.moods@.len() > 0 {
        prefixed(Seq::<Seq<char>>::empty(), word_wrap_spec(tag_line(t.moods@), w))
    } else {
        Seq::<Seq<Seq<char>>>::empty()
    }) + (if t.description@.len() > 0 {
        seq![seq![""@]] + prefixed(Seq::<Seq<char>>::empty(), word_wrap_spec(t.description@, w))
    } else {
        Seq::<Seq<Seq<char>>>::empty()
    })
}

/// The line of an upcoming show in the popup: time, title and short
/// location.
pub open spec fn compact_upcoming_line(s: NtsShow) -> Seq<Seq<char>> {
    seq![time_range_text(s), "  "@, s.text.broadcast_title@] + short_place_spans(s.text)
}

/// The right column of the compact popup: a heading, then the first
/// `COMPACT_UPCOMING` upcoming shows, or a dash when none follows.
pub open spec fn right_lines_spec(upcoming: Seq<NtsShow>) -> Seq<Seq<Seq<char>>> {
    seq![seq!["upcoming"@]] + if upcoming.len() == 0 {
        seq![seq!["—"@]]
    } else {
        (if upcoming.len() > COMPACT_UPCOMING {
            upcoming.take(COMPACT_UPCOMING as int)
        } else {
            upcoming
        }).map_values(|s: NtsShow| compact_upcoming_line(s))
    }
}

/// Law: the height the popup is sized to is the number of lines of its
/// taller column, as drawn.
pub proof fn law_compact_height_fits_lines(ch: NtsChannel, inner_width: u16)
    ensures
        left_lines_spec(ch.now, col_widths(inner_width).0).len() == left_height(
            ch.now.text,
            col_widths(inner_width).0,
        ),
        right_lines_spec(ch.upcoming@).len() == right_height(ch.upcoming@.len()),
{
}

// ── building ────────────────────────────────────────────────────────────────
fn hm_chars(out: &mut Vec<char>, t: (u32, u32))
    ensures
        final(out)@ == old(out)@ + hm_text(t),
{
    push_pad2(out, t.0 as u64);
    out.push(':');
    push_pad2(out, t.1 as u64);
    proof {
        reveal_strlit(":");
        assert(out@ =~= old(out)@ + hm_text(t));
    }
}

/// Formats a show's time range.
pub fn fmt_time_range(s: &NtsShow) -> (r: String)
    ensures
        r@ == time_range_text(*s),
{
    let mut out: Vec<char> = Vec::new();
    hm_chars(&mut out, s.start);
    let dash = chars_of(" – ");
    append_chars(&mut out, dash.as_slice());
    hm_chars(&mut out, s.end);
    proof {
        assert(out@ =~= time_range_text(*s));
    }
    string_of(out.as_slice())
}

fn nonempty(s: &String) -> (b: bool)
    ensures
        b == (s@.len() > 0),
{
    chars_of(s.as_str()).len() > 0
}

fn push_place_spans(line: &mut Vec<String>, t: &NtsShowText)
    ensures
        string_views(final(line)@) == string_views(old(line)@) + place_spans(*t),
{
    if nonempty(&t.location_long) {
        push_span(line, span("  ·  "));
        push_span(line, t.location_long.clone());
    } else if nonempty(&t.location_short) {
        push_span(line, span("  ·  "));
        push_span(line, t.location_short.clone());
    }
    proof {
        assert(string_views(line@) =~= string_views(old(line)@) + place_spans(*t));
    }
}

fn push_short_place(line: &mut Vec<String>, t: &NtsShowText)
    ensures
        string_views(final(line)@) == string_views(old(line)@) + short_place_spans(*t),
{
    if nonempty(&t.location_short) {
        let mut c = chars_of("  ");
        let l = chars_of(t.location_short.as_str());
        append_chars(&mut c, l.as_slice());
        push_span(line, string_of(c.as_slice()));
    }
    proof {
        assert(string_views(line@) =~= string_views(old(line)@) + short_place_spans(*t));
    }
}

fn tag_text(tags: &Vec<String>) -> (s: String)
    ensures
        s@ == tag_line(tags@),
{
    let pieces = strings_chars(tags);
    let sep = chars_of(" · ");
    let joined = join_chars(&pieces, sep.as_slice());
    string_of(joined.as_slice())
}

fn upcoming_line_exec(s: &NtsShow) -> (l: Vec<String>)
    ensures
        string_views(l@) == upcoming_line(*s),
{
    let mut l: Vec<String> = Vec::new();
    push_span(&mut l, span("   "));
    push_span(&mut l, fmt_time_range(s));
    push_span(&mut l, span("  "));
    push_span(&mut l, s.text.broadcast_title.clone());
    push_short_place(&mut l, &s.text);
    if s.text.moods.len() > 0 || s.text.genres.len() > 0 {
        let mut all: Vec<String> = Vec::new();
        let mut i: usize = 0;
        while i < s.text.moods.len()
            invariant
                0 <= i <= s.text.moods@.len(),
                all@ == s.text.moods@.take(i as int),
            decreases s.text.moods@.len() - i,
        {
            all.push(s.text.moods[i].clone());
            proof {
                assert(all@ =~= s.text.moods@.take(i + 1));
            }
            i += 1;
        }
        let mut j: usize = 0;
        while j < s.text.genres.len()
            invariant
                0 <= j <= s.text.genres@.len(),
                all@ == s.text.moods@ + s.text.genres@.take(j as int),
            decreases s.text.genres@.len() - j,
        {
            all.push(s.text.genres[j].clone());
            proof {
                assert(all@ =~= s.text.moods@ + s.text.genres@.take(j + 1));
            }
            j += 1;
        }
        proof {
            assert(s.text.moods@.take(s.text.moods@.len() as int) =~= s.text.moods@);
            assert(s.text.genres@.take(s.text.genres@.len() as int) =~= s.text.genres@);
        }
        let mut c = chars_of("  ");
        let tags = tag_text(&all);
        let tc = chars_of(tags.as_str());
        append_chars(&mut c, tc.as_slice());
        push_span(&mut l, string_of(c.as_slice()));
    }
    proof {
        assert(string_views(l@) =~= upcoming_line(*s));
    }
    l
}

fn head_lines(ch: &NtsChannel) -> (r: Vec<Vec<String>>)
    ensures
        line_views(r@) == seq![
            seq![" "@, live_mark(ch.now.text.is_replay), ch.now.text.broadcast_title@],
            seq!["   "@, time_range_text(ch.now)] + place_spans(ch.now.text),
        ],
{
    let t = &ch.now.text;
    let mut out: Vec<Vec<String>> = Vec::new();
    let mut first: Vec<String> = Vec::new();
    push_span(&mut first, span(" "));
    let mark = if t.is_replay {
        span("(R) ")
    } else {
        span("● ")
    };
    push_span(&mut first, mark);
    push_span(&mut first, t.broadcast_title.clone());
    proof {
        assert(string_views(first@) =~= seq![" "@, live_mark(t.is_replay), t.broadcast_title@]);
    }
    push_line(&mut out, first);
    let mut second: Vec<String> = Vec::new();
    push_span(&mut second, span("   "));
    push_span(&mut second, fmt_time_range(&ch.now));
    proof {
        assert(string_views(second@) =~= seq!["   "@, time_range_text(ch.now)]);
    }
    push_place_spans(&mut second, t);
    push_line(&mut out, second);
    proof {
        assert(line_views(out@) =~= seq![
            seq![" "@, live_mark(ch.now.text.is_replay), ch.now.text.broadcast_title@],
            seq!["   "@, time_range_text(ch.now)] + place_spans(ch.now.text),
        ]);
    }
    out
}

/// The part of the full pane about the show on air after its first two
/// lines: genres, moods and description.
pub open spec fn pane_detail_spec(t: NtsShowText, w: usize) -> Seq<Seq<Seq<char>>> {
    (if t.genres@.len() > 0 {
        seq![seq!["   "@, tag_line(t.genres@)]]
    } else {
        Seq::<Seq<Seq<char>>>::empty()
    }) + (if t.moods@.len() > 0 {
        prefixed(seq!["   "@], word_wrap_spec(tag_line(t.moods@), w))
    } else {
        Seq::<Seq<Seq<char>>>::empty()
    }) + (if t.description@.len() > 0 {
        seq![seq![""@]] + prefixed(seq!["   "@], word_wrap_spec(t.description@, w))
    } else {
        Seq::<Seq<Seq<char>>>::empty()
    })
}

fn push_pane_detail(out: &mut Vec<Vec<String>>, t: &NtsShowText, w: usize)
    ensures
        line_views(final(out)@) == line_views(old(out)@) + pane_detail_spec(*t, w),
{
    let ghost start = line_views(out@);
    if t.genres.len() > 0 {
        push_line(out, line2(span("   "), tag_text(&t.genres)));
    }
    let ghost g = line_views(out@);
    let indent = line1(span("   "));
    if t.moods.len() > 0 {
        let m = tag_text(&t.moods);
        let rows = word_wrap(m.as_str(), w);
        push_prefixed(out, &indent, &rows);
    }
    let ghost mo = line_views(out@);
    if nonempty(&t.description) {
        push_line(out, line1(span("")));
        let rows = word_wrap(t.description.as_str(), w);
        push_prefixed(out, &indent, &rows);
    }
    proof {
        let gs = if t.genres@.len() > 0 {
            seq![seq!["   "@, tag_line(t.genres@)]]
        } else {
            Seq::<Seq<Seq<char>>>::empty()
        };
        let ms = if t.moods@.len() > 0 {
            prefixed(seq!["   "@], word_wrap_spec(tag_line(t.moods@), w))
        } else {
            Seq::<Seq<Seq<char>>>::empty()
        };
        assert(string_views(indent@) =~= seq!["   "@]);
        assert(g =~= start + gs);
        assert(mo =~= start + gs + ms);
        assert(line_views(out@) =~= line_views(old(out)@) + pane_detail_spec(*t, w));
    }
}

fn push_upcoming(out: &mut Vec<Vec<String>>, upcoming: &Vec<NtsShow>)
    ensures
        line_views(final(out)@) == line_views(old(out)@) + upcoming@.map_values(|s: NtsShow| upcoming_line(s)),
{
    let ghost base = line_views(out@);
    let n = upcoming.len();
    let mut i: usize = 0;
    while i < n
        invariant
            n == upcoming@.len(),
            0 <= i <= n,
            line_views(out@) == base + upcoming@.take(i as int).map_values(|s: NtsShow| upcoming_line(s)),
        decreases n - i,
    {
        push_line(out, upcoming_line_exec(&upcoming[i]));
        proof {
            assert(upcoming@.take(i + 1).map_values(|s: NtsShow| upcoming_line(s)) =~= upcoming@.take(
                i as int,
            ).map_values(|s: NtsShow| upcoming_line(s)).push(upcoming_line(upcoming@[i as int])));
        }
        i += 1;
    }
    proof {
        assert(upcoming@.take(n as int) =~= upcoming@);
    }
}

/// Builds the lines of the full NTS pane for a pane `area_width` wide.
pub fn build_lines(ch: &NtsChannel, area_width: u16) -> (r: Vec<Vec<String>>)
    ensures
        line_views(r@) == pane_lines_spec(*ch, area_width),
{
    let aw = area_width as usize;
    let w0 = if aw >= 4 {
        aw - 4
    } else {
        0
    };
    let w = if w0 < 10 {
        10
    } else {
        w0
    };
    let mut out = head_lines(ch);
    let ghost head = line_views(out@);
    push_pane_detail(&mut out, &ch.now.text, w);
    let ghost detail = line_views(out@);
    if ch.upcoming.len() > 0 {
        push_line(&mut out, line1(span("")));
        push_line(&mut out, line1(span(" upcoming")));
        push_upcoming(&mut out, &ch.upcoming);
    }
    proof {
        assert(w == pane_wrap_width(area_width));
        assert(detail =~= head + pane_detail_spec(ch.now.text, w));
        assert(line_views(out@) =~= pane_lines_spec(*ch, area_width));
    }
    out
}

fn title_lines(replay: bool, title: &String, width: usize) -> (r: Vec<Vec<String>>)
    ensures
        line_views(r@) == title_rows(replay, word_wrap_spec(title@, width)),
{
    let mut out: Vec<Vec<String>> = Vec::new();
    let rows = word_wrap(title.as_str(), width);
    let ghost rv = string_views(rows@);
    let n = rows.len();
    let mut i: usize = 0;
    while i < n
        invariant
            n == rows@.len(),
            rv == string_views(rows@),
            0 <= i <= n,
            line_views(out@) == title_rows(replay, rv.take(i as int)),
        decreases n - i,
    {
        let lead = if i == 0 {
            if replay {
                span("(R) ")
            } else {
                span("● ")
            }
        } else {
            span("  ")
        };
        let l = line2(lead, rows[i].clone());
        let ghost lv = string_views(l@);
        push_line(&mut out, l);
        proof {
            assert(rv[i as int] == rows@[i as int]@);
            assert(lv == (if i == 0 {
                seq![live_mark(replay), rv[i as int]]
            } else {
                seq!["  "@, rv[i as int]]
            }));
            assert(title_rows(replay, rv.take(i + 1)) =~= title_rows(replay, rv.take(i as int)).push(lv));
        }
        i += 1;
    }
    proof {
        assert(rv.take(n as int) =~= rv);
    }
    out
}

fn push_left_detail(out: &mut Vec<Vec<String>>, t: &NtsShowText, w: usize)
    ensures
        line_views(final(out)@) == line_views(old(out)@) + left_detail_spec(*t, w),
{
    let ghost start = line_views(out@);
    let bare: Vec<String> = Vec::new();
    if t.genres.len() > 0 {
        let g = tag_text(&t.genres);
        push_prefixed(out, &bare, &word_wrap(g.as_str(), w));
    }
    let ghost g = line_views(out@);
    if t.moods.len() > 0 {
        let m = tag_text(&t.moods);
        push_prefixed(out, &bare, &word_wrap(m.as_str(), w));
    }
    let ghost mo = line_views(out@);
    if nonempty(&t.description) {
        push_line(out, line1(span("")));
        push_prefixed(out, &bare, &word_wrap(t.description.as_str(), w));
    }
    proof {
        assert(string_views(bare@) =~= Seq::<Seq<char>>::empty());
        let gs = if t.genres@.len() > 0 {
            prefixed(Seq::<Seq<char>>::empty(), word_wrap_spec(tag_line(t.genres@), w))
        } else {
            Seq::<Seq<Seq<char>>>::empty()
        };
        let ms = if t.moods@.len() > 0 {
            prefixed(Seq::<Seq<char>>::empty(), word_wrap_spec(tag_line(t.moods@), w))
        } else {
            Seq::<Seq<Seq<char>>>::empty()
        };
        assert(g =~= start + gs);
        assert(mo =~= start + gs + ms);
        assert(line_views(out@) =~= line_views(old(out)@) + left_detail_spec(*t, w));
    }
}

/// Builds the left column of the compact popup for a column `col_width`
/// wide.
pub fn build_left_lines(now: &NtsShow, col_width: u16) -> (r: Vec<Vec<String>>)
    ensures
        line_views(r@) == left_lines_spec(*now, col_width),
{
    let t = &now.text;
    let cw = col_width as usize;
    let a = if cw >= 4 {
        cw - 4
    } else {
        0
    };
    let title_w = if a < 8 {
        8
    } else {
        a
    };
    let b = if cw >= 1 {
        cw - 1
    } else {
        0
    };
    let w = if b < 8 {
        8
    } else {
        b
    };
    let mut out = title_lines(t.is_replay, &t.broadcast_title, title_w);
    let ghost after_title = line_views(out@);
    let mut time_line: Vec<String> = Vec::new();
    push_span(&mut time_line, fmt_time_range(now));
    proof {
        assert(string_views(time_line@) =~= seq![time_range_text(*now)]);
    }
    push_place_spans(&mut time_line, t);
    let ghost tl = string_views(time_line@);
    push_line(&mut out, time_line);
    let ghost after_time = line_views(out@);
    push_left_detail(&mut out, t, w);
    proof {
        assert(title_w == wrap_width(sat_sub(col_width as int, 4)));
        assert(w == wrap_width(sat_sub(col_width as int, 1)));
        assert(tl == seq![time_range_text(*now)] + place_spans(now.text));
        assert(after_time =~= after_title + seq![tl]);
        assert(line_views(out@) =~= after_time + left_detail_spec(now.text, w));
        assert(line_views(out@) =~= left_lines_spec(*now, col_width));
    }
    out
}

/// Builds the right column of the compact popup.
pub fn build_right_lines(upcoming: &Vec<NtsShow>) -> (r: Vec<Vec<String>>)
    ensures
        line_views(r@) == right_lines_spec(upcoming@),
{
    let mut out: Vec<Vec<String>> = Vec::new();
    push_line(&mut out, line1(span("upcoming")));
    if upcoming.len() == 0 {
        push_line(&mut out, line1(span("—")));
        proof {
            assert(line_views(out@) =~= right_lines_spec(upcoming@));
        }
        return out;
    }
    let ghost base = line_views(out@);
    let n = if upcoming.len() > COMPACT_UPCOMING {
        COMPACT_UPCOMING
    } else {
        upcoming.len()
    };
    let ghost shown = if upcoming@.len() > COMPACT_UPCOMING {
        upcoming@.take(COMPACT_UPCOMING as int)
    } else {
        upcoming@
    };
    let mut i: usize = 0;
    while i < n
        invariant
            n == shown.len(),
            n <= upcoming@.len(),
            shown == (if upcoming@.len() > COMPACT_UPCOMING {
                upcoming@.take(COMPACT_UPCOMING as int)
            } else {
                upcoming@
            }),
            0 <= i <= n,
            line_views(out@) == base + shown.take(i as int).map_values(|s: NtsShow| compact_upcoming_line(s)),
        decreases n - i,
    {
        let s = &upcoming[i];
        let mut l: Vec<String> = Vec::new();
        push_span(&mut l, fmt_time_range(s));
        push_span(&mut l, span("  "));
        push_span(&mut l, s.text.broadcast_title.clone());
        push_short_place(&mut l, &s.text);
        proof {
            assert(string_views(l@) =~= compact_upcoming_line(*s));
        }
        push_line(&mut out, l);
        proof {
            assert(shown[i as int] == upcoming@[i as int]);
            assert(shown.take(i + 1).map_values(|s: NtsShow| compact_upcoming_line(s)) =~= shown.take(
                i as int,
            ).map_values(|s: NtsShow| compact_upcoming_line(s)).push(compact_upcoming_line(shown[i as int])));
        }
        i += 1;
    }
    proof {
        assert(shown.take(n as int) =~= shown);
        assert(line_views(out@) =~= right_lines_spec(upcoming@));
    }
    out
}

} // verus!
