//! Layout helpers of the NTS panel: wrapping text to a width and splitting
//! the compact view into two columns.

use vstd::prelude::*;
use crate::ui::sat_sub;
use crate::nts::NtsShowText;
use crate::text::{
    append_chars, byte_len, byte_len_of, chars_of, join, join_chars, split_chars, split_on,
    string_of, string_views, strings_chars, strings_of, views, words, words_chars,
};
use crate::ui::app_state::{AppState, NtsChannel};
use crate::ui::keys::{Key, Mouse};

verus! {

// ── wrapping ────────────────────────────────────────────────────────────────
/// Greedy filling of the words of one paragraph into lines of at most
/// `width` bytes: the finished lines and the line being filled. A word
/// longer than the width gets a line of its own.
pub open spec fn wrap_fold(ws: Seq<Seq<char>>, width: usize) -> (Seq<Seq<char>>, Seq<char>)
    decreases ws.len(),
{
    if ws.len() == 0 {
        (Seq::<Seq<char>>::empty(), Seq::<char>::empty())
    } else {
        let (done, cur) = wrap_fold(ws.drop_last(), width);
        let w = ws.last();
        if cur.len() == 0 {
            (done, w)
        } else if byte_len(cur) + 1 + byte_len(w) <= width {
            (done, cur + seq![' '] + w)
        } else {
            (done.push(cur), w)
        }
    }
}

/// The lines of one paragraph; an empty paragraph gives one empty line.
pub open spec fn wrap_paragraph(p: Seq<char>, width: usize) -> Seq<Seq<char>> {
    let (done, cur) = wrap_fold(words(p), width);
    let lines = if cur.len() > 0 {
        done.push(cur)
    } else {
        done
    };
    if p.len() == 0 {
        lines.push(Seq::<char>::empty())
    } else {
        lines
    }
}

/// The lines of all paragraphs, in order.
pub open spec fn wrap_all(ps: Seq<Seq<char>>, width: usize) -> Seq<Seq<char>>
    decreases ps.len(),
{
    if ps.len() == 0 {
        Seq::<Seq<char>>::empty()
    } else {
        wrap_all(ps.drop_last(), width) + wrap_paragraph(ps.last(), width)
    }
}

/// Word wrapping of `text` to `width` bytes per line, paragraph by
/// paragraph ('\n' separates paragraphs); a zero width leaves the text
/// whole.
pub open spec fn word_wrap_spec(text: Seq<char>, width: usize) -> Seq<Seq<char>> {
    if width == 0 {
        seq![text]
    } else {
        wrap_all(split_on(text, '\n'), width)
    }
}

fn wrap_paragraph_into(out: &mut Vec<Vec<char>>, p: &[char], width: usize)
    ensures
        views(final(out)@) == views(old(out)@) + wrap_paragraph(p@, width),
{
    let ws = words_chars(p);
    let n = ws.len();
    let ghost start = views(out@);
    let mut done: Vec<Vec<char>> = Vec::new();
    let mut cur: Vec<char> = Vec::new();
    let mut i: usize = 0;
    while i < n
        invariant
            n == ws@.len(),
            views(ws@) == words(p@),
            0 <= i <= n,
            wrap_fold(words(p@).take(i as int), width) == (views(done@), cur@),
        decreases n - i,
    {
        let w = &ws[i];
        proof {
            assert(words(p@).take(i + 1).drop_last() =~= words(p@).take(i as int));
            assert(words(p@).take(i + 1).last() == w@);
        }
        if cur.len() == 0 {
            let mut c: Vec<char> = Vec::new();
            append_chars(&mut c, w.as_slice());
            cur = c;
        } else {
            let cl = byte_len_of(cur.as_slice());
            let wl = byte_len_of(w.as_slice());
            if cl < width && wl <= width - 1 - cl {
                cur.push(' ');
                append_chars(&mut cur, w.as_slice());
            } else {
                let ghost before = views(done@);
                let finished = cur;
                done.push(finished);
                proof {
                    assert(views(done@) =~= before.push(finished@));
                }
                let mut c: Vec<char> = Vec::new();
                append_chars(&mut c, w.as_slice());
                cur = c;
            }
        }
        i += 1;
    }
    proof {
        assert(words(p@).take(n as int) =~= words(p@));
    }
    let mut k: usize = 0;
    let dn = done.len();
    while k < dn
        invariant
            dn == done@.len(),
            0 <= k <= dn,
            views(out@) == start + views(done@).take(k as int),
        decreases dn - k,
    {
        let mut line: Vec<char> = Vec::new();
        append_chars(&mut line, done[k].as_slice());
        let ghost before = views(out@);
        out.push(line);
        proof {
            assert(views(out@) =~= before.push(done@[k as int]@));
            assert(views(done@).take(k + 1) =~= views(done@).take(k as int).push(done@[k as int]@));
        }
        k += 1;
    }
    proof {
        assert(views(done@).take(dn as int) =~= views(done@));
    }
    if cur.len() > 0 {
        let ghost before = views(out@);
        let last = cur;
        out.push(last);
        proof {
            assert(views(out@) =~= before.push(last@));
        }
    }
    if p.len() == 0 {
        let ghost before = views(out@);
        out.push(Vec::new());
        proof {
            assert(views(out@) =~= before.push(Seq::<char>::empty()));
        }
    }
    proof {
        let (d, c) = wrap_fold(words(p@), width);
        assert(views(out@) =~= start + wrap_paragraph(p@, width));
    }
}

/// Wraps `text` into lines of at most `width` bytes where the words allow.
pub fn word_wrap(text: &str, width: usize) -> (r: Vec<String>)
    ensures
        string_views(r@) == word_wrap_spec(text@, width),
{
    if width == 0 {
        let mut v: Vec<String> = Vec::new();
        let t = string_of(crate::text::chars_of(text).as_slice());
        v.push(t);
        proof {
            assert(string_views(v@) =~= seq![text@]);
        }
        return v;
    }
    let tc = crate::text::chars_of(text);
    let paras = split_chars(tc.as_slice(), '\n');
    let n = paras.len();
    let mut out: Vec<Vec<char>> = Vec::new();
    let mut i: usize = 0;
    while i < n
        invariant
            n == paras@.len(),
            views(paras@) == split_on(text@, '\n'),
            0 <= i <= n,
            width > 0,
            views(out@) == wrap_all(views(paras@).take(i as int), width),
        decreases n - i,
    {
        proof {
            assert(views(paras@).take(i + 1).drop_last() =~= views(paras@).take(i as int));
            assert(views(paras@).take(i + 1).last() == paras@[i as int]@);
        }
        wrap_paragraph_into(&mut out, paras[i].as_slice(), width);
        i += 1;
    }
    proof {
        assert(views(paras@).take(n as int) =~= views(paras@));
    }
    strings_of(&out)
}

// ── columns ─────────────────────────────────────────────────────────────────
/// Left and right column widths of the compact two-column layout: one
/// character is the gutter; the left column gets 60% of the rest (rounded
/// down), at least 16, but leaves the right at least 12 when it can; the
/// right gets the remainder.
pub open spec fn col_widths(inner_width: u16) -> (u16, u16) {
    let available: int = if inner_width >= 1 { inner_width - 1 } else { 0 };
    let sixty: int = available * 3 / 5;
    let at_least: int = if sixty < 16 { 16 } else { sixty };
    let cap: int = if available >= 12 { available - 12 } else { 0 };
    let left: int = if at_least < cap { at_least } else { cap };
    (left as u16, (available - left) as u16)
}

pub fn compact_col_widths(inner_width: u16) -> (r: (u16, u16))
    ensures
        r == col_widths(inner_width),
{
    let available: u16 = if inner_width >= 1 { inner_width - 1 } else { 0 };
    let sixty: u16 = ((available as u32) * 3 / 5) as u16;
    let at_least: u16 = if sixty < 16 { 16 } else { sixty };
    let cap: u16 = if available >= 12 { available - 12 } else { 0 };
    let left: u16 = if at_least < cap { at_least } else { cap };
    (left, available - left)
}

/// Law: the two columns share exactly the width left after the gutter, and
/// the left one takes at least 16 characters whenever that leaves the right
/// one at least 12.
pub proof fn law_col_widths(inner_width: u16)
    ensures
        col_widths(inner_width).0 + col_widths(inner_width).1 == (if inner_width >= 1 {
            inner_width - 1
        } else {
            0
        }),
        inner_width >= 29 ==> col_widths(inner_width).0 >= 16 && col_widths(inner_width).1 >= 12,
{
}

// ── compact popup height ────────────────────────────────────────────────────
/// How many upcoming shows the compact popup lists.
pub const COMPACT_UPCOMING: usize = 8;

/// A wrapping width: `w`, but at least 8.
pub open spec fn wrap_width(w: int) -> usize {
    if w < 8 {
        8
    } else {
        w as usize
    }
}

/// Tags shown on one line, separated by " · ".
pub open spec fn tag_line(tags: Seq<String>) -> Seq<char> {
    join(string_views(tags), " · "@)
}

/// Rows of the left column of the compact popup for a column of
/// `col_width`: the wrapped title, one time and place row, the wrapped
/// genres and moods where there are any, and a blank row before the
/// wrapped description where there is one.
pub open spec fn left_height(now: NtsShowText, col_width: u16) -> int {
    let title_w = wrap_width(sat_sub(col_width as int, 4));
    let w = wrap_width(sat_sub(col_width as int, 1));
    word_wrap_spec(now.broadcast_title@, title_w).len() + 1 + (if now.genres@.len() > 0 {
        word_wrap_spec(tag_line(now.genres@), w).len() as int
    } else {
        0
    }) + (if now.moods@.len() > 0 {
        word_wrap_spec(tag_line(now.moods@), w).len() as int
    } else {
        0
    }) + (if now.description@.len() > 0 {
        1 + word_wrap_spec(now.description@, w).len()
    } else {
        0
    })
}

/// Rows of the right column: a heading, then one row per upcoming show (at
/// most `COMPACT_UPCOMING`), or one dash row when none follows.
pub open spec fn right_height(upcoming: nat) -> int {
    if upcoming == 0 {
        2
    } else if upcoming < COMPACT_UPCOMING {
        1 + upcoming as int
    } else {
        1 + COMPACT_UPCOMING as int
    }
}

/// Rows the compact popup needs inside its borders: the taller column
/// (as a `u16`, truncated).
pub open spec fn content_height(ch: NtsChannel, inner_width: u16) -> u16 {
    let lh = left_height(ch.now.text, col_widths(inner_width).0);
    let rh = right_height(ch.upcoming@.len());
    (if lh < rh {
        rh
    } else {
        lh
    }) as u16
}

fn wrapped_rows(text: &str, width: usize) -> (n: usize)
    ensures
        n == word_wrap_spec(text@, width).len(),
{
    let lines = word_wrap(text, width);
    proof {
        assert(string_views(lines@).len() == lines@.len());
    }
    lines.len()
}

fn tag_line_exec(tags: &Vec<String>) -> (s: String)
    ensures
        s@ == tag_line(tags@),
{
    let pieces = strings_chars(tags);
    let sep = chars_of(" · ");
    let joined = join_chars(&pieces, sep.as_slice());
    string_of(joined.as_slice())
}

fn left_rows(now: &NtsShowText, col_width: u16) -> (n: u128)
    ensures
        n == left_height(*now, col_width),
{
    let cw = col_width as usize;
    let t = if cw >= 4 { cw - 4 } else { 0 };
    let title_w = if t < 8 { 8 } else { t };
    let u = if cw >= 1 { cw - 1 } else { 0 };
    let w = if u < 8 { 8 } else { u };
    let mut n: u128 = wrapped_rows(now.broadcast_title.as_str(), title_w) as u128 + 1;
    if now.genres.len() > 0 {
        let g = tag_line_exec(&now.genres);
        n = n + wrapped_rows(g.as_str(), w) as u128;
    }
    if now.moods.len() > 0 {
        let m = tag_line_exec(&now.moods);
        n = n + wrapped_rows(m.as_str(), w) as u128;
    }
    if chars_of(now.description.as_str()).len() > 0 {
        n = n + 1 + wrapped_rows(now.description.as_str(), w) as u128;
    }
    n
}

/// The NTS pane: which channel it shows and how far it is scrolled.
pub struct NtsPanel {
    /// 0 = NTS 1, 1 = NTS 2
    pub channel: usize,
    pub scroll: usize,
    /// Horizontal scroll offset (columns).
    pub scroll_x: usize,
    /// Pane number hint.
    pub number_key: Option<char>,
}

/// The channel a pane shows, as the state holds it.
pub open spec fn channel_of(p: NtsPanel, state: AppState) -> Option<NtsChannel> {
    if p.channel == 0 {
        state.nts_ch1
    } else {
        state.nts_ch2
    }
}

impl NtsPanel {
    /// A pane for channel 0 (NTS 1) or 1 (NTS 2), unscrolled; the first
    /// is numbered '2', the second '3'.
    pub fn new(channel: usize) -> (p: Self)
        ensures
            p.channel == channel,
            p.scroll == 0,
            p.scroll_x == 0,
            p.number_key == Some(if channel == 0 {
                '2'
            } else {
                '3'
            }),
    {
        let number_key = if channel == 0 {
            Some('2')
        } else {
            Some('3')
        };
        NtsPanel { channel, scroll: 0, scroll_x: 0, number_key }
    }

    /// The number of inner rows the compact popup needs for an inner width.
    pub fn compact_content_height(&self, ch: &NtsChannel, inner_width: u16) -> (r: u16)
        ensures
            r == content_height(*ch, inner_width),
    {
        let (left_w, _right_w) = compact_col_widths(inner_width);
        let left_h = left_rows(&ch.now.text, left_w);
        let k = ch.upcoming.len();
        let right_h: u128 = if k == 0 {
            2
        } else if k < COMPACT_UPCOMING {
            1 + k as u128
        } else {
            1 + COMPACT_UPCOMING as u128
        };
        let m = if left_h < right_h {
            right_h
        } else {
            left_h
        };
        m as u16
    }

    /// The inner rows for the full overlay width (borders included): 1, for
    /// the "fetching" line, while the channel has no data yet.
    pub fn compact_content_height_for_state(&self, state: &AppState, overlay_width: u16) -> (r: u16)
        ensures
            r == (match channel_of(*self, *state) {
                Some(ch) => content_height(ch, sat_sub(overlay_width as int, 2) as u16),
                None => 1,
            }),
    {
        let inner_width: u16 = if overlay_width >= 2 {
            overlay_width - 2
        } else {
            0
        };
        let data = if self.channel == 0 {
            &state.nts_ch1
        } else {
            &state.nts_ch2
        };
        match data {
            Some(ch) => self.compact_content_height(ch, inner_width),
            None => 1,
        }
    }
}

/// Where a key moves the NTS pane's (vertical, horizontal) scroll: arrows
/// and h/j/k/l by a row or four columns, PageUp/PageDown by ten rows, Home
/// and g back to the start; other keys leave it.
pub open spec fn nts_scroll_after(key: Key, scroll: usize, scroll_x: usize) -> (int, int) {
    if key == Key::Up || key == Key::Char('k') {
        (sat_sub(scroll as int, 1), scroll_x as int)
    } else if key == Key::Down || key == Key::Char('j') {
        (scroll + 1, scroll_x as int)
    } else if key == Key::Left || key == Key::Char('h') {
        (scroll as int, sat_sub(scroll_x as int, 4))
    } else if key == Key::Right || key == Key::Char('l') {
        (scroll as int, scroll_x + 4)
    } else if key == Key::PageUp {
        (sat_sub(scroll as int, 10), scroll_x as int)
    } else if key == Key::PageDown {
        (scroll + 10, scroll_x as int)
    } else if key == Key::Home || key == Key::Char('g') {
        (0, 0)
    } else {
        (scroll as int, scroll_x as int)
    }
}

impl NtsPanel {
    /// Scrolls the pane for a key press.
    pub fn handle_key(&mut self, key: Key)
        requires
            old(self).scroll + 10 <= usize::MAX,
            old(self).scroll_x + 4 <= usize::MAX,
        ensures
            (final(self).scroll as int, final(self).scroll_x as int) == nts_scroll_after(
                key,
                old(self).scroll,
                old(self).scroll_x,
            ),
            final(self).channel == old(self).channel,
            final(self).number_key == old(self).number_key,
    {
        if key == Key::Up || key == Key::Char('k') {
            self.scroll = if self.scroll >= 1 { self.scroll - 1 } else { 0 };
        } else if key == Key::Down || key == Key::Char('j') {
            self.scroll = self.scroll + 1;
        } else if key == Key::Left || key == Key::Char('h') {
            self.scroll_x = if self.scroll_x >= 4 { self.scroll_x - 4 } else { 0 };
        } else if key == Key::Right || key == Key::Char('l') {
            self.scroll_x = self.scroll_x + 4;
        } else if key == Key::PageUp {
            self.scroll = if self.scroll >= 10 { self.scroll - 10 } else { 0 };
        } else if key == Key::PageDown {
            self.scroll = self.scroll + 10;
        } else if key == Key::Home || key == Key::Char('g') {
            self.scroll = 0;
            self.scroll_x = 0;
        }
    }

    /// The wheel scrolls by a row, or by four columns with Shift held.
    pub fn handle_mouse(&mut self, m: Mouse, shift: bool)
        requires
            old(self).scroll + 1 <= usize::MAX,
            old(self).scroll_x + 4 <= usize::MAX,
        ensures
            final(self).channel == old(self).channel,
            final(self).number_key == old(self).number_key,
            (final(self).scroll as int, final(self).scroll_x as int) == (match m {
                Mouse::ScrollUp => if shift {
                    (old(self).scroll as int, sat_sub(old(self).scroll_x as int, 4))
                } else {
                    (sat_sub(old(self).scroll as int, 1), old(self).scroll_x as int)
                },
                Mouse::ScrollDown => if shift {
                    (old(self).scroll as int, old(self).scroll_x + 4)
                } else {
                    (old(self).scroll + 1, old(self).scroll_x as int)
                },
                _ => (old(self).scroll as int, old(self).scroll_x as int),
            }),
    {
        match m {
            Mouse::ScrollUp => {
                if shift {
                    self.scroll_x = if self.scroll_x >= 4 { self.scroll_x - 4 } else { 0 };
                } else {
                    self.scroll = if self.scroll >= 1 { self.scroll - 1 } else { 0 };
                }
            },
            Mouse::ScrollDown => {
                if shift {
                    self.scroll_x = self.scroll_x + 4;
                } else {
                    self.scroll = self.scroll + 1;
                }
            },
            _ => {},
        }
    }

    /// Showing or hiding a channel's panel resets that channel's scroll.
    pub fn on_toggle_nts(&mut self, ch: usize)
        ensures
            ch == old(self).channel ==> final(self).scroll == 0 && final(self).scroll_x == 0,
            ch != old(self).channel ==> final(self).scroll == old(self).scroll && final(self).scroll_x
                == old(self).scroll_x,
            final(self).channel == old(self).channel,
            final(self).number_key == old(self).number_key,
    {
        if ch == self.channel {
            self.scroll = 0;
            self.scroll_x = 0;
        }
    }
}

// ── channels ────────────────────────────────────────────────────────────────
/// The NTS channel a station is: 0 for "NTS 1", 1 for "NTS 2".
pub open spec fn nts_channel_spec(name: Seq<char>) -> Option<usize> {
    if name == "NTS 1"@ {
        Some(0)
    } else if name == "NTS 2"@ {
        Some(1)
    } else {
        None
    }
}

pub fn nts_channel_for(name: &str) -> (r: Option<usize>)
    ensures
        r == nts_channel_spec(name@),
{
    if crate::text::str_eq(name, "NTS 1") {
        Some(0)
    } else if crate::text::str_eq(name, "NTS 2") {
        Some(1)
    } else {
        None
    }
}

} // verus!
