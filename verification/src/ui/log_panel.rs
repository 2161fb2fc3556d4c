//! Log line formatting for the log panel: escape codes are stripped, a
//! leading timestamp is shortened, the level is kept in capitals and a
//! module-path prefix is dropped.

use vstd::prelude::*;
use crate::ui::sat_sub;
use crate::timefmt::compact_timestamp;
use crate::ui::keys::{Key, Mouse};
use crate::text::{
    append_chars, ascii_upper, ascii_upper_chars, chars_of, find_chars, first_index,
    is_whitespace, is_ws, join, opt_view, join_chars, slice_chars, string_of, trim, trim_chars, trim_start,
    trim_start_chars, views,
};

verus! {

// ── escape codes ────────────────────────────────────────────────────────────
/// The characters kept from `s`, and whether an escape sequence is still
/// open at its end: ESC opens a sequence and the first character in
/// '@'..='~' after it closes it; both and everything between are dropped.
pub open spec fn strip_ansi_state(s: Seq<char>) -> (Seq<char>, bool)
    decreases s.len(),
{
    if s.len() == 0 {
        (Seq::<char>::empty(), false)
    } else {
        let (out, esc) = strip_ansi_state(s.drop_last());
        let c = s.last();
        if esc {
            (out, !('@' <= c && c <= '~'))
        } else if c == '\u{1b}' {
            (out, true)
        } else {
            (out.push(c), false)
        }
    }
}

/// `s` without its ANSI escape sequences.
pub open spec fn strip_ansi_spec(s: Seq<char>) -> Seq<char> {
    strip_ansi_state(s).0
}

/// Law: no ESC character survives stripping.
pub proof fn law_strip_ansi_no_escape(s: Seq<char>)
    ensures
        forall|i: int| 0 <= i < strip_ansi_spec(s).len() ==> strip_ansi_spec(s)[i] != '\u{1b}',
    decreases s.len(),
{
    if s.len() > 0 {
        law_strip_ansi_no_escape(s.drop_last());
        let prev = strip_ansi_spec(s.drop_last());
        let now = strip_ansi_spec(s);
        assert(now == prev || (now == prev.push(s.last()) && s.last() != '\u{1b}'));
        assert forall|i: int| 0 <= i < now.len() implies now[i] != '\u{1b}' by {
            if i < prev.len() {
                assert(now[i] == prev[i]);
            } else {
                assert(now == prev.push(s.last()));
                assert(now[i] == s.last());
            }
        }
    }
}

fn strip_ansi_chars(v: &[char]) -> (r: Vec<char>)
    ensures
        r@ == strip_ansi_spec(v@),
{
    let n = v.len();
    let mut out: Vec<char> = Vec::new();
    let mut in_escape = false;
    let mut i: usize = 0;
    while i < n
        invariant
            n == v@.len(),
            0 <= i <= n,
            strip_ansi_state(v@.take(i as int)) == (out@, in_escape),
        decreases n - i,
    {
        let ch = v[i];
        proof {
            assert(v@.take(i + 1).drop_last() =~= v@.take(i as int));
        }
        if in_escape {
            if '@' <= ch && ch <= '~' {
                in_escape = false;
            }
        } else if ch == '\u{1b}' {
            in_escape = true;
        } else {
            out.push(ch);
        }
        i += 1;
    }
    proof {
        assert(v@.take(n as int) =~= v@);
    }
    out
}

pub fn strip_ansi(s: &str) -> (r: String)
    ensures
        r@ == strip_ansi_spec(s@),
{
    let v = chars_of(s);
    let out = strip_ansi_chars(v.as_slice());
    string_of(out.as_slice())
}

// ── tokens ──────────────────────────────────────────────────────────────────
/// How many characters `s` starts with before its first whitespace.
pub open spec fn token_len(s: Seq<char>) -> nat
    decreases s.len(),
{
    if s.len() == 0 || is_ws(s[0]) {
        0
    } else {
        1 + token_len(s.drop_first())
    }
}

/// The text up to the first whitespace character and the text after it
/// (`splitn(2, char::is_whitespace)`); nothing when the first part is empty.
pub open spec fn first_token(s: Seq<char>) -> Option<(Seq<char>, Seq<char>)> {
    let k = token_len(s) as int;
    if k == 0 {
        None
    } else if k < s.len() {
        Some((s.take(k), s.skip(k + 1)))
    } else {
        Some((s, Seq::<char>::empty()))
    }
}

proof fn lemma_token_len(s: Seq<char>, i: int)
    requires
        0 <= i <= s.len(),
        forall|k: int| 0 <= k < i ==> !is_ws(#[trigger] s[k]),
        i == s.len() || is_ws(s[i]),
    ensures
        token_len(s) == i,
    decreases i,
{
    if i > 0 {
        assert forall|k: int| 0 <= k < i - 1 implies !is_ws(#[trigger] s.drop_first()[k]) by {
            assert(s.drop_first()[k] == s[k + 1]);
        }
        if i < s.len() {
            assert(s.drop_first()[i - 1] == s[i]);
        }
        lemma_token_len(s.drop_first(), i - 1);
    }
}

fn first_token_chars(v: &[char]) -> (r: Option<(Vec<char>, Vec<char>)>)
    ensures
        match r {
            Some((a, b)) => first_token(v@) == Some((a@, b@)),
            None => first_token(v@) is None,
        },
{
    let n = v.len();
    let mut i: usize = 0;
    while i < n && !is_whitespace(v[i])
        invariant
            n == v@.len(),
            0 <= i <= n,
            forall|k: int| 0 <= k < i ==> !is_ws(#[trigger] v@[k]),
        decreases n - i,
    {
        i += 1;
    }
    proof {
        lemma_token_len(v@, i as int);
    }
    if i == 0 {
        return None;
    }
    let first = slice_chars(v, 0, i);
    let rest = if i < n {
        slice_chars(v, i + 1, n)
    } else {
        Vec::new()
    };
    proof {
        assert(v@.subrange(0, i as int) =~= v@.take(i as int));
        if i < n {
            assert(v@.subrange(i + 1, n as int) =~= v@.skip(i + 1));
        } else {
            assert(v@.take(i as int) =~= v@);
            assert(rest@ =~= Seq::<char>::empty());
        }
    }
    Some((first, rest))
}

/// Splits off the first whitespace-delimited token: the token and what
/// follows the whitespace character after it.
pub fn split_first_token(s: &str) -> (r: Option<(String, String)>)
    ensures
        match r {
            Some((a, b)) => first_token(s@) == Some((a@, b@)),
            None => first_token(s@) is None,
        },
{
    let v = chars_of(s);
    match first_token_chars(v.as_slice()) {
        Some((a, b)) => Some((string_of(a.as_slice()), string_of(b.as_slice()))),
        None => None,
    }
}

// ── compaction ──────────────────────────────────────────────────────────────
/// The log levels that are kept, in capitals.
pub open spec fn is_level(u: Seq<char>) -> bool {
    ||| u == seq!['T', 'R', 'A', 'C', 'E']
    ||| u == seq!['D', 'E', 'B', 'U', 'G']
    ||| u == seq!['I', 'N', 'F', 'O']
    ||| u == seq!['W', 'A', 'R', 'N']
    ||| u == seq!['E', 'R', 'R', 'O', 'R']
}

/// A character allowed in a module-path prefix.
pub open spec fn path_char(c: char) -> bool {
    ||| ('a' <= c && c <= 'z')
    ||| ('A' <= c && c <= 'Z')
    ||| ('0' <= c && c <= '9')
    ||| c == '_' || c == ':' || c == '.' || c == '-'
}

/// A module-path prefix: 1 to 48 path characters (all ASCII, so one byte
/// each).
pub open spec fn is_module_path(left: Seq<char>) -> bool {
    left.len() > 0 && left.len() <= 48 && forall|i: int| 0 <= i < left.len() ==> path_char(
        #[trigger] left[i],
    )
}

/// The separator between a module path and its message.
pub open spec fn colon_space() -> Seq<char> {
    seq![':', ' ']
}

/// `rest` without a leading module-path prefix.
pub open spec fn drop_module_path(rest: Seq<char>) -> Seq<char> {
    match first_index(rest, colon_space()) {
        Some(i) => if is_module_path(rest.take(i)) {
            trim_start(rest.skip(i + 2))
        } else {
            rest
        },
        None => rest,
    }
}

/// The head words and the rest of a line after the timestamp step, given
/// what compacting the first token as a timestamp gave (`None` when it is
/// not one).
pub open spec fn after_timestamp(clean: Seq<char>, ts: Option<Seq<char>>) -> (
    Seq<Seq<char>>,
    Seq<char>,
) {
    match first_token(clean) {
        Some((tok, rem)) => match ts {
            Some(t) => (seq![t], trim_start(rem)),
            None => (Seq::<Seq<char>>::empty(), clean),
        },
        None => (Seq::<Seq<char>>::empty(), clean),
    }
}

/// The head words and the rest after the level step.
pub open spec fn after_level(head: Seq<Seq<char>>, rest: Seq<char>) -> (
    Seq<Seq<char>>,
    Seq<char>,
) {
    match first_token(rest) {
        Some((tok, rem)) => {
            let upper = tok.map_values(|c: char| ascii_upper(c));
            if is_level(upper) {
                (head.push(upper), trim_start(rem))
            } else {
                (head, rest)
            }
        },
        None => (head, rest),
    }
}

/// The compact form of a raw log line, given what compacting its first
/// token as a timestamp gave.
pub open spec fn compact_spec(raw: Seq<char>, ts: Option<Seq<char>>) -> Seq<char> {
    let clean = trim(strip_ansi_spec(raw));
    let (h1, r1) = after_timestamp(clean, ts);
    let (head, r2) = after_level(h1, r1);
    let rest = drop_module_path(r2);
    if head.len() == 0 {
        rest
    } else if rest.len() == 0 {
        join(head, seq![' '])
    } else {
        join(head, seq![' ']) + seq![' '] + rest
    }
}

fn is_level_chars(u: &[char]) -> (b: bool)
    ensures
        b == is_level(u@),
{
    let n = u.len();
    if n == 4 {
        let info = (u[0] == 'I' && u[1] == 'N' && u[2] == 'F' && u[3] == 'O');
        let warn = (u[0] == 'W' && u[1] == 'A' && u[2] == 'R' && u[3] == 'N');
        proof {
            if info {
                assert(u@ =~= seq!['I', 'N', 'F', 'O']);
            }
            if warn {
                assert(u@ =~= seq!['W', 'A', 'R', 'N']);
            }
        }
        info || warn
    } else if n == 5 {
        let trace = (u[0] == 'T' && u[1] == 'R' && u[2] == 'A' && u[3] == 'C' && u[4] == 'E');
        let debug = (u[0] == 'D' && u[1] == 'E' && u[2] == 'B' && u[3] == 'U' && u[4] == 'G');
        let error = (u[0] == 'E' && u[1] == 'R' && u[2] == 'R' && u[3] == 'O' && u[4] == 'R');
        proof {
            if trace {
                assert(u@ =~= seq!['T', 'R', 'A', 'C', 'E']);
            }
            if debug {
                assert(u@ =~= seq!['D', 'E', 'B', 'U', 'G']);
            }
            if error {
                assert(u@ =~= seq!['E', 'R', 'R', 'O', 'R']);
            }
        }
        trace || debug || error
    } else {
        false
    }
}

fn is_module_path_chars(left: &[char]) -> (b: bool)
    ensures
        b == is_module_path(left@),
{
    let n = left.len();
    if n == 0 || n > 48 {
        return false;
    }
    let mut i: usize = 0;
    while i < n
        invariant
            n == left@.len(),
            0 <= i <= n,
            forall|k: int| 0 <= k < i ==> path_char(#[trigger] left@[k]),
        decreases n - i,
    {
        let c = left[i];
        let ok = ('a' <= c && c <= 'z') || ('A' <= c && c <= 'Z') || ('0' <= c && c <= '9') || c
            == '_' || c == ':' || c == '.' || c == '-';
        if !ok {
            return false;
        }
        i += 1;
    }
    true
}

fn drop_module_path_chars(rest: Vec<char>) -> (r: Vec<char>)
    ensures
        r@ == drop_module_path(rest@),
{
    let sep: Vec<char> = vec![':', ' '];
    proof {
        assert(sep@ =~= colon_space());
    }
    match find_chars(rest.as_slice(), sep.as_slice()) {
        Some(i) => {
            let left = slice_chars(rest.as_slice(), 0, i);
            proof {
                assert(left@ =~= rest@.take(i as int));
            }
            if is_module_path_chars(left.as_slice()) {
                let msg = slice_chars(rest.as_slice(), i + 2, rest.len());
                proof {
                    assert(msg@ =~= rest@.skip(i + 2));
                }
                trim_start_chars(msg.as_slice())
            } else {
                rest
            }
        },
        None => rest,
    }
}

/// Compacts a raw log line, given what compacting its first token as a
/// timestamp gave (`None` when the token is not one).
pub fn compact_log_line_with(raw: &str, ts: Option<String>) -> (r: String)
    ensures
        r@ == compact_spec(raw@, opt_view(ts)),
{
    let ghost tsv = opt_view(ts);
    let raw_chars = chars_of(raw);
    let stripped = strip_ansi_chars(raw_chars.as_slice());
    let clean = trim_chars(stripped.as_slice());
    let mut head: Vec<Vec<char>> = Vec::new();
    let mut rest: Vec<char> = clean;
    let ghost clean_ghost = rest@;
    match first_token_chars(rest.as_slice()) {
        Some((_tok, rem)) => match ts {
            Some(t) => {
                let tc = chars_of(t.as_str());
                head.push(tc);
                rest = trim_start_chars(rem.as_slice());
                proof {
                    assert(views(head@) =~= seq![t@]);
                }
            },
            None => {},
        },
        None => {},
    }
    proof {
        let (h1, r1) = after_timestamp(clean_ghost, tsv);
        assert(views(head@) =~= h1);
        assert(rest@ == r1);
    }
    let ghost h1 = views(head@);
    let ghost r1 = rest@;
    match first_token_chars(rest.as_slice()) {
        Some((tok, rem)) => {
            let upper = ascii_upper_chars(tok.as_slice());
            if is_level_chars(upper.as_slice()) {
                let ghost before = views(head@);
                let u2 = upper;
                head.push(u2);
                proof {
                    assert(views(head@) =~= before.push(u2@));
                }
                rest = trim_start_chars(rem.as_slice());
            }
        },
        None => {},
    }
    proof {
        let (h2, r2) = after_level(h1, r1);
        assert(views(head@) =~= h2);
        assert(rest@ == r2);
    }
    let rest = drop_module_path_chars(rest);
    let sp: Vec<char> = vec![' '];
    proof {
        assert(sp@ =~= seq![' ']);
    }
    let out = if head.len() == 0 {
        rest
    } else if rest.len() == 0 {
        join_chars(&head, sp.as_slice())
    } else {
        let mut o = join_chars(&head, sp.as_slice());
        o.push(' ');
        append_chars(&mut o, rest.as_slice());
        o
    };
    proof {
        assert(out@ =~= compact_spec(raw@, tsv));
    }
    string_of(out.as_slice())
}

/// Compacts a raw log line for display. Which form a leading timestamp takes
/// depends on the clock; the rest is `compact_spec` of it.
pub fn compact_log_line(raw: &str) -> (r: String)
    ensures
        exists|ts: Option<Seq<char>>| r@ == compact_spec(raw@, ts),
{
    let raw_chars = chars_of(raw);
    let stripped = strip_ansi_chars(raw_chars.as_slice());
    let clean = trim_chars(stripped.as_slice());
    let ts = match first_token_chars(clean.as_slice()) {
        Some((tok, _rem)) => {
            let t = string_of(tok.as_slice());
            compact_timestamp(t.as_str())
        },
        None => None,
    };
    let ghost tsv = opt_view(ts);
    let r = compact_log_line_with(raw, ts);
    proof {
        assert(r@ == compact_spec(raw@, tsv));
    }
    r
}

// ── log buffers ─────────────────────────────────────────────────────────────
/// How many log messages and log-file lines the interface keeps.
pub const LOG_LINES_KEPT: usize = 500;

/// Appends an entry, dropping the oldest once more than `cap` are held.
pub fn push_capped<T>(logs: &mut Vec<T>, msg: T, cap: usize)
    ensures
        old(logs)@.len() + 1 > cap ==> final(logs)@ == old(logs)@.push(msg).drop_first(),
        old(logs)@.len() + 1 <= cap ==> final(logs)@ == old(logs)@.push(msg),
{
    let ghost before = logs@;
    logs.push(msg);
    if logs.len() > cap {
        logs.remove(0);
        proof {
            assert(logs@ =~= before.push(msg).drop_first());
        }
    }
}

/// The last `n` lines of a text (all of them when there are fewer).
pub open spec fn last_lines_spec(content: Seq<char>, n: nat) -> Seq<Seq<char>> {
    let ls = crate::text::lines(content);
    if ls.len() > n {
        ls.skip(ls.len() - n)
    } else {
        ls
    }
}

/// The last `n` lines of a log file's text.
pub fn tail_lines(content: &str, n: usize) -> (r: Vec<String>)
    ensures
        crate::text::string_views(r@) == last_lines_spec(content@, n as nat),
{
    let c = chars_of(content);
    let ls = crate::text::lines_chars(c.as_slice());
    let total = ls.len();
    let start = if total > n {
        total - n
    } else {
        0
    };
    let mut out: Vec<Vec<char>> = Vec::new();
    let mut i = start;
    while i < total
        invariant
            total == ls@.len(),
            views(ls@) == crate::text::lines(content@),
            start <= i <= total,
            views(out@) == views(ls@).subrange(start as int, i as int),
        decreases total - i,
    {
        let line = ls[i].clone();
        let ghost before = views(out@);
        out.push(line);
        proof {
            assert(views(out@) =~= before.push(line@));
            assert(views(ls@).subrange(start as int, i + 1) =~= views(ls@).subrange(
                start as int,
                i as int,
            ).push(ls@[i as int]@));
        }
        i += 1;
    }
    proof {
        assert(views(ls@).subrange(start as int, total as int) =~= last_lines_spec(content@, n as nat));
    }
    crate::text::strings_of(&out)
}

// ── the panel ───────────────────────────────────────────────────────────────
/// The log panel: collapsed to one line or expanded, and the first log
/// line shown when expanded (the oldest line is line 0).
pub struct LogPanel {
    pub expanded: bool,
    pub scroll: usize,
    /// How many lines the panel had seen when it was last drawn.
    pub last_log_count: usize,
}

/// The scroll offset a `height`-row view needs to show the newest line
/// last.
pub open spec fn bottom(log_count: usize, height: usize) -> int {
    sat_sub(log_count as int, height as int)
}

impl LogPanel {
    /// A collapsed panel at the top that has seen no lines.
    pub fn new() -> (p: Self)
        ensures
            !p.expanded,
            p.scroll == 0,
            p.last_log_count == 0,
    {
        LogPanel { expanded: false, scroll: 0, last_log_count: 0 }
    }

    /// Expands a collapsed panel, at the newest lines, or collapses an
    /// expanded one.
    pub fn toggle(&mut self)
        ensures
            final(self).expanded == !old(self).expanded,
            final(self).scroll == (if final(self).expanded {
                usize::MAX
            } else {
                old(self).scroll
            }),
            final(self).last_log_count == old(self).last_log_count,
    {
        self.expanded = !self.expanded;
        if self.expanded {
            self.scroll = usize::MAX;
        }
    }

    /// Scrolls an expanded panel for a key press: arrows and j/k by a
    /// line, PageUp/PageDown by ten, Home and g to the oldest line, End and
    /// G to the newest. A collapsed panel ignores keys.
    pub fn handle_key(&mut self, key: Key)
        requires
            old(self).expanded ==> old(self).scroll + 10 <= usize::MAX,
        ensures
            final(self).expanded == old(self).expanded,
            final(self).last_log_count == old(self).last_log_count,
            final(self).scroll == (if !old(self).expanded {
                old(self).scroll as int
            } else if key == Key::Up || key == Key::Char('k') {
                sat_sub(old(self).scroll as int, 1)
            } else if key == Key::Down || key == Key::Char('j') {
                old(self).scroll + 1
            } else if key == Key::PageUp {
                sat_sub(old(self).scroll as int, 10)
            } else if key == Key::PageDown {
                old(self).scroll + 10
            } else if key == Key::Home || key == Key::Char('g') {
                0
            } else if key == Key::End || key == Key::Char('G') {
                usize::MAX as int
            } else {
                old(self).scroll as int
            }),
    {
        if !self.expanded {
            return;
        }
        if key == Key::Up || key == Key::Char('k') {
            self.scroll = if self.scroll >= 1 { self.scroll - 1 } else { 0 };
        } else if key == Key::Down || key == Key::Char('j') {
            self.scroll = self.scroll + 1;
        } else if key == Key::PageUp {
            self.scroll = if self.scroll >= 10 { self.scroll - 10 } else { 0 };
        } else if key == Key::PageDown {
            self.scroll = self.scroll + 10;
        } else if key == Key::Home || key == Key::Char('g') {
            self.scroll = 0;
        } else if key == Key::End || key == Key::Char('G') {
            self.scroll = usize::MAX;
        }
    }

    /// The wheel scrolls an expanded panel by a line.
    pub fn handle_mouse(&mut self, m: Mouse)
        requires
            old(self).expanded ==> old(self).scroll + 1 <= usize::MAX,
        ensures
            final(self).expanded == old(self).expanded,
            final(self).last_log_count == old(self).last_log_count,
            final(self).scroll == (if !old(self).expanded {
                old(self).scroll as int
            } else {
                match m {
                    Mouse::ScrollUp => sat_sub(old(self).scroll as int, 1),
                    Mouse::ScrollDown => old(self).scroll + 1,
                    _ => old(self).scroll as int,
                }
            }),
    {
        if !self.expanded {
            return;
        }
        match m {
            Mouse::ScrollUp => {
                self.scroll = if self.scroll >= 1 { self.scroll - 1 } else { 0 };
            },
            Mouse::ScrollDown => {
                self.scroll = self.scroll + 1;
            },
            _ => {},
        }
    }

    /// Before drawing `log_count` lines expanded in a view `height` rows
    /// tall: when new lines arrived while the view was at (or one line
    /// above) the bottom, it follows them to the bottom; then the offset is
    /// clamped so that the view is filled where there are lines.
    pub fn settle_scroll(&mut self, log_count: usize, height: usize)
        ensures
            final(self).expanded == old(self).expanded,
            final(self).last_log_count == (if log_count > old(self).last_log_count {
                log_count
            } else {
                old(self).last_log_count
            }),
            log_count > 0 ==> final(self).scroll <= bottom(log_count, height),
            log_count > old(self).last_log_count && old(self).scroll >= sat_sub(bottom(log_count, height), 1)
                ==> final(self).scroll == bottom(log_count, height),
            log_count > 0 && old(self).scroll <= bottom(log_count, height) && !(log_count > old(self).last_log_count
                && old(self).scroll >= sat_sub(bottom(log_count, height), 1)) ==> final(self).scroll
                == old(self).scroll,
            log_count == 0 ==> final(self).scroll == old(self).scroll,
    {
        let max_scroll = if log_count >= height {
            log_count - height
        } else {
            0
        };
        if log_count > self.last_log_count {
            let near = if max_scroll >= 1 {
                max_scroll - 1
            } else {
                0
            };
            if self.scroll >= near {
                self.scroll = usize::MAX;
            }
            self.last_log_count = log_count;
        }
        if log_count == 0 {
            return;
        }
        if self.scroll > max_scroll {
            self.scroll = max_scroll;
        }
    }
}

} // verus!
