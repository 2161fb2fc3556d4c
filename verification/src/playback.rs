//! Decisions of the playback core: the playback status derived from what
//! the player reports, which stream titles are worth showing, which end of
//! a file is a failure, and which streams go through the local proxy.

use vstd::prelude::*;
use crate::protocol::PlaybackStatus;
use crate::proxy::{proxy_url, proxy_url_spec};
use crate::text::{opt_view, string_of, string_views, 
    ascii_lower, ascii_lower_chars, chars_of, contains_chars, contains_seq, str_eq, trim,
    trim_chars, slice_chars,
};

verus! {

/// Seconds without audio after which a stream that should play is an error.
pub const CONNECT_TIMEOUT_SECS: u64 = 15;

/// The playback status for what the player reports, and whether the
/// "connecting" timer keeps running. `waited_secs` is how long the timer has
/// run (zero when it is started now).
pub open spec fn status_spec(
    intend_playing: bool,
    paused: bool,
    core_idle: Option<bool>,
    waited_secs: u64,
) -> (PlaybackStatus, bool) {
    if !intend_playing {
        (PlaybackStatus::Idle, false)
    } else if paused {
        (PlaybackStatus::Paused, false)
    } else if core_idle == Some(false) {
        (PlaybackStatus::Playing, false)
    } else if waited_secs >= CONNECT_TIMEOUT_SECS {
        (PlaybackStatus::Error, true)
    } else {
        (PlaybackStatus::Connecting, true)
    }
}

/// Derives the playback status: idle when nothing should play, paused when
/// the player is paused, playing once the player's core is busy, and
/// otherwise connecting until the timeout, then an error.
pub fn derive_status(intend_playing: bool, paused: bool, core_idle: Option<bool>, waited_secs: u64) -> (r: (PlaybackStatus, bool))
    ensures
        r == status_spec(intend_playing, paused, core_idle, waited_secs),
{
    if !intend_playing {
        (PlaybackStatus::Idle, false)
    } else if paused {
        (PlaybackStatus::Paused, false)
    } else {
        match core_idle {
            Some(false) => (PlaybackStatus::Playing, false),
            _ => {
                if waited_secs >= CONNECT_TIMEOUT_SECS {
                    (PlaybackStatus::Error, true)
                } else {
                    (PlaybackStatus::Connecting, true)
                }
            },
        }
    }
}

/// Law: while playback is wanted and not paused, the player's core being
/// idle (`Some(true)`) or not yet reported (`None`) are alike: the status is
/// connecting for the first 15 seconds and an error from then on, with the
/// timer running; a busy core (`Some(false)`) is playing, whatever the wait.
pub proof fn law_connect_timeout(core_idle: Option<bool>, waited_secs: u64)
    ensures
        core_idle != Some(false) ==> status_spec(true, false, core_idle, waited_secs) == (
            if waited_secs >= 15 {
                (PlaybackStatus::Error, true)
            } else {
                (PlaybackStatus::Connecting, true)
            }
        ),
        status_spec(true, false, None, waited_secs) == status_spec(true, false, Some(true), waited_secs),
        status_spec(true, false, Some(false), waited_secs) == (PlaybackStatus::Playing, false),
{
}

/// Law: nothing wanted is idle and a paused player is paused, whatever the
/// core reports and however long the timer ran; neither runs the timer.
pub proof fn law_idle_and_paused(paused: bool, core_idle: Option<bool>, waited_secs: u64)
    ensures
        status_spec(false, paused, core_idle, waited_secs) == (PlaybackStatus::Idle, false),
        status_spec(true, true, core_idle, waited_secs) == (PlaybackStatus::Paused, false),
{
}

// ── stream titles ───────────────────────────────────────────────────────────
/// `s` without leading `c` characters.
pub open spec fn strip_start(s: Seq<char>, c: char) -> Seq<char>
    decreases s.len(),
{
    if s.len() > 0 && s[0] == c {
        strip_start(s.drop_first(), c)
    } else {
        s
    }
}

/// `s` without trailing `c` characters.
pub open spec fn strip_end(s: Seq<char>, c: char) -> Seq<char>
    decreases s.len(),
{
    if s.len() > 0 && s.last() == c {
        strip_end(s.drop_last(), c)
    } else {
        s
    }
}

/// `str::trim_matches` with one character.
pub open spec fn trim_matches(s: Seq<char>, c: char) -> Seq<char> {
    strip_end(strip_start(s, c), c)
}

fn trim_matches_chars(v: &[char], c: char) -> (r: Vec<char>)
    ensures
        r@ == trim_matches(v@, c),
{
    let n = v.len();
    let mut i: usize = 0;
    proof {
        assert(v@.subrange(0, n as int) =~= v@);
    }
    while i < n && v[i] == c
        invariant
            n == v@.len(),
            0 <= i <= n,
            strip_start(v@, c) == strip_start(v@.subrange(i as int, n as int), c),
        decreases n - i,
    {
        proof {
            assert(v@.subrange(i + 1, n as int) =~= v@.subrange(i as int, n as int).drop_first());
        }
        i += 1;
    }
    let mut j: usize = n;
    while j > i && v[j - 1] == c
        invariant
            n == v@.len(),
            0 <= i <= j <= n,
            strip_end(v@.subrange(i as int, n as int), c) == strip_end(v@.subrange(i as int, j as int), c),
        decreases j,
    {
        proof {
            assert(v@.subrange(i as int, j - 1) =~= v@.subrange(i as int, j as int).drop_last());
        }
        j -= 1;
    }
    proof {
        assert(strip_start(v@, c) == v@.subrange(i as int, n as int));
    }
    slice_chars(v, i, j)
}

/// A stream title carries information unless it is blank or only dashes
/// and whitespace.
pub open spec fn meaningful_title(t: Seq<char>) -> bool {
    trim(trim_matches(trim(t), '-')).len() > 0
}

/// The title as reported, when it is meaningful.
pub fn meaningful_icy_title(raw: Option<String>) -> (r: Option<String>)
    ensures
        match raw {
            Some(t) => if meaningful_title(t@) {
                r == Some(t)
            } else {
                r is None
            },
            None => r is None,
        },
{
    match raw {
        Some(t) => {
            let c = chars_of(t.as_str());
            let a = trim_chars(c.as_slice());
            let b = trim_matches_chars(a.as_slice(), '-');
            let d = trim_chars(b.as_slice());
            if d.len() > 0 {
                Some(t)
            } else {
                None
            }
        },
        None => None,
    }
}

// ── end of file, proxying ───────────────────────────────────────────────────
/// End-of-file reasons that mean playback failed.
pub open spec fn failure_reason(reason: Seq<char>) -> bool {
    reason == "error"@ || reason == "network"@ || reason == "quit"@
}

/// Whether the player's end-of-file turns the status into an error: the
/// reason is a failure and playback was wanted and not paused.
pub fn end_file_marks_error(reason: &str, intend_playing: bool, paused: bool) -> (b: bool)
    ensures
        b == (failure_reason(reason@) && intend_playing && !paused),
{
    let failed = str_eq(reason, "error") || str_eq(reason, "network") || str_eq(reason, "quit");
    failed && intend_playing && !paused
}

/// Streams go through the local proxy unless they are HLS playlists
/// (`.m3u8` anywhere in the URL, in any ASCII case).
pub open spec fn wants_proxy_spec(url: Seq<char>) -> bool {
    !contains_seq(url.map_values(|c: char| ascii_lower(c)), ".m3u8"@)
}

pub fn wants_proxy(url: &str) -> (b: bool)
    ensures
        b == wants_proxy_spec(url@),
{
    let c = chars_of(url);
    let l = ascii_lower_chars(c.as_slice());
    let pat = chars_of(".m3u8");
    !contains_chars(l.as_slice(), pat.as_slice())
}

// ── loading a station ───────────────────────────────────────────────────────
/// The URLs the player is asked to load for a station, in order until one
/// loads: the station through the local proxy, then directly; an HLS
/// stream only directly. When none loads, playback fails.
pub open spec fn load_order_spec(url: Seq<char>, bind_address: Seq<char>, port: u16, idx: usize) -> Seq<Seq<char>> {
    if wants_proxy_spec(url) {
        seq![proxy_url_spec(bind_address, port, idx), url]
    } else {
        seq![url]
    }
}

pub fn load_order(url: &str, bind_address: &str, port: u16, idx: usize) -> (r: Vec<String>)
    ensures
        string_views(r@) == load_order_spec(url@, bind_address@, port, idx),
{
    let mut out: Vec<String> = Vec::new();
    let direct = string_of(chars_of(url).as_slice());
    if wants_proxy(url) {
        out.push(proxy_url(bind_address, port, idx));
    }
    out.push(direct);
    proof {
        assert(string_views(out@) =~= load_order_spec(url@, bind_address@, port, idx));
    }
    out
}

// ── title changes ───────────────────────────────────────────────────────────
/// Whether two optional texts are equal.
pub fn opt_text_eq(a: &Option<String>, b: &Option<String>) -> (r: bool)
    ensures
        r == (opt_view(*a) == opt_view(*b)),
{
    match (a, b) {
        (Some(x), Some(y)) => str_eq(x.as_str(), y.as_str()),
        (None, None) => true,
        _ => false,
    }
}

fn copy_text(o: &Option<String>) -> (r: Option<String>)
    ensures
        opt_view(r) == opt_view(*o),
{
    match o {
        Some(s) => Some(s.clone()),
        None => None,
    }
}

/// The stream title as the player last reported it, and as it was last
/// announced to clients.
pub struct IcyTracker {
    pub observed: Option<String>,
    pub announced: Option<String>,
}

/// What a title event asks for: storing the observed title in the shared
/// state, and announcing it to clients.
#[derive(Debug, Clone, Copy, PartialEq, Eq, Structural)]
pub struct IcyChange {
    pub store: bool,
    pub announce: bool,
}

impl IcyTracker {
    /// Nothing observed or announced yet.
    pub fn new() -> (t: Self)
        ensures
            t.observed is None,
            t.announced is None,
    {
        IcyTracker { observed: None, announced: None }
    }

    /// The player reported a stream title (or none): a title that is not
    /// meaningful counts as none. A change from the observed title is
    /// stored, and announced when it also differs from the announced one.
    pub fn on_title(&mut self, raw: Option<String>) -> (r: IcyChange)
        ensures
            ({
                let val = match raw {
                    Some(t) => if meaningful_title(t@) {
                        Some(t@)
                    } else {
                        None
                    },
                    None => None,
                };
                let changed = val != opt_view(old(self).observed);
                &&& r.store == changed
                &&& r.announce == (changed && val != opt_view(old(self).announced))
                &&& opt_view(final(self).observed) == (if changed {
                    val
                } else {
                    opt_view(old(self).observed)
                })
                &&& opt_view(final(self).announced) == (if r.announce {
                    val
                } else {
                    opt_view(old(self).announced)
                })
            }),
    {
        let val = meaningful_icy_title(raw);
        if opt_text_eq(&val, &self.observed) {
            return IcyChange { store: false, announce: false };
        }
        let announce = !opt_text_eq(&val, &self.announced);
        if announce {
            self.announced = copy_text(&val);
        }
        self.observed = val;
        IcyChange { store: true, announce }
    }

    /// The stream ended: an observed title is dropped (stored as none), and
    /// an announced one is withdrawn (announced as none).
    pub fn on_end_file(&mut self) -> (r: IcyChange)
        ensures
            r.store == (old(self).observed is Some),
            r.announce == (old(self).observed is Some && old(self).announced is Some),
            old(self).observed is Some ==> final(self).observed is None && final(self).announced is None,
            old(self).observed is None ==> final(self).observed is None && opt_view(final(self).announced)
                == opt_view(old(self).announced),
    {
        if self.observed.is_none() {
            return IcyChange { store: false, announce: false };
        }
        self.observed = None;
        let announce = self.announced.is_some();
        if announce {
            self.announced = None;
        }
        IcyChange { store: true, announce }
    }
}

} // verus!
