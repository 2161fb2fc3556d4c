//! Playback state transitions and station-list parsing.

use vstd::prelude::*;
use rand::Rng;
use crate::protocol::{MpvHealth, PlaybackStatus, Station};
use crate::text::{
    chars_of, find_chars, first_index, has_prefix, lemma_first_index, lemma_no_index, lines,
    lines_chars, slice_chars, starts_with_chars, string_of, trim, trim_chars, views,
};

verus! {

// ── m3u station lists ───────────────────────────────────────────────────────
/// The marker of an m3u entry title line.
pub open spec fn extinf() -> Seq<char> {
    seq!['#', 'E', 'X', 'T', 'I', 'N', 'F', ':']
}

/// What reading the lines so far has produced: a pending title and the
/// `(name, url)` entries.
pub type M3uRead = (Option<Seq<char>>, Seq<(Seq<char>, Seq<char>)>);

/// One line of an m3u list: blank lines and comments are skipped, an
/// `#EXTINF:` line with a comma sets the pending title to the text after the
/// first comma, and any other line is a URL whose entry takes the pending
/// title (or the URL itself) as its name.
pub open spec fn m3u_step(st: M3uRead, raw: Seq<char>) -> M3uRead {
    let line = trim(raw);
    if line.len() == 0 {
        st
    } else if has_prefix(line, extinf()) {
        let rest = line.skip(8);
        match first_index(rest, seq![',']) {
            Some(ci) => (Some(trim(rest.skip(ci + 1))), st.1),
            None => st,
        }
    } else if line[0] == '#' {
        st
    } else {
        let name = match st.0 {
            Some(n) => n,
            None => line,
        };
        (None, st.1.push((name, line)))
    }
}

pub open spec fn m3u_fold(ls: Seq<Seq<char>>) -> M3uRead
    decreases ls.len(),
{
    if ls.len() == 0 {
        (None, Seq::<(Seq<char>, Seq<char>)>::empty())
    } else {
        m3u_step(m3u_fold(ls.drop_last()), ls.last())
    }
}

/// The `(name, url)` entries of an m3u list, in order.
pub open spec fn m3u_entries(content: Seq<char>) -> Seq<(Seq<char>, Seq<char>)> {
    m3u_fold(lines(content)).1
}

fn extinf_chars() -> (r: Vec<char>)
    ensures
        r@ == extinf(),
{
    let mut v: Vec<char> = Vec::new();
    v.push('#');
    v.push('E');
    v.push('X');
    v.push('T');
    v.push('I');
    v.push('N');
    v.push('F');
    v.push(':');
    proof {
        assert(v@ =~= extinf());
    }
    v
}

/// Parses an m3u station list: each URL line becomes a station named by the
/// preceding `#EXTINF` title, or by its URL when there is none.
pub fn parse_m3u_from_str(content: &str) -> (r: Vec<Station>)
    ensures
        r@.len() == m3u_entries(content@).len(),
        forall|i: int|
            0 <= i < r@.len() ==> {
                &&& (#[trigger] r@[i]).name@ == m3u_entries(content@)[i].0
                &&& r@[i].url@ == m3u_entries(content@)[i].1
                &&& r@[i].description@.len() == 0
                &&& r@[i].network@.len() == 0
                &&& r@[i].tags@.len() == 0
                &&& r@[i].city@.len() == 0
                &&& r@[i].country@.len() == 0
            },
{
    let all = chars_of(content);
    let ls = lines_chars(all.as_slice());
    let ghost lv = lines(content@);
    let marker = extinf_chars();
    let comma: [char; 1] = [','];
    proof {
        assert(comma@ =~= seq![',']);
    }
    let mut stations: Vec<Station> = Vec::new();
    let mut pending: Option<Vec<char>> = None;
    let n = ls.len();
    let mut i: usize = 0;
    while i < n
        invariant
            n == ls@.len(),
            views(ls@) == lv,
            0 <= i <= n,
            marker@ == extinf(),
            comma@ == seq![','],
            m3u_fold(lv.take(i as int)).0 == (match pending {
                Some(p) => Some(p@),
                None => None::<Seq<char>>,
            }),
            stations@.len() == m3u_fold(lv.take(i as int)).1.len(),
            forall|k: int|
                0 <= k < stations@.len() ==> {
                    &&& (#[trigger] stations@[k]).name@ == m3u_fold(lv.take(i as int)).1[k].0
                    &&& stations@[k].url@ == m3u_fold(lv.take(i as int)).1[k].1
                    &&& stations@[k].description@.len() == 0
                    &&& stations@[k].network@.len() == 0
                    &&& stations@[k].tags@.len() == 0
                    &&& stations@[k].city@.len() == 0
                    &&& stations@[k].country@.len() == 0
                },
        decreases n - i,
    {
        proof {
            assert(lv.take(i + 1).drop_last() =~= lv.take(i as int));
            assert(lv.take(i + 1).last() == ls@[i as int]@);
        }
        let line = trim_chars(ls[i].as_slice());
        let len = line.len();
        if len == 0 {
        } else if starts_with_chars(line.as_slice(), marker.as_slice()) {
            let rest = slice_chars(line.as_slice(), 8, len);
            proof {
                assert(rest@ =~= line@.skip(8));
            }
            match find_chars(rest.as_slice(), &comma) {
                Some(ci) => {
                    proof {
                        lemma_first_index(rest@, seq![','], ci as int);
                    }
                    let after = slice_chars(rest.as_slice(), ci + 1, rest.len());
                    proof {
                        assert(after@ =~= rest@.skip(ci + 1));
                    }
                    pending = Some(trim_chars(after.as_slice()));
                },
                None => {
                    proof {
                        lemma_no_index(rest@, seq![',']);
                    }
                },
            }
        } else if line[0] == '#' {
        } else {
            let url = string_of(line.as_slice());
            let name = match pending {
                Some(p) => string_of(p.as_slice()),
                None => string_of(line.as_slice()),
            };
            pending = None;
            stations.push(Station::named(name, url));
        }
        i += 1;
    }
    proof {
        assert(lv.take(n as int) =~= lv);
    }
    stations
}


// ── playback state ──────────────────────────────────────────────────────────
/// The daemon's playback state, apart from the audio volume and the
/// timeline positions, which are floating-point and kept beside it.
/// `rev` counts changes.
#[derive(Debug)]
pub struct PlaybackState {
    /// Monotonic revision counter, incremented on every change.
    pub rev: u64,
    /// How many stations the list holds.
    pub station_count: usize,
    pub current_station: Option<usize>,
    pub current_file: Option<String>,
    /// True when playing or paused.
    pub is_playing: bool,
    pub is_paused: bool,
    pub playback_status: PlaybackStatus,
    pub icy_title: Option<String>,
    pub mpv_health: MpvHealth,
}

/// The station after `current` in a list of `len` (the first when there is
/// no current one), wrapping around.
pub open spec fn next_index(current: Option<usize>, len: nat) -> nat {
    let c = match current {
        Some(c) => c as nat,
        None => 0,
    };
    (c + 1) % len
}

/// The station before `current` (the last one before the first).
pub open spec fn prev_index(current: Option<usize>, len: nat) -> nat {
    let c = match current {
        Some(c) => c as nat,
        None => 0,
    };
    if c == 0 {
        (len - 1) as nat
    } else {
        (c - 1) as nat
    }
}

/// A random index below `n`, from `rand::thread_rng().gen_range(0..n)`.
/// rand documents that the value lies in the range and that an empty range
/// panics; nothing else is claimed, as the value is random.
#[verifier::external_body]
fn random_below(n: usize) -> (r: usize)
    requires
        n > 0,
    ensures
        r < n,
{
    rand::thread_rng().gen_range(0..n)
}

impl PlaybackState {
    /// The state at start-up: revision 1, idle, with the remembered station.
    pub fn new(station_count: usize, last_station: Option<usize>) -> (s: Self)
        ensures
            s.rev == 1,
            s.station_count == station_count,
            s.current_station == last_station,
            s.current_file is None,
            !s.is_playing,
            !s.is_paused,
            s.playback_status == PlaybackStatus::Idle,
            s.icy_title is None,
            s.mpv_health is Absent,
    {
        PlaybackState {
            rev: 1,
            station_count,
            current_station: last_station,
            current_file: None,
            is_playing: false,
            is_paused: false,
            playback_status: PlaybackStatus::Idle,
            icy_title: None,
            mpv_health: MpvHealth::Absent,
        }
    }

    /// Starts a station: it becomes current, no file, connecting, no ICY title.
    pub fn set_playing(&mut self, idx: usize)
        requires
            old(self).rev < u64::MAX,
        ensures
            final(self).rev == old(self).rev + 1,
            final(self).station_count == old(self).station_count,
            final(self).current_station == Some(idx),
            final(self).current_file is None,
            final(self).is_playing,
            final(self).is_paused == old(self).is_paused,
            final(self).playback_status == PlaybackStatus::Connecting,
            final(self).icy_title is None,
            final(self).mpv_health == old(self).mpv_health,
    {
        self.current_station = Some(idx);
        self.current_file = None;
        self.is_playing = true;
        self.playback_status = PlaybackStatus::Connecting;
        self.icy_title = None;
        self.rev = self.rev + 1;
    }

    /// Starts a local file: it becomes current, no station, connecting.
    pub fn set_playing_file(&mut self, path: String)
        requires
            old(self).rev < u64::MAX,
        ensures
            final(self).rev == old(self).rev + 1,
            final(self).station_count == old(self).station_count,
            final(self).current_station is None,
            final(self).current_file == Some(path),
            final(self).is_playing,
            final(self).is_paused == old(self).is_paused,
            final(self).playback_status == PlaybackStatus::Connecting,
            final(self).icy_title is None,
            final(self).mpv_health == old(self).mpv_health,
    {
        self.current_station = None;
        self.current_file = Some(path);
        self.is_playing = true;
        self.playback_status = PlaybackStatus::Connecting;
        self.icy_title = None;
        self.rev = self.rev + 1;
    }

    /// Stops: idle, no file, no ICY title; the current station is kept.
    pub fn set_stopped(&mut self)
        requires
            old(self).rev < u64::MAX,
        ensures
            final(self).rev == old(self).rev + 1,
            final(self).station_count == old(self).station_count,
            final(self).current_station == old(self).current_station,
            final(self).current_file is None,
            !final(self).is_playing,
            final(self).is_paused == old(self).is_paused,
            final(self).playback_status == PlaybackStatus::Idle,
            final(self).icy_title is None,
            final(self).mpv_health == old(self).mpv_health,
    {
        self.is_playing = false;
        self.playback_status = PlaybackStatus::Idle;
        self.icy_title = None;
        self.current_file = None;
        self.rev = self.rev + 1;
    }

    /// Records the player's status; playing means playing or paused.
    pub fn set_playback_status(&mut self, status: PlaybackStatus)
        requires
            old(self).rev < u64::MAX,
        ensures
            final(self).rev == old(self).rev + 1,
            final(self).is_playing == (status == PlaybackStatus::Playing || status
                == PlaybackStatus::Paused),
            final(self).is_paused == (status == PlaybackStatus::Paused),
            final(self).playback_status == status,
            final(self).station_count == old(self).station_count,
            final(self).current_station == old(self).current_station,
            final(self).current_file == old(self).current_file,
            final(self).icy_title == old(self).icy_title,
            final(self).mpv_health == old(self).mpv_health,
    {
        self.is_playing = match status {
            PlaybackStatus::Playing | PlaybackStatus::Paused => true,
            _ => false,
        };
        self.is_paused = status == PlaybackStatus::Paused;
        self.playback_status = status;
        self.rev = self.rev + 1;
    }

    /// Records the player's health.
    pub fn set_mpv_health(&mut self, health: MpvHealth)
        requires
            old(self).rev < u64::MAX,
        ensures
            final(self).rev == old(self).rev + 1,
            final(self).mpv_health == health,
            final(self).station_count == old(self).station_count,
            final(self).current_station == old(self).current_station,
            final(self).current_file == old(self).current_file,
            final(self).is_playing == old(self).is_playing,
            final(self).is_paused == old(self).is_paused,
            final(self).playback_status == old(self).playback_status,
            final(self).icy_title == old(self).icy_title,
    {
        self.mpv_health = health;
        self.rev = self.rev + 1;
    }

    /// Records the stream's ICY title.
    pub fn set_icy_title(&mut self, title: Option<String>)
        requires
            old(self).rev < u64::MAX,
        ensures
            final(self).rev == old(self).rev + 1,
            final(self).icy_title == title,
            final(self).station_count == old(self).station_count,
            final(self).current_station == old(self).current_station,
            final(self).current_file == old(self).current_file,
            final(self).is_playing == old(self).is_playing,
            final(self).is_paused == old(self).is_paused,
            final(self).playback_status == old(self).playback_status,
            final(self).mpv_health == old(self).mpv_health,
    {
        self.icy_title = title;
        self.rev = self.rev + 1;
    }

    /// Moves to the next station (wrapping) and marks playing; nothing
    /// changes when the list is empty.
    pub fn next_station(&mut self)
        requires
            old(self).rev < u64::MAX,
            old(self).current_station != Some(usize::MAX),
        ensures
            old(self).station_count == 0 ==> *final(self) == *old(self),
            old(self).station_count > 0 ==> {
                &&& final(self).current_station == Some(
                    next_index(old(self).current_station, old(self).station_count as nat) as usize,
                )
                &&& final(self).is_playing
                &&& final(self).rev == old(self).rev + 1
                &&& final(self).station_count == old(self).station_count
                &&& final(self).current_file == old(self).current_file
                &&& final(self).is_paused == old(self).is_paused
                &&& final(self).playback_status == old(self).playback_status
                &&& final(self).icy_title == old(self).icy_title
                &&& final(self).mpv_health == old(self).mpv_health
            },
    {
        let len = self.station_count;
        if len == 0 {
            return;
        }
        let current = match self.current_station {
            Some(c) => c,
            None => 0,
        };
        self.current_station = Some((current + 1) % len);
        self.is_playing = true;
        self.rev = self.rev + 1;
    }

    /// Moves to the previous station (the last one before the first) and
    /// marks playing; nothing changes when the list is empty.
    pub fn prev_station(&mut self)
        requires
            old(self).rev < u64::MAX,
        ensures
            old(self).station_count == 0 ==> *final(self) == *old(self),
            old(self).station_count > 0 ==> {
                &&& final(self).current_station == Some(
                    prev_index(old(self).current_station, old(self).station_count as nat) as usize,
                )
                &&& final(self).is_playing
                &&& final(self).rev == old(self).rev + 1
                &&& final(self).station_count == old(self).station_count
                &&& final(self).current_file == old(self).current_file
                &&& final(self).is_paused == old(self).is_paused
                &&& final(self).playback_status == old(self).playback_status
                &&& final(self).icy_title == old(self).icy_title
                &&& final(self).mpv_health == old(self).mpv_health
            },
    {
        let len = self.station_count;
        if len == 0 {
            return;
        }
        let current = match self.current_station {
            Some(c) => c,
            None => 0,
        };
        let prev = if current == 0 {
            len - 1
        } else {
            current - 1
        };
        self.current_station = Some(prev);
        self.is_playing = true;
        self.rev = self.rev + 1;
    }

    /// Moves to a random station and marks playing; nothing changes when the
    /// list is empty.
    pub fn random_station(&mut self)
        requires
            old(self).rev < u64::MAX,
        ensures
            old(self).station_count == 0 ==> *final(self) == *old(self),
            old(self).station_count > 0 ==> {
                &&& final(self).current_station matches Some(i) && i < old(self).station_count
                &&& final(self).is_playing
                &&& final(self).rev == old(self).rev + 1
                &&& final(self).station_count == old(self).station_count
                &&& final(self).current_file == old(self).current_file
                &&& final(self).is_paused == old(self).is_paused
                &&& final(self).playback_status == old(self).playback_status
                &&& final(self).icy_title == old(self).icy_title
                &&& final(self).mpv_health == old(self).mpv_health
            },
    {
        let len = self.station_count;
        if len == 0 {
            return;
        }
        let idx = random_below(len);
        self.current_station = Some(idx);
        self.is_playing = true;
        self.rev = self.rev + 1;
    }
}

/// Law: stepping to the next station and back to the previous one returns to
/// the station one started from (and the other way round), for every station
/// of a non-empty list.
pub proof fn law_next_prev_inverse(c: usize, len: nat)
    requires
        c < len,
        len <= usize::MAX,
    ensures
        prev_index(Some(next_index(Some(c), len) as usize), len) == c,
        next_index(Some(prev_index(Some(c), len) as usize), len) == c,
{
    let ci = c as int;
    let l = len as int;
    if ci + 1 == l {
        assert((ci + 1) % l == 0) by (nonlinear_arith)
            requires
                ci + 1 == l,
                l > 0,
        ;
    } else {
        assert((ci + 1) % l == ci + 1) by (nonlinear_arith)
            requires
                0 <= ci,
                ci + 1 < l,
        ;
    }
    if ci == 0 {
        assert(((l - 1) + 1) % l == 0) by (nonlinear_arith)
            requires
                l > 0,
        ;
    } else {
        assert(((ci - 1) + 1) % l == ci) by (nonlinear_arith)
            requires
                0 < ci < l,
        ;
    }
}

// ── where stations come from ────────────────────────────────────────────────
/// A place to load the station list from.
#[derive(Debug, Clone, PartialEq, Eq)]
pub enum StationSource {
    /// A TOML station file.
    Toml(String),
    /// An m3u list fetched over HTTP(S).
    Url(String),
    /// An m3u file on disk.
    M3uFile(String),
}

/// The text of a source and which kind it is (0 TOML, 1 URL, 2 m3u file).
pub open spec fn source_view(s: StationSource) -> (int, Seq<char>) {
    match s {
        StationSource::Toml(p) => (0, p@),
        StationSource::Url(u) => (1, u@),
        StationSource::M3uFile(p) => (2, p@),
    }
}

/// An m3u location is fetched over HTTP when it is an http(s) URL.
pub open spec fn is_http_spec(s: Seq<char>) -> bool {
    has_prefix(s, "http://"@) || has_prefix(s, "https://"@)
}

/// The sources to try, in order; the first that exists and loads wins: the
/// configured TOML file, a `stations.toml` beside the executable, one in the
/// working directory, the configured m3u list (by URL or as a file), and
/// the local `jamf_radios.m3u` and `radios.m3u`.
pub open spec fn station_sources_spec(
    stations_toml: Seq<char>,
    exe_dir: Option<Seq<char>>,
    m3u: Seq<char>,
) -> Seq<(int, Seq<char>)> {
    let first = seq![(0int, stations_toml)];
    let beside = match exe_dir {
        Some(d) => seq![(0int, crate::platform::path_join(d, "stations.toml"@))],
        None => Seq::<(int, Seq<char>)>::empty(),
    };
    let list = if is_http_spec(m3u) {
        (1int, m3u)
    } else {
        (2int, m3u)
    };
    first + beside + seq![(0int, "stations.toml"@), list, (2int, "jamf_radios.m3u"@), (
        2int,
        "radios.m3u"@,
    )]
}

pub fn is_http_url(s: &str) -> (b: bool)
    ensures
        b == is_http_spec(s@),
{
    let c = chars_of(s);
    let a = chars_of("http://");
    let b = chars_of("https://");
    starts_with_chars(c.as_slice(), a.as_slice()) || starts_with_chars(c.as_slice(), b.as_slice())
}

/// The station sources to try, in order.
pub fn station_sources(stations_toml: &str, exe_dir: Option<&str>, m3u: &str) -> (r: Vec<
    StationSource,
>)
    ensures
        r@.map_values(|s: StationSource| source_view(s)) == station_sources_spec(
            stations_toml@,
            match exe_dir {
                Some(d) => Some(d@),
                None => None,
            },
            m3u@,
        ),
{
    let mut v: Vec<StationSource> = Vec::new();
    v.push(StationSource::Toml(String::from_str(stations_toml)));
    match exe_dir {
        Some(d) => {
            v.push(StationSource::Toml(crate::platform::join_path(d, "stations.toml")));
        },
        None => {},
    }
    v.push(StationSource::Toml(String::from_str("stations.toml")));
    if is_http_url(m3u) {
        v.push(StationSource::Url(String::from_str(m3u)));
    } else {
        v.push(StationSource::M3uFile(String::from_str(m3u)));
    }
    v.push(StationSource::M3uFile(String::from_str("jamf_radios.m3u")));
    v.push(StationSource::M3uFile(String::from_str("radios.m3u")));
    proof {
        assert(v@.map_values(|s: StationSource| source_view(s)) =~= station_sources_spec(
            stations_toml@,
            match exe_dir {
                Some(d) => Some(d@),
                None => None,
            },
            m3u@,
        ));
    }
    v
}

} // verus!
