//! Entries of the application state that the lists show.

use vstd::prelude::*;
use crate::nts::NtsShowText;
use crate::protocol::Station;
use crate::songs::{apply_patch, newest_with_job, patch_history, RecognitionResult, VdsPatch};
use crate::text::{append_chars, chars_of, opt_view, str_eq, string_of};
use crate::ui::log_panel::push_capped;
use crate::ui::action::StarContext;

verus! {

/// A ticker entry (ICY or songs list).
pub struct TickerEntry {
    pub raw: String,
    pub display: String,
    pub station: Option<String>,
    pub show: Option<String>,
    pub url: Option<String>,
    pub comment: Option<String>,
}

/// A chapter of a local file; its bounds in whole seconds.
pub struct FileChapter {
    pub title: String,
    pub start_secs: u64,
    pub end_secs: u64,
}

/// Metadata of a local audio file, as the prober reports it; durations in
/// whole seconds (the front end rounds the prober's fractions).
pub struct FileMetadata {
    pub title: Option<String>,
    pub artist: Option<String>,
    pub album: Option<String>,
    pub date: Option<String>,
    pub description: Option<String>,
    pub genre: Option<String>,
    pub duration_secs: Option<u64>,
    pub codec: Option<String>,
    pub bitrate_kbps: Option<u64>,
    pub sample_rate_hz: Option<u32>,
    pub channels: Option<u8>,
    pub chapters: Vec<FileChapter>,
    pub tracklist: Vec<String>,
}

/// A local audio file.
pub struct LocalFileEntry {
    pub path: String,
    pub name: String,
    pub size_bytes: u64,
    /// Last modification, in nanoseconds since the Unix epoch.
    pub modified: Option<u64>,
}


// ── values per name ─────────────────────────────────────────────────────────
/// The value that the last entry for `k` holds, if any entry has that name.
pub open spec fn lookup<V>(entries: Seq<(String, V)>, k: Seq<char>) -> Option<V>
    decreases entries.len(),
{
    if entries.len() == 0 {
        None
    } else if entries.last().0@ == k {
        Some(entries.last().1)
    } else {
        lookup(entries.drop_last(), k)
    }
}

/// The entries whose name is not `k`, in order.
pub open spec fn without<V>(entries: Seq<(String, V)>, k: Seq<char>) -> Seq<(String, V)>
    decreases entries.len(),
{
    if entries.len() == 0 {
        entries
    } else {
        let rest = without(entries.drop_last(), k);
        if entries.last().0@ == k {
            rest
        } else {
            rest.push(entries.last())
        }
    }
}

proof fn lemma_lookup_without<V>(entries: Seq<(String, V)>, k: Seq<char>, q: Seq<char>)
    ensures
        lookup(without(entries, k), q) == (if q == k {
            None
        } else {
            lookup(entries, q)
        }),
    decreases entries.len(),
{
    if entries.len() > 0 {
        lemma_lookup_without(entries.drop_last(), k, q);
        let rest = without(entries.drop_last(), k);
        if entries.last().0@ != k {
            assert(rest.push(entries.last()).drop_last() =~= rest);
        }
    }
}

/// The map that entries describe: each name to the value of its last entry.
pub open spec fn entries_map<V>(entries: Seq<(String, V)>) -> Map<Seq<char>, V> {
    Map::new(|k: Seq<char>| lookup(entries, k) is Some, |k: Seq<char>| lookup(entries, k).unwrap())
}

/// Values kept per name: a star rating or a play time per station name or
/// file path. Setting a name replaces its value.
pub struct NameMap<V> {
    entries: Vec<(String, V)>,
}

impl<V: Copy> View for NameMap<V> {
    type V = Map<Seq<char>, V>;

    closed spec fn view(&self) -> Map<Seq<char>, V> {
        entries_map(self.entries@)
    }
}

/// The star rating of a name: zero where it has none.
pub open spec fn stars_of(m: Map<Seq<char>, u8>, k: Seq<char>) -> u8 {
    if m.contains_key(k) {
        m[k]
    } else {
        0
    }
}

/// The rating after `cur` in the star cycle 0, 1, 2, 3, 0.
pub open spec fn star_after(cur: u8) -> u8 {
    ((cur + 1) % 4) as u8
}

/// The last play time of a name: zero where it has none.
pub open spec fn played_at(m: Map<Seq<char>, i64>, k: Seq<char>) -> i64 {
    if m.contains_key(k) {
        m[k]
    } else {
        0
    }
}

impl<V: Copy> NameMap<V> {
    /// An empty map.
    pub fn new() -> (m: Self)
        ensures
            m@ == Map::<Seq<char>, V>::empty(),
    {
        let m = NameMap { entries: Vec::new() };
        proof {
            assert(m@ =~= Map::<Seq<char>, V>::empty());
        }
        m
    }

    /// The entries of `pairs`, a later pair for a name replacing an earlier.
    pub fn from_pairs(pairs: Vec<(String, V)>) -> (m: Self)
        ensures
            m@ == entries_map(pairs@),
    {
        NameMap { entries: pairs }
    }

    /// The value of `k`, if it has one.
    pub fn get(&self, k: &str) -> (r: Option<V>)
        ensures
            r == (if self@.contains_key(k@) {
                Some(self@[k@])
            } else {
                None
            }),
    {
        let n = self.entries.len();
        let mut i: usize = n;
        proof {
            assert(self.entries@.take(n as int) =~= self.entries@);
        }
        while i > 0
            invariant
                n == self.entries@.len(),
                0 <= i <= n,
                lookup(self.entries@, k@) == lookup(self.entries@.take(i as int), k@),
            decreases i,
        {
            let e = &self.entries[i - 1];
            proof {
                assert(self.entries@.take(i as int).drop_last() =~= self.entries@.take(i - 1));
                assert(self.entries@.take(i as int).last() == self.entries@[i - 1]);
            }
            if str_eq(e.0.as_str(), k) {
                return Some(e.1);
            }
            i -= 1;
        }
        proof {
            assert(self.entries@.take(0) =~= Seq::<(String, V)>::empty());
        }
        None
    }

    /// The entries the map holds; where a name occurs twice the later entry
    /// holds its value.
    pub fn pairs(&self) -> (r: &Vec<(String, V)>)
        ensures
            entries_map(r@) == self@,
    {
        &self.entries
    }

    fn without_exec(&self, k: &str) -> (r: Vec<(String, V)>)
        ensures
            r@ == without(self.entries@, k@),
    {
        let n = self.entries.len();
        let mut out: Vec<(String, V)> = Vec::new();
        let mut i: usize = 0;
        while i < n
            invariant
                n == self.entries@.len(),
                0 <= i <= n,
                out@ == without(self.entries@.take(i as int), k@),
            decreases n - i,
        {
            let e = &self.entries[i];
            proof {
                assert(self.entries@.take(i + 1).drop_last() =~= self.entries@.take(i as int));
                assert(self.entries@.take(i + 1).last() == self.entries@[i as int]);
            }
            if !str_eq(e.0.as_str(), k) {
                let name = e.0.clone();
                out.push((name, e.1));
                proof {
                    assert(out@.last() == self.entries@[i as int]);
                }
            }
            i += 1;
        }
        proof {
            assert(self.entries@.take(n as int) =~= self.entries@);
        }
        out
    }

    /// Sets the value of `k`, replacing any it had.
    pub fn insert(&mut self, k: String, v: V)
        ensures
            final(self)@ == old(self)@.insert(k@, v),
    {
        let mut rest = self.without_exec(k.as_str());
        let ghost kept = rest@;
        let ghost key = k@;
        rest.push((k, v));
        self.entries = rest;
        proof {
            assert forall|q: Seq<char>| #[trigger] lookup(self.entries@, q) == (if q == key {
                Some(v)
            } else {
                lookup(old(self).entries@, q)
            }) by {
                assert(self.entries@.drop_last() =~= kept);
                lemma_lookup_without(old(self).entries@, key, q);
            }
            assert(self@ =~= old(self)@.insert(key, v));
        }
    }

    /// Removes the value of `k`, if it has one.
    pub fn remove(&mut self, k: &str)
        ensures
            final(self)@ == old(self)@.remove(k@),
    {
        let rest = self.without_exec(k);
        self.entries = rest;
        proof {
            assert forall|q: Seq<char>| #[trigger] lookup(self.entries@, q) == (if q == k@ {
                None
            } else {
                lookup(old(self).entries@, q)
            }) by {
                lemma_lookup_without(old(self).entries@, k@, q);
            }
            assert(self@ =~= old(self)@.remove(k@));
        }
    }
}

// ── ratings and play history ────────────────────────────────────────────────
/// The star ratings after rating `k` with `n` stars: zero stars removes the
/// rating.
pub open spec fn rated(m: Map<Seq<char>, u8>, k: Seq<char>, n: u8) -> Map<Seq<char>, u8> {
    if n == 0 {
        m.remove(k)
    } else {
        m.insert(k, n)
    }
}

/// An NTS show: its text, and its start and end as local clock times
/// (hour 0-23, minute 0-59).
pub struct NtsShow {
    pub text: NtsShowText,
    pub start: (u32, u32),
    pub end: (u32, u32),
}

/// An NTS channel: the show on air and the ones that follow.
pub struct NtsChannel {
    pub now: NtsShow,
    pub upcoming: Vec<NtsShow>,
}

/// The part of the application state that the verified logic reads: star
/// ratings and last play times (seconds since the epoch), per station name
/// and per file path, and the two NTS channels when they have been fetched.
pub struct AppState {
    pub station_stars: NameMap<u8>,
    pub file_stars: NameMap<u8>,
    pub recent_station: NameMap<i64>,
    pub recent_file: NameMap<i64>,
    pub nts_ch1: Option<NtsChannel>,
    pub nts_ch2: Option<NtsChannel>,
    /// Why the last fetch of each NTS channel failed, until one succeeds.
    pub nts_ch1_error: Option<String>,
    pub nts_ch2_error: Option<String>,
    /// Recognised songs, oldest first.
    pub songs_history: Vec<RecognitionResult>,
    /// ICY titles seen, oldest first.
    pub icy_history: Vec<TickerEntry>,
}

impl AppState {
    /// No ratings, no history and no NTS data yet.
    pub fn new() -> (s: Self)
        ensures
            s.station_stars@ == Map::<Seq<char>, u8>::empty(),
            s.file_stars@ == Map::<Seq<char>, u8>::empty(),
            s.recent_station@ == Map::<Seq<char>, i64>::empty(),
            s.recent_file@ == Map::<Seq<char>, i64>::empty(),
            s.nts_ch1 is None,
            s.nts_ch2 is None,
            s.nts_ch1_error is None,
            s.nts_ch2_error is None,
            s.songs_history@ == Seq::<RecognitionResult>::empty(),
            s.icy_history@ == Seq::<TickerEntry>::empty(),
    {
        AppState {
            station_stars: NameMap::new(),
            file_stars: NameMap::new(),
            recent_station: NameMap::new(),
            recent_file: NameMap::new(),
            nts_ch1: None,
            nts_ch2: None,
            nts_ch1_error: None,
            nts_ch2_error: None,
            songs_history: Vec::new(),
            icy_history: Vec::new(),
        }
    }

    /// Stars for a station by name.
    pub fn station_stars_for(&self, name: &str) -> (r: u8)
        ensures
            r == stars_of(self.station_stars@, name@),
    {
        match self.station_stars.get(name) {
            Some(n) => n,
            None => 0,
        }
    }

    /// Stars for a file by path.
    pub fn file_stars_for(&self, path: &str) -> (r: u8)
        ensures
            r == stars_of(self.file_stars@, path@),
    {
        match self.file_stars.get(path) {
            Some(n) => n,
            None => 0,
        }
    }

    /// When a station was last played, zero if never.
    pub fn station_played_at(&self, name: &str) -> (r: i64)
        ensures
            r == played_at(self.recent_station@, name@),
    {
        match self.recent_station.get(name) {
            Some(t) => t,
            None => 0,
        }
    }

    /// When a file was last played, zero if never.
    pub fn file_played_at(&self, path: &str) -> (r: i64)
        ensures
            r == played_at(self.recent_file@, path@),
    {
        match self.recent_file.get(path) {
            Some(t) => t,
            None => 0,
        }
    }

    /// Rates a station or a file with `n` stars; zero stars removes its
    /// rating. The other ratings and the history stay as they were.
    pub fn set_star(&mut self, n: u8, ctx: StarContext)
        ensures
            match ctx {
                StarContext::Station(name) => {
                    &&& final(self).station_stars@ == rated(old(self).station_stars@, name@, n)
                    &&& *final(self) == (AppState { station_stars: final(self).station_stars, ..*old(self) })
                },
                StarContext::File(path) => {
                    &&& final(self).file_stars@ == rated(old(self).file_stars@, path@, n)
                    &&& *final(self) == (AppState { file_stars: final(self).file_stars, ..*old(self) })
                },
            },
    {
        match ctx {
            StarContext::Station(name) => {
                if n == 0 {
                    self.station_stars.remove(name.as_str());
                } else {
                    self.station_stars.insert(name, n);
                }
            },
            StarContext::File(path) => {
                if n == 0 {
                    self.file_stars.remove(path.as_str());
                } else {
                    self.file_stars.insert(path, n);
                }
            },
        }
    }

    /// Records that a station was played at `now` (seconds since the epoch).
    pub fn record_station_played(&mut self, name: String, now: i64)
        ensures
            final(self).recent_station@ == old(self).recent_station@.insert(name@, now),
            *final(self) == (AppState { recent_station: final(self).recent_station, ..*old(self) }),
    {
        self.recent_station.insert(name, now);
    }

    /// Records that a file was played at `now` (seconds since the epoch).
    pub fn record_file_played(&mut self, path: String, now: i64)
        ensures
            final(self).recent_file@ == old(self).recent_file@.insert(path@, now),
            *final(self) == (AppState { recent_file: final(self).recent_file, ..*old(self) }),
    {
        self.recent_file.insert(path, now);
    }

    /// A channel's schedule arrived: it replaces the channel's data and
    /// clears its error.
    pub fn on_nts_updated(&mut self, ch: usize, data: NtsChannel)
        ensures
            ch == 0 ==> *final(self) == (AppState { nts_ch1: Some(data), nts_ch1_error: None, ..*old(self) }),
            ch != 0 ==> *final(self) == (AppState { nts_ch2: Some(data), nts_ch2_error: None, ..*old(self) }),
    {
        if ch == 0 {
            self.nts_ch1 = Some(data);
            self.nts_ch1_error = None;
        } else {
            self.nts_ch2 = Some(data);
            self.nts_ch2_error = None;
        }
    }

    /// A channel's fetch failed: the error is kept for the channel, and the
    /// result is the warning to show.
    pub fn on_nts_error(&mut self, ch: usize, msg: String) -> (toast: String)
        ensures
            toast@ == (if ch == 0 {
                "NTS 1"@
            } else {
                "NTS 2"@
            }) + " fetch error: "@ + msg@,
            ch == 0 ==> *final(self) == (AppState { nts_ch1_error: Some(msg), ..*old(self) }),
            ch != 0 ==> *final(self) == (AppState { nts_ch2_error: Some(msg), ..*old(self) }),
    {
        let mut t = if ch == 0 {
            chars_of("NTS 1")
        } else {
            chars_of("NTS 2")
        };
        let mid = chars_of(" fetch error: ");
        append_chars(&mut t, mid.as_slice());
        let m = chars_of(msg.as_str());
        append_chars(&mut t, m.as_slice());
        if ch == 0 {
            self.nts_ch1_error = Some(msg);
        } else {
            self.nts_ch2_error = Some(msg);
        }
        string_of(t.as_slice())
    }

    /// A recognition started: its placeholder entry joins the songs
    /// history, the oldest entry going beyond `SONGS_HISTORY_CAP`.
    pub fn on_recognition_started(&mut self, r: RecognitionResult)
        ensures
            old(self).songs_history@.len() + 1 > SONGS_HISTORY_CAP ==> final(self).songs_history@ == old(
                self,
            ).songs_history@.push(r).drop_first(),
            old(self).songs_history@.len() + 1 <= SONGS_HISTORY_CAP ==> final(self).songs_history@ == old(
                self,
            ).songs_history@.push(r),
            *final(self) == (AppState { songs_history: final(self).songs_history, ..*old(self) }),
    {
        push_capped(&mut self.songs_history, r, SONGS_HISTORY_CAP);
    }

    /// A recognition reported more: the newest entry of its job takes the
    /// patched columns. Returns whether the job has an entry.
    pub fn on_recognition_patch(&mut self, job_id: &str, patch: &VdsPatch) -> (found: bool)
        ensures
            match newest_with_job(old(self).songs_history@, job_id@) {
                Some(i) => {
                    &&& found
                    &&& final(self).songs_history@.len() == old(self).songs_history@.len()
                    &&& forall|j: int|
                        0 <= j < old(self).songs_history@.len() && j != i ==> final(self).songs_history@[j]
                            == old(self).songs_history@[j]
                    &&& final(self).songs_history@[i]@ == apply_patch(old(self).songs_history@[i]@, patch@)
                },
                None => !found && final(self).songs_history@ == old(self).songs_history@,
            },
            *final(self) == (AppState { songs_history: final(self).songs_history, ..*old(self) }),
    {
        patch_history(&mut self.songs_history, job_id, patch)
    }
    /// An ICY title arrived, stamped `stamp`, while `station` (the playing
    /// station's name, if any) plays, at `now` (seconds since the epoch).
    /// A title that differs from the newest entry's joins the ticker as
    /// `stamp`, two spaces and the title, the oldest entry going beyond
    /// `ICY_HISTORY_CAP`, and the station counts as played at `now`; the
    /// result is then the line to log. Anything else changes nothing.
    pub fn on_icy_updated(&mut self, title: Option<String>, stamp: &str, station: Option<String>, now: i64) -> (logged:
        Option<String>)
        ensures
            fresh_icy_title(old(self).icy_history@, title) ==> {
                let t = title->0@;
                let h = final(self).icy_history@;
                let e = h.last();
                &&& logged is Some
                &&& logged->0@ == stamp@ + "  "@ + t
                &&& h.len() > 0
                &&& e.raw@ == t
                &&& e.display@ == stamp@ + "  "@ + t
                &&& opt_view(e.station) == opt_view(station)
                &&& e.show is None && e.url is None && e.comment is None
                &&& h.drop_last() == (if old(self).icy_history@.len() + 1 > ICY_HISTORY_CAP {
                    old(self).icy_history@.drop_first()
                } else {
                    old(self).icy_history@
                })
                &&& final(self).recent_station@ == match station {
                    Some(n) => old(self).recent_station@.insert(n@, now),
                    None => old(self).recent_station@,
                }
                &&& *final(self) == (AppState {
                    icy_history: final(self).icy_history,
                    recent_station: final(self).recent_station,
                    ..*old(self)
                })
            },
            !fresh_icy_title(old(self).icy_history@, title) ==> logged is None && *final(self) == *old(self),
    {
        let fresh = match &title {
            Some(t) => {
                let n = self.icy_history.len();
                if n == 0 {
                    !str_eq("", t.as_str())
                } else {
                    !str_eq(self.icy_history[n - 1].raw.as_str(), t.as_str())
                }
            },
            None => false,
        };
        if !fresh {
            return None;
        }
        let t = match title {
            Some(t) => t,
            None => String::new(),
        };
        let mut d = chars_of(stamp);
        let sep = chars_of("  ");
        append_chars(&mut d, sep.as_slice());
        let tc = chars_of(t.as_str());
        append_chars(&mut d, tc.as_slice());
        let entry_station = match &station {
            Some(n) => {
                let name = string_of(chars_of(n.as_str()).as_slice());
                Some(name)
            },
            None => None,
        };
        if let Some(n) = station {
            self.recent_station.insert(n, now);
        }
        let ghost before = self.icy_history@;
        let entry = TickerEntry {
            raw: t,
            display: string_of(d.as_slice()),
            station: entry_station,
            show: None,
            url: None,
            comment: None,
        };
        let ghost e = entry;
        push_capped(&mut self.icy_history, entry, ICY_HISTORY_CAP);
        proof {
            if before.len() + 1 > ICY_HISTORY_CAP {
                assert(self.icy_history@ == before.push(e).drop_first());
                assert(self.icy_history@.drop_last() =~= before.drop_first());
            } else {
                assert(self.icy_history@.drop_last() =~= before);
            }
        }
        Some(string_of(d.as_slice()))
    }
}

/// Whether an ICY update carries a title other than the newest ticker
/// entry's (an empty ticker counts as holding the empty title).
pub open spec fn fresh_icy_title(h: Seq<TickerEntry>, title: Option<String>) -> bool {
    match title {
        Some(t) => t@ != (if h.len() == 0 {
            ""@
        } else {
            h.last().raw@
        }),
        None => false,
    }
}

/// How many ICY titles the ticker keeps.
pub const ICY_HISTORY_CAP: usize = 200;

/// How many recognised songs the history keeps.
pub const SONGS_HISTORY_CAP: usize = 500;

/// The name of the station that carries an NTS channel.
pub open spec fn nts_station_name(ch: usize) -> Seq<char> {
    if ch == 0 {
        "NTS 1"@
    } else {
        "NTS 2"@
    }
}

/// The index of the first station with this name, if any.
pub open spec fn first_named(stations: Seq<Station>, name: Seq<char>) -> Option<int>
    decreases stations.len(),
{
    if stations.len() == 0 {
        None
    } else {
        match first_named(stations.drop_last(), name) {
            Some(i) => Some(i),
            None => if stations.last().name@ == name {
                Some(stations.len() - 1)
            } else {
                None
            },
        }
    }
}

proof fn lemma_first_named_in(stations: Seq<Station>, name: Seq<char>)
    ensures
        first_named(stations, name) matches Some(i) ==> 0 <= i < stations.len() && stations[i].name@ == name,
    decreases stations.len(),
{
    if stations.len() > 0 {
        let d = stations.drop_last();
        lemma_first_named_in(d, name);
        if let Some(i) = first_named(d, name) {
            assert(d[i] == stations[i]);
        }
    }
}

proof fn lemma_first_named(stations: Seq<Station>, name: Seq<char>, i: int)
    requires
        0 <= i < stations.len(),
        stations[i].name@ == name,
        forall|j: int| 0 <= j < i ==> #[trigger] stations[j].name@ != name,
    ensures
        first_named(stations, name) == Some(i),
    decreases stations.len(),
{
    let d = stations.drop_last();
    if i < stations.len() - 1 {
        assert(d[i] == stations[i]);
        assert forall|j: int| 0 <= j < i implies #[trigger] d[j].name@ != name by {
            assert(d[j] == stations[j]);
        }
        lemma_first_named(d, name, i);
    } else {
        lemma_no_name(d, name);
    }
}

proof fn lemma_no_name(stations: Seq<Station>, name: Seq<char>)
    requires
        forall|j: int| 0 <= j < stations.len() ==> #[trigger] stations[j].name@ != name,
    ensures
        first_named(stations, name) is None,
    decreases stations.len(),
{
    if stations.len() > 0 {
        let d = stations.drop_last();
        assert forall|j: int| 0 <= j < d.len() implies #[trigger] d[j].name@ != name by {
            assert(d[j] == stations[j]);
        }
        lemma_no_name(d, name);
    }
}

/// The stations after the first one named `name` (if any) took `city` as
/// its city; every other station and field stays.
pub open spec fn with_city(stations: Seq<Station>, old_stations: Seq<Station>, name: Seq<char>, city: Seq<char>) -> bool {
    match first_named(old_stations, name) {
        None => stations == old_stations,
        Some(i) => {
            &&& stations.len() == old_stations.len()
            &&& forall|j: int| 0 <= j < old_stations.len() && j != i ==> #[trigger] stations[j] == old_stations[j]
            &&& stations[i].city@ == city
            &&& stations[i].name == old_stations[i].name
            &&& stations[i].url == old_stations[i].url
            &&& stations[i].description == old_stations[i].description
            &&& stations[i].network == old_stations[i].network
            &&& stations[i].tags@ == old_stations[i].tags@
            &&& stations[i].country == old_stations[i].country
        },
    }
}

/// The index of the first station with this name.
pub fn station_index_by_name(stations: &Vec<Station>, name: &str) -> (r: Option<usize>)
    ensures
        match r {
            Some(i) => first_named(stations@, name@) == Some(i as int) && i < stations@.len()
                && stations@[i as int].name@ == name@,
            None => first_named(stations@, name@) is None,
        },
{
    proof {
        lemma_first_named_in(stations@, name@);
    }
    let n = stations.len();
    let mut i: usize = 0;
    while i < n
        invariant
            n == stations@.len(),
            0 <= i <= n,
            forall|j: int| 0 <= j < i ==> #[trigger] stations@[j].name@ != name@,
        decreases n - i,
    {
        if str_eq(stations[i].name.as_str(), name) {
            proof {
                lemma_first_named(stations@, name@, i as int);
            }
            return Some(i);
        }
        i += 1;
    }
    proof {
        lemma_no_name(stations@, name@);
    }
    None
}

fn copy_strings(v: &Vec<String>) -> (r: Vec<String>)
    ensures
        r@ == v@,
{
    let mut out: Vec<String> = Vec::new();
    let mut k: usize = 0;
    while k < v.len()
        invariant
            0 <= k <= v@.len(),
            out@ == v@.take(k as int),
        decreases v@.len() - k,
    {
        out.push(v[k].clone());
        proof {
            assert(out@ =~= v@.take(k + 1));
        }
        k += 1;
    }
    proof {
        assert(v@.take(v@.len() as int) =~= v@);
    }
    out
}

/// Gives the first station named `name` (if any) the city `city`.
pub fn set_city(stations: &mut Vec<Station>, name: &str, city: &str)
    ensures
        with_city(final(stations)@, old(stations)@, name@, city@),
{
    match station_index_by_name(stations, name) {
        None => {},
        Some(i) => {
            let s = &stations[i];
            let tags = copy_strings(&s.tags);
            let updated = Station {
                name: s.name.clone(),
                url: s.url.clone(),
                description: s.description.clone(),
                network: s.network.clone(),
                tags,
                city: string_of(chars_of(city).as_slice()),
                country: s.country.clone(),
            };
            stations.set(i, updated);
        },
    }
}

/// When a channel's show on air names its place, the channel's station
/// (the first with the channel's name) takes that place as its city.
pub fn set_nts_city(stations: &mut Vec<Station>, ch: usize, location_long: &str)
    ensures
        location_long@.len() == 0 ==> final(stations)@ == old(stations)@,
        location_long@.len() > 0 ==> with_city(final(stations)@, old(stations)@, nts_station_name(ch), location_long@),
{
    if chars_of(location_long).len() == 0 {
        return;
    }
    let name = if ch == 0 {
        "NTS 1"
    } else {
        "NTS 2"
    };
    proof {
        reveal_strlit("NTS 1");
        reveal_strlit("NTS 2");
    }
    set_city(stations, name, location_long);
}

/// A station's city is kept across a new station list from the daemon
/// (which knows nothing of the NTS shows' places): the first station named
/// `name` in the new list takes the city of the first so named in the old
/// list, where there was one.
pub fn keep_city(prev: &Vec<Station>, next: &mut Vec<Station>, name: &str)
    ensures
        match first_named(prev@, name@) {
            Some(i) => with_city(final(next)@, old(next)@, name@, prev@[i].city@),
            None => final(next)@ == old(next)@,
        },
{
    match station_index_by_name(prev, name) {
        Some(i) => set_city(next, name, prev[i].city.as_str()),
        None => {},
    }
}

/// Law: a rating reads back as it was set (zero once removed), and rating
/// one name leaves every other name's rating as it was.
pub proof fn law_star_read_after_write(m: Map<Seq<char>, u8>, k: Seq<char>, n: u8, other: Seq<char>)
    ensures
        stars_of(rated(m, k, n), k) == n,
        other != k ==> stars_of(rated(m, k, n), other) == stars_of(m, other),
{
}

} // verus!
