//! Station list logic: the sort orders the list cycles through and the
//! filter that decides which stations a query shows.

use vstd::prelude::*;
use crate::protocol::{PlaybackStatus, Station};
use crate::ui::keys::{Key, KeyPress};
use crate::ui::intent::RenderHint;
use crate::ui::file_list::{row_icon, row_icon_spec};
use crate::text::{append_chars, string_of, string_views};
use crate::ui::nts_panel::{nts_channel_for, nts_channel_spec};
use crate::ui::app_state::{played_at, star_after, stars_of, AppState};
use crate::text::{chars_of, lowercase, str_eq, to_lowercase};
use crate::ui::sorting::{
    field_view, keys_view, key_view, push_field, sort_indices, sorted_order, Field, SortField,
};

verus! {

/// Sort order for the station list.
#[derive(Debug, Clone, Copy, PartialEq, Eq, Structural)]
pub enum SortOrder {
    Default,
    Network,
    Location,
    Name,
    Stars,
    Recent,
    StarsRecent,
    RecentStars,
}

/// Position of an order in the cycle that `next` walks.
pub open spec fn sort_index(o: SortOrder) -> int {
    match o {
        SortOrder::Default => 0,
        SortOrder::Network => 1,
        SortOrder::Location => 2,
        SortOrder::Name => 3,
        SortOrder::Stars => 4,
        SortOrder::Recent => 5,
        SortOrder::StarsRecent => 6,
        SortOrder::RecentStars => 7,
    }
}

/// The order at a position of the cycle (positions taken modulo 8).
pub open spec fn sort_at(i: int) -> SortOrder {
    let k = i % 8;
    if k == 0 {
        SortOrder::Default
    } else if k == 1 {
        SortOrder::Network
    } else if k == 2 {
        SortOrder::Location
    } else if k == 3 {
        SortOrder::Name
    } else if k == 4 {
        SortOrder::Stars
    } else if k == 5 {
        SortOrder::Recent
    } else if k == 6 {
        SortOrder::StarsRecent
    } else {
        SortOrder::RecentStars
    }
}

/// The label under which an order is shown and persisted.
pub open spec fn sort_label(o: SortOrder) -> Seq<char> {
    match o {
        SortOrder::Default => "default"@,
        SortOrder::Network => "network"@,
        SortOrder::Location => "location"@,
        SortOrder::Name => "name"@,
        SortOrder::Stars => "stars"@,
        SortOrder::Recent => "recent"@,
        SortOrder::StarsRecent => "stars+recent"@,
        SortOrder::RecentStars => "recent+stars"@,
    }
}

/// The order a persisted label restores; an unknown label gives `Default`.
pub open spec fn sort_from_label(l: Seq<char>) -> SortOrder {
    if l == "network"@ {
        SortOrder::Network
    } else if l == "location"@ {
        SortOrder::Location
    } else if l == "name"@ {
        SortOrder::Name
    } else if l == "stars"@ {
        SortOrder::Stars
    } else if l == "recent"@ {
        SortOrder::Recent
    } else if l == "stars+recent"@ {
        SortOrder::StarsRecent
    } else if l == "recent+stars"@ {
        SortOrder::RecentStars
    } else {
        SortOrder::Default
    }
}

impl Default for SortOrder {
    fn default() -> (o: Self)
        ensures
            o == SortOrder::Default,
    {
        SortOrder::Default
    }
}

impl SortOrder {
    /// The following order in the cycle, wrapping from the last to the first.
    pub fn next(self) -> (o: Self)
        ensures
            o == sort_at(sort_index(self) + 1),
    {
        match self {
            SortOrder::Default => SortOrder::Network,
            SortOrder::Network => SortOrder::Location,
            SortOrder::Location => SortOrder::Name,
            SortOrder::Name => SortOrder::Stars,
            SortOrder::Stars => SortOrder::Recent,
            SortOrder::Recent => SortOrder::StarsRecent,
            SortOrder::StarsRecent => SortOrder::RecentStars,
            SortOrder::RecentStars => SortOrder::Default,
        }
    }

    /// The preceding order in the cycle, wrapping from the first to the last.
    pub fn prev(self) -> (o: Self)
        ensures
            o == sort_at(sort_index(self) + 7),
    {
        match self {
            SortOrder::Default => SortOrder::RecentStars,
            SortOrder::Network => SortOrder::Default,
            SortOrder::Location => SortOrder::Network,
            SortOrder::Name => SortOrder::Location,
            SortOrder::Stars => SortOrder::Name,
            SortOrder::Recent => SortOrder::Stars,
            SortOrder::StarsRecent => SortOrder::Recent,
            SortOrder::RecentStars => SortOrder::StarsRecent,
        }
    }

    pub fn label(self) -> (s: &'static str)
        ensures
            s@ == sort_label(self),
    {
        match self {
            SortOrder::Default => "default",
            SortOrder::Network => "network",
            SortOrder::Location => "location",
            SortOrder::Name => "name",
            SortOrder::Stars => "stars",
            SortOrder::Recent => "recent",
            SortOrder::StarsRecent => "stars+recent",
            SortOrder::RecentStars => "recent+stars",
        }
    }

    /// The order that a persisted label names (session restore).
    pub fn from_label(label: &str) -> (o: Self)
        ensures
            o == sort_from_label(label@),
    {
        if str_eq(label, "network") {
            SortOrder::Network
        } else if str_eq(label, "location") {
            SortOrder::Location
        } else if str_eq(label, "name") {
            SortOrder::Name
        } else if str_eq(label, "stars") {
            SortOrder::Stars
        } else if str_eq(label, "recent") {
            SortOrder::Recent
        } else if str_eq(label, "stars+recent") {
            SortOrder::StarsRecent
        } else if str_eq(label, "recent+stars") {
            SortOrder::RecentStars
        } else {
            SortOrder::Default
        }
    }
}

/// `prev` undoes `next` and `next` undoes `prev`.
pub proof fn law_sort_next_prev(o: SortOrder)
    ensures
        sort_at(sort_index(sort_at(sort_index(o) + 1)) + 7) == o,
        sort_at(sort_index(sort_at(sort_index(o) + 7)) + 1) == o,
{
}

/// Eight steps of `next` come back to the starting order.
pub proof fn law_sort_cycle_length(o: SortOrder)
    ensures
        sort_at(sort_index(o) + 8) == o,
{
}

/// Restoring an order from its label gives the order back.
pub proof fn law_sort_label_roundtrip(o: SortOrder)
    ensures
        sort_from_label(sort_label(o)) == o,
{
    reveal_strlit("default");
    reveal_strlit("network");
    reveal_strlit("location");
    reveal_strlit("name");
    reveal_strlit("stars");
    reveal_strlit("recent");
    reveal_strlit("stars+recent");
    reveal_strlit("recent+stars");
    match o {
        SortOrder::Default => {
            assert("default"@[0] != "network"@[0]);
            assert("default"@.len() != "location"@.len());
            assert("default"@.len() != "name"@.len());
            assert("default"@.len() != "stars"@.len());
            assert("default"@.len() != "recent"@.len());
            assert("default"@.len() != "stars+recent"@.len());
            assert("default"@.len() != "recent+stars"@.len());
        },
        SortOrder::Network => {
        },
        SortOrder::Location => {
            assert("location"@.len() != "network"@.len());
        },
        SortOrder::Name => {
            assert("name"@.len() != "network"@.len());
            assert("name"@.len() != "location"@.len());
        },
        SortOrder::Stars => {
            assert("stars"@.len() != "network"@.len());
            assert("stars"@.len() != "location"@.len());
            assert("stars"@.len() != "name"@.len());
        },
        SortOrder::Recent => {
            assert("recent"@.len() != "network"@.len());
            assert("recent"@.len() != "location"@.len());
            assert("recent"@.len() != "name"@.len());
            assert("recent"@.len() != "stars"@.len());
        },
        SortOrder::StarsRecent => {
            assert("stars+recent"@.len() != "network"@.len());
            assert("stars+recent"@.len() != "location"@.len());
            assert("stars+recent"@.len() != "name"@.len());
            assert("stars+recent"@.len() != "stars"@.len());
            assert("stars+recent"@.len() != "recent"@.len());
        },
        SortOrder::RecentStars => {
            assert("recent+stars"@.len() != "network"@.len());
            assert("recent+stars"@.len() != "location"@.len());
            assert("recent+stars"@.len() != "name"@.len());
            assert("recent+stars"@.len() != "stars"@.len());
            assert("recent+stars"@.len() != "recent"@.len());
            assert("recent+stars"@[0] != "stars+recent"@[0]);
        },
    }
}

// ── sorting ─────────────────────────────────────────────────────────────────
/// The sort key of a station under an order, given its star rating and when
/// it was last played (both zero when absent). Names, networks and places
/// compare lowercased; stars and recency sort descending.
pub open spec fn station_key(st: Station, order: SortOrder, stars: u8, recent: i64) -> Seq<Field> {
    let name = Field::Text(lowercase(st.name@));
    let s = Field::Num(-(stars as int));
    let r = Field::Num(-(recent as int));
    match order {
        SortOrder::Default => Seq::<Field>::empty(),
        SortOrder::Network => seq![Field::Text(lowercase(st.network@)), name],
        SortOrder::Location => seq![
            Field::Text(lowercase(st.country@)),
            Field::Text(lowercase(st.city@)),
            name,
        ],
        SortOrder::Name => seq![name],
        SortOrder::Stars => seq![s, name],
        SortOrder::Recent => seq![r, name],
        SortOrder::StarsRecent => seq![s, r],
        SortOrder::RecentStars => seq![r, s],
    }
}

/// The sort keys of all stations.
pub open spec fn station_keys(
    stations: Seq<Station>,
    order: SortOrder,
    stars: Seq<u8>,
    recent: Seq<i64>,
) -> Seq<Seq<Field>> {
    Seq::new(stations.len(), |i: int| station_key(stations[i], order, stars[i], recent[i]))
}

fn lower_field(s: &String) -> (f: SortField)
    ensures
        field_view(f) == Field::Text(lowercase(s@)),
{
    let l = to_lowercase(s.as_str());
    SortField::Text(chars_of(l.as_str()))
}

fn station_key_exec(st: &Station, order: SortOrder, stars: u8, recent: i64) -> (k: Vec<SortField>)
    ensures
        key_view(k@) == station_key(*st, order, stars, recent),
{
    let mut k: Vec<SortField> = Vec::new();
    let ghost name = Field::Text(lowercase(st.name@));
    let ghost sg = Field::Num(-(stars as int));
    let ghost rg = Field::Num(-(recent as int));
    let s = SortField::Num(-(stars as i128));
    let r = SortField::Num(-(recent as i128));
    match order {
        SortOrder::Default => {},
        SortOrder::Network => {
            push_field(&mut k, lower_field(&st.network));
            push_field(&mut k, lower_field(&st.name));
        },
        SortOrder::Location => {
            push_field(&mut k, lower_field(&st.country));
            push_field(&mut k, lower_field(&st.city));
            push_field(&mut k, lower_field(&st.name));
        },
        SortOrder::Name => {
            push_field(&mut k, lower_field(&st.name));
        },
        SortOrder::Stars => {
            push_field(&mut k, s);
            push_field(&mut k, lower_field(&st.name));
        },
        SortOrder::Recent => {
            push_field(&mut k, r);
            push_field(&mut k, lower_field(&st.name));
        },
        SortOrder::StarsRecent => {
            push_field(&mut k, s);
            push_field(&mut k, r);
        },
        SortOrder::RecentStars => {
            push_field(&mut k, r);
            push_field(&mut k, s);
        },
    }
    proof {
        assert(key_view(k@) =~= station_key(*st, order, stars, recent));
    }
    k
}

/// The order in which the station list shows the stations under a sort
/// order: indices into `stations`, sorted by key, ties kept in list order.
/// `stars[i]` and `recent[i]` belong to `stations[i]`.
pub fn sort_stations(
    stations: &Vec<Station>,
    order: SortOrder,
    stars: &Vec<u8>,
    recent: &Vec<i64>,
) -> (r: Vec<usize>)
    requires
        stars@.len() == stations@.len(),
        recent@.len() == stations@.len(),
    ensures
        sorted_order(station_keys(stations@, order, stars@, recent@), r@),
{
    let n = stations.len();
    let mut keys: Vec<Vec<SortField>> = Vec::new();
    let mut i: usize = 0;
    while i < n
        invariant
            n == stations@.len(),
            stars@.len() == n,
            recent@.len() == n,
            0 <= i <= n,
            keys_view(keys@) == station_keys(stations@, order, stars@, recent@).take(i as int),
        decreases n - i,
    {
        let k = station_key_exec(&stations[i], order, stars[i], recent[i]);
        let ghost before = keys_view(keys@);
        keys.push(k);
        proof {
            assert(keys_view(keys@) =~= before.push(key_view(k@)));
            assert(station_keys(stations@, order, stars@, recent@).take(i + 1) =~= station_keys(
                stations@,
                order,
                stars@,
                recent@,
            ).take(i as int).push(station_key(stations@[i as int], order, stars@[i as int], recent@[i as int])));
        }
        i += 1;
    }
    proof {
        assert(station_keys(stations@, order, stars@, recent@).take(n as int) =~= station_keys(
            stations@,
            order,
            stars@,
            recent@,
        ));
    }
    sort_indices(&keys)
}

/// The star rating of each station, by name.
pub open spec fn stations_stars(stations: Seq<Station>, stars: Map<Seq<char>, u8>) -> Seq<u8> {
    Seq::new(stations.len(), |i: int| stars_of(stars, stations[i].name@))
}

/// The last play time of each station, by name.
pub open spec fn stations_played(stations: Seq<Station>, recent: Map<Seq<char>, i64>) -> Seq<i64> {
    Seq::new(stations.len(), |i: int| played_at(recent, stations[i].name@))
}

/// The order in which the station list shows the stations under a sort
/// order, with the ratings and play history of `state`.
pub fn sort_stations_by_state(stations: &Vec<Station>, order: SortOrder, state: &AppState) -> (r: Vec<usize>)
    ensures
        sorted_order(
            station_keys(
                stations@,
                order,
                stations_stars(stations@, state.station_stars@),
                stations_played(stations@, state.recent_station@),
            ),
            r@,
        ),
{
    let n = stations.len();
    let mut stars: Vec<u8> = Vec::new();
    let mut recent: Vec<i64> = Vec::new();
    let mut i: usize = 0;
    while i < n
        invariant
            n == stations@.len(),
            0 <= i <= n,
            stars@ == stations_stars(stations@, state.station_stars@).take(i as int),
            recent@ == stations_played(stations@, state.recent_station@).take(i as int),
        decreases n - i,
    {
        let s = state.station_stars_for(stations[i].name.as_str());
        let t = state.station_played_at(stations[i].name.as_str());
        stars.push(s);
        recent.push(t);
        proof {
            assert(stars@ =~= stations_stars(stations@, state.station_stars@).take(i + 1));
            assert(recent@ =~= stations_played(stations@, state.recent_station@).take(i + 1));
        }
        i += 1;
    }
    proof {
        assert(stars@ =~= stations_stars(stations@, state.station_stars@));
        assert(recent@ =~= stations_played(stations@, state.recent_station@));
    }
    sort_stations(stations, order, &stars, &recent)
}

// ── keys ────────────────────────────────────────────────────────────────────
/// What a key press on the station list asks for. The list widget moves
/// its own selection; the hover flag asks for the NTS hover state of the
/// new selection to be reported afterwards.
#[derive(Debug, Clone)]
pub enum StationListKey {
    SelectUp { rows: usize, hover: bool },
    SelectDown { rows: usize, hover: bool },
    SelectFirst,
    SelectLast,
    /// The open filter input takes the key.
    ToFilter,
    OpenFilter,
    Stop,
    Play(usize),
    TogglePause,
    /// The list is sorted again under this order.
    Sort(SortOrder),
    /// Rate the station with this name.
    SetStar(u8, String),
    /// Skip to the next station, remembering the one it jumps from.
    Next { jump_from: Option<usize> },
    Prev { jump_from: Option<usize> },
    Random { jump_from: Option<usize> },
    CopyToClipboard(String),
    Nothing,
}

/// What the player is doing, as the station list's keys read it.
pub struct PlayerView {
    /// Index of the station loaded, if one is.
    pub current_station: Option<usize>,
    pub status: PlaybackStatus,
    /// A local file is loaded and playing.
    pub file_playing: bool,
}

/// A station is loaded and playing or connecting.
pub open spec fn station_active(p: PlayerView) -> bool {
    (p.status == PlaybackStatus::Playing || p.status == PlaybackStatus::Connecting)
        && p.current_station is Some
}

/// What a key press does on the station list, given the index in the station list of
/// the selected station (if any), the stations, the player, the ratings
/// and the sort order. While the filter is open it takes every key but Up
/// and Down, which move one row. Otherwise: Up/Down and k/j move one row
/// (five with Shift) and report the hover; PageUp/PageDown move ten; Home,
/// g, End, G jump; Enter stops the selected station where it is the one
/// playing or connecting, and plays it otherwise; Space pauses or resumes
/// what plays, or else plays the selection; '/' opens the filter; s and S
/// cycle the sort order; '*' rates the selection one star more (3 wraps to
/// 0); n, P, r skip, remembering the current station; y copies the
/// selection's stream URL.
pub open spec fn station_key_spec(
    k: KeyPress,
    filter_active: bool,
    selected: Option<usize>,
    stations: Seq<Station>,
    player: PlayerView,
    stars: Map<Seq<char>, u8>,
    order: SortOrder,
) -> StationListKey {
    let sel_station: Option<Station> = match selected {
        Some(i) => if i < stations.len() {
            Some(stations[i as int])
        } else {
            None
        },
        None => None,
    };
    let step: usize = if k.shift {
        5
    } else {
        1
    };
    if filter_active {
        if k.key == Key::Up {
            StationListKey::SelectUp { rows: 1, hover: false }
        } else if k.key == Key::Down {
            StationListKey::SelectDown { rows: 1, hover: false }
        } else {
            StationListKey::ToFilter
        }
    } else if k.key == Key::Up || k.key == Key::Char('k') {
        StationListKey::SelectUp { rows: step, hover: true }
    } else if k.key == Key::Down || k.key == Key::Char('j') {
        StationListKey::SelectDown { rows: step, hover: true }
    } else if k.key == Key::PageUp {
        StationListKey::SelectUp { rows: 10, hover: false }
    } else if k.key == Key::PageDown {
        StationListKey::SelectDown { rows: 10, hover: false }
    } else if k.key == Key::Home || k.key == Key::Char('g') {
        StationListKey::SelectFirst
    } else if k.key == Key::End || k.key == Key::Char('G') {
        StationListKey::SelectLast
    } else if k.key == Key::Enter {
        match selected {
            Some(i) => if player.current_station == Some(i) && (player.status == PlaybackStatus::Playing
                || player.status == PlaybackStatus::Connecting) {
                StationListKey::Stop
            } else {
                StationListKey::Play(i)
            },
            None => StationListKey::Nothing,
        }
    } else if k.key == Key::Char(' ') {
        if station_active(player) || player.file_playing {
            StationListKey::TogglePause
        } else {
            match selected {
                Some(i) => StationListKey::Play(i),
                None => StationListKey::Nothing,
            }
        }
    } else if k.key == Key::Char('/') {
        StationListKey::OpenFilter
    } else if k.key == Key::Char('s') {
        StationListKey::Sort(sort_at(sort_index(order) + 1))
    } else if k.key == Key::Char('S') {
        StationListKey::Sort(sort_at(sort_index(order) + 7))
    } else if k.key == Key::Char('*') {
        match sel_station {
            Some(st) => StationListKey::SetStar(star_after(stars_of(stars, st.name@)), st.name),
            None => StationListKey::Nothing,
        }
    } else if k.key == Key::Char('n') {
        StationListKey::Next { jump_from: player.current_station }
    } else if k.key == Key::Char('P') {
        StationListKey::Prev { jump_from: player.current_station }
    } else if k.key == Key::Char('r') {
        StationListKey::Random { jump_from: player.current_station }
    } else if k.key == Key::Char('y') {
        match sel_station {
            Some(st) => StationListKey::CopyToClipboard(st.url),
            None => StationListKey::Nothing,
        }
    } else {
        StationListKey::Nothing
    }
}

/// The outcome of a key, with strings compared by their characters.
pub open spec fn same_outcome(a: StationListKey, b: StationListKey) -> bool {
    match (a, b) {
        (StationListKey::SetStar(n, s), StationListKey::SetStar(m, t)) => n == m && s@ == t@,
        (StationListKey::CopyToClipboard(s), StationListKey::CopyToClipboard(t)) => s@ == t@,
        _ => a == b,
    }
}

/// Decides what a key press does on the station list.
pub fn station_list_key(
    k: KeyPress,
    filter_active: bool,
    selected: Option<usize>,
    stations: &Vec<Station>,
    player: &PlayerView,
    state: &AppState,
    order: SortOrder,
) -> (r: StationListKey)
    ensures
        same_outcome(
            r,
            station_key_spec(k, filter_active, selected, stations@, *player, state.station_stars@, order),
        ),
{
    let step: usize = if k.shift {
        5
    } else {
        1
    };
    if filter_active {
        if k.key == Key::Up {
            StationListKey::SelectUp { rows: 1, hover: false }
        } else if k.key == Key::Down {
            StationListKey::SelectDown { rows: 1, hover: false }
        } else {
            StationListKey::ToFilter
        }
    } else if k.key == Key::Up || k.key == Key::Char('k') {
        StationListKey::SelectUp { rows: step, hover: true }
    } else if k.key == Key::Down || k.key == Key::Char('j') {
        StationListKey::SelectDown { rows: step, hover: true }
    } else if k.key == Key::PageUp {
        StationListKey::SelectUp { rows: 10, hover: false }
    } else if k.key == Key::PageDown {
        StationListKey::SelectDown { rows: 10, hover: false }
    } else if k.key == Key::Home || k.key == Key::Char('g') {
        StationListKey::SelectFirst
    } else if k.key == Key::End || k.key == Key::Char('G') {
        StationListKey::SelectLast
    } else if k.key == Key::Enter {
        match selected {
            Some(i) => {
                let current_is_selected = match player.current_station {
                    Some(c) => c == i,
                    None => false,
                };
                if current_is_selected && (player.status == PlaybackStatus::Playing || player.status
                    == PlaybackStatus::Connecting) {
                    StationListKey::Stop
                } else {
                    StationListKey::Play(i)
                }
            },
            None => StationListKey::Nothing,
        }
    } else if k.key == Key::Char(' ') {
        let station_on = (player.status == PlaybackStatus::Playing || player.status
            == PlaybackStatus::Connecting) && player.current_station.is_some();
        if station_on || player.file_playing {
            StationListKey::TogglePause
        } else {
            match selected {
                Some(i) => StationListKey::Play(i),
                None => StationListKey::Nothing,
            }
        }
    } else if k.key == Key::Char('/') {
        StationListKey::OpenFilter
    } else if k.key == Key::Char('s') {
        StationListKey::Sort(order.next())
    } else if k.key == Key::Char('S') {
        StationListKey::Sort(order.prev())
    } else if k.key == Key::Char('*') {
        match selected {
            Some(i) => if i < stations.len() {
                let cur = state.station_stars_for(stations[i].name.as_str());
                let next = ((cur as u16 + 1) % 4) as u8;
                StationListKey::SetStar(next, stations[i].name.clone())
            } else {
                StationListKey::Nothing
            },
            None => StationListKey::Nothing,
        }
    } else if k.key == Key::Char('n') {
        StationListKey::Next { jump_from: player.current_station }
    } else if k.key == Key::Char('P') {
        StationListKey::Prev { jump_from: player.current_station }
    } else if k.key == Key::Char('r') {
        StationListKey::Random { jump_from: player.current_station }
    } else if k.key == Key::Char('y') {
        match selected {
            Some(i) => if i < stations.len() {
                StationListKey::CopyToClipboard(stations[i].url.clone())
            } else {
                StationListKey::Nothing
            },
            None => StationListKey::Nothing,
        }
    } else {
        StationListKey::Nothing
    }
}

/// The NTS channel whose popup hovering the station at station-list index
/// `idx` shows: 0 for "NTS 1", 1 for "NTS 2", none for any other station
/// or an index past the list.
pub fn nts_hover_action(stations: &Vec<Station>, idx: usize) -> (r: Option<usize>)
    ensures
        r == (if idx < stations@.len() {
            nts_channel_spec(stations@[idx as int].name@)
        } else {
            None
        }),
{
    if idx < stations.len() {
        nts_channel_for(stations[idx].name.as_str())
    } else {
        None
    }
}

// ── rows ────────────────────────────────────────────────────────────────────
/// How many stations belong to a network.
pub open spec fn network_size(stations: Seq<Station>, network: Seq<char>) -> nat
    decreases stations.len(),
{
    if stations.len() == 0 {
        0
    } else {
        network_size(stations.drop_last(), network) + if stations.last().network@ == network {
            1nat
        } else {
            0nat
        }
    }
}

/// Counts the stations of a network.
pub fn count_network(stations: &Vec<Station>, network: &str) -> (r: usize)
    ensures
        r == network_size(stations@, network@),
{
    let n = stations.len();
    let mut c: usize = 0;
    let mut i: usize = 0;
    while i < n
        invariant
            n == stations@.len(),
            0 <= i <= n,
            c == network_size(stations@.take(i as int), network@),
            c <= i,
        decreases n - i,
    {
        proof {
            assert(stations@.take(i + 1).drop_last() =~= stations@.take(i as int));
            assert(stations@.take(i + 1).last() == stations@[i as int]);
        }
        if str_eq(stations[i].network.as_str(), network) {
            c += 1;
        }
        i += 1;
    }
    proof {
        assert(stations@.take(n as int) =~= stations@);
    }
    c
}

/// The star marks before a station's row: one per rating point, at most
/// three, and a space; two spaces when unrated.
pub open spec fn station_star_prefix(stars: u8) -> Seq<char> {
    let n: nat = if stars > 3 {
        3
    } else {
        stars as nat
    };
    if n > 0 {
        Seq::new(n, |i: int| '✹') + " "@
    } else {
        "  "@
    }
}

/// The tags of a station separated by " · ", as spans.
pub open spec fn tag_spans(tags: Seq<String>) -> Seq<Seq<char>>
    decreases tags.len(),
{
    if tags.len() == 0 {
        Seq::<Seq<char>>::empty()
    } else if tags.len() == 1 {
        seq![tags[0]@]
    } else {
        tag_spans(tags.drop_last()) + seq![" · "@, tags.last()@]
    }
}

/// The spans of a station's row: its stars; its icon (the loaded station
/// shows its status, or its pending intent); its network, where other
/// stations share it; its name; its city; and, on the selected row while
/// filtering, its tags.
pub open spec fn station_row_spec(
    st: Station,
    idx: usize,
    is_selected: bool,
    filtering: bool,
    current_station: Option<usize>,
    status: PlaybackStatus,
    station_hint: RenderHint,
    stars: u8,
    network_count: nat,
) -> Seq<Seq<char>> {
    let is_current = current_station == Some(idx);
    let base = if is_current {
        row_icon_spec(status)
    } else {
        " "@
    };
    let icon = if is_current {
        match station_hint {
            RenderHint::PendingHidden => " "@,
            RenderHint::TimedOut => "?"@,
            _ => base,
        }
    } else {
        base
    };
    seq![station_star_prefix(stars), icon, "  "@] + (if st.network@.len() > 0 && network_count > 1 {
        seq![st.network@, " · "@]
    } else {
        Seq::<Seq<char>>::empty()
    }) + seq![st.name@] + (if st.city@.len() > 0 {
        seq!["  "@, st.city@]
    } else {
        Seq::<Seq<char>>::empty()
    }) + (if filtering && is_selected && st.tags@.len() > 0 {
        seq!["  "@] + tag_spans(st.tags@)
    } else {
        Seq::<Seq<char>>::empty()
    })
}

fn push_text(out: &mut Vec<String>, s: &str)
    ensures
        string_views(final(out)@) == string_views(old(out)@).push(s@),
{
    push_string(out, string_of(chars_of(s).as_slice()));
}

fn push_string(out: &mut Vec<String>, s: String)
    ensures
        string_views(final(out)@) == string_views(old(out)@).push(s@),
{
    let ghost before = string_views(out@);
    let ghost v = s@;
    out.push(s);
    proof {
        assert(string_views(out@) =~= before.push(v));
    }
}

fn star_prefix_chars(stars: u8) -> (prefix: Vec<char>)
    ensures
        prefix@ == station_star_prefix(stars),
{
    let n: u8 = if stars > 3 {
        3
    } else {
        stars
    };
    let mut prefix: Vec<char> = Vec::new();
    if n > 0 {
        let mut k: u8 = 0;
        while k < n
            invariant
                0 <= k <= n,
                n <= 3,
                prefix@ == Seq::new(k as nat, |i: int| '✹'),
            decreases n - k,
        {
            prefix.push('✹');
            proof {
                assert(prefix@ =~= Seq::new((k + 1) as nat, |i: int| '✹'));
            }
            k += 1;
        }
        let sp = chars_of(" ");
        append_chars(&mut prefix, sp.as_slice());
    } else {
        prefix = chars_of("  ");
    }
    proof {
        assert(prefix@ =~= station_star_prefix(stars));
    }
    prefix
}

fn push_tags(out: &mut Vec<String>, tags: &Vec<String>)
    requires
        tags@.len() > 0,
    ensures
        string_views(final(out)@) == string_views(old(out)@) + tag_spans(tags@),
{
    let ghost base_tags = string_views(out@);
    let m = tags.len();
    let mut i: usize = 0;
    while i < m
        invariant
            m == tags@.len(),
            m > 0,
            0 <= i <= m,
            string_views(out@) == base_tags + tag_spans(tags@.take(i as int)),
        decreases m - i,
    {
        let ghost before = string_views(out@);
        if i > 0 {
            push_text(out, " · ");
        }
        push_string(out, tags[i].clone());
        proof {
            let tk = tags@.take(i + 1);
            assert(tk.drop_last() =~= tags@.take(i as int));
            assert(tk.last() == tags@[i as int]);
            if i == 0 {
                assert(tag_spans(tk) =~= seq![tags@[0]@]);
                assert(string_views(out@) =~= base_tags + tag_spans(tk));
            } else {
                assert(string_views(out@) =~= before + seq![" · "@, tags@[i as int]@]);
                assert(string_views(out@) =~= base_tags + tag_spans(tk));
            }
        }
        i += 1;
    }
    proof {
        assert(tags@.take(m as int) =~= tags@);
    }
}

/// Builds the spans of a station's row (`idx` is its place in the station
/// list; `network_count` how many stations share its network).
pub fn station_row(
    st: &Station,
    idx: usize,
    is_selected: bool,
    filtering: bool,
    current_station: Option<usize>,
    status: PlaybackStatus,
    station_hint: RenderHint,
    stars: u8,
    network_count: usize,
) -> (r: Vec<String>)
    ensures
        string_views(r@) == station_row_spec(
            *st,
            idx,
            is_selected,
            filtering,
            current_station,
            status,
            station_hint,
            stars,
            network_count as nat,
        ),
{
    let is_current = match current_station {
        Some(c) => c == idx,
        None => false,
    };
    let prefix = star_prefix_chars(stars);
    let base: &str = if is_current {
        row_icon(status)
    } else {
        " "
    };
    let icon: &str = if is_current {
        match station_hint {
            RenderHint::PendingHidden => " ",
            RenderHint::TimedOut => "?",
            _ => base,
        }
    } else {
        base
    };
    let mut out: Vec<String> = Vec::new();
    let ghost start = string_views(out@);
    push_string(&mut out, string_of(prefix.as_slice()));
    push_text(&mut out, icon);
    push_text(&mut out, "  ");
    let ghost head = string_views(out@);
    let network_shown = chars_of(st.network.as_str()).len() > 0 && network_count > 1;
    if network_shown {
        push_string(&mut out, st.network.clone());
        push_text(&mut out, " · ");
    }
    let ghost with_network = string_views(out@);
    push_string(&mut out, st.name.clone());
    let ghost with_name = string_views(out@);
    if chars_of(st.city.as_str()).len() > 0 {
        push_text(&mut out, "  ");
        push_string(&mut out, st.city.clone());
    }
    let ghost with_city = string_views(out@);
    if filtering && is_selected && st.tags.len() > 0 {
        push_text(&mut out, "  ");
        push_tags(&mut out, &st.tags);
    }
    proof {
        let sp = station_row_spec(
            *st,
            idx,
            is_selected,
            filtering,
            current_station,
            status,
            station_hint,
            stars,
            network_count as nat,
        );
        assert(head =~= seq![station_star_prefix(stars), (if is_current {
            match station_hint {
                RenderHint::PendingHidden => " "@,
                RenderHint::TimedOut => "?"@,
                _ => row_icon_spec(status),
            }
        } else {
            " "@
        }), "  "@]);
        assert(string_views(out@) =~= sp);
    }
    out
}

} // verus!
