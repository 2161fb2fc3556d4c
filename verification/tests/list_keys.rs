use r4dio::protocol::{PlaybackStatus, Station};
use r4dio::ui::action::StarContext;
use r4dio::ui::app_state::{AppState, FileMetadata, LocalFileEntry};
use r4dio::ui::intent::RenderHint;
use r4dio::ui::file_list::{file_list_key, file_row, FileListKey, FileSortOrder};
use r4dio::ui::keys::{Key, KeyPress};
use r4dio::ui::station_list::{
    count_network, nts_hover_action, station_list_key, station_row, PlayerView, SortOrder, StationListKey,
};

fn press(key: Key) -> KeyPress {
    KeyPress { key, no_modifiers: true, ctrl_only: false, shift: false }
}

fn shifted(key: Key) -> KeyPress {
    KeyPress { key, no_modifiers: false, ctrl_only: false, shift: true }
}

fn stations() -> Vec<Station> {
    vec![
        Station::named("FIP".to_string(), "http://fip".to_string()),
        Station::named("NTS 1".to_string(), "http://nts1".to_string()),
        Station::named("NTS 2".to_string(), "http://nts2".to_string()),
    ]
}

fn player(current: Option<usize>, status: PlaybackStatus) -> PlayerView {
    PlayerView { current_station: current, status, file_playing: false }
}

#[test]
fn station_list_enter_plays_or_stops() {
    let st = stations();
    let s = AppState::new();
    let idle = player(None, PlaybackStatus::Idle);
    let k = |key: Key, sel: Option<usize>, p: &PlayerView| station_list_key(press(key), false, sel, &st, p, &s, SortOrder::Default);
    assert!(matches!(k(Key::Enter, Some(1), &idle), StationListKey::Play(1)));
    let playing = player(Some(1), PlaybackStatus::Playing);
    assert!(matches!(k(Key::Enter, Some(1), &playing), StationListKey::Stop));
    assert!(matches!(k(Key::Enter, Some(0), &playing), StationListKey::Play(0)));
    let paused = player(Some(1), PlaybackStatus::Paused);
    assert!(matches!(k(Key::Enter, Some(1), &paused), StationListKey::Play(1)));
    let connecting = player(Some(1), PlaybackStatus::Connecting);
    assert!(matches!(k(Key::Enter, Some(1), &connecting), StationListKey::Stop));
    assert!(matches!(k(Key::Enter, None, &idle), StationListKey::Nothing));
}

#[test]
fn station_list_space_and_skips() {
    let st = stations();
    let s = AppState::new();
    let idle = player(None, PlaybackStatus::Idle);
    let playing = player(Some(2), PlaybackStatus::Playing);
    let file = PlayerView { current_station: None, status: PlaybackStatus::Playing, file_playing: true };
    let k = |key: Key, sel: Option<usize>, p: &PlayerView| station_list_key(press(key), false, sel, &st, p, &s, SortOrder::Default);
    assert!(matches!(k(Key::Char(' '), Some(0), &idle), StationListKey::Play(0)));
    assert!(matches!(k(Key::Char(' '), Some(0), &playing), StationListKey::TogglePause));
    assert!(matches!(k(Key::Char(' '), Some(0), &file), StationListKey::TogglePause));
    assert!(matches!(k(Key::Char('n'), Some(0), &playing), StationListKey::Next { jump_from: Some(2) }));
    assert!(matches!(k(Key::Char('P'), None, &idle), StationListKey::Prev { jump_from: None }));
    assert!(matches!(k(Key::Char('p'), None, &idle), StationListKey::Nothing));
    assert!(matches!(k(Key::Char('r'), None, &playing), StationListKey::Random { jump_from: Some(2) }));
    match k(Key::Char('y'), Some(2), &idle) {
        StationListKey::CopyToClipboard(u) => assert_eq!(u, "http://nts2"),
        other => panic!("unexpected {:?}", other),
    }
    assert!(matches!(k(Key::Char('/'), None, &idle), StationListKey::OpenFilter));
    assert!(matches!(k(Key::Char('x'), None, &idle), StationListKey::Nothing));
}

#[test]
fn station_list_navigation_and_sort() {
    let st = stations();
    let s = AppState::new();
    let idle = player(None, PlaybackStatus::Idle);
    let r = station_list_key(press(Key::Down), false, Some(0), &st, &idle, &s, SortOrder::Default);
    assert!(matches!(r, StationListKey::SelectDown { rows: 1, hover: true }));
    let r = station_list_key(shifted(Key::Up), false, Some(0), &st, &idle, &s, SortOrder::Default);
    assert!(matches!(r, StationListKey::SelectUp { rows: 5, hover: true }));
    let r = station_list_key(press(Key::PageDown), false, Some(0), &st, &idle, &s, SortOrder::Default);
    assert!(matches!(r, StationListKey::SelectDown { rows: 10, hover: false }));
    let r = station_list_key(press(Key::Char('G')), false, Some(0), &st, &idle, &s, SortOrder::Default);
    assert!(matches!(r, StationListKey::SelectLast));
    let r = station_list_key(press(Key::Char('s')), false, None, &st, &idle, &s, SortOrder::RecentStars);
    assert!(matches!(r, StationListKey::Sort(SortOrder::Default)));
    let r = station_list_key(press(Key::Char('S')), false, None, &st, &idle, &s, SortOrder::Default);
    assert!(matches!(r, StationListKey::Sort(SortOrder::RecentStars)));
    // the open filter takes letters; the arrows still move one row
    let r = station_list_key(press(Key::Char('s')), true, None, &st, &idle, &s, SortOrder::Default);
    assert!(matches!(r, StationListKey::ToFilter));
    let r = station_list_key(shifted(Key::Up), true, None, &st, &idle, &s, SortOrder::Default);
    assert!(matches!(r, StationListKey::SelectUp { rows: 1, hover: false }));
}

#[test]
fn station_list_star_cycles() {
    let st = stations();
    let mut s = AppState::new();
    let idle = player(None, PlaybackStatus::Idle);
    for expected in [1u8, 2, 3, 0] {
        match station_list_key(press(Key::Char('*')), false, Some(0), &st, &idle, &s, SortOrder::Default) {
            StationListKey::SetStar(n, name) => {
                assert_eq!((n, name.as_str()), (expected, "FIP"));
                s.set_star(n, StarContext::Station(name));
            }
            other => panic!("unexpected {:?}", other),
        }
    }
    assert_eq!(s.station_stars_for("FIP"), 0);
    assert!(matches!(
        station_list_key(press(Key::Char('*')), false, Some(9), &st, &idle, &s, SortOrder::Default),
        StationListKey::Nothing
    ));
}

#[test]
fn nts_hover_by_station() {
    let st = stations();
    assert_eq!(nts_hover_action(&st, 0), None);
    assert_eq!(nts_hover_action(&st, 1), Some(0));
    assert_eq!(nts_hover_action(&st, 2), Some(1));
    assert_eq!(nts_hover_action(&st, 3), None);
}

#[test]
fn file_list_keys() {
    let f = LocalFileEntry { path: "/m/a.mp3".to_string(), name: "a.mp3".to_string(), size_bytes: 3, modified: None };
    let mut s = AppState::new();
    let k = |key: Key, sel: Option<&LocalFileEntry>, st: Option<usize>, cf: Option<&str>, s: &AppState| {
        file_list_key(press(key), false, sel, st, cf, s, FileSortOrder::Added)
    };
    match k(Key::Enter, Some(&f), None, None, &s) {
        FileListKey::PlayFromSaved(p) => assert_eq!(p, "/m/a.mp3"),
        other => panic!("unexpected {:?}", other),
    }
    assert!(matches!(k(Key::Enter, Some(&f), None, Some("/m/a.mp3"), &s), FileListKey::Stop));
    assert!(matches!(k(Key::Enter, Some(&f), None, Some("/m/b.mp3"), &s), FileListKey::PlayFromSaved(_)));
    assert!(matches!(k(Key::Char(' '), Some(&f), Some(0), None, &s), FileListKey::TogglePause));
    assert!(matches!(k(Key::Char(' '), None, None, None, &s), FileListKey::Nothing));
    assert!(matches!(k(Key::Char('R'), None, None, None, &s), FileListKey::RandomBack));
    s.set_star(3, StarContext::File("/m/a.mp3".to_string()));
    match k(Key::Char('*'), Some(&f), None, None, &s) {
        FileListKey::SetStar(n, p) => assert_eq!((n, p.as_str()), (0, "/m/a.mp3")),
        other => panic!("unexpected {:?}", other),
    }
    match k(Key::Char('y'), Some(&f), None, None, &s) {
        FileListKey::CopyToClipboard(p) => assert_eq!(p, "/m/a.mp3"),
        other => panic!("unexpected {:?}", other),
    }
    let r = file_list_key(press(Key::Char('s')), false, None, None, None, &s, FileSortOrder::RecentStars);
    assert!(matches!(r, FileListKey::Sort(FileSortOrder::Added)));
    let r = file_list_key(shifted(Key::Down), false, None, None, None, &s, FileSortOrder::Added);
    assert!(matches!(r, FileListKey::SelectDown(5)));
    let r = file_list_key(press(Key::Char('x')), true, None, None, None, &s, FileSortOrder::Added);
    assert!(matches!(r, FileListKey::ToFilter));
}

#[test]
fn station_rows() {
    let mut st = vec![
        Station::named("FIP".to_string(), "u".to_string()),
        Station::named("NTS 1".to_string(), "u1".to_string()),
        Station::named("NTS 2".to_string(), "u2".to_string()),
    ];
    st[1].network = "NTS".to_string();
    st[2].network = "NTS".to_string();
    st[1].city = "London".to_string();
    st[1].tags = vec!["eclectic".to_string(), "live".to_string()];
    assert_eq!(count_network(&st, "NTS"), 2);
    assert_eq!(count_network(&st, ""), 1);
    let row = station_row(&st[1], 1, true, true, Some(1), PlaybackStatus::Playing, RenderHint::Normal, 2, 2);
    assert_eq!(row.concat(), "✹✹ ▶  NTS · NTS 1  London  eclectic · live");
    let row = station_row(&st[1], 1, false, true, Some(1), PlaybackStatus::Connecting, RenderHint::TimedOut, 0, 2);
    assert_eq!(row.concat(), "  ?  NTS · NTS 1  London");
    let row = station_row(&st[0], 0, false, false, Some(1), PlaybackStatus::Playing, RenderHint::Normal, 7, 1);
    assert_eq!(row.concat(), "✹✹✹    FIP");
}

#[test]
fn file_rows() {
    let f = LocalFileEntry { path: "/m/a.mp3".to_string(), name: "a.mp3".to_string(), size_bytes: 3, modified: None };
    let row = file_row(&f, Some("/m/a.mp3"), PlaybackStatus::Paused, RenderHint::Normal, 1, None);
    assert_eq!(row.concat(), "★ ⏸  a.mp3  --:--");
    let meta = FileMetadata {
        title: None,
        artist: None,
        album: None,
        date: None,
        description: None,
        genre: Some("Jazz".to_string()),
        duration_secs: Some(125),
        codec: None,
        bitrate_kbps: None,
        sample_rate_hz: None,
        channels: None,
        chapters: Vec::new(),
        tracklist: Vec::new(),
    };
    let row = file_row(&f, None, PlaybackStatus::Playing, RenderHint::Normal, 0, Some(&meta));
    assert_eq!(row.concat(), "   a.mp3  Jazz  02:05");
    let row = file_row(&f, Some("/m/a.mp3"), PlaybackStatus::Playing, RenderHint::PendingHidden, 0, Some(&meta));
    assert_eq!(row.concat(), "   a.mp3  Jazz  02:05");
}
