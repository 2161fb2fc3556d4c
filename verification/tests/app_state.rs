use r4dio::config::config_path;
use r4dio::nts::NtsShowText;
use r4dio::platform::{
    config_dir, ffprobe_binary_names, mpv_search_order, search_order, vibra_binary_names,
};
use r4dio::protocol::Station;
use r4dio::songs::{RecognitionResult, VdsPatch};
use r4dio::ui::action::StarContext;
use r4dio::ui::app_state::{AppState, LocalFileEntry, NameMap, NtsChannel, NtsShow, ICY_HISTORY_CAP};
use r4dio::ui::file_list::{sort_files_by_state, FileSortOrder};
use r4dio::ui::nts_panel::{word_wrap, NtsPanel, COMPACT_UPCOMING};
use r4dio::ui::station_list::{sort_stations_by_state, SortOrder};
use r4dio::ui::tickers::IcyTicker;

#[test]
fn name_map_insert_replace_remove() {
    let mut m: NameMap<u8> = NameMap::new();
    assert_eq!(m.get("FIP"), None);
    m.insert("FIP".to_string(), 2);
    m.insert("NTS 1".to_string(), 1);
    assert_eq!(m.get("FIP"), Some(2));
    m.insert("FIP".to_string(), 3);
    assert_eq!(m.get("FIP"), Some(3));
    assert_eq!(m.pairs().len(), 2);
    m.remove("FIP");
    assert_eq!(m.get("FIP"), None);
    assert_eq!(m.get("NTS 1"), Some(1));
    m.remove("absent");
    assert_eq!(m.pairs().len(), 1);
}

#[test]
fn name_map_from_pairs_later_wins() {
    let m = NameMap::from_pairs(vec![("a".to_string(), 5i64), ("b".to_string(), 6), ("a".to_string(), 7)]);
    assert_eq!(m.get("a"), Some(7));
    assert_eq!(m.get("b"), Some(6));
    assert_eq!(m.get("c"), None);
}

#[test]
fn star_rating_reads_back_and_zero_removes() {
    let mut s = AppState::new();
    assert_eq!(s.station_stars_for("FIP"), 0);
    s.set_star(2, StarContext::Station("FIP".to_string()));
    assert_eq!(s.station_stars_for("FIP"), 2);
    assert_eq!(s.file_stars_for("FIP"), 0);
    s.set_star(3, StarContext::File("/m/a.mp3".to_string()));
    assert_eq!(s.file_stars_for("/m/a.mp3"), 3);
    s.set_star(0, StarContext::Station("FIP".to_string()));
    assert_eq!(s.station_stars_for("FIP"), 0);
    assert_eq!(s.file_stars_for("/m/a.mp3"), 3);
    assert_eq!(s.station_stars.pairs().len(), 0);
}

#[test]
fn play_history_is_recorded() {
    let mut s = AppState::new();
    assert_eq!(s.station_played_at("FIP"), 0);
    s.record_station_played("FIP".to_string(), 100);
    s.record_station_played("FIP".to_string(), 200);
    s.record_file_played("/m/a.mp3".to_string(), 50);
    assert_eq!(s.station_played_at("FIP"), 200);
    assert_eq!(s.file_played_at("/m/a.mp3"), 50);
    assert_eq!(s.file_played_at("FIP"), 0);
}

#[test]
fn sorting_uses_the_state_ratings() {
    let st = vec![
        Station::named("b".to_string(), "http://b".to_string()),
        Station::named("a".to_string(), "http://a".to_string()),
        Station::named("c".to_string(), "http://c".to_string()),
    ];
    let mut s = AppState::new();
    s.set_star(1, StarContext::Station("c".to_string()));
    s.set_star(3, StarContext::Station("b".to_string()));
    s.record_station_played("a".to_string(), 9);
    assert_eq!(sort_stations_by_state(&st, SortOrder::Stars, &s), vec![0, 2, 1]);
    assert_eq!(sort_stations_by_state(&st, SortOrder::Recent, &s), vec![1, 0, 2]);
    assert_eq!(sort_stations_by_state(&st, SortOrder::Default, &s), vec![0, 1, 2]);

    let fs = vec![
        LocalFileEntry { path: "/m/x".to_string(), name: "x".to_string(), size_bytes: 1, modified: Some(1) },
        LocalFileEntry { path: "/m/y".to_string(), name: "y".to_string(), size_bytes: 1, modified: Some(2) },
    ];
    s.set_star(2, StarContext::File("/m/x".to_string()));
    assert_eq!(sort_files_by_state(&fs, FileSortOrder::Stars, &s), vec![0, 1]);
    assert_eq!(sort_files_by_state(&fs, FileSortOrder::Added, &s), vec![1, 0]);
}

fn show(title: &str, genres: &[&str], description: &str) -> NtsShow {
    NtsShow {
        text: NtsShowText {
            broadcast_title: title.to_string(),
            location_short: String::new(),
            location_long: String::new(),
            description: description.to_string(),
            genres: genres.iter().map(|g| g.to_string()).collect(),
            moods: Vec::new(),
            is_replay: false,
        },
        start: (9, 0),
        end: (11, 30),
    }
}

#[test]
fn compact_popup_height() {
    let p = NtsPanel::new(0);
    assert_eq!(p.number_key, Some('2'));
    assert_eq!(NtsPanel::new(1).number_key, Some('3'));
    // Inner width 50: columns 29 and 20; title wraps at 25, the rest at 28.
    let ch = NtsChannel { now: show("Morning Show", &["Jazz", "Soul"], "one two"), upcoming: Vec::new() };
    // title 1 + time 1 + genres 1 + blank 1 + description 1 = 5; right = 2.
    assert_eq!(p.compact_content_height(&ch, 50), 5);
    let many: Vec<NtsShow> = (0..12).map(|i| show(&format!("S{}", i), &[], "")).collect();
    let ch2 = NtsChannel { now: show("T", &[], ""), upcoming: many };
    // right column: heading + at most eight shows.
    assert_eq!(p.compact_content_height(&ch2, 50), 1 + COMPACT_UPCOMING as u16);
    let ch3 = NtsChannel { now: show("T", &[], ""), upcoming: vec![show("U", &[], "")] };
    assert_eq!(p.compact_content_height(&ch3, 50), 2);
    let long = "word ".repeat(30);
    let ch4 = NtsChannel { now: show(long.trim(), &[], ""), upcoming: Vec::new() };
    let rows = word_wrap(long.trim(), 25).len() as u16;
    assert_eq!(p.compact_content_height(&ch4, 50), rows + 1);
}

#[test]
fn compact_popup_height_for_state() {
    let mut s = AppState::new();
    let p1 = NtsPanel::new(0);
    let p2 = NtsPanel::new(1);
    assert_eq!(p1.compact_content_height_for_state(&s, 52), 1);
    s.nts_ch2 = Some(NtsChannel { now: show("T", &[], ""), upcoming: Vec::new() });
    assert_eq!(p1.compact_content_height_for_state(&s, 52), 1);
    assert_eq!(p2.compact_content_height_for_state(&s, 52), 2);
}

#[test]
fn ticker_selection_moves_and_stays_in_view() {
    let mut t = IcyTicker::new();
    t.select_down(3, 10);
    assert_eq!(t.selected, 3);
    t.select_down(20, 10);
    assert_eq!(t.selected, 9);
    t.select_up(4);
    assert_eq!(t.selected, 5);
    t.select_up(40);
    assert_eq!(t.selected, 0);
    t.select_down(1, 0);
    assert_eq!(t.selected, 0);

    t.selected = 12;
    t.keep_selected_in_view(8, 3);
    assert_eq!(t.selected, 7);
    assert_eq!(t.scroll_offset, 5);
    t.selected = 2;
    t.keep_selected_in_view(8, 3);
    assert_eq!(t.scroll_offset, 2);
    t.keep_selected_in_view(0, 3);
    assert_eq!((t.selected, t.scroll_offset), (2, 2));

    t.click_row(1, 8);
    assert_eq!(t.selected, 3);
    t.click_row(9, 8);
    assert_eq!(t.selected, 3);
}

#[test]
fn helper_search_order() {
    let names = ffprobe_binary_names();
    let all = search_order(&names, None, false, Some("/opt/app"), None, Some("/usr/bin:/bin"));
    assert_eq!(
        all,
        vec!["/opt/app/ffprobe", "/opt/app/external/ffprobe", "/usr/bin/ffprobe", "/bin/ffprobe"]
    );
    let system = search_order(&names, Some("/x/ffprobe"), true, Some("/opt/app"), None, Some("/usr/bin"));
    assert_eq!(system, vec!["/x/ffprobe", "/usr/bin/ffprobe"]);
    let vibra = search_order(&vibra_binary_names(), None, false, None, Some("/h/gh/vibra/build/cli"), None);
    assert_eq!(vibra, vec!["/h/gh/vibra/build/cli/vibra"]);
    assert_eq!(mpv_search_order(false, Some("/opt/app"), Some("/usr/bin")), vec!["/opt/app/mpv", "/usr/bin/mpv"]);
    assert_eq!(mpv_search_order(true, Some("/opt/app"), None), Vec::<String>::new());
}

#[test]
fn config_file_location() {
    let p = config_path();
    assert!(p.ends_with("/config.toml"));
    assert!(p.starts_with(&config_dir()));
}

#[test]
fn nts_updates_and_errors() {
    let mut s = AppState::new();
    let toast = s.on_nts_error(1, "timeout".to_string());
    assert_eq!(toast, "NTS 2 fetch error: timeout");
    assert_eq!(s.nts_ch2_error.as_deref(), Some("timeout"));
    assert!(s.nts_ch1_error.is_none());
    s.on_nts_updated(1, NtsChannel { now: show("Live", &[], ""), upcoming: Vec::new() });
    assert!(s.nts_ch2_error.is_none());
    assert_eq!(s.nts_ch2.as_ref().unwrap().now.text.broadcast_title, "Live");
    assert!(s.nts_ch1.is_none());
    assert_eq!(s.on_nts_error(0, "x".to_string()), "NTS 1 fetch error: x");
}

#[test]
fn nts_city_follows_the_show() {
    let mut st = vec![
        Station::named("FIP".to_string(), "u".to_string()),
        Station::named("NTS 2".to_string(), "u2".to_string()),
        Station::named("NTS 2".to_string(), "u3".to_string()),
    ];
    r4dio::ui::app_state::set_nts_city(&mut st, 1, "");
    assert_eq!(st[1].city, "");
    r4dio::ui::app_state::set_nts_city(&mut st, 1, "Los Angeles");
    assert_eq!(st[1].city, "Los Angeles");
    assert_eq!(st[1].url, "u2");
    assert_eq!(st[2].city, "");
    r4dio::ui::app_state::set_nts_city(&mut st, 0, "London");
    assert!(st.iter().all(|s| s.city != "London"));
}

#[test]
fn recognition_history_updates() {
    let mut s = AppState::new();
    let job = |id: &str| RecognitionResult { job_id: id.to_string(), ..Default::default() };
    s.on_recognition_started(job("a"));
    s.on_recognition_started(job("b"));
    s.on_recognition_started(job("a"));
    let patch = VdsPatch {
        icy_info: Some("Artist - Song".to_string()),
        nts_show: None,
        nts_tag: None,
        nts_url: Some("https://nts.live/x".to_string()),
        vibra_rec: None,
    };
    assert!(s.on_recognition_patch("a", &patch));
    assert_eq!(s.songs_history[2].icy_info.as_deref(), Some("Artist - Song"));
    assert_eq!(s.songs_history[2].nts_url.as_deref(), Some("https://nts.live/x"));
    assert!(s.songs_history[0].icy_info.is_none());
    assert!(!s.on_recognition_patch("zzz", &patch));
    for i in 0..600 {
        s.on_recognition_started(job(&format!("j{}", i)));
    }
    assert_eq!(s.songs_history.len(), r4dio::ui::app_state::SONGS_HISTORY_CAP);
    assert_eq!(s.songs_history.last().unwrap().job_id, "j599");
}

#[test]
fn station_lookup_and_kept_cities() {
    let prev = vec![named_in("NTS 1", "London"), named_in("NTS 2", "LA"), named_in("FIP", "Paris")];
    let mut next = vec![named_in("FIP", ""), named_in("NTS 1", ""), named_in("NTS 2", "")];
    assert_eq!(r4dio::ui::app_state::station_index_by_name(&next, "NTS 2"), Some(2));
    assert_eq!(r4dio::ui::app_state::station_index_by_name(&next, "BBC"), None);
    r4dio::ui::app_state::keep_city(&prev, &mut next, "NTS 1");
    r4dio::ui::app_state::keep_city(&prev, &mut next, "NTS 2");
    r4dio::ui::app_state::keep_city(&prev, &mut next, "BBC");
    assert_eq!(next[1].city, "London");
    assert_eq!(next[2].city, "LA");
    assert_eq!(next[0].city, "");
    r4dio::ui::app_state::set_city(&mut next, "FIP", "Paris");
    assert_eq!(next[0].city, "Paris");
}

fn named_in(name: &str, city: &str) -> Station {
    let mut s = Station::named(name.to_string(), format!("http://{}", name));
    s.city = city.to_string();
    s
}

#[test]
fn icy_titles_join_the_ticker_once() {
    let mut s = AppState::new();
    // an empty title on an empty ticker is no news
    assert_eq!(s.on_icy_updated(Some(String::new()), "10:00", None, 1), None);
    assert_eq!(s.on_icy_updated(None, "10:00", None, 1), None);
    assert!(s.icy_history.is_empty());

    let logged = s.on_icy_updated(Some("Artist - Song".to_string()), "10:01", Some("FIP".to_string()), 100);
    assert_eq!(logged.as_deref(), Some("10:01  Artist - Song"));
    assert_eq!(s.icy_history.len(), 1);
    let e = &s.icy_history[0];
    assert_eq!(e.raw, "Artist - Song");
    assert_eq!(e.display, "10:01  Artist - Song");
    assert_eq!(e.station.as_deref(), Some("FIP"));
    assert_eq!(s.station_played_at("FIP"), 100);

    // the same title again changes nothing
    assert_eq!(s.on_icy_updated(Some("Artist - Song".to_string()), "10:02", Some("FIP".to_string()), 200), None);
    assert_eq!(s.icy_history.len(), 1);
    assert_eq!(s.station_played_at("FIP"), 100);

    // without a station nothing counts as played
    assert!(s.on_icy_updated(Some("Other".to_string()), "10:03", None, 300).is_some());
    assert_eq!(s.icy_history[1].station, None);
    assert_eq!(s.station_played_at("FIP"), 100);
}

#[test]
fn icy_ticker_keeps_the_newest_entries() {
    let mut s = AppState::new();
    for i in 0..(ICY_HISTORY_CAP + 5) {
        s.on_icy_updated(Some(format!("t{}", i)), "x", None, 0);
    }
    assert_eq!(s.icy_history.len(), ICY_HISTORY_CAP);
    assert_eq!(s.icy_history[0].raw, "t5");
    assert_eq!(s.icy_history[ICY_HISTORY_CAP - 1].raw, format!("t{}", ICY_HISTORY_CAP + 4));
}
