use r4dio::nts::{nts_show_text, unescape_html, NtsShowFields};
use r4dio::protocol::{MpvHealth, Station};
use r4dio::ui::state_sync::{follow_selection, health_toast, ToastKind};
use r4dio::songs::{vds_append_text, RecognitionResult, VDS_HEADER};
use r4dio::state::{is_http_url, station_sources, StationSource};
use r4dio::ui::action::{current_station_name, next_star_rating, Workspace};
use r4dio::ui::app_state::TickerEntry;
use r4dio::ui::app_state::{FileChapter, FileMetadata};
use r4dio::ui::file_list::{clamp_selection, file_search_text, filter_by_text};
use r4dio::ui::tickers::{
    icy_log_entries, icy_visible_indices, record_icy_title, songs_visible_indices, source_badge_str,
    ICY_HISTORY_CAP,
};

fn ticker(display: &str, station: Option<&str>) -> TickerEntry {
    TickerEntry {
        raw: display.to_string(),
        display: display.to_string(),
        station: station.map(|s| s.to_string()),
        show: None,
        url: None,
        comment: None,
    }
}

#[test]
fn icy_ticker_filter_newest_first() {
    let h = vec![ticker("Old Song", Some("NTS 1")), ticker("Jazz Tune", None), ticker("New Song", Some("FIP"))];
    assert_eq!(icy_visible_indices(&h, ""), vec![2, 1, 0]);
    assert_eq!(icy_visible_indices(&h, "song"), vec![2, 0]);
    assert_eq!(icy_visible_indices(&h, "song nts"), vec![0]);
    assert!(icy_visible_indices(&h, "rock").is_empty());
}

#[test]
fn songs_ticker_filter_searches_all_fields() {
    let a = RecognitionResult { vibra_rec: Some("Artist \u{2013} Track".into()), ..Default::default() };
    let b = RecognitionResult {
        icy_info: Some("Live".into()),
        nts_show: Some("Morning Show".into()),
        station: Some("NTS 2".into()),
        ..Default::default()
    };
    let h = vec![a, b];
    assert_eq!(songs_visible_indices(&h, ""), vec![1, 0]);
    assert_eq!(songs_visible_indices(&h, "MORNING nts"), vec![1]);
    assert_eq!(songs_visible_indices(&h, "track"), vec![0]);
}

#[test]
fn badges() {
    assert_eq!(source_badge_str(&RecognitionResult::default()), "\u{2026}");
    let one = RecognitionResult { icy_info: Some("x".into()), ..Default::default() };
    assert_eq!(source_badge_str(&one), "icy");
    let all = RecognitionResult {
        vibra_rec: Some("v".into()),
        nts_show: Some("n".into()),
        icy_info: Some("i".into()),
        ..Default::default()
    };
    assert_eq!(source_badge_str(&all), "vibra (nts icy)");
}

#[test]
fn icy_log_keeps_last_lines_trimmed() {
    let entries = icy_log_entries("  a  \nb\n");
    assert_eq!(entries.len(), 2);
    assert_eq!(entries[0].raw, "a");
    assert_eq!(entries[0].display, "a");
    assert!(entries[0].station.is_none());
    let many: String = (0..250).map(|i| format!("line {}\n", i)).collect();
    let entries = icy_log_entries(&many);
    assert_eq!(entries.len(), 200);
    assert_eq!(entries[0].raw, "line 50");
    assert_eq!(entries[199].raw, "line 249");
}

#[test]
fn nts_show_cleanup() {
    assert_eq!(unescape_html("Tom &amp; Jerry &lt;3 &quot;hi&quot; it&#39;s &amp;lt;"), "Tom & Jerry <3 \"hi\" it's <");
    let t = nts_show_text(NtsShowFields {
        broadcast_title: Some("Breakfast (R)".into()),
        description: Some("  Music &amp; talk \n".into()),
        location_short: Some("LDN".into()),
        location_long: None,
        genres: vec!["Jazz".into()],
        moods: vec![],
    });
    assert_eq!(t.broadcast_title, "Breakfast (R)");
    assert_eq!(t.description, "Music & talk");
    assert_eq!(t.location_short, "LDN");
    assert_eq!(t.location_long, "");
    assert_eq!(t.genres, vec!["Jazz".to_string()]);
    assert!(t.is_replay);
    let u = nts_show_text(NtsShowFields {
        broadcast_title: None,
        description: None,
        location_short: None,
        location_long: None,
        genres: vec![],
        moods: vec![],
    });
    assert_eq!(u.broadcast_title, "Unknown Show");
    assert_eq!(u.description, "");
    assert!(!u.is_replay);
}

#[test]
fn station_source_order() {
    assert!(is_http_url("https://x/list.m3u"));
    assert!(is_http_url("http://x"));
    assert!(!is_http_url("list.m3u"));
    assert_eq!(
        station_sources("/c/stations.toml", Some("/opt/r"), "https://x/l.m3u"),
        vec![
            StationSource::Toml("/c/stations.toml".into()),
            StationSource::Toml("/opt/r/stations.toml".into()),
            StationSource::Toml("stations.toml".into()),
            StationSource::Url("https://x/l.m3u".into()),
            StationSource::M3uFile("jamf_radios.m3u".into()),
            StationSource::M3uFile("radios.m3u".into()),
        ]
    );
    assert_eq!(station_sources("a.toml", None, "mine.m3u")[2], StationSource::M3uFile("mine.m3u".into()));
}

#[test]
fn vds_append_writes_header_once() {
    let r = RecognitionResult { job_id: "j".into(), ..Default::default() };
    assert_eq!(vds_append_text(true, &r), "j\t\t\t\t\t\t\t\n");
    assert_eq!(vds_append_text(false, &r), format!("{}j\t\t\t\t\t\t\t\n", VDS_HEADER));
}

#[test]
fn file_index_and_filter() {
    let meta = FileMetadata {
        title: Some("Night Drive".into()),
        artist: None,
        album: Some("Album".into()),
        date: None,
        description: None,
        genre: None,
        duration_secs: Some(3600),
        codec: None,
        bitrate_kbps: None,
        sample_rate_hz: None,
        channels: None,
        chapters: vec![FileChapter { title: "Part ONE".into(), start_secs: 0, end_secs: 60 }],
        tracklist: vec!["01 Intro".into()],
    };
    assert_eq!(
        file_search_text("Mix.MP3", "/m/Mix.MP3", Some(&meta)),
        "mix.mp3 /m/mix.mp3 night drive album 01 intro part one"
    );
    assert_eq!(file_search_text("A", "/B", None), "a /b");
    let texts = vec!["night drive".to_string(), "".to_string(), "day drive".to_string()];
    assert_eq!(filter_by_text(&texts, "DRIVE"), vec![0, 2]);
    assert_eq!(filter_by_text(&texts, "night drive"), vec![0]);
    assert_eq!(filter_by_text(&texts, ""), vec![0, 1, 2]);
    assert_eq!(clamp_selection(5, 3), 2);
    assert_eq!(clamp_selection(1, 3), 1);
    assert_eq!(clamp_selection(0, 0), 0);
}

#[test]
fn small_ui_state() {
    assert_eq!(Workspace::from_session_label("FiLeS"), Workspace::Files);
    assert_eq!(Workspace::from_session_label("radio"), Workspace::Radio);
    assert_eq!(Workspace::from_session_label("file"), Workspace::Radio);
    assert_eq!(next_star_rating(0), 1);
    assert_eq!(next_star_rating(3), 0);
    let st = vec![Station::named("A".into(), "u".into())];
    assert_eq!(current_station_name(&st, Some(0)).as_deref(), Some("A"));
    assert_eq!(current_station_name(&st, Some(1)), None);
    assert_eq!(current_station_name(&st, None), None);
}

#[test]
fn icy_history_records_new_titles_only() {
    let mut h: Vec<TickerEntry> = Vec::new();
    assert!(!record_icy_title(&mut h, "", "10:00", None));
    assert!(record_icy_title(&mut h, "A - B", "10:00", Some("FIP".into())));
    assert_eq!(h.len(), 1);
    assert_eq!(h[0].raw, "A - B");
    assert_eq!(h[0].display, "10:00  A - B");
    assert_eq!(h[0].station.as_deref(), Some("FIP"));
    assert!(!record_icy_title(&mut h, "A - B", "10:01", None));
    assert_eq!(h.len(), 1);
    for i in 0..ICY_HISTORY_CAP {
        assert!(record_icy_title(&mut h, &format!("t{}", i), "x", None));
    }
    assert_eq!(h.len(), ICY_HISTORY_CAP);
    assert_eq!(h[0].raw, "t0");
    assert_eq!(h[ICY_HISTORY_CAP - 1].raw, format!("t{}", ICY_HISTORY_CAP - 1));
}

#[test]
fn health_notifications() {
    let t = health_toast(&MpvHealth::Running, &MpvHealth::Dead).unwrap();
    assert_eq!((t.kind, t.message.as_str()), (ToastKind::Error, "mpv process died"));
    let t = health_toast(&MpvHealth::Dead, &MpvHealth::Restarting).unwrap();
    assert_eq!((t.kind, t.message.as_str()), (ToastKind::Warning, "mpv restarting..."));
    let t = health_toast(&MpvHealth::Dead, &MpvHealth::Running).unwrap();
    assert_eq!((t.kind, t.message.as_str()), (ToastKind::Success, "mpv recovered"));
    assert!(health_toast(&MpvHealth::Starting, &MpvHealth::Running).is_none());
    assert!(health_toast(&MpvHealth::Absent, &MpvHealth::Running).is_none());
    let t = health_toast(&MpvHealth::Running, &MpvHealth::Degraded("slow ipc".into())).unwrap();
    assert_eq!((t.kind, t.message.as_str()), (ToastKind::Warning, "mpv degraded: slow ipc"));
    assert!(health_toast(&MpvHealth::Degraded("a".into()), &MpvHealth::Degraded("a".into())).is_none());
    assert!(health_toast(&MpvHealth::Dead, &MpvHealth::Dead).is_none());
    assert!(health_toast(&MpvHealth::Running, &MpvHealth::Starting).is_none());
}

#[test]
fn selection_follows_jumps() {
    assert_eq!(follow_selection(Some(Some(1)), Some(2), Some(1)), (Some(2), true));
    assert_eq!(follow_selection(Some(Some(1)), Some(1), Some(1)), (None, false));
    assert_eq!(follow_selection(Some(None), None, None), (None, false));
    assert_eq!(follow_selection(None, Some(4), Some(3)), (Some(4), false));
    assert_eq!(follow_selection(None, Some(3), Some(3)), (None, false));
}
