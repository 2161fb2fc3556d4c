use r4dio::protocol::Station;
use r4dio::ui::app_state::TickerEntry;
use r4dio::ui::recognition::{
    eq_ignore_ascii_case, nts_channel_for, recognition_opening, recognition_start, resolve_icy,
    RecognitionStart,
};

fn station(name: &str, url: &str) -> Station {
    Station {
        name: name.to_string(),
        url: url.to_string(),
        description: String::new(),
        network: String::new(),
        tags: Vec::new(),
        city: String::new(),
        country: String::new(),
    }
}

fn entry(raw: &str, station: Option<&str>) -> TickerEntry {
    TickerEntry {
        raw: raw.to_string(),
        display: raw.to_string(),
        station: station.map(|s| s.to_string()),
        show: None,
        url: None,
        comment: None,
    }
}

#[test]
fn ascii_case_is_ignored_only_for_ascii() {
    assert!(eq_ignore_ascii_case("NTS 1", "nts 1"));
    assert!(!eq_ignore_ascii_case("NTS 1", "nts 12"));
    assert!(!eq_ignore_ascii_case("É", "é"));
    assert_eq!(nts_channel_for("Nts 2"), Some(1));
    assert_eq!(nts_channel_for("NTS 1"), Some(0));
    assert_eq!(nts_channel_for("FIP"), None);
}

#[test]
fn icy_title_falls_back_freshest_first() {
    let history = vec![entry("old", Some("FIP")), entry("newer", Some("FIP")), entry("x", None)];
    let live = Some("live".to_string());
    let known = Some(("FIP".to_string(), "known".to_string()));
    assert_eq!(resolve_icy(&live, Some("FIP"), &known, &history).as_deref(), Some("live"));
    assert_eq!(resolve_icy(&None, Some("FIP"), &known, &history).as_deref(), Some("known"));
    let other = Some(("KEXP".to_string(), "k".to_string()));
    assert_eq!(resolve_icy(&None, Some("FIP"), &other, &history).as_deref(), Some("newer"));
    assert_eq!(resolve_icy(&None, Some("SomaFM"), &other, &history), None);
    assert_eq!(resolve_icy(&None, None, &known, &history), None);
}

#[test]
fn recognition_needs_a_station_or_a_title() {
    let h: Vec<TickerEntry> = Vec::new();
    assert!(matches!(recognition_start(None, &None, &None, &h), RecognitionStart::NothingPlaying));
    let st = station("NTS 2", "https://stream/2");
    match recognition_start(Some(&st), &None, &None, &h) {
        RecognitionStart::Start { station, stream_url, icy, nts_ch } => {
            assert_eq!(station.as_deref(), Some("NTS 2"));
            assert_eq!(stream_url.as_deref(), Some("https://stream/2"));
            assert_eq!(icy, None);
            assert_eq!(nts_ch, Some(1));
        }
        RecognitionStart::NothingPlaying => panic!("a station plays"),
    }
    match recognition_start(None, &Some("t".to_string()), &None, &h) {
        RecognitionStart::Start { station, icy, nts_ch, .. } => {
            assert_eq!(station, None);
            assert_eq!(icy.as_deref(), Some("t"));
            assert_eq!(nts_ch, None);
        }
        RecognitionStart::NothingPlaying => panic!("a title is known"),
    }
}

#[test]
fn opening_row_and_icy_patch() {
    let (row, patch) = recognition_opening(
        "abc".to_string(),
        "2024-01-02T03:04:05".to_string(),
        Some("FIP".to_string()),
        Some("A - B".to_string()),
    );
    assert_eq!(row.job_id, "abc");
    assert_eq!(row.timestamp.as_deref(), Some("2024-01-02T03:04:05"));
    assert_eq!(row.station.as_deref(), Some("FIP"));
    assert_eq!(row.icy_info.as_deref(), Some("A - B"));
    assert!(row.vibra_rec.is_none() && row.nts_show.is_none());
    let p = patch.expect("a title gives a patch");
    assert_eq!(p.icy_info.as_deref(), Some("A - B"));
    assert!(p.nts_show.is_none() && p.vibra_rec.is_none());
    let (_, none) = recognition_opening("j".to_string(), "t".to_string(), None, None);
    assert!(none.is_none());
}
