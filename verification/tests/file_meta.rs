use r4dio::timefmt::fmt_clock;
use r4dio::ui::app_state::{FileChapter, FileMetadata};
use r4dio::ui::file_meta::{collapse_summary, filtered_lines, meta_lines, FileMeta};
use r4dio::ui::file_probe::{file_metadata_from, pick_tag, ProbeChapter, ProbeReport};
use r4dio::ui::keys::{Key, Mouse};
use r4dio::ui::tickers::{FilterAction, TickerAction};

fn meta() -> FileMetadata {
    FileMetadata {
        title: Some("Late Set".into()),
        artist: Some("DJ K".into()),
        album: None,
        date: None,
        description: None,
        genre: Some("House".into()),
        duration_secs: Some(3725),
        codec: Some("opus".into()),
        bitrate_kbps: Some(160),
        sample_rate_hz: Some(48000),
        channels: Some(2),
        chapters: vec![FileChapter { title: "Opening".into(), start_secs: 0, end_secs: 65 }],
        tracklist: Vec::new(),
    }
}

fn texts(lines: &[Vec<String>]) -> Vec<String> {
    lines.iter().map(|l| l.concat()).collect()
}

#[test]
fn clock_formatting() {
    assert_eq!(fmt_clock(0), "00:00");
    assert_eq!(fmt_clock(65), "01:05");
    assert_eq!(fmt_clock(3725), "01:02:05");
    assert_eq!(fmt_clock(360000), "100:00:00");
}

#[test]
fn metadata_lines() {
    assert_eq!(texts(&meta_lines(None, None)), vec!["  no file selected"]);
    assert_eq!(texts(&meta_lines(Some("/m/set.opus"), None)), vec!["  set.opus", "  loading metadata…"]);
    let m = meta();
    assert_eq!(
        texts(&meta_lines(Some("/m/set.opus"), Some(&m))),
        vec![
            "  set.opus",
            "  House",
            "  01:02:05  ·  opus  ·  160k  ·  48000Hz  ·  2ch",
            "",
            " tracklist",
            "  00:00-01:05  Opening",
        ]
    );
    let mut bare = meta();
    bare.genre = None;
    bare.duration_secs = None;
    bare.codec = None;
    bare.bitrate_kbps = None;
    bare.sample_rate_hz = None;
    bare.channels = None;
    bare.chapters = Vec::new();
    assert_eq!(
        texts(&meta_lines(Some("/m/x.mp3"), Some(&bare))),
        vec!["  x.mp3", "", " tracklist", "  (no tracklist)"]
    );
    bare.tracklist = (0..250).map(|i| format!("track {}", i)).collect();
    assert_eq!(meta_lines(Some("/m/x.mp3"), Some(&bare)).len(), 3 + 200);
}

#[test]
fn metadata_filter_by_span() {
    let m = meta();
    let lines = meta_lines(Some("/m/set.opus"), Some(&m));
    assert_eq!(filtered_lines(lines.clone(), "").len(), 6);
    assert_eq!(texts(&filtered_lines(lines.clone(), "OPEN")), vec!["  00:00-01:05  Opening"]);
    // a query across two spans does not match
    assert!(filtered_lines(lines, "  Open").is_empty());
}

#[test]
fn metadata_pane_state() {
    let mut p = FileMeta::new();
    p.handle_key(Key::PageDown, false);
    p.handle_key(Key::Char('j'), false);
    assert_eq!(p.scroll, 11);
    assert!(p.handle_key(Key::Char('j'), true).is_empty());
    assert_eq!(p.scroll, 11);
    assert!(matches!(p.handle_key(Key::Char('/'), false).as_slice(), [TickerAction::OpenFilter]));
    p.handle_mouse(Mouse::ScrollUp);
    assert_eq!(p.scroll, 10);
    p.clamp_scroll(12, 5);
    assert_eq!(p.scroll, 7);
    p.handle_key(Key::End, false);
    p.clamp_scroll(3, 5);
    assert_eq!(p.scroll, 0);
    p.apply_filter_action(FilterAction::Changed("q".into()));
    assert_eq!(p.filter, "q");
    assert!(matches!(p.apply_filter_action(FilterAction::Cancelled).as_slice(), [TickerAction::CloseFilter]));
    assert_eq!(p.filter, "");
    p.scroll = 4;
    p.clear_filter();
    assert_eq!(p.scroll, 0);
}

#[test]
fn metadata_summary() {
    let mut m = meta();
    assert_eq!(collapse_summary(Some(&m)), Some("Late Set — DJ K".to_string()));
    m.artist = None;
    assert_eq!(collapse_summary(Some(&m)), Some("Late Set".to_string()));
    m.title = None;
    assert_eq!(collapse_summary(Some(&m)), None);
    assert_eq!(collapse_summary(None), None);
}

fn pairs(v: &[(&str, &str)]) -> Vec<(String, String)> {
    v.iter().map(|(k, v)| (k.to_string(), v.to_string())).collect()
}

#[test]
fn probe_tags_pick_the_first_set_key() {
    let tags = pairs(&[("TITLE", " Night Set "), ("comment", "  "), ("DESCRIPTION", "00:00 Intro\nnotes\n01:30 Next one"), ("year", "2021")]);
    assert_eq!(pick_tag(&tags, &vec!["title"]), Some("Night Set".to_string()));
    assert_eq!(pick_tag(&tags, &vec!["artist"]), None);
    assert_eq!(pick_tag(&tags, &vec!["date", "year"]), Some("2021".to_string()));
    // a blank comment is passed over
    assert_eq!(
        pick_tag(&tags, &vec!["description", "comment", "DESCRIPTION", "COMMENT"]),
        Some("00:00 Intro\nnotes\n01:30 Next one".to_string())
    );
    // a later entry for a key wins
    let dup = pairs(&[("genre", "a"), ("genre", "b")]);
    assert_eq!(pick_tag(&dup, &vec!["genre"]), Some("b".to_string()));
}

#[test]
fn probe_report_to_metadata() {
    let report = ProbeReport {
        tags: pairs(&[("title", "Set"), ("comment", "00:00 Intro\n12:00 Outro")]),
        duration_secs: Some(1800),
        bit_rate: Some(160999),
        format_name: Some("ogg".to_string()),
        chapters: vec![
            ProbeChapter { title: Some(" One ".to_string()), start_secs: 0, end_secs: 60 },
            ProbeChapter { title: Some("  ".to_string()), start_secs: 60, end_secs: 90 },
            ProbeChapter { title: None, start_secs: 90, end_secs: 120 },
        ],
    };
    let m = file_metadata_from(&report);
    assert_eq!(m.title.as_deref(), Some("Set"));
    assert_eq!(m.description.as_deref(), Some("00:00 Intro\n12:00 Outro"));
    assert_eq!(m.tracklist, vec!["00:00 Intro", "12:00 Outro"]);
    assert_eq!(m.bitrate_kbps, Some(160));
    assert_eq!(m.codec.as_deref(), Some("ogg"));
    assert_eq!(m.duration_secs, Some(1800));
    assert_eq!(m.chapters.len(), 1);
    assert_eq!(m.chapters[0].title, "One");
    assert!(m.sample_rate_hz.is_none() && m.channels.is_none() && m.artist.is_none());
}
