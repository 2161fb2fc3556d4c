use r4dio::protocol::{MpvHealth, PlaybackStatus};
use r4dio::state::{parse_m3u_from_str, PlaybackState};

#[test]
fn m3u_names_come_from_extinf() {
    let list = "#EXTM3U\n#EXTINF:-1, Radio One \nhttp://one\n\n# comment\nhttp://two\r\n#EXTINF:no comma\nhttp://three\n";
    let st = parse_m3u_from_str(list);
    let got: Vec<(&str, &str)> = st.iter().map(|s| (s.name.as_str(), s.url.as_str())).collect();
    assert_eq!(
        got,
        vec![("Radio One", "http://one"), ("http://two", "http://two"), ("http://three", "http://three")]
    );
}

#[test]
fn m3u_empty() {
    assert!(parse_m3u_from_str("").is_empty());
    assert!(parse_m3u_from_str("#EXTM3U\n#EXTINF:1,x\n").is_empty());
}

#[test]
fn next_and_prev_wrap() {
    let mut s = PlaybackState::new(3, Some(2));
    s.next_station();
    assert_eq!(s.current_station, Some(0));
    assert!(s.is_playing);
    s.prev_station();
    assert_eq!(s.current_station, Some(2));
    assert_eq!(s.rev, 3);
    let mut t = PlaybackState::new(3, None);
    t.prev_station();
    assert_eq!(t.current_station, Some(2));
    let mut u = PlaybackState::new(3, None);
    u.next_station();
    assert_eq!(u.current_station, Some(1));
}

#[test]
fn empty_list_changes_nothing() {
    let mut s = PlaybackState::new(0, None);
    s.next_station();
    s.prev_station();
    s.random_station();
    assert_eq!(s.rev, 1);
    assert_eq!(s.current_station, None);
    assert!(!s.is_playing);
}

#[test]
fn random_station_stays_in_range() {
    let mut s = PlaybackState::new(4, None);
    for _ in 0..50 {
        s.random_station();
        assert!(s.current_station.unwrap() < 4);
    }
}

#[test]
fn playing_and_stopping() {
    let mut s = PlaybackState::new(2, None);
    assert_eq!(s.rev, 1);
    assert_eq!(s.playback_status, PlaybackStatus::Idle);
    s.set_icy_title(Some("t".into()));
    s.set_playing(1);
    assert_eq!(s.current_station, Some(1));
    assert_eq!(s.playback_status, PlaybackStatus::Connecting);
    assert_eq!(s.icy_title, None);
    s.set_playback_status(PlaybackStatus::Paused);
    assert!(s.is_playing && s.is_paused);
    s.set_playing_file("/f.mp3".into());
    assert_eq!(s.current_station, None);
    assert_eq!(s.current_file.as_deref(), Some("/f.mp3"));
    s.set_stopped();
    assert!(!s.is_playing);
    assert_eq!(s.current_file, None);
    assert_eq!(s.playback_status, PlaybackStatus::Idle);
    s.set_mpv_health(MpvHealth::Dead);
    assert!(matches!(s.mpv_health, MpvHealth::Dead));
}

#[test]
fn icy_title_changes_are_stored_and_announced() {
    let mut t = r4dio::playback::IcyTracker::new();
    let c = t.on_title(Some("Artist - Song".to_string()));
    assert!(c.store && c.announce);
    assert_eq!(t.observed.as_deref(), Some("Artist - Song"));
    // the same title again changes nothing
    let c = t.on_title(Some("Artist - Song".to_string()));
    assert!(!c.store && !c.announce);
    // a blank or dash-only title counts as none
    let c = t.on_title(Some(" - ".to_string()));
    assert!(c.store && c.announce);
    assert!(t.observed.is_none() && t.announced.is_none());
    let c = t.on_title(None);
    assert!(!c.store && !c.announce);
    t.on_title(Some("X".to_string()));
    let c = t.on_end_file();
    assert!(c.store && c.announce);
    assert!(t.observed.is_none() && t.announced.is_none());
    let c = t.on_end_file();
    assert!(!c.store && !c.announce);
}

#[test]
fn station_load_order() {
    let o = r4dio::playback::load_order("http://radio/live", "127.0.0.1", 8989, 3);
    assert_eq!(o, vec!["http://127.0.0.1:8989/stream/3", "http://radio/live"]);
    let o = r4dio::playback::load_order("http://radio/Live.M3U8", "127.0.0.1", 8989, 3);
    assert_eq!(o, vec!["http://radio/Live.M3U8"]);
}
