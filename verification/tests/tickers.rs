use r4dio::songs::RecognitionResult;
use r4dio::ui::app_state::TickerEntry;
use r4dio::ui::keys::{Key, Mouse};
use r4dio::ui::tickers::{source_color, song_row, FilterAction, IcyTicker, SongsTicker, SourceTint, TickerAction};

fn entry(raw: &str, station: Option<&str>) -> TickerEntry {
    TickerEntry {
        raw: raw.to_string(),
        display: raw.to_string(),
        station: station.map(|s| s.to_string()),
        show: None,
        url: None,
        comment: None,
    }
}

fn song(icy: &str, url: Option<&str>) -> RecognitionResult {
    let mut r = RecognitionResult::default();
    r.icy_info = Some(icy.to_string());
    r.nts_url = url.map(|u| u.to_string());
    r
}

#[test]
fn icy_ticker_keys_navigate_and_copy() {
    let history = vec![entry("A - One", None), entry("", None), entry("C - Three", Some("FIP"))];
    let mut t = IcyTicker::new();
    t.refresh(&history, 10);
    assert_eq!(t.last_visible, vec![2, 1, 0]);
    assert!(t.handle_key(Key::Down, false, &history).is_empty());
    assert_eq!(t.selected, 1);
    assert!(t.handle_key(Key::Char('j'), false, &history).is_empty());
    assert_eq!(t.selected, 2);
    t.handle_key(Key::Down, false, &history);
    assert_eq!(t.selected, 2);
    match t.handle_key(Key::Char('y'), false, &history).as_slice() {
        [TickerAction::CopyToClipboard(s)] => assert_eq!(s, "A - One"),
        other => panic!("unexpected {:?}", other),
    }
    t.handle_key(Key::Char('k'), false, &history);
    // the entry with an empty title copies nothing
    assert!(t.handle_key(Key::Char('y'), false, &history).is_empty());
    t.handle_key(Key::Home, false, &history);
    assert_eq!((t.selected, t.scroll_offset), (0, 0));
    t.handle_key(Key::End, false, &history);
    assert_eq!(t.selected, 2);
    t.handle_key(Key::PageUp, false, &history);
    assert_eq!(t.selected, 0);
    t.handle_key(Key::PageDown, false, &history);
    assert_eq!(t.selected, 2);
    assert!(matches!(t.handle_key(Key::Char('/'), false, &history).as_slice(), [TickerAction::OpenFilter]));
    assert!(t.handle_key(Key::Char('x'), false, &history).is_empty());
}

#[test]
fn icy_ticker_open_filter_takes_keys() {
    let history = vec![entry("A", None), entry("B", None)];
    let mut t = IcyTicker::new();
    t.refresh(&history, 5);
    // letters go to the filter input; the arrows still move
    assert!(t.handle_key(Key::Char('j'), true, &history).is_empty());
    assert_eq!(t.selected, 0);
    t.handle_key(Key::Down, true, &history);
    assert_eq!(t.selected, 1);
    t.handle_key(Key::Home, true, &history);
    assert_eq!(t.selected, 1);
    assert!(t.apply_filter_action(FilterAction::Changed("b".to_string())).is_empty());
    assert_eq!((t.filter.as_str(), t.selected, t.scroll_offset), ("b", 0, 0));
    t.refresh(&history, 5);
    assert_eq!(t.last_visible, vec![1]);
    assert!(t.apply_filter_action(FilterAction::Confirmed).is_empty());
    assert_eq!(t.filter, "b");
    assert!(matches!(t.apply_filter_action(FilterAction::Cancelled).as_slice(), [TickerAction::CloseFilter]));
    assert_eq!(t.filter, "");
    t.filter = "x".to_string();
    t.selected = 4;
    t.clear_filter();
    assert_eq!((t.filter.as_str(), t.selected), ("", 0));
}

#[test]
fn icy_ticker_mouse() {
    let history: Vec<TickerEntry> = (0..6).map(|i| entry(&format!("T{}", i), None)).collect();
    let mut t = IcyTicker::new();
    t.refresh(&history, 3);
    t.handle_mouse(Mouse::ScrollDown, 0);
    t.handle_mouse(Mouse::ScrollDown, 0);
    assert_eq!(t.selected, 2);
    t.handle_mouse(Mouse::ScrollUp, 0);
    assert_eq!(t.selected, 1);
    // border on row 4, header on row 5: row 7 is the third list row
    t.handle_mouse(Mouse::LeftDown { row: 7 }, 4);
    assert_eq!(t.selected, 2);
    t.handle_mouse(Mouse::LeftDown { row: 40 }, 4);
    assert_eq!(t.selected, 2);
    t.selected = 5;
    t.refresh(&history, 3);
    assert_eq!((t.selected, t.scroll_offset), (5, 3));
}

#[test]
fn songs_ticker_keys() {
    let history = vec![song("First", Some("https://nts.live/a")), song("Second", None)];
    let mut t = SongsTicker::new();
    assert_eq!(t.number_key, Some('3'));
    t.refresh(&history, 4);
    assert_eq!(t.last_visible, vec![1, 0]);
    assert!(matches!(t.handle_key(Key::Char('i'), false, &history).as_slice(), [TickerAction::RecognizeSong]));
    match t.handle_key(Key::Char('y'), false, &history).as_slice() {
        [TickerAction::CopyToClipboard(s)] => assert_eq!(s, &history[1].display()),
        other => panic!("unexpected {:?}", other),
    }
    assert!(t.handle_key(Key::Enter, false, &history).is_empty());
    t.handle_key(Key::Down, false, &history);
    match t.handle_key(Key::Enter, false, &history).as_slice() {
        [TickerAction::CopyToClipboard(s)] => assert_eq!(s, "https://nts.live/a"),
        other => panic!("unexpected {:?}", other),
    }
    match t.handle_key(Key::Char('d'), false, &history).as_slice() {
        [TickerAction::Download(s)] => assert_eq!(s, "https://nts.live/a"),
        other => panic!("unexpected {:?}", other),
    }
    t.handle_mouse(Mouse::LeftDown { row: 10 }, 10);
    assert_eq!(t.selected, 0);
    t.apply_filter_action(FilterAction::Changed("second".to_string()));
    t.refresh(&history, 4);
    assert_eq!(t.last_visible, vec![1]);
    t.clear_filter();
    assert_eq!(t.filter, "");
}

#[test]
fn song_rows_and_tints() {
    let mut r = RecognitionResult::default();
    assert_eq!(source_color(&r), SourceTint::Muted);
    assert_eq!(song_row(&r, None).concat(), " \u{2026}      ?");
    r.icy_info = Some("Artist - Song".to_string());
    r.station = Some("FIP".to_string());
    assert_eq!(source_color(&r), SourceTint::Icy);
    let row = song_row(&r, Some("09:30"));
    assert_eq!(row[0], " icy    ");
    assert_eq!(row[1], "09:30 ");
    assert_eq!(row[3], "  FIP");
    r.nts_show = Some("Breakfast".to_string());
    r.nts_url = Some("https://nts.live/x".to_string());
    assert_eq!(source_color(&r), SourceTint::Nts);
    let row = song_row(&r, None);
    assert_eq!(row[0], " nts (icy) ");
    assert_eq!(&row[row.len() - 3..], &[" · ".to_string(), "Breakfast".to_string(), " ↗".to_string()]);
    r.vibra_rec = Some("X - Y".to_string());
    assert_eq!(source_color(&r), SourceTint::Vibra);
}
