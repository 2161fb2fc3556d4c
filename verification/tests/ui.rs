use r4dio::protocol::{PlaybackStatus, Station};
use r4dio::ui::app_state::LocalFileEntry;
use r4dio::ui::file_list::{sort_files, FileSortOrder};
use r4dio::ui::focus::{ComponentId, FocusRing};
use r4dio::ui::app_state::TickerEntry;
use r4dio::ui::header::{show_title, shown_icon, Header};
use r4dio::ui::help_overlay::HelpOverlay;
use r4dio::ui::action::Workspace;
use r4dio::ui::intent::{IntentState, RenderHint};
use r4dio::ui::keys::{global_key, Key, KeyOutcome, KeyPress};
use r4dio::ui::station_list::{sort_stations, SortOrder};
use r4dio::ui::vu_meter::{default_style, MeterChars, MeterStyle};

#[test]
fn focus_ring_cycles_both_ways() {
    let mut r = FocusRing::new(vec![ComponentId::StationList, ComponentId::IcyTicker, ComponentId::LogPanel]);
    assert_eq!(r.current(), Some(ComponentId::StationList));
    assert_eq!(r.next(), Some(ComponentId::IcyTicker));
    assert_eq!(r.next(), Some(ComponentId::LogPanel));
    assert_eq!(r.next(), Some(ComponentId::StationList));
    assert_eq!(r.prev(), Some(ComponentId::LogPanel));
    assert_eq!(r.prev(), Some(ComponentId::IcyTicker));
}

#[test]
fn focus_ring_set_and_positions() {
    let mut r = FocusRing::new(vec![ComponentId::FileList, ComponentId::FileMeta]);
    r.set(ComponentId::FileMeta);
    assert!(r.is_focused(ComponentId::FileMeta));
    r.set(ComponentId::ScopePanel);
    assert!(r.is_focused(ComponentId::FileMeta));
    assert_eq!(r.set_by_position(0), Some(ComponentId::FileList));
    assert_eq!(r.set_by_position(5), None);
    assert_eq!(r.current(), Some(ComponentId::FileList));
}

#[test]
fn focus_ring_keeps_focus_across_item_changes() {
    let mut r = FocusRing::new(vec![ComponentId::StationList, ComponentId::NtsPanel]);
    r.set(ComponentId::NtsPanel);
    r.set_items(vec![ComponentId::FileList, ComponentId::IcyTicker, ComponentId::NtsPanel]);
    assert_eq!(r.current(), Some(ComponentId::NtsPanel));
    r.set_items(vec![ComponentId::HelpOverlay]);
    assert_eq!(r.current(), Some(ComponentId::HelpOverlay));
}

#[test]
fn empty_focus_ring() {
    let mut r = FocusRing::default();
    assert_eq!(r.current(), None);
    assert_eq!(r.next(), None);
    assert_eq!(r.prev(), None);
    assert!(!r.is_focused(ComponentId::StationList));
}

#[test]
fn intent_confirmed_by_echo() {
    let mut s = IntentState::new(1u32);
    assert!(s.is_confirmed());
    s.set_intent(2);
    assert!(s.is_pending());
    assert_eq!(*s.intended(), 2);
    assert_eq!(*s.confirmed(), 1);
    assert!(!s.on_confirmed(3));
    assert!(s.is_pending());
    assert_eq!(*s.confirmed(), 3);
    assert!(s.on_confirmed(2));
    assert!(s.is_confirmed());
    assert_eq!(*s.confirmed(), 2);
}

#[test]
fn intent_same_value_is_quiet() {
    let mut s = IntentState::new(7u32);
    s.set_intent(7);
    assert!(s.is_confirmed());
    assert!(!s.tick());
    assert_eq!(s.render_state(), RenderHint::Normal);
}

#[test]
fn intent_times_out_and_accepts_daemon_value() {
    let mut s = IntentState::new(false);
    s.set_intent(true);
    assert!(!s.tick_after(2999));
    assert_eq!(s.render_state_after(0), RenderHint::PendingVisible);
    assert_eq!(s.render_state_after(400), RenderHint::PendingHidden);
    assert_eq!(s.render_state_after(800), RenderHint::PendingVisible);
    assert!(s.tick_after(3000));
    assert!(s.is_timed_out());
    assert_eq!(s.render_state_after(0), RenderHint::TimedOut);
    // the state changes from timed out to confirmed, which is reported
    assert!(s.on_confirmed(false));
    assert!(s.is_confirmed());
    assert_eq!(*s.intended(), false);
}

#[test]
fn station_sort_orders_cycle() {
    let mut o = SortOrder::default();
    assert_eq!(o, SortOrder::Default);
    let mut labels = Vec::new();
    for _ in 0..8 {
        labels.push(o.label());
        assert_eq!(o.next().prev(), o);
        assert_eq!(SortOrder::from_label(o.label()), o);
        o = o.next();
    }
    assert_eq!(o, SortOrder::Default);
    assert_eq!(
        labels,
        vec!["default", "network", "location", "name", "stars", "recent", "stars+recent", "recent+stars"]
    );
    assert_eq!(SortOrder::from_label("bogus"), SortOrder::Default);
    assert_eq!(SortOrder::Default.prev(), SortOrder::RecentStars);
}

#[test]
fn file_sort_orders_cycle() {
    let mut o = FileSortOrder::default();
    assert_eq!(o, FileSortOrder::Added);
    for _ in 0..6 {
        assert_eq!(o.next().prev(), o);
        assert_eq!(FileSortOrder::from_label(o.label()), o);
        o = o.next();
    }
    assert_eq!(o, FileSortOrder::Added);
    assert_eq!(FileSortOrder::Name.label(), "name");
    assert_eq!(FileSortOrder::from_label("default"), FileSortOrder::Added);
    assert_eq!(FileSortOrder::Added.prev(), FileSortOrder::RecentStars);
}

fn station(name: &str, network: &str, city: &str, country: &str) -> Station {
    let mut s = Station::named(name.to_string(), format!("http://{}", name));
    s.network = network.to_string();
    s.city = city.to_string();
    s.country = country.to_string();
    s
}

#[test]
fn station_sorting_by_each_order() {
    let st = vec![
        station("b", "Net", "Paris", "FR"),
        station("A", "net", "Lyon", "FR"),
        station("c", "Alpha", "Berlin", "DE"),
    ];
    let stars = vec![0u8, 3, 3];
    let recent = vec![10i64, 0, 5];
    assert_eq!(sort_stations(&st, SortOrder::Default, &stars, &recent), vec![0, 1, 2]);
    assert_eq!(sort_stations(&st, SortOrder::Name, &stars, &recent), vec![1, 0, 2]);
    assert_eq!(sort_stations(&st, SortOrder::Network, &stars, &recent), vec![2, 1, 0]);
    assert_eq!(sort_stations(&st, SortOrder::Location, &stars, &recent), vec![2, 1, 0]);
    assert_eq!(sort_stations(&st, SortOrder::Stars, &stars, &recent), vec![1, 2, 0]);
    assert_eq!(sort_stations(&st, SortOrder::Recent, &stars, &recent), vec![0, 2, 1]);
    assert_eq!(sort_stations(&st, SortOrder::StarsRecent, &stars, &recent), vec![2, 1, 0]);
    assert_eq!(sort_stations(&st, SortOrder::RecentStars, &stars, &recent), vec![0, 2, 1]);
}

#[test]
fn station_sorting_is_stable() {
    let st = vec![station("x", "", "", ""), station("X", "", "", ""), station("a", "", "", "")];
    let zeros = vec![0u8; 3];
    let none = vec![0i64; 3];
    assert_eq!(sort_stations(&st, SortOrder::Name, &zeros, &none), vec![2, 0, 1]);
    assert_eq!(sort_stations(&st, SortOrder::StarsRecent, &zeros, &none), vec![0, 1, 2]);
}

fn file(name: &str, modified: Option<u64>) -> LocalFileEntry {
    LocalFileEntry { path: format!("/m/{}", name), name: name.to_string(), size_bytes: 1, modified }
}

#[test]
fn file_sorting() {
    let fs = vec![file("b.mp3", Some(5)), file("a.mp3", None), file("C.mp3", Some(9))];
    let stars = vec![1u8, 1, 0];
    let recent = vec![0i64, 7, 0];
    assert_eq!(sort_files(&fs, FileSortOrder::Added, &stars, &recent), vec![2, 0, 1]);
    assert_eq!(sort_files(&fs, FileSortOrder::Name, &stars, &recent), vec![1, 0, 2]);
    assert_eq!(sort_files(&fs, FileSortOrder::Stars, &stars, &recent), vec![0, 1, 2]);
    assert_eq!(sort_files(&fs, FileSortOrder::Recent, &stars, &recent), vec![1, 2, 0]);
    assert_eq!(sort_files(&fs, FileSortOrder::StarsRecent, &stars, &recent), vec![1, 0, 2]);
    assert_eq!(sort_files(&fs, FileSortOrder::RecentStars, &stars, &recent), vec![1, 0, 2]);
    assert!(sort_files(&Vec::new(), FileSortOrder::Name, &Vec::new(), &Vec::new()).is_empty());
}

#[test]
fn header_meter_styles() {
    let mut h = Header::new();
    assert_eq!(h.meter_style(), MeterStyle::Analog);
    assert_eq!(h.cycle_meter_style(), MeterStyle::Studio);
    assert_eq!(h.cycle_meter_style(), MeterStyle::Led);
    assert_eq!(h.cycle_meter_style(), MeterStyle::Analog);
    let h = Header::default().with_meter_style(MeterStyle::Led);
    assert_eq!(h.meter_style(), MeterStyle::Led);
    assert_eq!(default_style(), MeterStyle::Led);
    assert_eq!(MeterStyle::default(), MeterStyle::Led);
}

#[test]
fn meter_character_sets() {
    let led = MeterChars::for_style(MeterStyle::Led);
    assert_eq!(led.bg, '▏');
    assert_eq!(led.peak, '▐');
    assert_eq!(led.segment_gap, Some(' '));
    let analog = MeterChars::for_style(MeterStyle::Analog);
    assert_eq!(analog.fractional, vec!['▁', '▂', '▃', '▄', '▅', '▆', '▇']);
    assert_eq!(analog.trail.len(), 5);
    let studio = MeterChars::for_style(MeterStyle::Studio);
    assert_eq!(studio.bg, '░');
    assert_eq!(studio.segment_gap, None);
    assert_eq!(studio.segment_width, 1);
}

#[test]
fn help_overlay_visibility() {
    let mut h = HelpOverlay::new();
    assert!(!h.visible);
    h.toggle();
    assert!(h.visible);
    h.toggle();
    assert!(!h.visible);
    h.show();
    assert!(h.visible);
    h.dismiss();
    assert!(!h.visible);
}

#[test]
fn header_icon_and_title() {
    assert_eq!(shown_icon(PlaybackStatus::Playing, RenderHint::Normal, RenderHint::Normal), "\u{25b6}");
    assert_eq!(shown_icon(PlaybackStatus::Idle, RenderHint::Normal, RenderHint::PendingVisible), "\u{25a0}");
    assert_eq!(shown_icon(PlaybackStatus::Paused, RenderHint::PendingHidden, RenderHint::TimedOut), " ");
    assert_eq!(shown_icon(PlaybackStatus::Error, RenderHint::Normal, RenderHint::TimedOut), "?");

    let hist = vec![
        TickerEntry { raw: "old".into(), display: String::new(), station: Some("FIP".into()), show: None, url: None, comment: None },
        TickerEntry { raw: "other".into(), display: String::new(), station: Some("KEXP".into()), show: None, url: None, comment: None },
    ];
    let none: Option<String> = None;
    assert_eq!(
        show_title("NTS 1", Some("Show".into()), None, Some("icy".into()), None, &hist, None).as_deref(),
        Some("Show")
    );
    assert_eq!(
        show_title("NTS 2", Some("Show".into()), None, Some("icy".into()), None, &hist, None).as_deref(),
        Some("icy")
    );
    assert_eq!(
        show_title("FIP", None, None, Some(String::new()), Some(("FIP".into(), "known".into())), &hist, None).as_deref(),
        Some("known")
    );
    assert_eq!(
        show_title("FIP", None, None, None, Some(("X".into(), "known".into())), &hist, None).as_deref(),
        Some("old")
    );
    assert_eq!(show_title("Radio", None, None, none.clone(), None, &hist, Some("polled".into())).as_deref(), Some("polled"));
    assert_eq!(show_title("Radio", None, None, none, None, &hist, Some(String::new())), None);
}

fn press(key: Key) -> KeyPress {
    KeyPress { key, no_modifiers: true, ctrl_only: false, shift: false }
}

#[test]
fn global_key_bindings() {
    let w = Workspace::Radio;
    assert_eq!(global_key(press(Key::Char('q')), false, false, w), KeyOutcome::Quit);
    assert_eq!(global_key(press(Key::Char('q')), true, false, w), KeyOutcome::ToFocused);
    let ctrl_c = KeyPress { key: Key::Char('c'), no_modifiers: false, ctrl_only: true, shift: false };
    assert_eq!(global_key(ctrl_c, true, true, w), KeyOutcome::Quit);
    assert_eq!(global_key(press(Key::Char('c')), false, false, w), KeyOutcome::ToggleCollapse);
    assert_eq!(global_key(press(Key::Char('?')), false, true, w), KeyOutcome::ToggleHelp);
    assert_eq!(global_key(press(Key::Char('x')), false, true, w), KeyOutcome::HelpOverlay);
    assert_eq!(global_key(press(Key::Tab), true, false, w), KeyOutcome::FocusNext { close_filter: true });
    assert_eq!(global_key(press(Key::BackTab), false, false, w), KeyOutcome::FocusPrev { close_filter: false });
    assert_eq!(global_key(press(Key::Char(' ')), false, false, w), KeyOutcome::TogglePause);
    assert_eq!(global_key(press(Key::Char(' ')), true, false, w), KeyOutcome::ToFocused);
    assert_eq!(global_key(press(Key::Char('P')), false, false, w), KeyOutcome::Prev);
    assert_eq!(global_key(press(Key::Char('p')), false, false, w), KeyOutcome::TogglePolling);
    assert_eq!(global_key(press(Key::Char('n')), false, false, w), KeyOutcome::Next);
    assert_eq!(global_key(press(Key::Right), false, false, w), KeyOutcome::VolumeUp);
    assert_eq!(global_key(press(Key::Char('-')), false, false, w), KeyOutcome::VolumeDown);
    let shift_comma = KeyPress { key: Key::Char(','), no_modifiers: false, ctrl_only: false, shift: true };
    assert_eq!(global_key(shift_comma, false, false, w), KeyOutcome::SeekBack { long: true });
    assert_eq!(global_key(press(Key::Char('.')), false, false, w), KeyOutcome::SeekForward { long: false });
    assert_eq!(global_key(press(Key::Char('f')), false, false, w), KeyOutcome::SwitchWorkspace(Workspace::Files));
    assert_eq!(global_key(press(Key::Char('f')), false, false, Workspace::Files), KeyOutcome::SwitchWorkspace(Workspace::Radio));
    assert_eq!(global_key(press(Key::Char('3')), false, false, w), KeyOutcome::FocusNth(2));
    assert_eq!(global_key(press(Key::Char('@')), false, false, w), KeyOutcome::ToggleNts(1));
    assert_eq!(global_key(press(Key::Char('I')), false, false, w), KeyOutcome::RecognizeSong);
    assert_eq!(global_key(press(Key::Char('z')), false, false, w), KeyOutcome::ToFocused);
    assert_eq!(global_key(press(Key::Other), false, false, w), KeyOutcome::ToFocused);
}

#[test]
fn loaded_files_newest_first() {
    let fs = vec![file("b.mp3", Some(5)), file("a.mp3", None), file("C.mp3", Some(9)), file("B.mp3", Some(5))];
    assert_eq!(r4dio::ui::file_list::newest_files_first(&fs), vec![2, 3, 0, 1]);
}
