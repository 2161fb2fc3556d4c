use r4dio::ui::action::StarContext;
use r4dio::ui::app_state::AppState;
use r4dio::ui::client::{ClientAction, ClientState, DaemonRequest};
use r4dio::ui::focus::{ComponentId, FocusRing};
use r4dio::ui::intent::IntentState;
use r4dio::ui::log_panel::LogPanel;

fn client() -> ClientState {
    ClientState {
        current_station: Some(2),
        is_playing: true,
        intent_station: IntentState::new(Some(2)),
        intent_pause: IntentState::new(true),
        jump_from_station: None,
        focus: FocusRing::new(vec![ComponentId::StationList, ComponentId::IcyTicker, ComponentId::LogPanel]),
        filter_open: true,
        show_help: false,
        show_keys_bar: true,
        show_log_panel: false,
        log_panel: LogPanel::new(),
        should_quit: false,
        state: AppState::new(),
    }
}

#[test]
fn play_registers_the_station_intent() {
    let mut c = client();
    assert_eq!(c.apply_action(ClientAction::Play(5)), vec![DaemonRequest::Play(5)]);
    assert_eq!(c.jump_from_station, Some(Some(2)));
    assert!(c.intent_station.is_pending());
    assert_eq!(*c.intent_station.intended(), Some(5));
    assert_eq!(c.apply_action(ClientAction::Next), vec![DaemonRequest::Next]);
    assert_eq!(*c.intent_station.intended(), None);
}

#[test]
fn toggle_pause_flips_the_intent() {
    let mut c = client();
    assert_eq!(c.apply_action(ClientAction::TogglePause), vec![DaemonRequest::TogglePause]);
    assert_eq!(*c.intent_pause.intended(), false);
    assert!(c.intent_pause.is_pending());
    assert_eq!(c.apply_action(ClientAction::Stop), vec![DaemonRequest::Stop]);
}

#[test]
fn focus_moves_close_the_filter() {
    let mut c = client();
    assert!(c.apply_action(ClientAction::FocusNext).is_empty());
    assert!(!c.filter_open);
    assert_eq!(c.focus.current(), Some(ComponentId::IcyTicker));
    c.apply_action(ClientAction::OpenFilter);
    assert!(c.filter_open);
    c.apply_action(ClientAction::FocusPrev);
    assert_eq!(c.focus.current(), Some(ComponentId::StationList));
    c.apply_action(ClientAction::FocusPane(ComponentId::LogPanel));
    assert_eq!(c.focus.current(), Some(ComponentId::LogPanel));
}

#[test]
fn log_panel_toggle_moves_focus() {
    let mut c = client();
    c.apply_action(ClientAction::ToggleLogs);
    assert!(c.show_log_panel);
    assert!(c.log_panel.expanded);
    assert_eq!(c.log_panel.scroll, usize::MAX);
    assert_eq!(c.focus.current(), Some(ComponentId::LogPanel));
    c.apply_action(ClientAction::ToggleLogs);
    assert!(!c.show_log_panel);
    assert!(!c.log_panel.expanded);
    assert_eq!(c.focus.current(), Some(ComponentId::StationList));
}

#[test]
fn stars_help_keys_and_quit() {
    let mut c = client();
    c.apply_action(ClientAction::SetStar(2, StarContext::Station("FIP".to_string())));
    assert_eq!(c.state.station_stars_for("FIP"), 2);
    c.apply_action(ClientAction::SetStar(0, StarContext::Station("FIP".to_string())));
    assert_eq!(c.state.station_stars_for("FIP"), 0);
    c.apply_action(ClientAction::ToggleHelp);
    assert!(c.show_help);
    c.apply_action(ClientAction::ToggleKeys);
    assert!(!c.show_keys_bar);
    assert!(c.apply_action(ClientAction::Noop).is_empty());
    assert!(!c.should_quit);
    c.apply_action(ClientAction::Quit);
    assert!(c.should_quit);
}
