//! The client's reaction to an action: what changes in its state and which
//! requests go to the daemon. Actions that carry fractional values (volume,
//! seeking, file positions) and those that touch the clipboard or the
//! window layout are carried out by the front end.

use vstd::prelude::*;
use crate::ui::action::StarContext;
use crate::ui::app_state::{rated, AppState};
use crate::ui::focus::{first_pos, ComponentId, FocusRing};
use crate::ui::intent::{intended_of, set_intent_post, IntentState};
use crate::ui::log_panel::LogPanel;

verus! {

/// A request to the daemon that carries no fractional value.
#[derive(Debug, Clone, Copy, PartialEq, Eq, Structural)]
pub enum DaemonRequest {
    Play(usize),
    Stop,
    TogglePause,
    Next,
    Prev,
    Random,
}

/// An action the client state reacts to.
pub enum ClientAction {
    /// Play the station at this index.
    Play(usize),
    Stop,
    TogglePause,
    Next,
    Prev,
    Random,
    FocusNext,
    FocusPrev,
    FocusPane(ComponentId),
    OpenFilter,
    CloseFilter,
    /// Rate a station or a file.
    SetStar(u8, StarContext),
    ToggleHelp,
    ToggleKeys,
    ToggleLogs,
    Quit,
    Noop,
}

/// The client's state as actions change it.
pub struct ClientState {
    /// The station the daemon reports as playing.
    pub current_station: Option<usize>,
    /// Whether the daemon reports playback.
    pub is_playing: bool,
    /// The station the user asked for, until the daemon confirms it.
    pub intent_station: IntentState<Option<usize>>,
    /// Whether the user asked for playback, until the daemon confirms it.
    pub intent_pause: IntentState<bool>,
    /// The station playing when the user last jumped to another one.
    pub jump_from_station: Option<Option<usize>>,
    pub focus: FocusRing,
    /// Whether a list filter takes the keys.
    pub filter_open: bool,
    pub show_help: bool,
    pub show_keys_bar: bool,
    pub show_log_panel: bool,
    pub log_panel: LogPanel,
    pub should_quit: bool,
    /// Ratings and histories.
    pub state: AppState,
}

/// After a station jump: the station the daemon reported is remembered and
/// the station intent is registered as `target`.
pub open spec fn jumped(before: ClientState, after: ClientState, target: Option<usize>) -> bool {
    &&& after.jump_from_station == Some(before.current_station)
    &&& intended_of(after.intent_station) == target
    &&& (after.intent_station is Confirmed || after.intent_station is Pending)
    &&& set_intent_post(before.intent_station, after.intent_station, target)
    &&& after == (ClientState {
        jump_from_station: after.jump_from_station,
        intent_station: after.intent_station,
        ..before
    })
}

/// After a focus move: the ring holds the same components, the filter is
/// closed, nothing else changes.
pub open spec fn refocused(before: ClientState, after: ClientState) -> bool {
    &&& after.focus@.items == before.focus@.items
    &&& !after.filter_open
    &&& after == (ClientState { focus: after.focus, filter_open: false, ..before })
}

/// Focus moved to the first `id` in the ring (no move when it is absent).
pub open spec fn focus_set(before: FocusRing, after: FocusRing, id: ComponentId) -> bool {
    &&& after@.items == before@.items
    &&& after@.current == match first_pos(before@.items, id) {
        Some(p) => p,
        None => before@.current,
    }
}

fn set_station_intent(s: &mut ClientState, target: Option<usize>)
    ensures
        jumped(*old(s), *final(s), target),
{
    s.jump_from_station = Some(s.current_station);
    s.intent_station.set_intent(target);
}

impl ClientState {
    /// Reacts to `action`: updates the state and returns the requests for
    /// the daemon.
    pub fn apply_action(&mut self, action: ClientAction) -> (reqs: Vec<DaemonRequest>)
        ensures
            match action {
                ClientAction::Play(idx) => jumped(*old(self), *final(self), Some(idx)) && reqs@ == seq![
                    DaemonRequest::Play(idx),
                ],
                ClientAction::Stop => *final(self) == *old(self) && reqs@ == seq![DaemonRequest::Stop],
                ClientAction::TogglePause => {
                    &&& intended_of(final(self).intent_pause) == !old(self).is_playing
                    &&& (final(self).intent_pause is Confirmed || final(self).intent_pause is Pending)
                    &&& set_intent_post(old(self).intent_pause, final(self).intent_pause, !old(self).is_playing)
                    &&& *final(self) == (ClientState { intent_pause: final(self).intent_pause, ..*old(self) })
                    &&& reqs@ == seq![DaemonRequest::TogglePause]
                },
                ClientAction::Next => jumped(*old(self), *final(self), None) && reqs@ == seq![DaemonRequest::Next],
                ClientAction::Prev => jumped(*old(self), *final(self), None) && reqs@ == seq![DaemonRequest::Prev],
                ClientAction::Random => jumped(*old(self), *final(self), None) && reqs@ == seq![
                    DaemonRequest::Random,
                ],
                ClientAction::FocusNext => {
                    &&& refocused(*old(self), *final(self))
                    &&& old(self).focus@.items.len() > 0 ==> final(self).focus@.current == (
                    old(self).focus@.current + 1) % old(self).focus@.items.len()
                    &&& old(self).focus@.items.len() == 0 ==> final(self).focus@ == old(self).focus@
                    &&& reqs@.len() == 0
                },
                ClientAction::FocusPrev => {
                    &&& refocused(*old(self), *final(self))
                    &&& old(self).focus@.items.len() > 0 ==> final(self).focus@.current == (if old(
                        self,
                    ).focus@.current == 0 {
                        (old(self).focus@.items.len() - 1) as nat
                    } else {
                        (old(self).focus@.current - 1) as nat
                    })
                    &&& old(self).focus@.items.len() == 0 ==> final(self).focus@ == old(self).focus@
                    &&& reqs@.len() == 0
                },
                ClientAction::FocusPane(id) => {
                    &&& refocused(*old(self), *final(self))
                    &&& focus_set(old(self).focus, final(self).focus, id)
                    &&& reqs@.len() == 0
                },
                ClientAction::OpenFilter => *final(self) == (ClientState { filter_open: true, ..*old(self) })
                    && reqs@.len() == 0,
                ClientAction::CloseFilter => *final(self) == (ClientState { filter_open: false, ..*old(self) })
                    && reqs@.len() == 0,
                ClientAction::SetStar(n, ctx) => {
                    &&& match ctx {
                        StarContext::Station(name) => {
                            &&& final(self).state.station_stars@ == rated(old(self).state.station_stars@, name@, n)
                            &&& final(self).state == (AppState {
                                station_stars: final(self).state.station_stars,
                                ..old(self).state
                            })
                        },
                        StarContext::File(path) => {
                            &&& final(self).state.file_stars@ == rated(old(self).state.file_stars@, path@, n)
                            &&& final(self).state == (AppState {
                                file_stars: final(self).state.file_stars,
                                ..old(self).state
                            })
                        },
                    }
                    &&& *final(self) == (ClientState { state: final(self).state, ..*old(self) })
                    &&& reqs@.len() == 0
                },
                ClientAction::ToggleHelp => *final(self) == (ClientState {
                    show_help: !old(self).show_help,
                    ..*old(self)
                }) && reqs@.len() == 0,
                ClientAction::ToggleKeys => *final(self) == (ClientState {
                    show_keys_bar: !old(self).show_keys_bar,
                    ..*old(self)
                }) && reqs@.len() == 0,
                ClientAction::ToggleLogs => {
                    &&& final(self).show_log_panel == !old(self).show_log_panel
                    &&& focus_set(
                        old(self).focus,
                        final(self).focus,
                        if final(self).show_log_panel {
                            ComponentId::LogPanel
                        } else {
                            ComponentId::StationList
                        },
                    )
                    &&& final(self).log_panel.expanded == final(self).show_log_panel
                    &&& final(self).log_panel.scroll == (if final(self).show_log_panel {
                        usize::MAX
                    } else {
                        old(self).log_panel.scroll
                    })
                    &&& final(self).log_panel.last_log_count == old(self).log_panel.last_log_count
                    &&& *final(self) == (ClientState {
                        show_log_panel: final(self).show_log_panel,
                        focus: final(self).focus,
                        log_panel: final(self).log_panel,
                        ..*old(self)
                    })
                    &&& reqs@.len() == 0
                },
                ClientAction::Quit => *final(self) == (ClientState { should_quit: true, ..*old(self) })
                    && reqs@.len() == 0,
                ClientAction::Noop => *final(self) == *old(self) && reqs@.len() == 0,
            },
    {
        let mut reqs: Vec<DaemonRequest> = Vec::new();
        match action {
            ClientAction::Play(idx) => {
                set_station_intent(self, Some(idx));
                reqs.push(DaemonRequest::Play(idx));
            },
            ClientAction::Stop => {
                reqs.push(DaemonRequest::Stop);
            },
            ClientAction::TogglePause => {
                let want = !self.is_playing;
                self.intent_pause.set_intent(want);
                reqs.push(DaemonRequest::TogglePause);
            },
            ClientAction::Next => {
                set_station_intent(self, None);
                reqs.push(DaemonRequest::Next);
            },
            ClientAction::Prev => {
                set_station_intent(self, None);
                reqs.push(DaemonRequest::Prev);
            },
            ClientAction::Random => {
                set_station_intent(self, None);
                reqs.push(DaemonRequest::Random);
            },
            ClientAction::FocusNext => {
                self.focus.next();
                self.filter_open = false;
            },
            ClientAction::FocusPrev => {
                self.focus.prev();
                self.filter_open = false;
            },
            ClientAction::FocusPane(id) => {
                self.focus.set(id);
                self.filter_open = false;
            },
            ClientAction::OpenFilter => {
                self.filter_open = true;
            },
            ClientAction::CloseFilter => {
                self.filter_open = false;
            },
            ClientAction::SetStar(n, ctx) => {
                self.state.set_star(n, ctx);
            },
            ClientAction::ToggleHelp => {
                self.show_help = !self.show_help;
            },
            ClientAction::ToggleKeys => {
                self.show_keys_bar = !self.show_keys_bar;
            },
            ClientAction::ToggleLogs => {
                self.show_log_panel = !self.show_log_panel;
                if self.show_log_panel {
                    self.focus.set(ComponentId::LogPanel);
                    self.log_panel.expanded = true;
                    self.log_panel.scroll = usize::MAX;
                } else {
                    self.focus.set(ComponentId::StationList);
                    self.log_panel.expanded = false;
                }
            },
            ClientAction::Quit => {
                self.should_quit = true;
            },
            ClientAction::Noop => {},
        }
        reqs
    }
}

} // verus!
