//! The application-wide keyboard bindings: what a key press does before it
//! reaches the focused pane.

use vstd::prelude::*;
use crate::ui::action::Workspace;

verus! {

/// The keys the bindings tell apart.
#[derive(Debug, Clone, Copy, PartialEq, Eq, Structural)]
pub enum Key {
    Char(char),
    Tab,
    BackTab,
    Right,
    Left,
    Up,
    Down,
    PageUp,
    PageDown,
    Home,
    End,
    Enter,
    Esc,
    Other,
}

/// A mouse event over a pane.
#[derive(Debug, Clone, Copy, PartialEq, Eq, Structural)]
pub enum Mouse {
    ScrollUp,
    ScrollDown,
    /// The left button went down on this screen row.
    LeftDown { row: u16 },
    Other,
}

/// A key press with the modifier facts the bindings read.
#[derive(Debug, Clone, Copy, PartialEq, Eq, Structural)]
pub struct KeyPress {
    pub key: Key,
    /// No modifier is held.
    pub no_modifiers: bool,
    /// Control, and only control, is held.
    pub ctrl_only: bool,
    /// Shift is held (possibly with others).
    pub shift: bool,
}

/// What a key press does.
#[derive(Debug, Clone, Copy, PartialEq, Eq, Structural)]
pub enum KeyOutcome {
    Quit,
    ToggleHelp,
    ToggleLogs,
    /// The help overlay is open: it gets the key, then closes.
    HelpOverlay,
    /// Move focus forward, closing the filter first when it is open.
    FocusNext { close_filter: bool },
    /// Move focus back, closing the filter first when it is open.
    FocusPrev { close_filter: bool },
    TogglePause,
    Next,
    Prev,
    /// Start or stop the passive polling of the stations' titles.
    TogglePolling,
    Random,
    RandomBack,
    Mute,
    VolumeUp,
    VolumeDown,
    /// Seek back 30 s, or 5 min when `long`.
    SeekBack { long: bool },
    /// Seek forward 30 s, or 5 min when `long`.
    SeekForward { long: bool },
    SwitchWorkspace(Workspace),
    /// Focus the pane at this position.
    FocusNth(usize),
    /// Show or hide the panel of this NTS channel.
    ToggleNts(usize),
    ToggleScope,
    ToggleFullWidth,
    ToggleKeys,
    JumpToCurrent,
    ToggleCollapse,
    RecognizeSong,
    /// No global binding: the focused pane handles the key.
    ToFocused,
}

/// The other workspace.
pub open spec fn other_workspace(w: Workspace) -> Workspace {
    match w {
        Workspace::Radio => Workspace::Files,
        Workspace::Files => Workspace::Radio,
    }
}

/// The bindings of playback and layout keys, which act in normal mode only.
pub open spec fn normal_key_spec(k: KeyPress, workspace: Workspace) -> KeyOutcome {
    match k.key {
        Key::Char(c) => if c == ' ' {
            KeyOutcome::TogglePause
        } else if c == 'n' {
            KeyOutcome::Next
        } else if c == 'P' {
            KeyOutcome::Prev
        } else if c == 'p' {
            KeyOutcome::TogglePolling
        } else if c == 'r' {
            KeyOutcome::Random
        } else if c == 'R' {
            KeyOutcome::RandomBack
        } else if c == 'm' {
            KeyOutcome::Mute
        } else if c == '+' || c == '=' {
            KeyOutcome::VolumeUp
        } else if c == '-' {
            KeyOutcome::VolumeDown
        } else if c == ',' {
            KeyOutcome::SeekBack { long: k.shift }
        } else if c == '.' {
            KeyOutcome::SeekForward { long: k.shift }
        } else if c == 'f' {
            KeyOutcome::SwitchWorkspace(other_workspace(workspace))
        } else if c == '1' {
            KeyOutcome::FocusNth(0)
        } else if c == '2' {
            KeyOutcome::FocusNth(1)
        } else if c == '3' {
            KeyOutcome::FocusNth(2)
        } else if c == '4' {
            KeyOutcome::FocusNth(3)
        } else if c == '!' {
            KeyOutcome::ToggleNts(0)
        } else if c == '@' {
            KeyOutcome::ToggleNts(1)
        } else if c == 'o' {
            KeyOutcome::ToggleScope
        } else if c == '_' || c == '|' {
            KeyOutcome::ToggleFullWidth
        } else if c == 'K' {
            KeyOutcome::ToggleKeys
        } else if c == 'J' {
            KeyOutcome::JumpToCurrent
        } else if c == 'c' {
            KeyOutcome::ToggleCollapse
        } else if c == 'i' || c == 'I' {
            KeyOutcome::RecognizeSong
        } else {
            KeyOutcome::ToFocused
        },
        Key::Right => KeyOutcome::VolumeUp,
        Key::Left => KeyOutcome::VolumeDown,
        _ => KeyOutcome::ToFocused,
    }
}

/// What a key press does: quitting (`q` with no modifier in normal mode,
/// Ctrl-C anywhere), help and logs in normal mode, then the open help
/// overlay takes every key, Tab and Shift-Tab move focus (closing the
/// filter), and in normal mode the playback and layout keys act; anything
/// else goes to the focused pane.
pub open spec fn global_key_spec(k: KeyPress, filter_mode: bool, help_shown: bool, workspace: Workspace) -> KeyOutcome {
    if k.key == Key::Char('q') && k.no_modifiers && !filter_mode {
        KeyOutcome::Quit
    } else if k.key == Key::Char('c') && k.ctrl_only {
        KeyOutcome::Quit
    } else if k.key == Key::Char('?') && !filter_mode {
        KeyOutcome::ToggleHelp
    } else if k.key == Key::Char('L') && !filter_mode {
        KeyOutcome::ToggleLogs
    } else if help_shown {
        KeyOutcome::HelpOverlay
    } else if k.key == Key::Tab {
        KeyOutcome::FocusNext { close_filter: filter_mode }
    } else if k.key == Key::BackTab {
        KeyOutcome::FocusPrev { close_filter: filter_mode }
    } else if !filter_mode {
        normal_key_spec(k, workspace)
    } else {
        KeyOutcome::ToFocused
    }
}

fn normal_key(k: KeyPress, workspace: Workspace) -> (r: KeyOutcome)
    ensures
        r == normal_key_spec(k, workspace),
{
    match k.key {
        Key::Char(c) => {
            if c == ' ' {
                KeyOutcome::TogglePause
            } else if c == 'n' {
                KeyOutcome::Next
            } else if c == 'P' {
                KeyOutcome::Prev
            } else if c == 'p' {
                KeyOutcome::TogglePolling
            } else if c == 'r' {
                KeyOutcome::Random
            } else if c == 'R' {
                KeyOutcome::RandomBack
            } else if c == 'm' {
                KeyOutcome::Mute
            } else if c == '+' || c == '=' {
                KeyOutcome::VolumeUp
            } else if c == '-' {
                KeyOutcome::VolumeDown
            } else if c == ',' {
                KeyOutcome::SeekBack { long: k.shift }
            } else if c == '.' {
                KeyOutcome::SeekForward { long: k.shift }
            } else if c == 'f' {
                KeyOutcome::SwitchWorkspace(
                    match workspace {
                        Workspace::Radio => Workspace::Files,
                        Workspace::Files => Workspace::Radio,
                    },
                )
            } else if c == '1' {
                KeyOutcome::FocusNth(0)
            } else if c == '2' {
                KeyOutcome::FocusNth(1)
            } else if c == '3' {
                KeyOutcome::FocusNth(2)
            } else if c == '4' {
                KeyOutcome::FocusNth(3)
            } else if c == '!' {
                KeyOutcome::ToggleNts(0)
            } else if c == '@' {
                KeyOutcome::ToggleNts(1)
            } else if c == 'o' {
                KeyOutcome::ToggleScope
            } else if c == '_' || c == '|' {
                KeyOutcome::ToggleFullWidth
            } else if c == 'K' {
                KeyOutcome::ToggleKeys
            } else if c == 'J' {
                KeyOutcome::JumpToCurrent
            } else if c == 'c' {
                KeyOutcome::ToggleCollapse
            } else if c == 'i' || c == 'I' {
                KeyOutcome::RecognizeSong
            } else {
                KeyOutcome::ToFocused
            }
        },
        Key::Right => KeyOutcome::VolumeUp,
        Key::Left => KeyOutcome::VolumeDown,
        _ => KeyOutcome::ToFocused,
    }
}

/// Decides what a key press does.
pub fn global_key(k: KeyPress, filter_mode: bool, help_shown: bool, workspace: Workspace) -> (r: KeyOutcome)
    ensures
        r == global_key_spec(k, filter_mode, help_shown, workspace),
{
    if k.key == Key::Char('q') && k.no_modifiers && !filter_mode {
        KeyOutcome::Quit
    } else if k.key == Key::Char('c') && k.ctrl_only {
        KeyOutcome::Quit
    } else if k.key == Key::Char('?') && !filter_mode {
        KeyOutcome::ToggleHelp
    } else if k.key == Key::Char('L') && !filter_mode {
        KeyOutcome::ToggleLogs
    } else if help_shown {
        KeyOutcome::HelpOverlay
    } else if k.key == Key::Tab {
        KeyOutcome::FocusNext { close_filter: filter_mode }
    } else if k.key == Key::BackTab {
        KeyOutcome::FocusPrev { close_filter: filter_mode }
    } else if !filter_mode {
        normal_key(k, workspace)
    } else {
        KeyOutcome::ToFocused
    }
}

/// Law: Ctrl-C quits in every mode and state.
pub proof fn law_ctrl_c_quits(filter_mode: bool, help_shown: bool, workspace: Workspace)
    ensures
        global_key_spec(
            KeyPress { key: Key::Char('c'), no_modifiers: false, ctrl_only: true, shift: false },
            filter_mode,
            help_shown,
            workspace,
        ) == KeyOutcome::Quit,
{
}

} // verus!
