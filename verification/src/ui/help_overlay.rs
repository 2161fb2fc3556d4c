//! The keyboard-shortcut help popup: whether it is shown.

use vstd::prelude::*;
use crate::ui::keys::Key;

verus! {

pub struct HelpOverlay {
    pub visible: bool,
}

impl HelpOverlay {
    /// A hidden overlay.
    pub fn new() -> (h: Self)
        ensures
            !h.visible,
    {
        HelpOverlay { visible: false }
    }

    pub fn show(&mut self)
        ensures
            final(self).visible,
    {
        self.visible = true;
    }

    /// Hides the overlay.
    pub fn dismiss(&mut self)
        ensures
            !final(self).visible,
    {
        self.visible = false;
    }

    /// While shown, the overlay takes every key; '?', 'q' and Esc close it
    /// and ask for the help toggle (the result). A hidden overlay ignores
    /// keys.
    pub fn handle_key(&mut self, key: Key) -> (toggle_help: bool)
        ensures
            toggle_help == (old(self).visible && (key == Key::Char('?') || key == Key::Char('q') || key
                == Key::Esc)),
            final(self).visible == (old(self).visible && !toggle_help),
    {
        if !self.visible {
            return false;
        }
        if key == Key::Char('?') || key == Key::Char('q') || key == Key::Esc {
            self.visible = false;
            return true;
        }
        false
    }

    /// Shows a hidden overlay and hides a shown one.
    pub fn toggle(&mut self)
        ensures
            final(self).visible == !old(self).visible,
    {
        self.visible = !self.visible;
    }
}

} // verus!
