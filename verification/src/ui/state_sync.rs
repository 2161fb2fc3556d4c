//! How the interface follows a state update from the daemon: which
//! notification a change of player health raises, and where the station
//! list's selection moves.

use vstd::prelude::*;
use crate::protocol::{unhealthy_spec, MpvHealth};
use crate::text::{append_chars, chars_of, string_of};

verus! {

/// The kind of a transient notification.
#[derive(Debug, Clone, Copy, PartialEq, Eq, Structural)]
pub enum ToastKind {
    Success,
    Warning,
    Error,
}

/// A transient notification.
pub struct Toast {
    pub kind: ToastKind,
    pub message: String,
}

/// Two health states are the same (variant, and reason when degraded).
pub open spec fn same_health(a: MpvHealth, b: MpvHealth) -> bool {
    match (a, b) {
        (MpvHealth::Absent, MpvHealth::Absent) => true,
        (MpvHealth::Starting, MpvHealth::Starting) => true,
        (MpvHealth::Running, MpvHealth::Running) => true,
        (MpvHealth::Degraded(x), MpvHealth::Degraded(y)) => x@ == y@,
        (MpvHealth::Dead, MpvHealth::Dead) => true,
        (MpvHealth::Restarting, MpvHealth::Restarting) => true,
        _ => false,
    }
}

/// The notification for a change of health: the player died, is
/// restarting, recovered (running again after an unhealthy state), or is
/// degraded (with the reason); none when nothing changed or for other
/// changes.
pub open spec fn health_toast_spec(prev: MpvHealth, new: MpvHealth) -> Option<(ToastKind, Seq<char>)> {
    if same_health(prev, new) {
        None
    } else {
        match new {
            MpvHealth::Dead => Some((ToastKind::Error, "mpv process died"@)),
            MpvHealth::Restarting => Some((ToastKind::Warning, "mpv restarting..."@)),
            MpvHealth::Running => if !(prev is Absent) && unhealthy_spec(prev) {
                Some((ToastKind::Success, "mpv recovered"@))
            } else {
                None
            },
            MpvHealth::Degraded(reason) => Some((ToastKind::Warning, "mpv degraded: "@ + reason@)),
            _ => None,
        }
    }
}

fn same_health_exec(a: &MpvHealth, b: &MpvHealth) -> (r: bool)
    ensures
        r == same_health(*a, *b),
{
    match (a, b) {
        (MpvHealth::Absent, MpvHealth::Absent) => true,
        (MpvHealth::Starting, MpvHealth::Starting) => true,
        (MpvHealth::Running, MpvHealth::Running) => true,
        (MpvHealth::Degraded(x), MpvHealth::Degraded(y)) => crate::text::str_eq(x.as_str(), y.as_str()),
        (MpvHealth::Dead, MpvHealth::Dead) => true,
        (MpvHealth::Restarting, MpvHealth::Restarting) => true,
        _ => false,
    }
}

fn toast(kind: ToastKind, message: &str) -> (t: Toast)
    ensures
        t.kind == kind,
        t.message@ == message@,
{
    Toast { kind, message: String::from_str(message) }
}

/// The notification a change of player health raises, if any.
pub fn health_toast(prev: &MpvHealth, new: &MpvHealth) -> (r: Option<Toast>)
    ensures
        match r {
            Some(t) => health_toast_spec(*prev, *new) == Some((t.kind, t.message@)),
            None => health_toast_spec(*prev, *new) is None,
        },
{
    if same_health_exec(prev, new) {
        return None;
    }
    match new {
        MpvHealth::Dead => Some(toast(ToastKind::Error, "mpv process died")),
        MpvHealth::Restarting => Some(toast(ToastKind::Warning, "mpv restarting...")),
        MpvHealth::Running => {
            let was_absent = match prev {
                MpvHealth::Absent => true,
                _ => false,
            };
            if !was_absent && prev.is_unhealthy() {
                Some(toast(ToastKind::Success, "mpv recovered"))
            } else {
                None
            }
        },
        MpvHealth::Degraded(reason) => {
            let mut m = chars_of("mpv degraded: ");
            let rc = chars_of(reason.as_str());
            append_chars(&mut m, rc.as_slice());
            Some(Toast { kind: ToastKind::Warning, message: string_of(m.as_slice()) })
        },
        _ => None,
    }
}

/// Where the station list's selection goes after an update: while a jump
/// (next, previous, random) is awaited, to the new station once it differs
/// from where the jump started, which ends the wait; otherwise to the new
/// station when the daemon changed it on its own. `None` leaves the
/// selection where it is.
pub open spec fn follow_selection_spec(
    jump_from: Option<Option<usize>>,
    current: Option<usize>,
    prev: Option<usize>,
) -> (Option<usize>, bool) {
    match jump_from {
        Some(from) => if current != from {
            (current, true)
        } else {
            (None, false)
        },
        None => if current != prev {
            (current, false)
        } else {
            (None, false)
        },
    }
}

/// The selection target and whether the awaited jump is over.
pub fn follow_selection(jump_from: Option<Option<usize>>, current: Option<usize>, prev: Option<usize>) -> (r: (
    Option<usize>,
    bool,
))
    ensures
        r == follow_selection_spec(jump_from, current, prev),
{
    match jump_from {
        Some(from) => if current != from {
            (current, true)
        } else {
            (None, false)
        },
        None => if current != prev {
            (current, false)
        } else {
            (None, false)
        },
    }
}

} // verus!
