//! Small pieces of UI state: which workspace is shown, what a star rating
//! applies to, and how ratings cycle.

use vstd::prelude::*;
use crate::protocol::Station;
use crate::text::{ascii_lower, ascii_lower_chars, chars_of, eq_chars};

verus! {

/// Which item type a star rating applies to.
#[derive(Debug, Clone)]
pub enum StarContext {
    /// A station, by name.
    Station(String),
    /// A local file, by path.
    File(String),
}

/// Which workspace (tab) is active.
#[derive(Debug, Clone, Copy, PartialEq, Eq, Structural)]
pub enum Workspace {
    /// The station list on the left.
    Radio,
    /// The file browser on the left.
    Files,
}

/// The workspace a saved session names: "files" in any ASCII case is the
/// file browser, anything else the radio.
pub open spec fn workspace_from_label_spec(label: Seq<char>) -> Workspace {
    if label.map_values(|c: char| ascii_lower(c)) == seq!['f', 'i', 'l', 'e', 's'] {
        Workspace::Files
    } else {
        Workspace::Radio
    }
}

impl Workspace {
    /// The workspace restored from a session label.
    pub fn from_session_label(label: &str) -> (w: Self)
        ensures
            w == workspace_from_label_spec(label@),
    {
        let c = chars_of(label);
        let l = ascii_lower_chars(c.as_slice());
        let files = chars_of("files");
        proof {
            reveal_strlit("files");
            assert(files@ =~= seq!['f', 'i', 'l', 'e', 's']);
        }
        if eq_chars(l.as_slice(), files.as_slice()) {
            Workspace::Files
        } else {
            Workspace::Radio
        }
    }
}

/// The rating after `cur` when the user presses the star key: 0, 1, 2, 3,
/// then back to 0.
pub fn next_star_rating(cur: u8) -> (r: u8)
    requires
        cur < 255,
    ensures
        r == (cur + 1) % 4,
{
    (cur + 1) % 4
}

/// The name of the current station, if there is one and it is in the list.
pub fn current_station_name(stations: &Vec<Station>, current: Option<usize>) -> (r: Option<String>)
    ensures
        match current {
            Some(i) => if i < stations@.len() {
                r matches Some(n) && n@ == stations@[i as int].name@
            } else {
                r is None
            },
            None => r is None,
        },
{
    match current {
        Some(i) => if i < stations.len() {
            Some(stations[i].name.clone())
        } else {
            None
        },
        None => None,
    }
}

/// Which subsystem produced the PCM data, which decides the jitter-buffer
/// strategy.
#[derive(Debug, Clone, Copy, PartialEq, Eq, Structural)]
pub enum VizSourceKind {
    /// PipeWire/PulseAudio monitor: real time, no network jitter.
    PipeWire,
    /// ffmpeg decoding a network stream: bursty, needs jitter absorption.
    Ffmpeg,
}

} // verus!
