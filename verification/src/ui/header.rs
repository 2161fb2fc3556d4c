//! The header bar: which VU meter style it draws, the playback icon, and
//! which title it shows for the current station.

use vstd::prelude::*;
use crate::protocol::PlaybackStatus;
use crate::text::{chars_of, eq_chars, opt_view, str_eq};
use crate::ui::app_state::TickerEntry;
use crate::ui::intent::RenderHint;
use crate::ui::vu_meter::MeterStyle;

verus! {

/// The style that follows `s` when the user cycles styles.
pub open spec fn next_style(s: MeterStyle) -> MeterStyle {
    match s {
        MeterStyle::Studio => MeterStyle::Led,
        MeterStyle::Led => MeterStyle::Analog,
        MeterStyle::Analog => MeterStyle::Studio,
    }
}

pub struct Header {
    /// VU meter visual style.
    pub meter_style: MeterStyle,
}

impl Header {
    /// A header drawing the analog (ballistic needle) meter.
    pub fn new() -> (h: Self)
        ensures
            h.meter_style == MeterStyle::Analog,
    {
        Header { meter_style: MeterStyle::Analog }
    }

    /// The same header with the given meter style.
    pub fn with_meter_style(self, style: MeterStyle) -> (h: Self)
        ensures
            h.meter_style == style,
    {
        let mut h = self;
        h.meter_style = style;
        h
    }

    /// The current meter style.
    pub fn meter_style(&self) -> (s: MeterStyle)
        ensures
            s == self.meter_style,
    {
        self.meter_style
    }

    /// Moves to the next meter style and returns it.
    pub fn cycle_meter_style(&mut self) -> (s: MeterStyle)
        ensures
            final(self).meter_style == next_style(old(self).meter_style),
            s == final(self).meter_style,
    {
        self.meter_style = match self.meter_style {
            MeterStyle::Studio => MeterStyle::Led,
            MeterStyle::Led => MeterStyle::Analog,
            MeterStyle::Analog => MeterStyle::Studio,
        };
        self.meter_style
    }
}

impl Default for Header {
    fn default() -> (h: Self)
        ensures
            h.meter_style == MeterStyle::Analog,
    {
        Self::new()
    }
}

/// Cycling the meter style three times comes back to where it started, and
/// no fewer cycles do.
pub proof fn law_meter_style_cycle(s: MeterStyle)
    ensures
        next_style(next_style(next_style(s))) == s,
        next_style(s) != s,
        next_style(next_style(s)) != s,
{
}

// ── now-playing line ────────────────────────────────────────────────────────
/// The icon for a playback status.
pub open spec fn status_icon_spec(status: PlaybackStatus) -> Seq<char> {
    match status {
        PlaybackStatus::Playing => "\u{25b6}"@,
        PlaybackStatus::Paused => "\u{23f8}"@,
        PlaybackStatus::Connecting => "\u{25d4}"@,
        PlaybackStatus::Error => "\u{26d4}"@,
        PlaybackStatus::Idle => "\u{25a0}"@,
    }
}

/// The icon shown: a pending pause takes precedence over a pending station
/// change; a pending change blinks the status icon, a timed-out one shows
/// "?".
pub open spec fn shown_icon_spec(status: PlaybackStatus, pause_hint: RenderHint, station_hint: RenderHint) -> Seq<char> {
    let hint = if pause_hint != RenderHint::Normal {
        pause_hint
    } else {
        station_hint
    };
    match hint {
        RenderHint::PendingHidden => " "@,
        RenderHint::PendingVisible => status_icon_spec(status),
        RenderHint::TimedOut => "?"@,
        RenderHint::Normal => status_icon_spec(status),
    }
}

pub fn shown_icon(status: PlaybackStatus, pause_hint: RenderHint, station_hint: RenderHint) -> (r: &'static str)
    ensures
        r@ == shown_icon_spec(status, pause_hint, station_hint),
{
    let hint = if pause_hint != RenderHint::Normal {
        pause_hint
    } else {
        station_hint
    };
    let base = match status {
        PlaybackStatus::Playing => "\u{25b6}",
        PlaybackStatus::Paused => "\u{23f8}",
        PlaybackStatus::Connecting => "\u{25d4}",
        PlaybackStatus::Error => "\u{26d4}",
        PlaybackStatus::Idle => "\u{25a0}",
    };
    match hint {
        RenderHint::PendingHidden => " ",
        RenderHint::PendingVisible => base,
        RenderHint::TimedOut => "?",
        RenderHint::Normal => base,
    }
}

/// The raw title of the newest history entry from `station`.
pub open spec fn newest_title_for(h: Seq<TickerEntry>, station: Seq<char>) -> Option<Seq<char>>
    decreases h.len(),
{
    if h.len() == 0 {
        None
    } else if opt_view(h.last().station) == Some(station) {
        Some(h.last().raw@)
    } else {
        newest_title_for(h.drop_last(), station)
    }
}

/// `Some` of a non-empty text.
pub open spec fn filled_text(o: Option<String>) -> Option<Seq<char>> {
    match o {
        Some(s) => if s@.len() > 0 {
            Some(s@)
        } else {
            None
        },
        None => None,
    }
}

/// The remembered title, when it was seen on `station`.
pub open spec fn last_known_title(lk: Option<(String, String)>, station: Seq<char>) -> Option<Seq<char>> {
    match lk {
        Some(p) => if p.0@ == station {
            Some(p.1@)
        } else {
            None
        },
        None => None,
    }
}

/// The title shown for a station, from the first source that has one: the
/// NTS show on air (for the two NTS channels), the live stream title, the
/// last title seen while this station played, the newest title of this
/// station in the ticker history, and the background poll's title.
pub open spec fn show_title_spec(
    station: Seq<char>,
    nts1: Option<String>,
    nts2: Option<String>,
    live_icy: Option<String>,
    last_known: Option<(String, String)>,
    history: Seq<TickerEntry>,
    polled: Option<String>,
) -> Option<Seq<char>> {
    let nts = if station == "NTS 1"@ {
        opt_view(nts1)
    } else if station == "NTS 2"@ {
        opt_view(nts2)
    } else {
        None
    };
    if nts is Some {
        nts
    } else if filled_text(live_icy) is Some {
        filled_text(live_icy)
    } else if last_known_title(last_known, station) is Some {
        last_known_title(last_known, station)
    } else if newest_title_for(history, station) is Some {
        newest_title_for(history, station)
    } else {
        filled_text(polled)
    }
}

fn newest_title_exec(history: &Vec<TickerEntry>, station: &[char]) -> (r: Option<String>)
    ensures
        opt_view(r) == newest_title_for(history@, station@),
{
    let mut i = history.len();
    proof {
        assert(history@.take(i as int) =~= history@);
    }
    while i > 0
        invariant
            0 <= i <= history@.len(),
            newest_title_for(history@, station@) == newest_title_for(history@.take(i as int), station@),
        decreases i,
    {
        let k = i - 1;
        proof {
            assert(history@.take(i as int).drop_last() =~= history@.take(k as int));
            assert(history@.take(i as int).last() == history@[k as int]);
        }
        match &history[k].station {
            Some(st) => {
                let sc = chars_of(st.as_str());
                if eq_chars(sc.as_slice(), station) {
                    return Some(history[k].raw.clone());
                }
            },
            None => {},
        }
        i = k;
    }
    None
}

fn filled(o: Option<String>) -> (r: Option<String>)
    ensures
        opt_view(r) == filled_text(o),
{
    match o {
        Some(s) => if s.as_str().is_empty() {
            None
        } else {
            Some(s)
        },
        None => None,
    }
}

/// Picks the title shown next to the current station.
pub fn show_title(
    station: &str,
    nts1: Option<String>,
    nts2: Option<String>,
    live_icy: Option<String>,
    last_known: Option<(String, String)>,
    history: &Vec<TickerEntry>,
    polled: Option<String>,
) -> (r: Option<String>)
    ensures
        opt_view(r) == show_title_spec(station@, nts1, nts2, live_icy, last_known, history@, polled),
{
    let nts = if str_eq(station, "NTS 1") {
        nts1
    } else if str_eq(station, "NTS 2") {
        nts2
    } else {
        None
    };
    if nts.is_some() {
        return nts;
    }
    let live = filled(live_icy);
    if live.is_some() {
        return live;
    }
    match last_known {
        Some((st, t)) => {
            if str_eq(st.as_str(), station) {
                return Some(t);
            }
        },
        None => {},
    }
    let sc = chars_of(station);
    let h = newest_title_exec(history, sc.as_slice());
    if h.is_some() {
        return h;
    }
    filled(polled)
}

} // verus!
