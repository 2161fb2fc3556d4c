//! Starting a song recognition: what it is about (the playing station, the
//! freshest ICY title known for it, the NTS channel the station carries)
//! and the row and patch a job opens with.

use vstd::prelude::*;
use crate::protocol::Station;
use crate::songs::{RecognitionResult, VdsPatch};
use crate::text::{ascii_lower, ascii_lower_chars, chars_of, eq_chars, opt_view, string_of};
use crate::ui::app_state::TickerEntry;

verus! {

/// `str::eq_ignore_ascii_case` on character sequences.
pub open spec fn same_ignoring_ascii_case(a: Seq<char>, b: Seq<char>) -> bool {
    &&& a.len() == b.len()
    &&& forall|i: int| 0 <= i < a.len() ==> ascii_lower(#[trigger] a[i]) == ascii_lower(b[i])
}

/// Compares two texts ignoring ASCII case.
pub fn eq_ignore_ascii_case(a: &str, b: &str) -> (r: bool)
    ensures
        r == same_ignoring_ascii_case(a@, b@),
{
    let x = chars_of(a);
    let y = chars_of(b);
    let lx = ascii_lower_chars(x.as_slice());
    let ly = ascii_lower_chars(y.as_slice());
    let r = eq_chars(lx.as_slice(), ly.as_slice());
    proof {
        if same_ignoring_ascii_case(a@, b@) {
            assert(lx@ =~= ly@);
        }
        if r {
            assert forall|i: int| 0 <= i < a@.len() implies ascii_lower(#[trigger] a@[i]) == ascii_lower(
                b@[i],
            ) by {
                assert(lx@[i] == ly@[i]);
            }
        }
    }
    r
}

/// The NTS channel a station name stands for ("nts 1" or "nts 2" in any
/// ASCII case).
pub open spec fn nts_channel_of(name: Seq<char>) -> Option<usize> {
    if same_ignoring_ascii_case(name, "nts 1"@) {
        Some(0)
    } else if same_ignoring_ascii_case(name, "nts 2"@) {
        Some(1)
    } else {
        None
    }
}

/// The NTS channel of a station name, if it is one.
pub fn nts_channel_for(name: &str) -> (r: Option<usize>)
    ensures
        r == nts_channel_of(name@),
{
    if eq_ignore_ascii_case(name, "nts 1") {
        Some(0)
    } else if eq_ignore_ascii_case(name, "nts 2") {
        Some(1)
    } else {
        None
    }
}

/// The newest ticker entry tagged with station `name`.
pub open spec fn newest_icy_for(h: Seq<TickerEntry>, name: Seq<char>) -> Option<int>
    decreases h.len(),
{
    if h.len() == 0 {
        None
    } else if opt_view(h.last().station) == Some(name) {
        Some(h.len() - 1)
    } else {
        newest_icy_for(h.drop_last(), name)
    }
}

/// The ICY title a recognition goes by, freshest first: the live title;
/// else, for the playing station, the last title known for it; else the
/// newest ticker entry tagged with it.
pub open spec fn recognition_icy(
    live: Option<Seq<char>>,
    station: Option<Seq<char>>,
    last_known: Option<(Seq<char>, Seq<char>)>,
    h: Seq<TickerEntry>,
) -> Option<Seq<char>> {
    match live {
        Some(t) => Some(t),
        None => match station {
            None => None,
            Some(n) => {
                let from_history = match newest_icy_for(h, n) {
                    Some(i) => Some(h[i].raw@),
                    None => None,
                };
                match last_known {
                    Some((st, t)) => if st == n {
                        Some(t)
                    } else {
                        from_history
                    },
                    None => from_history,
                }
            },
        },
    }
}

/// The view of a pair of texts.
pub open spec fn pair_view(o: Option<(String, String)>) -> Option<(Seq<char>, Seq<char>)> {
    match o {
        Some(p) => Some((p.0@, p.1@)),
        None => None,
    }
}

fn copy_string(s: &String) -> (r: String)
    ensures
        r@ == s@,
{
    string_of(chars_of(s.as_str()).as_slice())
}

fn newest_icy_index(h: &Vec<TickerEntry>, name: &str) -> (r: Option<usize>)
    ensures
        match r {
            Some(i) => newest_icy_for(h@, name@) == Some(i as int) && i < h@.len(),
            None => newest_icy_for(h@, name@) is None,
        },
{
    let mut k = h.len();
    proof {
        assert(h@.take(k as int) =~= h@);
    }
    while k > 0
        invariant
            k <= h@.len(),
            newest_icy_for(h@, name@) == newest_icy_for(h@.take(k as int), name@),
        decreases k,
    {
        let tagged = match &h[k - 1].station {
            Some(s) => crate::text::str_eq(s.as_str(), name),
            None => false,
        };
        let ghost t = h@.take(k as int);
        proof {
            assert(t.last() == h@[k - 1]);
            assert(t.drop_last() =~= h@.take(k - 1));
        }
        if tagged {
            return Some(k - 1);
        }
        k -= 1;
    }
    proof {
        assert(h@.take(0) =~= Seq::<TickerEntry>::empty());
    }
    None
}

/// The ICY title a recognition goes by (see `recognition_icy`).
pub fn resolve_icy(
    live: &Option<String>,
    station: Option<&str>,
    last_known: &Option<(String, String)>,
    history: &Vec<TickerEntry>,
) -> (r: Option<String>)
    ensures
        opt_view(r) == recognition_icy(
            opt_view(*live),
            match station {
                Some(s) => Some(s@),
                None => None,
            },
            pair_view(*last_known),
            history@,
        ),
{
    if let Some(t) = live {
        return Some(copy_string(t));
    }
    let name = match station {
        Some(n) => n,
        None => {
            return None;
        },
    };
    if let Some(p) = last_known {
        proof {
            assert(pair_view(*last_known) == Some((p.0@, p.1@)));
        }
        if crate::text::str_eq(p.0.as_str(), name) {
            return Some(copy_string(&p.1));
        }
    }
    match newest_icy_index(history, name) {
        Some(i) => {
            Some(copy_string(&history[i].raw))
        },
        None => None,
    }
}

/// What a request to identify the playing song comes to.
pub enum RecognitionStart {
    /// Neither a station nor an ICY title: there is nothing to identify.
    NothingPlaying,
    /// A job for the playing station (its name and stream), the ICY title it
    /// goes by, and the NTS channel the station carries.
    Start {
        station: Option<String>,
        stream_url: Option<String>,
        icy: Option<String>,
        nts_ch: Option<usize>,
    },
}

/// Decides what a recognition request starts from: `station` is the
/// playing station, `live_icy` the daemon's current ICY title,
/// `last_known_icy` the last (station, title) pair seen and `history` the
/// ICY ticker.
pub fn recognition_start(
    station: Option<&Station>,
    live_icy: &Option<String>,
    last_known_icy: &Option<(String, String)>,
    history: &Vec<TickerEntry>,
) -> (r: RecognitionStart)
    ensures
        ({
            let name = match station {
                Some(s) => Some(s.name@),
                None => None,
            };
            let icy = recognition_icy(opt_view(*live_icy), name, pair_view(*last_known_icy), history@);
            match r {
                RecognitionStart::NothingPlaying => station is None && icy is None,
                RecognitionStart::Start { station: st, stream_url, icy: t, nts_ch } => {
                    &&& !(station is None && icy is None)
                    &&& opt_view(st) == name
                    &&& opt_view(stream_url) == match station {
                        Some(s) => Some(s.url@),
                        None => None,
                    }
                    &&& opt_view(t) == icy
                    &&& nts_ch == match station {
                        Some(s) => nts_channel_of(s.name@),
                        None => None,
                    }
                },
            }
        }),
{
    let name: Option<&str> = match station {
        Some(s) => Some(s.name.as_str()),
        None => None,
    };
    let icy = resolve_icy(live_icy, name, last_known_icy, history);
    match station {
        None => {
            if icy.is_none() {
                RecognitionStart::NothingPlaying
            } else {
                RecognitionStart::Start { station: None, stream_url: None, icy, nts_ch: None }
            }
        },
        Some(s) => RecognitionStart::Start {
            station: Some(copy_string(&s.name)),
            stream_url: Some(copy_string(&s.url)),
            icy,
            nts_ch: nts_channel_for(s.name.as_str()),
        },
    }
}

/// The row a recognition job opens with, and the ICY patch it sends at
/// once when it has a title: the job's id and time, the station and the
/// title, every other column empty.
pub fn recognition_opening(
    job_id: String,
    timestamp: String,
    station: Option<String>,
    icy: Option<String>,
) -> (r: (RecognitionResult, Option<VdsPatch>))
    ensures
        r.0@.job_id == job_id@,
        r.0@.timestamp == Some(timestamp@),
        r.0@.station == opt_view(station),
        r.0@.icy_info == opt_view(icy),
        r.0@.nts_show is None && r.0@.nts_tag is None && r.0@.nts_url is None && r.0@.vibra_rec is None,
        match icy {
            Some(t) => r.1 matches Some(p) && p@.icy_info == Some(t@) && p@.nts_show is None
                && p@.nts_tag is None && p@.nts_url is None && p@.vibra_rec is None,
            None => r.1 is None,
        },
{
    let patch = match &icy {
        Some(t) => Some(
            VdsPatch {
                icy_info: Some(copy_string(t)),
                nts_show: None,
                nts_tag: None,
                nts_url: None,
                vibra_rec: None,
            },
        ),
        None => None,
    };
    let row = RecognitionResult {
        job_id,
        timestamp: Some(timestamp),
        station,
        icy_info: icy,
        nts_show: None,
        nts_tag: None,
        nts_url: None,
        vibra_rec: None,
    };
    (row, patch)
}

} // verus!
