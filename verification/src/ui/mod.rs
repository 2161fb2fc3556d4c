//! The pure parts of the terminal client: focus and intent tracking, sort
//! orders, text helpers for the panes, and pipeline telemetry.

pub mod focus;
pub mod intent;
pub mod latency;
pub mod station_list;
pub mod file_list;
pub mod file_meta;
pub mod file_probe;
pub mod lines;
pub mod vu_meter;
pub mod header;
pub mod help_overlay;
pub mod search;
pub mod log_panel;
pub mod log_files;
pub mod nts_panel;
pub mod nts_lines;
pub mod sorting;
pub mod app_state;
pub mod tickers;
pub mod action;
pub mod state_sync;
pub mod keys;
pub mod pcm;
pub mod recognition;
pub mod client;

use vstd::prelude::*;

verus! {

/// `a - b`, or zero where that is negative (saturating subtraction).
pub open spec fn sat_sub(a: int, b: int) -> int {
    if a >= b {
        a - b
    } else {
        0
    }
}

} // verus!
