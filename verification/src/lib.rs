//! Verified core of a terminal radio player: wire framing, station lists,
//! song-recognition records, playback state and the pure parts of the UI.

pub mod text;
pub mod songs;
pub mod protocol;
pub mod state;
pub mod ui;
pub mod platform;
pub mod config;
pub mod proxy;
pub mod playback;
pub mod nts;
pub mod timefmt;
