use r4dio::ui::log_files::{is_managed_log_file, log_cap_bytes, prune_step, total_after_delete, PruneStep};
use r4dio::ui::log_panel::{
    compact_log_line, compact_log_line_with, push_capped, split_first_token, strip_ansi, tail_lines,
    LOG_LINES_KEPT,
};
use r4dio::ui::nts_panel::{compact_col_widths, nts_channel_for, word_wrap};
use r4dio::ui::search::{
    extract_tracklist_lines, is_playable_audio_path, normalize_search_text, search_matches,
    station_matches,
};
use r4dio::protocol::Station;
use r4dio::playback::{derive_status, end_file_marks_error, meaningful_icy_title, wants_proxy};
use r4dio::protocol::PlaybackStatus;

#[test]
fn search_text_is_lowercased() {
    assert_eq!(normalize_search_text("AbC Ä"), "abc ä");
}

#[test]
fn search_needs_every_word() {
    assert!(search_matches("", "anything"));
    assert!(search_matches("jazz NTS", "NTS Radio - Jazz"));
    assert!(!search_matches("jazz rock", "NTS Radio - Jazz"));
    assert!(search_matches("   ", "x"));
}

#[test]
fn station_filter() {
    let mut s = Station::named("Radio Nova".into(), "http://nova".into());
    s.network = "Nova".into();
    s.city = "Paris".into();
    s.country = "France".into();
    s.tags = vec!["Electronic".into(), "Hip Hop".into()];
    assert!(station_matches(&s, "  "));
    assert!(station_matches(&s, "nova PARIS"));
    assert!(station_matches(&s, "hip hop"));
    assert!(station_matches(&s, "tronic"));
    assert!(!station_matches(&s, "berlin"));
}

#[test]
fn tracklist_lines() {
    let text = "Tracklist:\n00:00 Artist - Title\n  1. Someone - Song  \n\n2 Other\nhello world\n12.\nab:\n";
    assert_eq!(
        extract_tracklist_lines(text),
        vec!["Tracklist:", "00:00 Artist - Title", "1. Someone - Song", "2 Other"]
    );
    assert!(extract_tracklist_lines("").is_empty());
}

#[test]
fn playable_audio_extensions() {
    assert!(is_playable_audio_path("/music/a.MP3"));
    assert!(is_playable_audio_path("b.flac"));
    assert!(is_playable_audio_path("dir.d/c.m4b"));
    assert!(!is_playable_audio_path("notes.txt"));
    assert!(!is_playable_audio_path("noext"));
    assert!(!is_playable_audio_path(".mp3"));
}

#[test]
fn ansi_codes_are_removed() {
    // The character after ESC that lies in '@'..='~' ends the sequence; '['
    // is such a character.
    assert_eq!(strip_ansi("\u{1b}[31mred\u{1b}[0m text"), "31mred0m text");
    assert_eq!(strip_ansi("\u{1b}mred\u{1b}m text"), "red text");
    assert_eq!(strip_ansi("plain"), "plain");
    assert_eq!(strip_ansi("\u{1b}\u{1}\u{2}"), "");
}

#[test]
fn first_token_split() {
    assert_eq!(split_first_token("INFO rest of it"), Some(("INFO".to_string(), "rest of it".to_string())));
    assert_eq!(split_first_token("single"), Some(("single".to_string(), String::new())));
    assert_eq!(split_first_token(" lead"), None);
    assert_eq!(split_first_token(""), None);
}

#[test]
fn log_lines_are_compacted() {
    assert_eq!(
        compact_log_line_with("2024-01-01T10:00:00Z  info radio::core: started", Some("10:00:00".into())),
        "10:00:00 INFO started"
    );
    assert_eq!(compact_log_line_with("WARN  something odd", None), "WARN something odd");
    assert_eq!(compact_log_line_with("x: y", None), "y");
    assert_eq!(compact_log_line_with("has space: y", None), "has space: y");
    assert_eq!(compact_log_line_with("\u{1b}mDEBUG\u{1b}m", None), "DEBUG");
    assert_eq!(compact_log_line_with("   ", None), "");
    assert_eq!(compact_log_line("no timestamp here"), "no timestamp here");
    assert_eq!(compact_log_line("ERROR m::n: boom"), "ERROR boom");
}

#[test]
fn managed_logs_and_pruning() {
    assert!(is_managed_log_file("mpv-stderr.log"));
    assert!(is_managed_log_file("tui.log.2026-01-01"));
    assert!(!is_managed_log_file("tui.log"));
    assert!(!is_managed_log_file("other.log"));
    assert_eq!(log_cap_bytes(2), 2 * 1024 * 1024);
    assert_eq!(log_cap_bytes(u64::MAX), u64::MAX);
    assert_eq!(prune_step(10, 10, false), PruneStep::Stop);
    assert_eq!(prune_step(11, 10, true), PruneStep::Keep);
    assert_eq!(prune_step(11, 10, false), PruneStep::Delete);
    assert_eq!(total_after_delete(11, 5, true), 6);
    assert_eq!(total_after_delete(3, 5, true), 0);
    assert_eq!(total_after_delete(11, 5, false), 11);
}

#[test]
fn wrapping() {
    assert_eq!(word_wrap("aa bb cc", 5), vec!["aa bb", "cc"]);
    assert_eq!(word_wrap("a\n\nb", 10), vec!["a", "", "b"]);
    assert_eq!(word_wrap("toolongword x", 4), vec!["toolongword", "x"]);
    assert_eq!(word_wrap("keep  as is", 0), vec!["keep  as is"]);
    assert_eq!(word_wrap("é é", 3), vec!["é", "é"]);
}

#[test]
fn column_widths() {
    assert_eq!(compact_col_widths(101), (60, 40));
    assert_eq!(compact_col_widths(30), (17, 12));
    assert_eq!(compact_col_widths(10), (0, 9));
    assert_eq!(compact_col_widths(0), (0, 0));
    assert_eq!(compact_col_widths(41), (24, 16));
}

#[test]
fn playback_status_derivation() {
    assert_eq!(derive_status(false, true, Some(false), 99), (PlaybackStatus::Idle, false));
    assert_eq!(derive_status(true, true, None, 99), (PlaybackStatus::Paused, false));
    assert_eq!(derive_status(true, false, Some(false), 99), (PlaybackStatus::Playing, false));
    assert_eq!(derive_status(true, false, Some(true), 14), (PlaybackStatus::Connecting, true));
    assert_eq!(derive_status(true, false, None, 15), (PlaybackStatus::Error, true));
}

#[test]
fn icy_titles_and_end_reasons() {
    assert_eq!(meaningful_icy_title(Some(" - ".into())), None);
    assert_eq!(meaningful_icy_title(Some("  ".into())), None);
    assert_eq!(meaningful_icy_title(Some(" A - B ".into())).as_deref(), Some(" A - B "));
    assert_eq!(meaningful_icy_title(None), None);
    assert!(end_file_marks_error("network", true, false));
    assert!(!end_file_marks_error("network", true, true));
    assert!(!end_file_marks_error("eof", true, false));
    assert!(!end_file_marks_error("quit", false, false));
    assert!(wants_proxy("http://x/stream.mp3"));
    assert!(!wants_proxy("https://x/LIVE.M3U8?a=1"));
}

#[test]
fn log_buffers() {
    let mut logs = vec!["a".to_string(), "b".to_string()];
    push_capped(&mut logs, "c".to_string(), 3);
    assert_eq!(logs, vec!["a", "b", "c"]);
    push_capped(&mut logs, "d".to_string(), 3);
    assert_eq!(logs, vec!["b", "c", "d"]);
    assert_eq!(LOG_LINES_KEPT, 500);
    assert_eq!(tail_lines("1\n2\n3\n", 2), vec!["2", "3"]);
    assert_eq!(tail_lines("1\r\n2", 5), vec!["1", "2"]);
    assert!(tail_lines("", 5).is_empty());
}

#[test]
fn nts_channels() {
    assert_eq!(nts_channel_for("NTS 1"), Some(0));
    assert_eq!(nts_channel_for("NTS 2"), Some(1));
    assert_eq!(nts_channel_for("NTS 3"), None);
}
