use r4dio::songs::{
    encode_row, hex16, make_job_id, nn, parse_icy, parse_vds_row, patch_vds_text, vds_esc, vds_rows, vibra_rec_string,
    RecognitionResult, RecognitionSource, VdsPatch, VDS_HEADER,
};

#[test]
fn test_parse_icy_artist_title() {
    let (title, artist) = parse_icy("The Beatles - Hey Jude");
    assert_eq!(title.as_deref(), Some("Hey Jude"));
    assert_eq!(artist.as_deref(), Some("The Beatles"));
}

#[test]
fn test_parse_icy_no_sep() {
    let (title, artist) = parse_icy("Some Show Name");
    assert_eq!(title.as_deref(), Some("Some Show Name"));
    assert!(artist.is_none());
}

#[test]
fn test_vibra_rec_string() {
    let title = Some("Hey Jude".to_string());
    let subtitle = Some("The Beatles".to_string());
    assert_eq!(
        vibra_rec_string(&title, &subtitle).as_deref(),
        Some("The Beatles \u{2013} Hey Jude")
    );
}

#[test]
fn test_display_priority() {
    let mut r = RecognitionResult::default();
    r.job_id = "abc".into();
    assert_eq!(r.display(), "?");

    r.icy_info = Some("ICY Title".into());
    assert_eq!(r.display(), "ICY Title");

    r.vibra_rec = Some("Vibra Artist \u{2013} Vibra Title".into());
    assert_eq!(r.display(), "Vibra Artist \u{2013} Vibra Title");
}

#[test]
fn test_sources() {
    let r = RecognitionResult {
        job_id: "x".into(),
        vibra_rec: Some("A \u{2013} B".into()),
        icy_info: Some("raw".into()),
        nts_show: None,
        ..Default::default()
    };
    let srcs = r.sources();
    assert!(srcs.contains(&RecognitionSource::Vibra));
    assert!(srcs.contains(&RecognitionSource::Icy));
    assert!(!srcs.contains(&RecognitionSource::Nts));
}

#[test]
fn test_vds_encode_decode_roundtrip() {
    let r = RecognitionResult {
        job_id: "deadbeef".into(),
        timestamp: None,
        station: Some("NTS 1".into()),
        icy_info: Some("Artist - Track".into()),
        nts_show: Some("Morning Show".into()),
        nts_tag: Some("Jazz, Soul".into()),
        nts_url: Some("https://www.nts.live/shows/morning".into()),
        vibra_rec: Some("Artist \u{2013} Track".into()),
    };
    let encoded = encode_row(&r);
    let decoded = parse_vds_row(encoded.trim()).unwrap();
    assert_eq!(decoded.job_id, "deadbeef");
    assert_eq!(decoded.station.as_deref(), Some("NTS 1"));
    assert_eq!(decoded.icy_info.as_deref(), Some("Artist - Track"));
    assert_eq!(decoded.vibra_rec.as_deref(), Some("Artist \u{2013} Track"));
}

#[test]
fn parse_icy_splits_at_first_separator_and_trims() {
    let (title, artist) = parse_icy("  A - B - C  ");
    assert_eq!(title.as_deref(), Some("B - C"));
    assert_eq!(artist.as_deref(), Some("A"));
}

#[test]
fn parse_icy_empty_parts_become_none() {
    let (title, artist) = parse_icy(" - ");
    assert_eq!(title.as_deref(), Some("-"));
    assert_eq!(artist, None);
    let (title, artist) = parse_icy("x -  - ");
    assert_eq!(title.as_deref(), Some("-"));
    assert_eq!(artist.as_deref(), Some("x"));
    let (title, artist) = parse_icy("");
    assert_eq!(title, None);
    assert_eq!(artist, None);
}

#[test]
fn source_labels() {
    assert_eq!(RecognitionSource::Vibra.label(), "vibra");
    assert_eq!(RecognitionSource::Icy.label(), "icy");
    assert_eq!(RecognitionSource::Nts.label(), "nts");
}

#[test]
fn display_ignores_empty_and_nts_fields() {
    let mut r = RecognitionResult::default();
    r.nts_show = Some("Morning Show".into());
    assert_eq!(r.display(), "?");
    r.vibra_rec = Some(String::new());
    r.icy_info = Some("icy".into());
    assert_eq!(r.display(), "icy");
}

#[test]
fn source_label_joins_sources() {
    let r = RecognitionResult {
        vibra_rec: Some("x".into()),
        nts_show: Some("y".into()),
        ..Default::default()
    };
    assert_eq!(r.source_label(), "vibra+nts");
    assert_eq!(RecognitionResult::default().source_label(), "");
}

#[test]
fn vds_escape_replaces_separators() {
    assert_eq!(vds_esc("a\tb\nc\rd"), "a b cd");
    assert_eq!(vds_esc("plain"), "plain");
}

#[test]
fn nn_treats_empty_as_none() {
    assert_eq!(nn(""), None);
    assert_eq!(nn("x").as_deref(), Some("x"));
}

#[test]
fn encode_row_escapes_and_terminates() {
    let r = RecognitionResult {
        job_id: "j1".into(),
        icy_info: Some("a\tb".into()),
        ..Default::default()
    };
    assert_eq!(encode_row(&r), "j1\t\t\ta b\t\t\t\t\n");
}

#[test]
fn parse_vds_row_needs_three_columns() {
    assert!(parse_vds_row("a\tb").is_none());
    assert!(parse_vds_row("").is_none());
    let r = parse_vds_row(" \tx\ty").unwrap();
    assert_eq!(r.job_id, "");
    assert_eq!(r.station.as_deref(), Some("y"));
    assert!(parse_vds_row(VDS_HEADER.trim_end()).is_some());
}

#[test]
fn parse_vds_row_keeps_timestamp_text() {
    let r = parse_vds_row("id\t2024-01-02T03:04:05\tSt").unwrap();
    assert_eq!(r.job_id, "id");
    assert_eq!(r.timestamp.as_deref(), Some("2024-01-02T03:04:05"));
    assert_eq!(r.station.as_deref(), Some("St"));
    assert_eq!(r.vibra_rec, None);
}

#[test]
fn vds_rows_keeps_newest_rows_in_file_order() {
    let content = format!("{}a\t\t\t\t\t\t\t\nb\t\t\t\t\t\t\t\nc\t\t\t\t\t\t\t\n", VDS_HEADER);
    let rows = vds_rows(&content, 2);
    let ids: Vec<&str> = rows.iter().map(|r| r.job_id.as_str()).collect();
    assert_eq!(ids, vec!["b", "c"]);
}

#[test]
fn patch_vds_text_updates_only_the_target_row() {
    let content = format!("{}a\t\tS1\t\t\t\t\t\nb\t\tS2\t\t\t\t\t\n", VDS_HEADER);
    let patch = VdsPatch {
        icy_info: None,
        nts_show: None,
        nts_tag: None,
        nts_url: None,
        vibra_rec: Some("Artist \u{2013} Song".into()),
    };
    let patched = patch_vds_text(&content, "b", &patch).unwrap();
    let rows = vds_rows(&patched, 10);
    assert_eq!(rows.len(), 2);
    assert_eq!(rows[0].vibra_rec, None);
    assert_eq!(rows[1].vibra_rec.as_deref(), Some("Artist \u{2013} Song"));
    assert_eq!(rows[1].station.as_deref(), Some("S2"));
    assert!(patch_vds_text(&content, "zzz", &patch).is_none());
}

#[test]
fn hex16_pads_and_uses_lowercase() {
    assert_eq!(hex16(0), "0000000000000000");
    assert_eq!(hex16(0xab), "00000000000000ab");
    assert_eq!(hex16(u64::MAX), "ffffffffffffffff");
    assert_eq!(hex16(0x0123_4567_89ab_cdef), "0123456789abcdef");
}

#[test]
fn make_job_id_is_twelve_hex_digits_of_a_hash() {
    let a = make_job_id(Some(1_700_000_000_000_000_000), 1_700_000_000, Some("NTS 1"));
    assert_eq!(a.len(), 12);
    assert!(a.chars().all(|c| c.is_ascii_hexdigit() && !c.is_ascii_uppercase()));
    // the same inputs give the same id
    assert_eq!(a, make_job_id(Some(1_700_000_000_000_000_000), 1_700_000_000, Some("NTS 1")));
    // the id is a hash, not the time written out
    let plain = make_job_id(Some(5), 0, None);
    assert_ne!(plain, hex16(5)[..12].to_string());
    // without nanoseconds the seconds are hashed
    assert_eq!(make_job_id(None, 5, None), plain);
    // the station takes part in the hash
    assert_ne!(make_job_id(Some(5), 0, Some("a")), plain);
}
