use r4dio::nts::NtsShowText;
use r4dio::ui::app_state::{NtsChannel, NtsShow};
use r4dio::ui::nts_lines::{build_left_lines, build_lines, build_right_lines, fmt_time_range};
use r4dio::ui::nts_panel::NtsPanel;

fn show(title: &str, start: (u32, u32), end: (u32, u32)) -> NtsShow {
    NtsShow {
        text: NtsShowText {
            broadcast_title: title.to_string(),
            location_short: String::new(),
            location_long: String::new(),
            description: String::new(),
            genres: Vec::new(),
            moods: Vec::new(),
            is_replay: false,
        },
        start,
        end,
    }
}

fn texts(lines: &[Vec<String>]) -> Vec<String> {
    lines.iter().map(|l| l.concat()).collect()
}

#[test]
fn time_ranges() {
    assert_eq!(fmt_time_range(&show("x", (9, 5), (11, 0))), "09:05 – 11:00");
    assert_eq!(fmt_time_range(&show("x", (23, 30), (0, 0))), "23:30 – 00:00");
}

#[test]
fn full_pane_lines() {
    let mut now = show("Morning (R)", (9, 0), (11, 0));
    now.text.is_replay = true;
    now.text.location_long = "London".into();
    now.text.location_short = "LDN".into();
    now.text.genres = vec!["Jazz".into(), "Soul".into()];
    now.text.moods = vec!["Warm".into()];
    now.text.description = "A slow start.".into();
    let mut next = show("Afternoon", (11, 0), (13, 0));
    next.text.location_short = "LA".into();
    next.text.moods = vec!["Dub".into()];
    next.text.genres = vec!["Reggae".into()];
    let ch = NtsChannel { now, upcoming: vec![next, show("Evening", (13, 0), (15, 0))] };
    assert_eq!(
        texts(&build_lines(&ch, 40)),
        vec![
            " (R) Morning (R)",
            "   09:00 – 11:00  ·  London",
            "   Jazz · Soul",
            "   Warm",
            "",
            "   A slow start.",
            "",
            " upcoming",
            "   11:00 – 13:00  Afternoon  LA  Dub · Reggae",
            "   13:00 – 15:00  Evening",
        ]
    );
    let bare = NtsChannel { now: show("Solo", (1, 2), (3, 4)), upcoming: Vec::new() };
    assert_eq!(texts(&build_lines(&bare, 40)), vec![" ● Solo", "   01:02 – 03:04"]);
}

#[test]
fn compact_columns_match_the_popup_height() {
    let mut now = show("A very long show title that needs wrapping", (20, 0), (22, 0));
    now.text.location_short = "Paris".into();
    now.text.description = "Line one.\nLine two.".into();
    let upcoming: Vec<NtsShow> = (0..10).map(|i| show(&format!("S{}", i), (i, 0), (i + 1, 0))).collect();
    let left = build_left_lines(&now, 20);
    assert_eq!(
        texts(&left),
        vec![
            "● A very long show",
            "  title that needs",
            "  wrapping",
            "20:00 – 22:00  ·  Paris",
            "",
            "Line one.",
            "Line two.",
        ]
    );
    let right = build_right_lines(&upcoming);
    assert_eq!(right.len(), 9);
    assert_eq!(texts(&right)[0], "upcoming");
    assert_eq!(texts(&right)[1], "00:00 – 01:00  S0");
    assert_eq!(texts(&build_right_lines(&Vec::new())), vec!["upcoming", "—"]);
    // inner width 35: the left column is 20 wide
    let ch = NtsChannel { now, upcoming };
    let p = NtsPanel::new(0);
    assert_eq!(p.compact_content_height(&ch, 35) as usize, left.len().max(right.len()));
}
