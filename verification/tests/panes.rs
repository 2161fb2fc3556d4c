use r4dio::ui::help_overlay::HelpOverlay;
use r4dio::ui::keys::{Key, Mouse};
use r4dio::ui::log_panel::LogPanel;
use r4dio::ui::nts_panel::NtsPanel;

#[test]
fn nts_panel_scrolls() {
    let mut p = NtsPanel::new(1);
    p.handle_key(Key::Char('j'));
    p.handle_key(Key::PageDown);
    assert_eq!(p.scroll, 11);
    p.handle_key(Key::Up);
    assert_eq!(p.scroll, 10);
    p.handle_key(Key::Char('l'));
    p.handle_key(Key::Right);
    assert_eq!(p.scroll_x, 8);
    p.handle_key(Key::Char('h'));
    assert_eq!(p.scroll_x, 4);
    p.handle_key(Key::PageUp);
    p.handle_key(Key::PageUp);
    assert_eq!(p.scroll, 0);
    p.handle_mouse(Mouse::ScrollDown, true);
    assert_eq!((p.scroll, p.scroll_x), (0, 8));
    p.handle_mouse(Mouse::ScrollDown, false);
    assert_eq!(p.scroll, 1);
    p.on_toggle_nts(0);
    assert_eq!((p.scroll, p.scroll_x), (1, 8));
    p.on_toggle_nts(1);
    assert_eq!((p.scroll, p.scroll_x), (0, 0));
    p.handle_key(Key::Char('j'));
    p.handle_key(Key::Home);
    assert_eq!((p.scroll, p.scroll_x), (0, 0));
}

#[test]
fn log_panel_follows_new_lines() {
    let mut p = LogPanel::new();
    // collapsed: keys do nothing
    p.handle_key(Key::Down);
    assert_eq!(p.scroll, 0);
    p.toggle();
    assert!(p.expanded);
    assert_eq!(p.scroll, usize::MAX);
    // 30 lines in a 10-row view: the bottom is offset 20
    p.settle_scroll(30, 10);
    assert_eq!(p.scroll, 20);
    assert_eq!(p.last_log_count, 30);
    // one more line while at the bottom: follow it
    p.settle_scroll(31, 10);
    assert_eq!(p.scroll, 21);
    // five more at once: the offset is checked against the new bottom
    // less one, so the view stays where it was
    p.settle_scroll(36, 10);
    assert_eq!(p.scroll, 21);
    // scrolled up: new lines do not move the view
    p.handle_key(Key::PageUp);
    assert_eq!(p.scroll, 11);
    p.settle_scroll(40, 10);
    assert_eq!(p.scroll, 11);
    p.handle_key(Key::End);
    p.settle_scroll(40, 10);
    assert_eq!(p.scroll, 30);
    p.handle_key(Key::Char('g'));
    assert_eq!(p.scroll, 0);
    p.handle_mouse(Mouse::ScrollDown);
    assert_eq!(p.scroll, 1);
    p.toggle();
    assert!(!p.expanded);
    p.handle_mouse(Mouse::ScrollDown);
    assert_eq!(p.scroll, 1);
}

#[test]
fn help_overlay_keys() {
    let mut h = HelpOverlay::new();
    assert!(!h.handle_key(Key::Char('q')));
    h.show();
    assert!(!h.handle_key(Key::Char('x')));
    assert!(h.visible);
    assert!(h.handle_key(Key::Esc));
    assert!(!h.visible);
    h.toggle();
    assert!(h.handle_key(Key::Char('?')));
}
