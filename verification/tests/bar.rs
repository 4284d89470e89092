use diagnostics::bar::{render_bar, Level, CORE_BAR, VOLUME_BAR, WIDE_BAR};
use diagnostics::paint::Hue;

#[test]
fn half_full_bar() {
    let s = render_bar(12, 24, Level::Normal);
    assert_eq!(s.text, format!("[{}{}]", "■".repeat(12), " ".repeat(12)));
    assert_eq!(s.paint.hue, Some(Hue::Green));
    assert!(!s.paint.bold);
    assert_eq!(s.width, 0);
}

#[test]
fn bar_levels_pick_colours() {
    assert_eq!(render_bar(0, 18, Level::Normal).paint.hue, Some(Hue::Green));
    assert_eq!(render_bar(13, 18, Level::Elevated).paint.hue, Some(Hue::Yellow));
    assert_eq!(render_bar(18, 18, Level::Critical).paint.hue, Some(Hue::Red));
}

#[test]
fn bar_edges() {
    assert_eq!(render_bar(0, 3, Level::Normal).text, "[   ]");
    assert_eq!(render_bar(3, 3, Level::Critical).text, "[■■■]");
    // A fill beyond the width leaves no empty cell.
    assert_eq!(render_bar(5, 3, Level::Critical).text, "[■■■■■]");
    assert_eq!(render_bar(0, 0, Level::Normal).text, "[]");
}

#[test]
fn bar_widths() {
    assert_eq!(WIDE_BAR, 24);
    assert_eq!(CORE_BAR, 18);
    assert_eq!(VOLUME_BAR, 20);
    assert_eq!(render_bar(7, WIDE_BAR, Level::Normal).text.chars().count(), WIDE_BAR + 2);
}
