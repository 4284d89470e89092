use diagnostics::text::{decimal_text, pad_left_text, pad_right_text, push_repeated, shorten_name};

#[test]
fn decimal_text_numbers() {
    assert_eq!(decimal_text(0), "0");
    assert_eq!(decimal_text(9), "9");
    assert_eq!(decimal_text(10), "10");
    assert_eq!(decimal_text(4096), "4096");
    assert_eq!(decimal_text(u64::MAX), u64::MAX.to_string());
}

#[test]
fn padding_matches_format_widths() {
    assert_eq!(pad_right_text("PID", 6), format!("{:<6}", "PID"));
    assert_eq!(pad_right_text("toolong", 3), "toolong");
    assert_eq!(pad_left_text("1.00 KB", 12), format!("{:>12}", "1.00 KB"));
    assert_eq!(pad_right_text("é", 3), format!("{:<3}", "é"));
    assert_eq!(pad_left_text("", 2), "  ");
}

#[test]
fn repeat_units() {
    let mut s = String::from("[");
    push_repeated(&mut s, "■", 3);
    push_repeated(&mut s, " ", 2);
    assert_eq!(s, "[■■■  ");
}

#[test]
fn short_names_unchanged() {
    assert_eq!(shorten_name("systemd"), "systemd");
    let thirty = "a".repeat(30);
    assert_eq!(shorten_name(&thirty), thirty);
}

#[test]
fn long_names_cut_to_27_bytes() {
    let long = "abcdefghijklmnopqrstuvwxyz0123456789";
    assert_eq!(shorten_name(long), "abcdefghijklmnopqrstuvwxyz0...");
    assert_eq!(shorten_name(long).len(), 30);
}

#[test]
fn long_names_cut_between_characters() {
    // One ASCII byte and fifteen two-byte characters: 31 bytes, and byte 27 ends a character.
    let name = format!("a{}", "é".repeat(15));
    assert_eq!(name.len(), 31);
    let shown = shorten_name(&name);
    assert_eq!(shown, format!("a{}...", "é".repeat(13)));
    assert!(shown.len() <= 30);
}

use diagnostics::text::{trim_text, white_space};

#[test]
fn white_space_matches_std() {
    for code in 0u32..0x11000 {
        if let Some(c) = char::from_u32(code) {
            assert_eq!(white_space(c), c.is_whitespace(), "U+{:04X}", code);
        }
    }
}

#[test]
fn trim_matches_std() {
    let samples = [
        "", " ", "3\n", "  2  \r\n", "\u{3000}a b\u{85}", "\u{a0}x", "x\u{2029}", "\u{200b}y", "no-space",
        "\t\n\u{b}\u{c}\r", "é é ",
    ];
    for s in samples {
        assert_eq!(trim_text(s), s.trim(), "{:?}", s);
    }
}
