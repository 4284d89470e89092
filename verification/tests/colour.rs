use colored::Colorize;
use diagnostics::bar::{render_bar, Level};
use diagnostics::console::menu_lines;
use diagnostics::layout::section_header;
use diagnostics::paint::{render_line, render_report, render_segment, Hue, Line, Paint, Segment};

fn seg(text: &str, hue: Option<Hue>, bold: bool, width: usize) -> Segment {
    Segment { text: text.to_string(), paint: Paint { hue, bold }, width }
}

#[test]
fn coloured_segments_carry_escape_sequences() {
    colored::control::set_override(true);
    assert_eq!(render_segment(&seg("up", Some(Hue::Green), false, 0)), "\x1B[32mup\x1B[0m");
    assert_eq!(render_segment(&seg("up", Some(Hue::Cyan), true, 4)), "\x1B[1;36mup  \x1B[0m");
    assert_eq!(render_segment(&seg("up", None, true, 0)), "\x1B[1mup\x1B[0m");
    assert_eq!(render_segment(&seg("up", None, false, 4)), "up  ");
    assert_eq!(render_segment(&seg("x", Some(Hue::Magenta), true, 0)), format!("{}", "x".bold().magenta()));
    assert_eq!(render_segment(&seg("x", Some(Hue::Blue), true, 0)), format!("{}", "x".bold().blue()));
    assert_eq!(render_segment(&seg("x", Some(Hue::White), true, 0)), format!("{}", "x".bold().white()));
    assert_eq!(render_segment(&seg("x", Some(Hue::Yellow), false, 0)), format!("{}", "x".yellow()));
    assert_eq!(render_segment(&seg("x", Some(Hue::Red), true, 0)), format!("{}", "x".red().bold()));
}

#[test]
fn coloured_header_matches_colored_formatting() {
    colored::control::set_override(true);
    let lines = render_report(&section_header("CPU"));
    assert_eq!(lines[1], format!("  │  {:<64}│", "CPU".bold().cyan()));
}

#[test]
fn coloured_bar() {
    colored::control::set_override(true);
    let line = Line { segments: vec![render_bar(2, 4, Level::Elevated)] };
    assert_eq!(render_line(&line), format!("{}", "[■■  ]".yellow()));
}

#[test]
fn coloured_menu_keys() {
    colored::control::set_override(true);
    let lines = render_report(&menu_lines());
    assert_eq!(lines[3], format!("  ║  [{}]  Run Full System Diagnostics (All)        ║", "1".green().bold()));
    assert_eq!(lines[11], format!("  ║  [{}]  Debug Mode (Diagnostics Context)         ║", "9".yellow().bold()));
    assert_eq!(lines[12], format!("  ║  [{}]  Exit                                     ║", "0".red().bold()));
}

#[test]
fn inner_resets_reopen_the_colour() {
    colored::control::set_override(true);
    let text = "a\x1B[0mb";
    assert_eq!(render_segment(&seg(text, Some(Hue::Green), false, 0)), format!("{}", text.green()));
    assert_eq!(render_segment(&seg(text, Some(Hue::Green), false, 0)), "\x1B[32ma\x1B[0m\x1B[32mb\x1B[0m");
    assert_eq!(render_segment(&seg(text, None, true, 8)), format!("{:<8}", text.bold()));
}
