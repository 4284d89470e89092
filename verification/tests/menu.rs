use diagnostics::menu::{choice_from_trimmed, next_step, parse_choice, same_text, sections_for, Choice, Section, Step};

#[test]
fn digits_select_reports() {
    assert_eq!(parse_choice("1\n"), Choice::All);
    assert_eq!(parse_choice("2\n"), Choice::One(Section::System));
    assert_eq!(parse_choice("3\n"), Choice::One(Section::Cpu));
    assert_eq!(parse_choice("4\n"), Choice::One(Section::Memory));
    assert_eq!(parse_choice("5\n"), Choice::One(Section::Gpu));
    assert_eq!(parse_choice("6\n"), Choice::One(Section::Storage));
    assert_eq!(parse_choice("7\n"), Choice::One(Section::Network));
    assert_eq!(parse_choice("8\n"), Choice::One(Section::Tasks));
    assert_eq!(parse_choice("9\n"), Choice::One(Section::Debug));
}

#[test]
fn surrounding_white_space_is_ignored() {
    assert_eq!(parse_choice("  2  \r\n"), Choice::One(Section::System));
    assert_eq!(parse_choice("\texit\n"), Choice::Exit);
}

#[test]
fn exit_words() {
    assert_eq!(parse_choice("0\n"), Choice::Exit);
    assert_eq!(parse_choice("exit\n"), Choice::Exit);
    assert_eq!(parse_choice("q\n"), Choice::Exit);
    assert_eq!(parse_choice("Q\n"), Choice::Invalid);
    assert_eq!(parse_choice("quit\n"), Choice::Invalid);
}

#[test]
fn other_answers_are_invalid() {
    assert_eq!(parse_choice("\n"), Choice::Invalid);
    assert_eq!(parse_choice("10\n"), Choice::Invalid);
    assert_eq!(parse_choice("1 2\n"), Choice::Invalid);
    assert_eq!(choice_from_trimmed(" 1"), Choice::Invalid);
}

#[test]
fn full_run_shows_seven_reports() {
    assert_eq!(
        sections_for(Choice::All),
        vec![
            Section::System,
            Section::Cpu,
            Section::Memory,
            Section::Gpu,
            Section::Storage,
            Section::Network,
            Section::Tasks,
        ]
    );
    assert_eq!(sections_for(Choice::One(Section::Debug)), vec![Section::Debug]);
    assert!(sections_for(Choice::Exit).is_empty());
    assert!(sections_for(Choice::Invalid).is_empty());
}

#[test]
fn loop_steps() {
    assert_eq!(next_step(None), Step::Stop);
    assert_eq!(next_step(Some("q\n")), Step::Quit);
    assert_eq!(next_step(Some("exit\n")), Step::Quit);
    assert_eq!(next_step(Some("x\n")), Step::Reject);
    assert_eq!(next_step(Some("3\r\n")), Step::Show(Choice::One(Section::Cpu)));
    assert_eq!(next_step(Some("1\n")), Step::Show(Choice::All));
}

#[test]
fn text_equality() {
    assert!(same_text("exit", "exit"));
    assert!(!same_text("exit", "exi"));
    assert!(!same_text("a", "b"));
    assert!(same_text("", ""));
}
