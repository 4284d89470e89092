//! The main menu: what each answer selects, and the loop's decisions.

use vstd::prelude::*;
use crate::text::{law_line_break_ignored, trim_text, trimmed};

verus! {

/// A report screen.
#[derive(Clone, Copy, Debug, PartialEq, Eq, Structural)]
pub enum Section {
    System,
    Cpu,
    Memory,
    Gpu,
    Storage,
    Network,
    Tasks,
    Debug,
}

/// What an answer at the menu asks for.
#[derive(Clone, Copy, Debug, PartialEq, Eq, Structural)]
pub enum Choice {
    /// `1`: every report except the debug context.
    All,
    /// `2` to `9`: one report.
    One(Section),
    /// `0`, `exit` or `q`.
    Exit,
    /// Anything else.
    Invalid,
}

/// The choice that a trimmed answer makes.
pub open spec fn choice_of(answer: Seq<char>) -> Choice {
    if answer == "1"@ {
        Choice::All
    } else if answer == "2"@ {
        Choice::One(Section::System)
    } else if answer == "3"@ {
        Choice::One(Section::Cpu)
    } else if answer == "4"@ {
        Choice::One(Section::Memory)
    } else if answer == "5"@ {
        Choice::One(Section::Gpu)
    } else if answer == "6"@ {
        Choice::One(Section::Storage)
    } else if answer == "7"@ {
        Choice::One(Section::Network)
    } else if answer == "8"@ {
        Choice::One(Section::Tasks)
    } else if answer == "9"@ {
        Choice::One(Section::Debug)
    } else if answer == "0"@ || answer == "exit"@ || answer == "q"@ {
        Choice::Exit
    } else {
        Choice::Invalid
    }
}

/// The reports a choice shows, in order.
pub open spec fn sections_of(choice: Choice) -> Seq<Section> {
    match choice {
        Choice::All => seq![
            Section::System,
            Section::Cpu,
            Section::Memory,
            Section::Gpu,
            Section::Storage,
            Section::Network,
            Section::Tasks,
        ],
        Choice::One(s) => seq![s],
        _ => Seq::empty(),
    }
}

/// Whether two texts are equal.
pub fn same_text(a: &str, b: &str) -> (r: bool)
    ensures
        r == (a@ == b@),
{
    let n = a.unicode_len();
    if n != b.unicode_len() {
        return false;
    }
    let mut i: usize = 0;
    while i < n
        invariant
            n == a@.len(),
            n == b@.len(),
            i <= n,
            forall|k: int| 0 <= k < i ==> a@[k] == b@[k],
        decreases n - i,
    {
        if a.get_char(i) != b.get_char(i) {
            return false;
        }
        i = i + 1;
    }
    assert(a@ =~= b@);
    true
}

/// The choice that an already trimmed answer makes.
pub fn choice_from_trimmed(answer: &str) -> (c: Choice)
    ensures
        c == choice_of(answer@),
{
    if same_text(answer, "1") {
        Choice::All
    } else if same_text(answer, "2") {
        Choice::One(Section::System)
    } else if same_text(answer, "3") {
        Choice::One(Section::Cpu)
    } else if same_text(answer, "4") {
        Choice::One(Section::Memory)
    } else if same_text(answer, "5") {
        Choice::One(Section::Gpu)
    } else if same_text(answer, "6") {
        Choice::One(Section::Storage)
    } else if same_text(answer, "7") {
        Choice::One(Section::Network)
    } else if same_text(answer, "8") {
        Choice::One(Section::Tasks)
    } else if same_text(answer, "9") {
        Choice::One(Section::Debug)
    } else if same_text(answer, "0") || same_text(answer, "exit") || same_text(answer, "q") {
        Choice::Exit
    } else {
        Choice::Invalid
    }
}

/// The choice that a line typed at the menu makes, once surrounding white
/// space (the line break among it) is trimmed.
pub fn parse_choice(input: &str) -> (c: Choice)
    ensures
        c == choice_of(trimmed(input@)),
{
    choice_from_trimmed(trim_text(input))
}

/// The reports a choice shows, in order.
pub fn sections_for(choice: Choice) -> (v: Vec<Section>)
    ensures
        v@ == sections_of(choice),
{
    match choice {
        Choice::All => vec![
            Section::System,
            Section::Cpu,
            Section::Memory,
            Section::Gpu,
            Section::Storage,
            Section::Network,
            Section::Tasks,
        ],
        Choice::One(s) => vec![s],
        _ => Vec::new(),
    }
}

/// What the menu loop does after trying to read an answer.
#[derive(Clone, Copy, Debug, PartialEq, Eq, Structural)]
pub enum Step {
    /// Reading failed: leave the loop at once.
    Stop,
    /// Refresh the readings, clear the screen, say goodbye and leave.
    Quit,
    /// Refresh the readings, clear the screen, show the chosen reports and
    /// wait for Enter.
    Show(Choice),
    /// Refresh the readings, clear the screen, say the answer is invalid and
    /// wait for Enter.
    Reject,
}

/// The step that follows a read: `None` when reading failed, else the
/// trimmed answer.
pub open spec fn step_of(answer: Option<Seq<char>>) -> Step {
    match answer {
        None => Step::Stop,
        Some(a) => match choice_of(a) {
            Choice::Exit => Step::Quit,
            Choice::Invalid => Step::Reject,
            c => Step::Show(c),
        },
    }
}

/// Whether the readings are refreshed and the screen cleared before the step.
pub open spec fn refreshes(step: Step) -> bool {
    step != Step::Stop
}

/// Whether the loop waits for Enter after the step and then shows the menu again.
pub open spec fn continues(step: Step) -> bool {
    step is Show || step is Reject
}

/// The step after a read: `read` is the line read, or `None` when reading
/// failed.  The loop goes on unless reading fails or the answer is an
/// exit word.
pub fn next_step(read: Option<&str>) -> (s: Step)
    ensures
        s == step_of(match read {
            Some(line) => Some(trimmed(line@)),
            None => None,
        }),
        continues(s) <==> (read is Some && choice_of(trimmed(read->0@)) != Choice::Exit),
        refreshes(s) <==> read is Some,
{
    match read {
        None => Step::Stop,
        Some(line) => match parse_choice(line) {
            Choice::Exit => Step::Quit,
            Choice::Invalid => Step::Reject,
            c => Step::Show(c),
        },
    }
}


/// The menu key of a report.
pub open spec fn key_of(s: Section) -> Seq<char> {
    match s {
        Section::System => "2"@,
        Section::Cpu => "3"@,
        Section::Memory => "4"@,
        Section::Gpu => "5"@,
        Section::Storage => "6"@,
        Section::Network => "7"@,
        Section::Tasks => "8"@,
        Section::Debug => "9"@,
    }
}

/// Every report has a key of its own that shows just that report (also
/// when typed with its line break), and the
/// full run (`1`) shows every report but the debug context, each once.
pub proof fn law_each_report_reachable(s: Section)
    ensures
        choice_of(key_of(s)) == Choice::One(s),
        choice_of(trimmed(key_of(s).push('\n'))) == Choice::One(s),
        sections_of(Choice::One(s)) == seq![s],
        sections_of(Choice::All).contains(s) <==> s != Section::Debug,
        sections_of(Choice::All).no_duplicates(),
        sections_of(Choice::All) == seq![
            Section::System,
            Section::Cpu,
            Section::Memory,
            Section::Gpu,
            Section::Storage,
            Section::Network,
            Section::Tasks,
        ],
{
    reveal_strlit("0");
    reveal_strlit("1");
    reveal_strlit("2");
    reveal_strlit("3");
    reveal_strlit("4");
    reveal_strlit("5");
    reveal_strlit("6");
    reveal_strlit("7");
    reveal_strlit("8");
    reveal_strlit("9");
    reveal_strlit("exit");
    reveal_strlit("q");
    assert("0"@[0] == '0' && "1"@[0] == '1' && "2"@[0] == '2' && "3"@[0] == '3' && "4"@[0] == '4');
    assert("5"@[0] == '5' && "6"@[0] == '6' && "7"@[0] == '7' && "8"@[0] == '8' && "9"@[0] == '9');
    assert("q"@[0] == 'q' && "exit"@.len() == 4);
    law_line_break_ignored(key_of(s));
    assert(trimmed(key_of(s)) == key_of(s));
    let all = sections_of(Choice::All);
    if s != Section::Debug {
        let i: int = match s {
            Section::System => 0,
            Section::Cpu => 1,
            Section::Memory => 2,
            Section::Gpu => 3,
            Section::Storage => 4,
            Section::Network => 5,
            Section::Tasks => 6,
            Section::Debug => 7,
        };
        assert(all[i] == s);
    }
}

/// Only a read failure or an exit word ends the loop; an exit word ends
/// it after the screen is refreshed and cleared, and every other answer,
/// valid or not, brings the menu back.
pub proof fn law_loop_ends_only_on_exit(answer: Option<Seq<char>>)
    ensures
        !continues(step_of(answer)) <==> (answer is None || choice_of(answer->0) == Choice::Exit),
        step_of(answer) == Step::Quit ==> refreshes(step_of(answer)),
{
}

/// The exit words are `0`, `exit` and `q`, and nothing else; `1` to `9`
/// each show something; an empty answer is invalid.
pub proof fn law_exit_words(answer: Seq<char>)
    ensures
        choice_of(answer) == Choice::Exit <==> (answer == "0"@ || answer == "exit"@ || answer == "q"@),
        choice_of(answer) is Invalid <==> !(answer == "0"@ || answer == "exit"@ || answer == "q"@
            || answer == "1"@ || answer == "2"@ || answer == "3"@ || answer == "4"@ || answer == "5"@
            || answer == "6"@ || answer == "7"@ || answer == "8"@ || answer == "9"@),
        choice_of(Seq::empty()) is Invalid,
{
    reveal_strlit("0");
    reveal_strlit("1");
    reveal_strlit("2");
    reveal_strlit("3");
    reveal_strlit("4");
    reveal_strlit("5");
    reveal_strlit("6");
    reveal_strlit("7");
    reveal_strlit("8");
    reveal_strlit("9");
    reveal_strlit("exit");
    reveal_strlit("q");
    assert("0"@.len() == 1 && "1"@.len() == 1 && "2"@.len() == 1 && "3"@.len() == 1);
    assert("4"@.len() == 1 && "5"@.len() == 1 && "6"@.len() == 1 && "7"@.len() == 1);
    assert("8"@.len() == 1 && "9"@.len() == 1 && "q"@.len() == 1 && "exit"@.len() == 4);
    assert("0"@[0] == '0' && "1"@[0] == '1' && "2"@[0] == '2' && "3"@[0] == '3' && "4"@[0] == '4');
    assert("5"@[0] == '5' && "6"@[0] == '6' && "7"@[0] == '7' && "8"@[0] == '8' && "9"@[0] == '9');
    assert("q"@[0] == 'q' && "exit"@[0] == 'e');
}

} // verus!
