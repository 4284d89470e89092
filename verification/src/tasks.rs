//! The process table: the busiest processes first, at most fifteen rows.

use vstd::prelude::*;
use crate::layout::{field, header, owned, plain, plain_seg, push_line, section_header, text_line, text_seg, tinted, tinted_seg};
use crate::paint::{Hue, Line, Paint, Piece, Segment, lines_view};
use crate::text::{can_shorten, decimal, decimal_text, display_name, pad_left, pad_left_text, push_repeated, repeated, shorten_name};
use crate::units::{bytes_text, format_bytes};

verus! {

/// The most rows the table shows.
pub const MAX_ROWS: usize = 15;

/// A process, as the table shows it.
#[derive(Debug)]
pub struct TaskInfo {
    pub pid: u32,
    pub name: String,
    /// The CPU load as the host formatted it (`{:>8.1}`).
    pub cpu_text: String,
    /// Memory in bytes.
    pub memory: u64,
}

/// A horizontal rule of the table: `left`, then column rules of 8, 32, 12
/// and 14 characters joined by `mid`, then `right`.
pub open spec fn rule(left: Seq<char>, mid: Seq<char>, right: Seq<char>) -> Seq<char> {
    "  "@ + left + repeated("─"@, 8) + mid + repeated("─"@, 32) + mid + repeated("─"@, 12) + mid
        + repeated("─"@, 14) + right
}

/// The column titles.
pub open spec fn title_row() -> Seq<Piece> {
    seq![
        plain("  │ "@),
        field("PID"@, 6),
        plain(" │ "@),
        field("PROCESS NAME"@, 30),
        plain(" │ "@),
        field("CPU %"@, 10),
        plain(" │ "@),
        field("MEMORY"@, 12),
        plain(" │"@),
    ]
}

/// The row of a process.
pub open spec fn task_row(t: TaskInfo) -> Seq<Piece> {
    seq![
        plain("  │ "@),
        tinted(decimal(t.pid as nat), Some(Hue::Cyan), false, 6),
        plain(" │ "@),
        field(display_name(t.name@), 30),
        plain(" │ "@ + t.cpu_text@ + "%  │ "@ + pad_left(bytes_text(t.memory as nat), 12) + " │"@),
    ]
}

/// The rows of the processes given.
pub open spec fn task_rows(tasks: Seq<TaskInfo>) -> Seq<Seq<Piece>>
    decreases tasks.len(),
{
    if tasks.len() == 0 {
        Seq::empty()
    } else {
        task_rows(tasks.drop_last()).push(task_row(tasks.last()))
    }
}

/// The number of rows shown for `n` processes.
pub open spec fn shown_rows(n: nat) -> nat {
    if n < MAX_ROWS {
        n
    } else {
        MAX_ROWS as nat
    }
}

/// The process table for processes already ordered busiest first.
pub open spec fn task_report(tasks: Seq<TaskInfo>) -> Seq<Seq<Piece>> {
    header("ACTIVE PROCESSES (TOP 15 BY CPU)"@) + seq![
        seq![plain(rule("┌"@, "┬"@, "┐"@))],
        title_row(),
        seq![plain(rule("├"@, "┼"@, "┤"@))],
    ] + task_rows(tasks.subrange(0, shown_rows(tasks.len()) as int)) + seq![
        seq![plain(rule("└"@, "┴"@, "┘"@))],
    ]
}

/// Every process that the table shows has a name that can be shortened.
pub open spec fn names_fit(tasks: Seq<TaskInfo>) -> bool {
    forall|i: int| 0 <= i < shown_rows(tasks.len()) ==> can_shorten(#[trigger] tasks[i].name@)
}

/// A horizontal rule (see `rule`).
fn rule_line(left: &str, mid: &str, right: &str) -> (l: Line)
    ensures
        l@ == seq![plain(rule(left@, mid@, right@))],
{
    let mut t = owned("  ");
    t.append(left);
    push_repeated(&mut t, "─", 8);
    t.append(mid);
    push_repeated(&mut t, "─", 32);
    t.append(mid);
    push_repeated(&mut t, "─", 12);
    t.append(mid);
    push_repeated(&mut t, "─", 14);
    t.append(right);
    text_line(t)
}

fn fixed(text: &str, width: usize) -> (s: Segment)
    ensures
        s@ == field(text@, width as nat),
{
    Segment { text: owned(text), paint: Paint { hue: None, bold: false }, width }
}

fn title_row_line() -> (l: Line)
    ensures
        l@ == title_row(),
{
    let parts = vec![
        text_seg("  │ "),
        fixed("PID", 6),
        text_seg(" │ "),
        fixed("PROCESS NAME", 30),
        text_seg(" │ "),
        fixed("CPU %", 10),
        text_seg(" │ "),
        fixed("MEMORY", 12),
        text_seg(" │"),
    ];
    let l = Line { segments: parts };
    assert(l@ =~= title_row());
    l
}

fn task_row_line(t: &TaskInfo) -> (l: Line)
    requires
        can_shorten(t.name@),
    ensures
        l@ == task_row(*t),
{
    let pid = tinted_seg(decimal_text(t.pid as u64), Some(Hue::Cyan), false, 6);
    let name = Segment { text: shorten_name(t.name.as_str()), paint: Paint { hue: None, bold: false }, width: 30 };
    let mut rest = owned(" │ ");
    rest.append(t.cpu_text.as_str());
    rest.append("%  │ ");
    let mem = format_bytes(t.memory);
    rest.append(pad_left_text(mem.as_str(), 12).as_str());
    rest.append(" │");
    let parts = vec![text_seg("  │ "), pid, text_seg(" │ "), name, plain_seg(rest)];
    let l = Line { segments: parts };
    assert(l@ =~= task_row(*t));
    l
}

/// The process table's lines, for processes already ordered busiest first;
/// the first fifteen are shown.  The table has a header of three lines,
/// three lines of rules and titles, a row per process shown and a closing rule.
pub fn task_report_lines(tasks: &Vec<TaskInfo>) -> (lines: Vec<Line>)
    requires
        names_fit(tasks@),
    ensures
        lines_view(lines@) == task_report(tasks@),
        lines@.len() == 7 + shown_rows(tasks@.len()),
        shown_rows(tasks@.len()) <= MAX_ROWS,
{
    let mut lines = section_header("ACTIVE PROCESSES (TOP 15 BY CPU)");
    push_line(&mut lines, rule_line("┌", "┬", "┐"));
    push_line(&mut lines, title_row_line());
    push_line(&mut lines, rule_line("├", "┼", "┤"));
    let ghost prefix = lines_view(lines@);
    let n = if tasks.len() < MAX_ROWS {
        tasks.len()
    } else {
        MAX_ROWS
    };
    let mut i: usize = 0;
    while i < n
        invariant
            n == shown_rows(tasks@.len()),
            n <= tasks@.len(),
            i <= n,
            names_fit(tasks@),
            lines_view(lines@) == prefix + task_rows(tasks@.subrange(0, i as int)),
        decreases n - i,
    {
        assert(can_shorten(tasks@[i as int].name@));
        push_line(&mut lines, task_row_line(&tasks[i]));
        proof {
            let s = tasks@.subrange(0, i + 1);
            assert(s.drop_last() =~= tasks@.subrange(0, i as int));
            assert(lines_view(lines@) =~= prefix + task_rows(s));
        }
        i = i + 1;
    }
    push_line(&mut lines, rule_line("└", "┴", "┘"));
    proof {
        lemma_task_rows_len(tasks@.subrange(0, n as int));
        assert(lines_view(lines@) =~= task_report(tasks@));
        assert(lines@.len() == lines_view(lines@).len());
    }
    lines
}

/// One row per process.
pub proof fn lemma_task_rows_len(tasks: Seq<TaskInfo>)
    ensures
        task_rows(tasks).len() == tasks.len(),
    decreases tasks.len(),
{
    if tasks.len() > 0 {
        lemma_task_rows_len(tasks.drop_last());
    }
}


/// The rows of `task_rows` follow the processes one for one.
proof fn lemma_task_rows_index(tasks: Seq<TaskInfo>)
    ensures
        task_rows(tasks).len() == tasks.len(),
        forall|k: int| 0 <= k < tasks.len() ==> task_rows(tasks)[k] == task_row(#[trigger] tasks[k]),
    decreases tasks.len(),
{
    if tasks.len() > 0 {
        lemma_task_rows_index(tasks.drop_last());
        assert forall|k: int| 0 <= k < tasks.len() implies task_rows(tasks)[k] == task_row(
            #[trigger] tasks[k],
        ) by {
            if k < tasks.len() - 1 {
                assert(tasks.drop_last()[k] == tasks[k]);
            }
        }
    }
}

/// The table shows the first fifteen processes given (all when fewer), in
/// the order given, so the busiest comes first: row `k` is process `k`,
/// with its id in cyan, its name cut to 30 bytes, its load and its memory
/// right-aligned in 12; the rules and titles come before the rows and a
/// closing rule after them.
pub proof fn law_task_table_rows_in_order(tasks: Seq<TaskInfo>)
    ensures
        task_report(tasks).len() == 7 + shown_rows(tasks.len()),
        shown_rows(tasks.len()) == if tasks.len() < 15 {
            tasks.len()
        } else {
            15
        },
        task_report(tasks)[3] == seq![plain(rule("┌"@, "┬"@, "┐"@))],
        task_report(tasks)[4] == title_row(),
        task_report(tasks)[5] == seq![plain(rule("├"@, "┼"@, "┤"@))],
        task_report(tasks)[6 + shown_rows(tasks.len()) as int] == seq![plain(rule("└"@, "┴"@, "┘"@))],
        forall|k: int|
            #![trigger tasks[k]]
            0 <= k < shown_rows(tasks.len()) ==> task_report(tasks)[6 + k] == seq![
                plain("  │ "@),
                tinted(decimal(tasks[k].pid as nat), Some(Hue::Cyan), false, 6),
                plain(" │ "@),
                field(display_name(tasks[k].name@), 30),
                plain(
                    " │ "@ + tasks[k].cpu_text@ + "%  │ "@ + pad_left(bytes_text(tasks[k].memory as nat), 12)
                        + " │"@,
                ),
            ],
{
    let n = shown_rows(tasks.len());
    let shown = tasks.subrange(0, n as int);
    lemma_task_rows_index(shown);
    assert forall|k: int| #![trigger tasks[k]] 0 <= k < n implies task_report(tasks)[6 + k] == seq![
        plain("  │ "@),
        tinted(decimal(tasks[k].pid as nat), Some(Hue::Cyan), false, 6),
        plain(" │ "@),
        field(display_name(tasks[k].name@), 30),
        plain(
            " │ "@ + tasks[k].cpu_text@ + "%  │ "@ + pad_left(bytes_text(tasks[k].memory as nat), 12)
                + " │"@,
        ),
    ] by {
        assert(shown[k] == tasks[k]);
        assert(task_report(tasks)[6 + k] == task_rows(shown)[k]);
    }
}

} // verus!
