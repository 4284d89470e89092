//! The menu screen and the loop's messages.

use vstd::prelude::*;
use crate::layout::{owned, plain, push_line, text_line, text_seg, tinted, tinted_seg};
use crate::paint::{Hue, Line, Piece, lines_view};
use crate::text::{push_repeated, repeated};

verus! {

/// The terminal sequence that clears the screen and homes the cursor.
pub open spec fn clear_sequence() -> Seq<char> {
    "\x1B[2J\x1B[1;1H"@
}

/// A rule of the menu box: `left`, 50 `═`, `right`.
pub open spec fn menu_rule(left: Seq<char>, right: Seq<char>) -> Seq<char> {
    "  "@ + left + repeated("═"@, 50) + right
}

/// A menu entry: the key in bold `hue` between brackets, then the label.
pub open spec fn menu_entry(key: Seq<char>, hue: Hue, label: Seq<char>) -> Seq<Piece> {
    seq![plain("  ║  ["@), tinted(key, Some(hue), true, 0), plain("]  "@ + label + "║"@)]
}

/// The menu screen (the prompt follows on the same line; see `prompt`).
pub open spec fn menu_screen() -> Seq<Seq<Piece>> {
    seq![
        seq![plain(menu_rule("╔"@, "╗"@))],
        seq![
            plain("  ║           "@),
            tinted("PC HARDWARE & SYSTEM DIAGNOSTICS"@, Some(Hue::White), true, 0),
            plain("           ║"@),
        ],
        seq![plain(menu_rule("╠"@, "╣"@))],
        menu_entry("1"@, Hue::Green, "Run Full System Diagnostics (All)        "@),
        menu_entry("2"@, Hue::Green, "System, OS & Motherboard                 "@),
        menu_entry("3"@, Hue::Green, "Processor (CPU) Status                   "@),
        menu_entry("4"@, Hue::Green, "Memory (RAM & Swap) Status               "@),
        menu_entry("5"@, Hue::Green, "Graphics (GPU & Display Drivers)         "@),
        menu_entry("6"@, Hue::Green, "Storage (Drives, Partitions, CD)         "@),
        menu_entry("7"@, Hue::Green, "Network Adapters & Traffic               "@),
        menu_entry("8"@, Hue::Green, "Active Tasks (Processes by CPU)          "@),
        menu_entry("9"@, Hue::Yellow, "Debug Mode (Diagnostics Context)         "@),
        menu_entry("0"@, Hue::Red, "Exit                                     "@),
        seq![plain(menu_rule("╚"@, "╝"@))],
    ]
}

/// The terminal sequence that clears the screen.
pub fn clear_screen() -> (r: String)
    ensures
        r@ == clear_sequence(),
{
    owned("\x1B[2J\x1B[1;1H")
}

fn menu_rule_line(left: &str, right: &str) -> (l: Line)
    ensures
        l@ == seq![plain(menu_rule(left@, right@))],
{
    let mut t = owned("  ");
    t.append(left);
    push_repeated(&mut t, "═", 50);
    t.append(right);
    text_line(t)
}

fn entry_line(key: &str, hue: Hue, label: &str) -> (l: Line)
    ensures
        l@ == menu_entry(key@, hue, label@),
{
    let mut rest = owned("]  ");
    rest.append(label);
    rest.append("║");
    let a = text_seg("  ║  [");
    let b = tinted_seg(owned(key), Some(hue), true, 0);
    let c = crate::layout::plain_seg(rest);
    let l = crate::layout::line3(a, b, c);
    assert(l@ =~= menu_entry(key@, hue, label@));
    l
}

/// The menu screen's lines.
pub fn menu_lines() -> (lines: Vec<Line>)
    ensures
        lines_view(lines@) == menu_screen(),
{
    let mut lines: Vec<Line> = Vec::new();
    push_line(&mut lines, menu_rule_line("╔", "╗"));
    let title = crate::layout::line3(
        text_seg("  ║           "),
        tinted_seg(owned("PC HARDWARE & SYSTEM DIAGNOSTICS"), Some(Hue::White), true, 0),
        text_seg("           ║"),
    );
    push_line(&mut lines, title);
    push_line(&mut lines, menu_rule_line("╠", "╣"));
    push_line(&mut lines, entry_line("1", Hue::Green, "Run Full System Diagnostics (All)        "));
    push_line(&mut lines, entry_line("2", Hue::Green, "System, OS & Motherboard                 "));
    push_line(&mut lines, entry_line("3", Hue::Green, "Processor (CPU) Status                   "));
    push_line(&mut lines, entry_line("4", Hue::Green, "Memory (RAM & Swap) Status               "));
    push_line(&mut lines, entry_line("5", Hue::Green, "Graphics (GPU & Display Drivers)         "));
    push_line(&mut lines, entry_line("6", Hue::Green, "Storage (Drives, Partitions, CD)         "));
    push_line(&mut lines, entry_line("7", Hue::Green, "Network Adapters & Traffic               "));
    push_line(&mut lines, entry_line("8", Hue::Green, "Active Tasks (Processes by CPU)          "));
    push_line(&mut lines, entry_line("9", Hue::Yellow, "Debug Mode (Diagnostics Context)         "));
    push_line(&mut lines, entry_line("0", Hue::Red, "Exit                                     "));
    push_line(&mut lines, menu_rule_line("╚", "╝"));
    assert(lines_view(lines@) =~= menu_screen());
    lines
}

/// The prompt after the menu (printed without a line break).
pub fn prompt() -> (r: String)
    ensures
        r@ == "  Select an option [0-9]: "@,
{
    owned("  Select an option [0-9]: ")
}

/// The farewell printed when the user leaves.
pub fn farewell_line() -> (l: Line)
    ensures
        l@ == seq![plain("\n  Exiting diagnostics.\n"@)],
{
    text_line(owned("\n  Exiting diagnostics.\n"))
}

/// The message for an answer that selects nothing.
pub fn invalid_line() -> (l: Line)
    ensures
        l@ == seq![
            plain("\n  "@),
            tinted("Invalid selection. Please choose a number from 0 to 9."@, Some(Hue::Red), false, 0),
        ],
{
    crate::layout::line2(
        text_seg("\n  "),
        tinted_seg(owned("Invalid selection. Please choose a number from 0 to 9."), Some(Hue::Red), false, 0),
    )
}

/// The prompt that waits for Enter before the menu comes back (printed
/// without a line break).
pub fn pause_prompt() -> (r: String)
    ensures
        r@ == "\n  Press Enter to return to menu..."@,
{
    owned("\n  Press Enter to return to menu...")
}

} // verus!
