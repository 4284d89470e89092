//! The memory report.

use vstd::prelude::*;
use crate::bar::{bar_piece, WIDE_BAR};
use crate::cpu::{load_line, load_line_of, Meter};
use crate::layout::{header, labelled, labelled_line, plain, plain_seg, push_line, section_header, tinted, tinted_seg};
use crate::paint::{Hue, Line, Piece, lines_view};
use crate::units::{bytes_text, format_bytes};

verus! {

/// What the memory report shows; sizes in bytes.
#[derive(Debug)]
pub struct MemoryInfo {
    pub total: u64,
    pub used: u64,
    pub free: u64,
    /// RAM load (bar of `WIDE_BAR` cells).
    pub ram: Meter,
    pub total_swap: u64,
    pub used_swap: u64,
    /// Page file load (bar of `WIDE_BAR` cells); shown only when there is a page file.
    pub swap: Meter,
}

/// The page file lines: shown only when the page file has a size.
pub open spec fn swap_lines(info: MemoryInfo) -> Seq<Seq<Piece>> {
    if info.total_swap > 0 {
        seq![
            labelled("\n  "@, "Page File Capacity"@, 22, plain(bytes_text(info.total_swap as nat))),
            labelled("  "@, "Used Page File"@, 22, plain(bytes_text(info.used_swap as nat))),
            load_line("Page File Load"@, 22, info.swap, WIDE_BAR as nat),
        ]
    } else {
        Seq::empty()
    }
}

/// The memory report.
pub open spec fn memory_report(info: MemoryInfo) -> Seq<Seq<Piece>> {
    header("MEMORY STATUS (RAM & PAGE FILE)"@) + seq![
        labelled(
            "  "@,
            "Total Physical Memory"@,
            22,
            tinted(bytes_text(info.total as nat), None, true, 0),
        ),
        labelled(
            "  "@,
            "Used Physical Memory"@,
            22,
            tinted(bytes_text(info.used as nat), Some(Hue::Yellow), false, 0),
        ),
        labelled(
            "  "@,
            "Available Free Memory"@,
            22,
            tinted(bytes_text(info.free as nat), Some(Hue::Green), false, 0),
        ),
        load_line("RAM Utilization"@, 22, info.ram, WIDE_BAR as nat),
    ] + swap_lines(info)
}

/// The memory report's lines.
pub fn memory_report_lines(info: &MemoryInfo) -> (lines: Vec<Line>)
    ensures
        lines_view(lines@) == memory_report(*info),
{
    let mut lines = section_header("MEMORY STATUS (RAM & PAGE FILE)");
    push_line(
        &mut lines,
        labelled_line("  ", "Total Physical Memory", 22, tinted_seg(format_bytes(info.total), None, true, 0)),
    );
    push_line(
        &mut lines,
        labelled_line("  ", "Used Physical Memory", 22, tinted_seg(format_bytes(info.used), Some(Hue::Yellow), false, 0)),
    );
    push_line(
        &mut lines,
        labelled_line("  ", "Available Free Memory", 22, tinted_seg(format_bytes(info.free), Some(Hue::Green), false, 0)),
    );
    push_line(&mut lines, load_line_of("RAM Utilization", 22, &info.ram, WIDE_BAR));
    if info.total_swap > 0 {
        push_line(&mut lines, labelled_line("\n  ", "Page File Capacity", 22, plain_seg(format_bytes(info.total_swap))));
        push_line(&mut lines, labelled_line("  ", "Used Page File", 22, plain_seg(format_bytes(info.used_swap))));
        push_line(&mut lines, load_line_of("Page File Load", 22, &info.swap, WIDE_BAR));
    }
    assert(lines_view(lines@) =~= memory_report(*info));
    lines
}


/// The memory report shows the page file exactly when it has a size,
/// whatever of it is in use: three lines (capacity, use and load bar)
/// after the four RAM lines, and none when the page file size is zero.
pub proof fn law_page_file_shown_iff_sized(info: MemoryInfo)
    ensures
        memory_report(info).len() == if info.total_swap > 0 {
            10int
        } else {
            7int
        },
        memory_report(info)[3] == labelled(
            "  "@,
            "Total Physical Memory"@,
            22,
            tinted(bytes_text(info.total as nat), None, true, 0),
        ),
        memory_report(info)[4] == labelled(
            "  "@,
            "Used Physical Memory"@,
            22,
            tinted(bytes_text(info.used as nat), Some(Hue::Yellow), false, 0),
        ),
        memory_report(info)[5] == labelled(
            "  "@,
            "Available Free Memory"@,
            22,
            tinted(bytes_text(info.free as nat), Some(Hue::Green), false, 0),
        ),
        memory_report(info)[6] == labelled(
            "  "@,
            "RAM Utilization"@,
            22,
            plain(info.ram.percent_text@ + "%  "@),
        ).push(bar_piece(info.ram.filled as nat, 24, info.ram.level)),
        info.total_swap > 0 ==> memory_report(info)[7] == labelled(
            "\n  "@,
            "Page File Capacity"@,
            22,
            plain(bytes_text(info.total_swap as nat)),
        ),
        info.total_swap > 0 ==> memory_report(info)[8] == labelled(
            "  "@,
            "Used Page File"@,
            22,
            plain(bytes_text(info.used_swap as nat)),
        ),
        info.total_swap > 0 ==> memory_report(info)[9] == labelled(
            "  "@,
            "Page File Load"@,
            22,
            plain(info.swap.percent_text@ + "%  "@),
        ).push(bar_piece(info.swap.filled as nat, 24, info.swap.level)),
{
}

} // verus!
