//! The debug context report.

use vstd::prelude::*;
use crate::layout::{or_text, text_or, header, labelled, labelled_line, owned, plain, plain_seg, push_line, section_header, tinted, tinted_seg};
use crate::paint::{Hue, Line, Piece, Segment, lines_view};
use crate::text::{decimal, decimal_text};
use crate::units::{bytes_text, format_bytes};

verus! {

/// How the connection to Windows Management Instrumentation went.
#[derive(Debug)]
pub enum WmiStatus {
    Connected,
    /// The COM library started but the connection failed, with the error's text.
    ConnectionFailed(String),
    /// The COM library could not be started, with the error's text.
    ComFailed(String),
}

/// What the debug report shows.
#[derive(Debug)]
pub struct DebugInfo {
    /// The path of the running program, absent when it cannot be found.
    pub executable: Option<String>,
    /// The working directory, absent when it cannot be found.
    pub directory: Option<String>,
    pub architecture: String,
    pub family: String,
    pub cpu_threads: u64,
    /// Physical memory, in bytes.
    pub total_memory: u64,
    /// Page file (swap) size, in bytes.
    pub total_swap: u64,
    pub processes: u64,
    pub disks: u64,
    pub networks: u64,
    pub wmi: WmiStatus,
}

/// The status as the report shows it.
pub open spec fn status_piece(s: WmiStatus) -> Piece {
    match s {
        WmiStatus::Connected => tinted("Connected & Initialized (OK)"@, Some(Hue::Green), false, 0),
        WmiStatus::ConnectionFailed(e) => tinted(
            "Connection Failed: "@ + e@,
            Some(Hue::Red),
            false,
            0,
        ),
        WmiStatus::ComFailed(e) => tinted("COM Init Failed: "@ + e@, Some(Hue::Red), false, 0),
    }
}

/// The memory limits as the report shows them: the physical memory and
/// the page file size, e.g. `16.00 GB RAM / 2.00 GB Page File`.
pub open spec fn memory_limits(total_memory: nat, total_swap: nat) -> Seq<char> {
    bytes_text(total_memory) + " RAM / "@ + bytes_text(total_swap) + " Page File"@
}

/// A line of the debug report.
pub open spec fn debug_line(label: Seq<char>, value: Piece) -> Seq<Piece> {
    labelled("  "@, label, 26, value)
}

/// The debug report, up to the line of the probe's latency, which the host
/// adds when it has timed the rest (see `latency_line`).
pub open spec fn debug_report(info: DebugInfo) -> Seq<Seq<Piece>> {
    header("DIAGNOSTIC TOOL DEBUG CONTEXT"@) + seq![
        debug_line("Binary Location"@, plain(or_text(info.executable, "Unknown"@))),
        debug_line("Execution Directory"@, plain(or_text(info.directory, "Unknown"@))),
        debug_line("Target Architecture"@, plain(info.architecture@)),
        debug_line("Host Family"@, plain(info.family@)),
        debug_line("Detected CPU Threads"@, plain(decimal(info.cpu_threads as nat))),
        debug_line("Memory Limits"@, plain(memory_limits(info.total_memory as nat, info.total_swap as nat))),
        debug_line("Tracked Processes Count"@, plain(decimal(info.processes as nat))),
        debug_line("Tracked Disks Count"@, plain(decimal(info.disks as nat))),
        debug_line("Tracked Network Adapters"@, plain(decimal(info.networks as nat))),
        debug_line("WMI / COM Status"@, status_piece(info.wmi)),
    ]
}

fn status_seg(s: &WmiStatus) -> (r: Segment)
    ensures
        r@ == status_piece(*s),
{
    match s {
        WmiStatus::Connected => tinted_seg(owned("Connected & Initialized (OK)"), Some(Hue::Green), false, 0),
        WmiStatus::ConnectionFailed(e) => {
            let mut t = owned("Connection Failed: ");
            t.append(e.as_str());
            tinted_seg(t, Some(Hue::Red), false, 0)
        },
        WmiStatus::ComFailed(e) => {
            let mut t = owned("COM Init Failed: ");
            t.append(e.as_str());
            tinted_seg(t, Some(Hue::Red), false, 0)
        },
    }
}

/// The debug report's lines (without the latency line).
pub fn debug_report_lines(info: &DebugInfo) -> (lines: Vec<Line>)
    ensures
        lines_view(lines@) == debug_report(*info),
{
    let mut lines = section_header("DIAGNOSTIC TOOL DEBUG CONTEXT");
    push_line(&mut lines, labelled_line("  ", "Binary Location", 26, plain_seg(text_or(&info.executable, "Unknown"))));
    push_line(&mut lines, labelled_line("  ", "Execution Directory", 26, plain_seg(text_or(&info.directory, "Unknown"))));
    push_line(&mut lines, labelled_line("  ", "Target Architecture", 26, plain_seg(owned(info.architecture.as_str()))));
    push_line(&mut lines, labelled_line("  ", "Host Family", 26, plain_seg(owned(info.family.as_str()))));
    push_line(&mut lines, labelled_line("  ", "Detected CPU Threads", 26, plain_seg(decimal_text(info.cpu_threads))));
    let mut limits = format_bytes(info.total_memory);
    limits.append(" RAM / ");
    limits.append(format_bytes(info.total_swap).as_str());
    limits.append(" Page File");
    push_line(&mut lines, labelled_line("  ", "Memory Limits", 26, plain_seg(limits)));
    push_line(&mut lines, labelled_line("  ", "Tracked Processes Count", 26, plain_seg(decimal_text(info.processes))));
    push_line(&mut lines, labelled_line("  ", "Tracked Disks Count", 26, plain_seg(decimal_text(info.disks))));
    push_line(&mut lines, labelled_line("  ", "Tracked Network Adapters", 26, plain_seg(decimal_text(info.networks))));
    push_line(&mut lines, labelled_line("  ", "WMI / COM Status", 26, status_seg(&info.wmi)));
    assert(lines_view(lines@) =~= debug_report(*info));
    lines
}

/// The closing line of the debug report: how long the probe took, in the
/// text the host gives (a `Duration` printed with `{:?}`).
pub fn latency_line(latency: &str) -> (l: Line)
    ensures
        l@ == debug_line("Debug Probe Latency"@, plain(latency@)),
{
    labelled_line("  ", "Debug Probe Latency", 26, plain_seg(owned(latency)))
}


/// The debug report shows, below its header and in this order: the
/// program's path and the working directory (each `Unknown` only when it
/// could not be found), the architecture, the family, the processor
/// threads, the memory limits (physical memory and page file), the
/// processes, disks and network adapters tracked, and the WMI status (green
/// when connected, red with the error otherwise).
pub proof fn law_debug_lines(info: DebugInfo)
    ensures
        debug_report(info).len() == 13,
        debug_report(info)[3] == labelled("  "@, "Binary Location"@, 26, plain(
            match info.executable {
                Some(p) => p@,
                None => "Unknown"@,
            },
        )),
        debug_report(info)[4] == labelled("  "@, "Execution Directory"@, 26, plain(
            match info.directory {
                Some(d) => d@,
                None => "Unknown"@,
            },
        )),
        debug_report(info)[5] == labelled("  "@, "Target Architecture"@, 26, plain(info.architecture@)),
        debug_report(info)[6] == labelled("  "@, "Host Family"@, 26, plain(info.family@)),
        debug_report(info)[7] == labelled(
            "  "@,
            "Detected CPU Threads"@,
            26,
            plain(decimal(info.cpu_threads as nat)),
        ),
        debug_report(info)[8] == labelled("  "@, "Memory Limits"@, 26, plain(
            bytes_text(info.total_memory as nat) + " RAM / "@ + bytes_text(info.total_swap as nat)
                + " Page File"@,
        )),
        debug_report(info)[9] == labelled(
            "  "@,
            "Tracked Processes Count"@,
            26,
            plain(decimal(info.processes as nat)),
        ),
        debug_report(info)[10] == labelled(
            "  "@,
            "Tracked Disks Count"@,
            26,
            plain(decimal(info.disks as nat)),
        ),
        debug_report(info)[11] == labelled(
            "  "@,
            "Tracked Network Adapters"@,
            26,
            plain(decimal(info.networks as nat)),
        ),
        debug_report(info)[12] == labelled("  "@, "WMI / COM Status"@, 26, match info.wmi {
            WmiStatus::Connected => tinted("Connected & Initialized (OK)"@, Some(Hue::Green), false, 0),
            WmiStatus::ConnectionFailed(e) => tinted(
                "Connection Failed: "@ + e@,
                Some(Hue::Red),
                false,
                0,
            ),
            WmiStatus::ComFailed(e) => tinted("COM Init Failed: "@ + e@, Some(Hue::Red), false, 0),
        }),
{
}

} // verus!
