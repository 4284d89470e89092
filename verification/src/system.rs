//! The "system & motherboard" report.

use vstd::prelude::*;
use crate::layout::{header, labelled, labelled_line, or_empty, plain, plain_seg, push_line, push_lines, section_header, text_or_empty, tinted, tinted_seg, trimmed_or_empty};
use crate::paint::{Hue, Line, Piece, lines_view};
use crate::text::{decimal, decimal_text, trimmed};

verus! {

/// A motherboard as Windows Management Instrumentation describes it.
#[derive(Debug)]
pub struct BoardInfo {
    pub manufacturer: Option<String>,
    pub product: Option<String>,
    pub serial_number: Option<String>,
}

/// What the system report shows.
#[derive(Debug)]
pub struct SystemInfo {
    pub os_name: Option<String>,
    pub os_version: Option<String>,
    pub kernel_version: Option<String>,
    pub host_name: Option<String>,
    /// Seconds since boot.
    pub uptime: u64,
    /// The boards found, empty when the query could not be made.
    pub boards: Vec<BoardInfo>,
}

/// Days, hours, minutes and seconds of an uptime in seconds.
pub open spec fn uptime_split(uptime: nat) -> (nat, nat, nat, nat) {
    (uptime / 86400, (uptime % 86400) / 3600, (uptime % 3600) / 60, uptime % 60)
}

/// An uptime as the report shows it: `{d}d {h}h {m}m {s}s`.
pub open spec fn uptime_text(uptime: nat) -> Seq<char> {
    let (d, h, m, s) = uptime_split(uptime);
    decimal(d) + "d "@ + decimal(h) + "h "@ + decimal(m) + "m "@ + decimal(s) + "s"@
}

/// The lines of one board.
pub open spec fn board_lines(b: BoardInfo) -> Seq<Seq<Piece>> {
    seq![
        labelled("  "@, "Board Manufacturer"@, 24, plain(trimmed(or_empty(b.manufacturer)))),
        labelled(
            "  "@,
            "Board Product / Model"@,
            24,
            tinted(trimmed(or_empty(b.product)), None, true, 0),
        ),
        labelled("  "@, "Board Serial Number"@, 24, plain(trimmed(or_empty(b.serial_number)))),
    ]
}

/// The lines of all boards, in order.
pub open spec fn boards_lines(boards: Seq<BoardInfo>) -> Seq<Seq<Piece>>
    decreases boards.len(),
{
    if boards.len() == 0 {
        Seq::empty()
    } else {
        boards_lines(boards.drop_last()) + board_lines(boards.last())
    }
}

/// The system report.
pub open spec fn system_report(info: SystemInfo) -> Seq<Seq<Piece>> {
    header("SYSTEM & MOTHERBOARD"@) + seq![
        labelled("  "@, "Operating System"@, 24, tinted(or_empty(info.os_name), None, true, 0)),
        labelled("  "@, "OS Version"@, 24, plain(or_empty(info.os_version))),
        labelled("  "@, "Kernel Build"@, 24, plain(or_empty(info.kernel_version))),
        labelled(
            "  "@,
            "Host Machine Name"@,
            24,
            tinted(or_empty(info.host_name), Some(Hue::Yellow), false, 0),
        ),
        labelled("  "@, "System Uptime"@, 24, plain(uptime_text(info.uptime as nat))),
    ] + boards_lines(info.boards@)
}

/// Splits an uptime into days, hours (below 24), minutes (below 60) and
/// seconds (below 60) that add up to it.
pub fn uptime_parts(uptime: u64) -> (r: (u64, u64, u64, u64))
    ensures
        (r.0 as nat, r.1 as nat, r.2 as nat, r.3 as nat) == uptime_split(uptime as nat),
        r.0 * 86400 + r.1 * 3600 + r.2 * 60 + r.3 == uptime,
        r.1 < 24,
        r.2 < 60,
        r.3 < 60,
{
    let days = uptime / 86400;
    let hours = (uptime % 86400) / 3600;
    let minutes = (uptime % 3600) / 60;
    let seconds = uptime % 60;
    proof {
        let u = uptime as int;
        vstd::arithmetic::div_mod::lemma_fundamental_div_mod(u, 86400);
        vstd::arithmetic::div_mod::lemma_fundamental_div_mod(u % 86400, 3600);
        vstd::arithmetic::div_mod::lemma_fundamental_div_mod(u, 3600);
        vstd::arithmetic::div_mod::lemma_fundamental_div_mod(u % 3600, 60);
        vstd::arithmetic::div_mod::lemma_fundamental_div_mod(u, 60);
        vstd::arithmetic::div_mod::lemma_mod_mod(u, 3600, 24);
        vstd::arithmetic::div_mod::lemma_mod_mod(u, 60, 60);
        assert((u % 86400) % 3600 == u % 3600) by {
            vstd::arithmetic::div_mod::lemma_mod_mod(u, 3600, 24);
        }
        assert((u % 3600) % 60 == u % 60) by {
            vstd::arithmetic::div_mod::lemma_mod_mod(u, 60, 60);
        }
    }
    (days, hours, minutes, seconds)
}

/// The uptime text (see `uptime_text`).
pub fn format_uptime(uptime: u64) -> (r: String)
    ensures
        r@ == uptime_text(uptime as nat),
{
    let (d, h, m, s) = uptime_parts(uptime);
    let mut r = decimal_text(d);
    r.append("d ");
    r.append(decimal_text(h).as_str());
    r.append("h ");
    r.append(decimal_text(m).as_str());
    r.append("m ");
    r.append(decimal_text(s).as_str());
    r.append("s");
    r
}

/// The lines of all boards.
fn boards_report(boards: &Vec<BoardInfo>) -> (lines: Vec<Line>)
    ensures
        lines_view(lines@) == boards_lines(boards@),
{
    let mut lines: Vec<Line> = Vec::new();
    let n = boards.len();
    let mut i: usize = 0;
    while i < n
        invariant
            n == boards@.len(),
            i <= n,
            lines_view(lines@) == boards_lines(boards@.subrange(0, i as int)),
        decreases n - i,
    {
        let b = &boards[i];
        push_line(&mut lines, labelled_line("  ", "Board Manufacturer", 24, plain_seg(trimmed_or_empty(&b.manufacturer))));
        push_line(
            &mut lines,
            labelled_line("  ", "Board Product / Model", 24, tinted_seg(trimmed_or_empty(&b.product), None, true, 0)),
        );
        push_line(&mut lines, labelled_line("  ", "Board Serial Number", 24, plain_seg(trimmed_or_empty(&b.serial_number))));
        proof {
            let s = boards@.subrange(0, i + 1);
            assert(s.drop_last() =~= boards@.subrange(0, i as int));
            assert(s.last() == boards@[i as int]);
            assert(lines_view(lines@) =~= boards_lines(s));
        }
        i = i + 1;
    }
    assert(boards@.subrange(0, n as int) =~= boards@);
    lines
}

/// The system report's lines.
pub fn system_report_lines(info: &SystemInfo) -> (lines: Vec<Line>)
    ensures
        lines_view(lines@) == system_report(*info),
{
    let mut lines = section_header("SYSTEM & MOTHERBOARD");
    push_line(
        &mut lines,
        labelled_line("  ", "Operating System", 24, tinted_seg(text_or_empty(&info.os_name), None, true, 0)),
    );
    push_line(&mut lines, labelled_line("  ", "OS Version", 24, plain_seg(text_or_empty(&info.os_version))));
    push_line(&mut lines, labelled_line("  ", "Kernel Build", 24, plain_seg(text_or_empty(&info.kernel_version))));
    push_line(
        &mut lines,
        labelled_line("  ", "Host Machine Name", 24, tinted_seg(text_or_empty(&info.host_name), Some(Hue::Yellow), false, 0)),
    );
    push_line(&mut lines, labelled_line("  ", "System Uptime", 24, plain_seg(format_uptime(info.uptime))));
    let ghost before = lines_view(lines@);
    push_lines(&mut lines, boards_report(&info.boards));
    assert(lines_view(lines@) =~= system_report(*info));
    lines
}


/// The lines of `boards_lines` come three per board, in order.
proof fn lemma_boards_blocks(boards: Seq<BoardInfo>)
    ensures
        boards_lines(boards).len() == 3 * boards.len(),
        forall|i: int, j: int|
            0 <= i < boards.len() && 0 <= j < 3 ==> boards_lines(boards)[3 * i + j]
                == #[trigger] board_lines(boards[i])[j],
    decreases boards.len(),
{
    if boards.len() > 0 {
        let init = boards.drop_last();
        lemma_boards_blocks(init);
        assert forall|i: int, j: int|
            0 <= i < boards.len() && 0 <= j < 3 implies boards_lines(boards)[3 * i + j]
                == #[trigger] board_lines(boards[i])[j] by {
            if i < boards.len() - 1 {
                assert(boards[i] == init[i]);
                assert(board_lines(init[i])[j] == boards_lines(init)[3 * i + j]);
            }
        }
    }
}

/// The system report shows the operating system's name (bold), version,
/// kernel, host name (yellow) and uptime, then three lines per board
/// given, in order: its trimmed manufacturer, product (bold) and serial.
#[verifier::rlimit(50)]
pub proof fn law_system_lines(info: SystemInfo)
    ensures
        system_report(info).len() == 8 + 3 * info.boards@.len(),
        system_report(info)[3] == labelled(
            "  "@,
            "Operating System"@,
            24,
            tinted(or_empty(info.os_name), None, true, 0),
        ),
        system_report(info)[4] == labelled("  "@, "OS Version"@, 24, plain(or_empty(info.os_version))),
        system_report(info)[5] == labelled(
            "  "@,
            "Kernel Build"@,
            24,
            plain(or_empty(info.kernel_version)),
        ),
        system_report(info)[6] == labelled(
            "  "@,
            "Host Machine Name"@,
            24,
            tinted(or_empty(info.host_name), Some(Hue::Yellow), false, 0),
        ),
        system_report(info)[7] == labelled("  "@, "System Uptime"@, 24, plain(
            decimal(info.uptime as nat / 86400) + "d "@ + decimal((info.uptime as nat % 86400) / 3600)
                + "h "@ + decimal((info.uptime as nat % 3600) / 60) + "m "@ + decimal(
                info.uptime as nat % 60,
            ) + "s"@,
        )),
        forall|i: int|
            #![trigger info.boards@[i]]
            0 <= i < info.boards@.len() ==> {
                &&& system_report(info)[8 + 3 * i] == labelled(
                    "  "@,
                    "Board Manufacturer"@,
                    24,
                    plain(trimmed(or_empty(info.boards@[i].manufacturer))),
                )
                &&& system_report(info)[9 + 3 * i] == labelled(
                    "  "@,
                    "Board Product / Model"@,
                    24,
                    tinted(trimmed(or_empty(info.boards@[i].product)), None, true, 0),
                )
                &&& system_report(info)[10 + 3 * i] == labelled(
                    "  "@,
                    "Board Serial Number"@,
                    24,
                    plain(trimmed(or_empty(info.boards@[i].serial_number))),
                )
            },
{
    let bs = info.boards@;
    let fixed = header("SYSTEM & MOTHERBOARD"@) + seq![
        labelled("  "@, "Operating System"@, 24, tinted(or_empty(info.os_name), None, true, 0)),
        labelled("  "@, "OS Version"@, 24, plain(or_empty(info.os_version))),
        labelled("  "@, "Kernel Build"@, 24, plain(or_empty(info.kernel_version))),
        labelled(
            "  "@,
            "Host Machine Name"@,
            24,
            tinted(or_empty(info.host_name), Some(Hue::Yellow), false, 0),
        ),
        labelled("  "@, "System Uptime"@, 24, plain(uptime_text(info.uptime as nat))),
    ];
    assert(fixed.len() == 8);
    assert(system_report(info) == fixed + boards_lines(bs));
    lemma_boards_blocks(bs);
    assert forall|i: int| #![trigger info.boards@[i]] 0 <= i < bs.len() implies {
        &&& system_report(info)[8 + 3 * i] == labelled(
            "  "@,
            "Board Manufacturer"@,
            24,
            plain(trimmed(or_empty(info.boards@[i].manufacturer))),
        )
        &&& system_report(info)[9 + 3 * i] == labelled(
            "  "@,
            "Board Product / Model"@,
            24,
            tinted(trimmed(or_empty(info.boards@[i].product)), None, true, 0),
        )
        &&& system_report(info)[10 + 3 * i] == labelled(
            "  "@,
            "Board Serial Number"@,
            24,
            plain(trimmed(or_empty(info.boards@[i].serial_number))),
        )
    } by {
        let b = board_lines(bs[i]);
        assert(system_report(info)[8 + 3 * i] == b[0]);
        assert(system_report(info)[9 + 3 * i] == b[1]);
        assert(system_report(info)[10 + 3 * i] == b[2]);
    }
}

} // verus!
