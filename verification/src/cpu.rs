//! The processor report.

use vstd::prelude::*;
use crate::bar::{bar_piece, render_bar, Level, CORE_BAR, WIDE_BAR};
use crate::layout::{header, labelled, labelled_line, owned, plain, plain_seg, push_line, push_lines, section_header, text_seg, tinted, tinted_seg, field, line2, line4};
use crate::paint::{Hue, Line, Paint, Piece, Segment, lines_view};
use crate::text::{decimal, decimal_text, trim_text, trimmed};

verus! {

/// A load reading: the percentage as the host formatted it (`{:>5.1}`),
/// and the fill and level of its bar, worked out for that bar's width.
#[derive(Debug)]
pub struct Meter {
    pub percent_text: String,
    pub filled: usize,
    pub level: Level,
}

/// The first processor's model and clock.
#[derive(Debug)]
pub struct ChipInfo {
    pub brand: String,
    /// Clock frequency in MHz.
    pub frequency: u64,
}

/// What the processor report shows.
#[derive(Debug)]
pub struct CpuInfo {
    /// The first logical processor, absent when none is known.
    pub first: Option<ChipInfo>,
    /// The load over all processors (bar of `WIDE_BAR` cells).
    pub total: Meter,
    /// Each logical processor's load (bars of `CORE_BAR` cells).
    pub cores: Vec<Meter>,
}

/// A value line followed by a load bar.
pub open spec fn load_line(label: Seq<char>, width: nat, m: Meter, bar_width: nat) -> Seq<Piece> {
    labelled("  "@, label, width, plain(m.percent_text@ + "%  "@)).push(
        bar_piece(m.filled as nat, bar_width, m.level),
    )
}

/// The line of core number `idx`.
pub open spec fn core_line(idx: nat, m: Meter) -> Seq<Piece> {
    seq![
        plain("    Core #"@),
        field(decimal(idx), 2),
        plain("  ["@ + m.percent_text@ + "%]  "@),
        bar_piece(m.filled as nat, CORE_BAR as nat, m.level),
    ]
}

/// The lines of the cores from number `start` on.
pub open spec fn core_lines(cores: Seq<Meter>, start: nat) -> Seq<Seq<Piece>>
    decreases cores.len(),
{
    if cores.len() == 0 {
        Seq::empty()
    } else {
        core_lines(cores.drop_last(), start) + seq![
            core_line((start + cores.len() - 1) as nat, cores.last()),
        ]
    }
}

/// The lines about the first processor: model, clock and count.
pub open spec fn chip_lines(first: Option<ChipInfo>, count: nat) -> Seq<Seq<Piece>> {
    match first {
        Some(c) => seq![
            labelled("  "@, "Processor Model"@, 20, tinted(trimmed(c.brand@), None, true, 0)),
            labelled("  "@, "Clock Speed"@, 20, plain(decimal(c.frequency as nat) + " MHz"@)),
            labelled(
                "  "@,
                "Logical Compute"@,
                20,
                plain(decimal(count) + " Cores / Threads"@),
            ),
        ],
        None => Seq::empty(),
    }
}

/// The processor report.
pub open spec fn cpu_report(info: CpuInfo) -> Seq<Seq<Piece>> {
    header("PROCESSOR (CPU) DIAGNOSTICS"@) + chip_lines(info.first, info.cores@.len()) + seq![
        load_line("Total CPU Load"@, 20, info.total, WIDE_BAR as nat),
        seq![plain("\n  "@), tinted("Core Utilization Breakdown:"@, Some(Hue::White), true, 0)],
    ] + core_lines(info.cores@, 0)
}

/// A value line followed by a load bar.
pub fn load_line_of(label: &str, width: usize, m: &Meter, bar_width: usize) -> (l: Line)
    ensures
        l@ == load_line(label@, width as nat, *m, bar_width as nat),
{
    let mut value = owned(m.percent_text.as_str());
    value.append("%  ");
    let mut l = labelled_line("  ", label, width, plain_seg(value));
    let ghost before = l@;
    let bar = render_bar(m.filled, bar_width, m.level);
    let ghost bv = bar@;
    l.segments.push(bar);
    assert(l@ =~= before.push(bv));
    l
}

fn core_line_of(idx: usize, m: &Meter) -> (l: Line)
    ensures
        l@ == core_line(idx as nat, *m),
{
    let mut mid = String::new();
    mid.append("  [");
    mid.append(m.percent_text.as_str());
    mid.append("%]  ");
    let num = decimal_text(idx as u64);
    let num_seg = Segment { text: num, paint: Paint { hue: None, bold: false }, width: 2 };
    line4(text_seg("    Core #"), num_seg, plain_seg(mid), render_bar(m.filled, CORE_BAR, m.level))
}

fn chip_lines_of(first: &Option<ChipInfo>, count: usize) -> (lines: Vec<Line>)
    ensures
        lines_view(lines@) == chip_lines(*first, count as nat),
{
    let mut lines: Vec<Line> = Vec::new();
    match first {
        Some(c) => {
            let brand = owned(trim_text(c.brand.as_str()));
            push_line(&mut lines, labelled_line("  ", "Processor Model", 20, tinted_seg(brand, None, true, 0)));
            let mut clock = decimal_text(c.frequency);
            clock.append(" MHz");
            push_line(&mut lines, labelled_line("  ", "Clock Speed", 20, plain_seg(clock)));
            let mut logical = decimal_text(count as u64);
            logical.append(" Cores / Threads");
            push_line(&mut lines, labelled_line("  ", "Logical Compute", 20, plain_seg(logical)));
        },
        None => {},
    }
    assert(lines_view(lines@) =~= chip_lines(*first, count as nat));
    lines
}

/// The processor report's lines.
pub fn cpu_report_lines(info: &CpuInfo) -> (lines: Vec<Line>)
    ensures
        lines_view(lines@) == cpu_report(*info),
{
    let mut lines = section_header("PROCESSOR (CPU) DIAGNOSTICS");
    let n = info.cores.len();
    push_lines(&mut lines, chip_lines_of(&info.first, n));
    push_line(&mut lines, load_line_of("Total CPU Load", 20, &info.total, WIDE_BAR));
    let heading = line2(
        text_seg("\n  "),
        tinted_seg(owned("Core Utilization Breakdown:"), Some(Hue::White), true, 0),
    );
    push_line(&mut lines, heading);
    let ghost prefix = lines_view(lines@);
    let mut i: usize = 0;
    while i < n
        invariant
            n == info.cores@.len(),
            i <= n,
            lines_view(lines@) == prefix + core_lines(info.cores@.subrange(0, i as int), 0),
        decreases n - i,
    {
        push_line(&mut lines, core_line_of(i, &info.cores[i]));
        proof {
            let s = info.cores@.subrange(0, i + 1);
            assert(s.drop_last() =~= info.cores@.subrange(0, i as int));
            assert(s.last() == info.cores@[i as int]);
            assert(lines_view(lines@) =~= prefix + core_lines(s, 0));
        }
        i = i + 1;
    }
    assert(info.cores@.subrange(0, n as int) =~= info.cores@);
    assert(lines_view(lines@) =~= cpu_report(*info));
    lines
}

/// The core lines follow the cores one for one, numbered from `start`.
proof fn lemma_core_lines_index(cores: Seq<Meter>, start: nat)
    ensures
        core_lines(cores, start).len() == cores.len(),
        forall|k: int|
            0 <= k < cores.len() ==> core_lines(cores, start)[k] == core_line(
                (start + k) as nat,
                #[trigger] cores[k],
            ),
    decreases cores.len(),
{
    if cores.len() > 0 {
        let init = cores.drop_last();
        lemma_core_lines_index(init, start);
        assert forall|k: int| 0 <= k < cores.len() implies core_lines(cores, start)[k] == core_line(
            (start + k) as nat,
            #[trigger] cores[k],
        ) by {
            if k < cores.len() - 1 {
                assert(init[k] == cores[k]);
            }
        }
    }
}

/// The processor report shows the first processor's model (trimmed, bold),
/// clock in MHz and the number of logical processors when one is known,
/// then the total load with its wide bar, the breakdown heading, and one
/// line per logical processor in order: `Core #k` with its load and bar.
pub proof fn law_cpu_lines(info: CpuInfo)
    ensures
        ({
            let c: int = if info.first is Some { 3 } else { 0 };
            let r = cpu_report(info);
            &&& r.len() == 5 + c + info.cores@.len()
            &&& r.subrange(0, 3) == header("PROCESSOR (CPU) DIAGNOSTICS"@)
            &&& info.first matches Some(chip) ==> {
                &&& r[3] == labelled("  "@, "Processor Model"@, 20, tinted(trimmed(chip.brand@), None, true, 0))
                &&& r[4] == labelled("  "@, "Clock Speed"@, 20, plain(decimal(chip.frequency as nat) + " MHz"@))
                &&& r[5] == labelled(
                    "  "@,
                    "Logical Compute"@,
                    20,
                    plain(decimal(info.cores@.len()) + " Cores / Threads"@),
                )
            }
            &&& r[3 + c] == labelled("  "@, "Total CPU Load"@, 20, plain(info.total.percent_text@ + "%  "@)).push(
                bar_piece(info.total.filled as nat, WIDE_BAR as nat, info.total.level),
            )
            &&& r[4 + c] == seq![plain("\n  "@), tinted("Core Utilization Breakdown:"@, Some(Hue::White), true, 0)]
            &&& forall|k: int|
                #![trigger info.cores@[k]]
                0 <= k < info.cores@.len() ==> r[5 + c + k] == seq![
                    plain("    Core #"@),
                    field(decimal(k as nat), 2),
                    plain("  ["@ + info.cores@[k].percent_text@ + "%]  "@),
                    bar_piece(info.cores@[k].filled as nat, CORE_BAR as nat, info.cores@[k].level),
                ]
        }),
{
    let c: int = if info.first is Some { 3 } else { 0 };
    let r = cpu_report(info);
    let head = header("PROCESSOR (CPU) DIAGNOSTICS"@) + chip_lines(info.first, info.cores@.len()) + seq![
        load_line("Total CPU Load"@, 20, info.total, WIDE_BAR as nat),
        seq![plain("\n  "@), tinted("Core Utilization Breakdown:"@, Some(Hue::White), true, 0)],
    ];
    assert(head.len() == 5 + c);
    assert(r == head + core_lines(info.cores@, 0));
    lemma_core_lines_index(info.cores@, 0);
    assert(r.subrange(0, 3) =~= header("PROCESSOR (CPU) DIAGNOSTICS"@));
    assert forall|k: int| #![trigger info.cores@[k]] 0 <= k < info.cores@.len() implies r[5 + c + k] == seq![
        plain("    Core #"@),
        field(decimal(k as nat), 2),
        plain("  ["@ + info.cores@[k].percent_text@ + "%]  "@),
        bar_piece(info.cores@[k].filled as nat, CORE_BAR as nat, info.cores@[k].level),
    ] by {
        assert(r[5 + c + k] == core_lines(info.cores@, 0)[k]);
    }
}

} // verus!
