//! The graphics report.

use vstd::prelude::*;
use crate::layout::{line2, or_text, text_or, header, labelled, labelled_line, owned, plain, plain_seg, push_line, section_header, text_line, tinted, tinted_seg};
use crate::paint::{Hue, Line, Piece, lines_view};
use crate::text::{decimal, decimal_text};
use crate::units::{bytes_text, format_bytes};

verus! {

/// A display controller as Windows Management Instrumentation describes it.
#[derive(Debug)]
pub struct GpuInfo {
    pub name: Option<String>,
    pub driver_version: Option<String>,
    /// Dedicated memory in bytes.
    pub adapter_ram: Option<u64>,
    pub video_processor: Option<String>,
}

/// The memory of an adapter as the report shows it.
pub open spec fn vram_text(ram: Option<u64>) -> Seq<char> {
    match ram {
        Some(b) => bytes_text(b as nat),
        None => "Shared / Dynamic"@,
    }
}

/// The lines of adapter number `number` (counted from 1).
pub open spec fn adapter_lines(number: nat, g: GpuInfo) -> Seq<Seq<Piece>> {
    seq![
        seq![
            plain("  [Adapter #"@ + decimal(number) + "] "@),
            tinted(or_text(g.name, "Generic Display Controller"@), Some(Hue::Magenta), true, 0),
        ],
        labelled("    ├─ "@, "Driver Version"@, 16, plain(or_text(g.driver_version, "Unknown"@))),
        labelled("    ├─ "@, "Dedicated VRAM"@, 16, plain(vram_text(g.adapter_ram))),
        labelled(
            "    └─ "@,
            "Processor Type"@,
            16,
            plain(or_text(g.video_processor, "Integrated / N/A"@)),
        ),
    ]
}

/// The lines of all adapters, numbered from 1.
pub open spec fn adapters_lines(gpus: Seq<GpuInfo>) -> Seq<Seq<Piece>>
    decreases gpus.len(),
{
    if gpus.len() == 0 {
        Seq::empty()
    } else {
        adapters_lines(gpus.drop_last()) + adapter_lines(gpus.len(), gpus.last())
    }
}

/// The graphics report: each adapter, or a note that none was found.
pub open spec fn gpu_report(gpus: Seq<GpuInfo>) -> Seq<Seq<Piece>> {
    header("GRAPHICS & DISPLAY CONTROLLERS"@) + if gpus.len() == 0 {
        seq![seq![plain("  No WMI Display Controllers found."@)]]
    } else {
        adapters_lines(gpus)
    }
}

fn vram_of(ram: Option<u64>) -> (r: String)
    ensures
        r@ == vram_text(ram),
{
    match ram {
        Some(b) => format_bytes(b),
        None => owned("Shared / Dynamic"),
    }
}

/// The graphics report's lines for the adapters found (an empty list when
/// none was found or the query could not be made).
pub fn gpu_report_lines(gpus: &Vec<GpuInfo>) -> (lines: Vec<Line>)
    ensures
        lines_view(lines@) == gpu_report(gpus@),
{
    let mut lines = section_header("GRAPHICS & DISPLAY CONTROLLERS");
    let ghost prefix = lines_view(lines@);
    let n = gpus.len();
    let mut i: usize = 0;
    while i < n
        invariant
            n == gpus@.len(),
            i <= n,
            lines_view(lines@) == prefix + adapters_lines(gpus@.subrange(0, i as int)),
        decreases n - i,
    {
        let g = &gpus[i];
        let mut head = owned("  [Adapter #");
        head.append(decimal_text((i + 1) as u64).as_str());
        head.append("] ");
        let name = text_or(&g.name, "Generic Display Controller");
        let first = line2(plain_seg(head), tinted_seg(name, Some(Hue::Magenta), true, 0));
        assert(first@ =~= adapter_lines((i + 1) as nat, gpus@[i as int])[0]);
        push_line(&mut lines, first);
        push_line(&mut lines, labelled_line("    ├─ ", "Driver Version", 16, plain_seg(text_or(&g.driver_version, "Unknown"))));
        push_line(&mut lines, labelled_line("    ├─ ", "Dedicated VRAM", 16, plain_seg(vram_of(g.adapter_ram))));
        push_line(
            &mut lines,
            labelled_line("    └─ ", "Processor Type", 16, plain_seg(text_or(&g.video_processor, "Integrated / N/A"))),
        );
        proof {
            let s = gpus@.subrange(0, i + 1);
            assert(s.drop_last() =~= gpus@.subrange(0, i as int));
            assert(s.last() == gpus@[i as int]);
            assert(lines_view(lines@) =~= prefix + adapters_lines(s));
        }
        i = i + 1;
    }
    assert(gpus@.subrange(0, n as int) =~= gpus@);
    if n == 0 {
        push_line(&mut lines, text_line(owned("  No WMI Display Controllers found.")));
    }
    assert(lines_view(lines@) =~= gpu_report(gpus@));
    lines
}

/// The adapter blocks come four lines each, in order, adapter `i` numbered `i + 1`.
proof fn lemma_adapters_blocks(gpus: Seq<GpuInfo>)
    ensures
        adapters_lines(gpus).len() == 4 * gpus.len(),
        forall|i: int, j: int|
            0 <= i < gpus.len() && 0 <= j < 4 ==> adapters_lines(gpus)[4 * i + j]
                == #[trigger] adapter_lines((i + 1) as nat, gpus[i])[j],
    decreases gpus.len(),
{
    if gpus.len() > 0 {
        let init = gpus.drop_last();
        lemma_adapters_blocks(init);
        assert forall|i: int, j: int|
            0 <= i < gpus.len() && 0 <= j < 4 implies adapters_lines(gpus)[4 * i + j]
                == #[trigger] adapter_lines((i + 1) as nat, gpus[i])[j] by {
            if i < gpus.len() - 1 {
                assert(init[i] == gpus[i]);
                assert(adapter_lines((i + 1) as nat, init[i])[j] == adapters_lines(init)[4 * i + j]);
            }
        }
    }
}

/// The graphics report lists every adapter given, in order, numbered from
/// 1, four lines each: its name (magenta, bold; a generic name when
/// unknown), driver, memory and processor. With no adapter it says so in
/// one line.
pub proof fn law_gpu_lists_every_adapter(gpus: Seq<GpuInfo>)
    ensures
        gpu_report(gpus).len() == if gpus.len() == 0 {
            4
        } else {
            3 + 4 * gpus.len()
        },
        gpus.len() == 0 ==> gpu_report(gpus)[3] == seq![plain("  No WMI Display Controllers found."@)],
        forall|i: int|
            #![trigger gpus[i]]
            0 <= i < gpus.len() ==> {
                &&& gpu_report(gpus)[3 + 4 * i] == seq![
                    plain("  [Adapter #"@ + decimal((i + 1) as nat) + "] "@),
                    tinted(or_text(gpus[i].name, "Generic Display Controller"@), Some(Hue::Magenta), true, 0),
                ]
                &&& gpu_report(gpus)[4 + 4 * i] == labelled(
                    "    ├─ "@,
                    "Driver Version"@,
                    16,
                    plain(or_text(gpus[i].driver_version, "Unknown"@)),
                )
                &&& gpu_report(gpus)[5 + 4 * i] == labelled(
                    "    ├─ "@,
                    "Dedicated VRAM"@,
                    16,
                    plain(vram_text(gpus[i].adapter_ram)),
                )
                &&& gpu_report(gpus)[6 + 4 * i] == labelled(
                    "    └─ "@,
                    "Processor Type"@,
                    16,
                    plain(or_text(gpus[i].video_processor, "Integrated / N/A"@)),
                )
            },
{
    lemma_adapters_blocks(gpus);
    let h = header("GRAPHICS & DISPLAY CONTROLLERS"@);
    assert(h.len() == 3);
    if gpus.len() > 0 {
        assert(gpu_report(gpus) == h + adapters_lines(gpus));
        assert forall|i: int| #![trigger gpus[i]] 0 <= i < gpus.len() implies {
            &&& gpu_report(gpus)[3 + 4 * i] == seq![
                plain("  [Adapter #"@ + decimal((i + 1) as nat) + "] "@),
                tinted(or_text(gpus[i].name, "Generic Display Controller"@), Some(Hue::Magenta), true, 0),
            ]
            &&& gpu_report(gpus)[4 + 4 * i] == labelled(
                "    ├─ "@,
                "Driver Version"@,
                16,
                plain(or_text(gpus[i].driver_version, "Unknown"@)),
            )
            &&& gpu_report(gpus)[5 + 4 * i] == labelled(
                "    ├─ "@,
                "Dedicated VRAM"@,
                16,
                plain(vram_text(gpus[i].adapter_ram)),
            )
            &&& gpu_report(gpus)[6 + 4 * i] == labelled(
                "    └─ "@,
                "Processor Type"@,
                16,
                plain(or_text(gpus[i].video_processor, "Integrated / N/A"@)),
            )
        } by {
            let b = adapter_lines((i + 1) as nat, gpus[i]);
            assert(gpu_report(gpus)[3 + 4 * i] == b[0]);
            assert(gpu_report(gpus)[4 + 4 * i] == b[1]);
            assert(gpu_report(gpus)[5 + 4 * i] == b[2]);
            assert(gpu_report(gpus)[6 + 4 * i] == b[3]);
        }
    }
}

} // verus!
