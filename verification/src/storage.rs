//! The storage report.

use vstd::prelude::*;
use crate::bar::{bar_piece, render_bar, VOLUME_BAR};
use crate::cpu::Meter;
use crate::layout::{line2, line3, push_lines, field, header, or_empty, owned, plain, plain_seg, push_line, section_header, text_line, text_or_empty, text_seg, tinted, tinted_seg, trimmed_or_empty};
use crate::paint::{Hue, Line, Paint, Piece, Segment, lines_view};
use crate::text::trimmed;
use crate::units::{bytes_text, format_bytes};

verus! {

/// A mounted file system.
#[derive(Debug)]
pub struct DiskInfo {
    pub mount_point: String,
    pub file_system: String,
    /// Size in bytes.
    pub total: u64,
    /// Free space in bytes.
    pub available: u64,
    /// Usage (bar of `VOLUME_BAR` cells).
    pub usage: Meter,
}

/// A physical drive as Windows Management Instrumentation describes it.
#[derive(Debug)]
pub struct DriveInfo {
    pub model: Option<String>,
    pub interface_type: Option<String>,
    pub media_type: Option<String>,
    /// Capacity in bytes.
    pub size: Option<u64>,
}

/// An optical drive as Windows Management Instrumentation describes it.
#[derive(Debug)]
pub struct CdInfo {
    pub name: Option<String>,
    pub drive: Option<String>,
    pub media_loaded: Option<bool>,
}

/// What Windows Management Instrumentation told of the drives, once connected.
#[derive(Debug)]
pub struct WmiStorage {
    /// The physical drives, absent when that query failed.
    pub drives: Option<Vec<DriveInfo>>,
    /// The optical drives, absent when that query failed.
    pub cdroms: Option<Vec<CdInfo>>,
}

/// What the storage report shows.
#[derive(Debug)]
pub struct StorageInfo {
    pub disks: Vec<DiskInfo>,
    /// Absent when no connection to Windows Management Instrumentation was made.
    pub wmi: Option<WmiStorage>,
}

/// The space in use: the size less the free space, or nothing when more is
/// free than the size (`saturating_sub`).
pub open spec fn used_space(total: nat, available: nat) -> nat {
    if available <= total {
        (total - available) as nat
    } else {
        0
    }
}

/// `true` or `false` as `{}` prints a `bool`.
pub open spec fn bool_text(b: bool) -> Seq<char> {
    if b {
        "true"@
    } else {
        "false"@
    }
}

/// The three lines of a mounted file system.
pub open spec fn disk_lines(d: DiskInfo) -> Seq<Seq<Piece>> {
    seq![
        seq![
            plain("    Volume "@),
            tinted(d.mount_point@, Some(Hue::Yellow), true, 0),
            plain(" ["@ + d.file_system@ + "]"@),
        ],
        seq![
            plain("      ├─ Total: "@),
            field(bytes_text(d.total as nat), 10),
            plain(" Free: "@),
            field(bytes_text(d.available as nat), 10),
            plain(" Used: "@ + bytes_text(used_space(d.total as nat, d.available as nat))),
        ],
        seq![
            plain("      └─ Usage: "@ + d.usage.percent_text@ + "% "@),
            bar_piece(d.usage.filled as nat, VOLUME_BAR as nat, d.usage.level),
        ],
    ]
}

/// The lines of all mounted file systems.
pub open spec fn disks_lines(disks: Seq<DiskInfo>) -> Seq<Seq<Piece>>
    decreases disks.len(),
{
    if disks.len() == 0 {
        Seq::empty()
    } else {
        disks_lines(disks.drop_last()) + disk_lines(disks.last())
    }
}

/// The capacity of a physical drive as the report shows it, empty when unknown.
pub open spec fn size_text(size: Option<u64>) -> Seq<char> {
    match size {
        Some(b) => bytes_text(b as nat),
        None => Seq::empty(),
    }
}

/// The line of a physical drive.
pub open spec fn drive_line(d: DriveInfo) -> Seq<Piece> {
    seq![
        plain("    • "@),
        tinted(trimmed(or_empty(d.model)), None, true, 32),
        plain(" | Bus: "@),
        tinted(trimmed(or_empty(d.interface_type)), Some(Hue::Cyan), false, 6),
        plain(" | Type: "@),
        field(trimmed(or_empty(d.media_type)), 12),
        plain(" | Capacity: "@ + size_text(d.size)),
    ]
}

/// The line of an optical drive.
pub open spec fn cd_line(c: CdInfo) -> Seq<Piece> {
    seq![
        plain("    • Drive "@),
        tinted(or_empty(c.drive), Some(Hue::Yellow), false, 0),
        plain(
            " ("@ + trimmed(or_empty(c.name)) + ") - Media Ready: "@ + bool_text(
                match c.media_loaded {
                    Some(b) => b,
                    None => false,
                },
            ),
        ),
    ]
}

/// The lines of all physical drives.
pub open spec fn drives_lines(drives: Seq<DriveInfo>) -> Seq<Seq<Piece>>
    decreases drives.len(),
{
    if drives.len() == 0 {
        Seq::empty()
    } else {
        drives_lines(drives.drop_last()).push(drive_line(drives.last()))
    }
}

/// The lines of all optical drives.
pub open spec fn cds_lines(cds: Seq<CdInfo>) -> Seq<Seq<Piece>>
    decreases cds.len(),
{
    if cds.len() == 0 {
        Seq::empty()
    } else {
        cds_lines(cds.drop_last()).push(cd_line(cds.last()))
    }
}

/// A heading line: a blank line, an indent and the heading in bold white.
pub open spec fn heading(indent: Seq<char>, title: Seq<char>) -> Seq<Piece> {
    seq![plain(indent), tinted(title, Some(Hue::White), true, 0)]
}

/// The lines drawn from Windows Management Instrumentation.
pub open spec fn wmi_lines(w: WmiStorage) -> Seq<Seq<Piece>> {
    seq![heading("\n  "@, "Physical Hardware Drives (WMI):"@)] + match w.drives {
        Some(ds) => drives_lines(ds@),
        None => Seq::empty(),
    } + seq![heading("\n  "@, "Optical / CD-ROM Units:"@)] + match w.cdroms {
        Some(cs) => if cs@.len() == 0 {
            seq![seq![plain("    None detected."@)]]
        } else {
            cds_lines(cs@)
        },
        None => Seq::empty(),
    }
}

/// The storage report.
pub open spec fn storage_report(info: StorageInfo) -> Seq<Seq<Piece>> {
    header("STORAGE DRIVES & MOUNTED PARTITIONS"@) + seq![
        heading("  "@, "Mounted File Systems:"@),
    ] + disks_lines(info.disks@) + match info.wmi {
        Some(w) => wmi_lines(w),
        None => Seq::empty(),
    }
}

/// The space in use (see `used_space`).
pub fn used_bytes(total: u64, available: u64) -> (r: u64)
    ensures
        r == used_space(total as nat, available as nat),
        r <= total,
{
    total.saturating_sub(available)
}

/// `true` or `false`.
pub fn bool_str(b: bool) -> (r: &'static str)
    ensures
        r@ == bool_text(b),
{
    if b {
        "true"
    } else {
        "false"
    }
}

/// A heading line (see `heading`).
pub fn heading_line(indent: &str, title: &str) -> (l: Line)
    ensures
        l@ == heading(indent@, title@),
{
    line2(text_seg(indent), tinted_seg(owned(title), Some(Hue::White), true, 0))
}

fn disk_lines_of(d: &DiskInfo) -> (lines: Vec<Line>)
    ensures
        lines_view(lines@) == disk_lines(*d),
{
    let mut lines: Vec<Line> = Vec::new();
    let mut fs = owned(" [");
    fs.append(d.file_system.as_str());
    fs.append("]");
    let l1 = line3(
        text_seg("    Volume "),
        tinted_seg(owned(d.mount_point.as_str()), Some(Hue::Yellow), true, 0),
        plain_seg(fs),
    );
    assert(l1@ =~= disk_lines(*d)[0]);
    push_line(&mut lines, l1);
    let total = Segment { text: format_bytes(d.total), paint: Paint { hue: None, bold: false }, width: 10 };
    let free = Segment { text: format_bytes(d.available), paint: Paint { hue: None, bold: false }, width: 10 };
    let mut used = owned(" Used: ");
    used.append(format_bytes(used_bytes(d.total, d.available)).as_str());
    let parts = vec![text_seg("      ├─ Total: "), total, text_seg(" Free: "), free, plain_seg(used)];
    let l2 = Line { segments: parts };
    assert(l2@ =~= disk_lines(*d)[1]);
    push_line(&mut lines, l2);
    let mut usage = owned("      └─ Usage: ");
    usage.append(d.usage.percent_text.as_str());
    usage.append("% ");
    let l3 = line2(plain_seg(usage), render_bar(d.usage.filled, VOLUME_BAR, d.usage.level));
    assert(l3@ =~= disk_lines(*d)[2]);
    push_line(&mut lines, l3);
    assert(lines_view(lines@) =~= disk_lines(*d));
    lines
}

fn drive_line_of(d: &DriveInfo) -> (l: Line)
    ensures
        l@ == drive_line(*d),
{
    let model = tinted_seg(trimmed_or_empty(&d.model), None, true, 32);
    let iface = tinted_seg(trimmed_or_empty(&d.interface_type), Some(Hue::Cyan), false, 6);
    let media = Segment { text: trimmed_or_empty(&d.media_type), paint: Paint { hue: None, bold: false }, width: 12 };
    let mut cap = owned(" | Capacity: ");
    match d.size {
        Some(b) => cap.append(format_bytes(b).as_str()),
        None => {},
    }
    let parts = vec![text_seg("    • "), model, text_seg(" | Bus: "), iface, text_seg(" | Type: "), media, plain_seg(cap)];
    let l = Line { segments: parts };
    assert(l@ =~= drive_line(*d));
    l
}

fn cd_line_of(c: &CdInfo) -> (l: Line)
    ensures
        l@ == cd_line(*c),
{
    let drive = tinted_seg(text_or_empty(&c.drive), Some(Hue::Yellow), false, 0);
    let mut rest = owned(" (");
    rest.append(trimmed_or_empty(&c.name).as_str());
    rest.append(") - Media Ready: ");
    let loaded = match c.media_loaded {
        Some(b) => b,
        None => false,
    };
    rest.append(bool_str(loaded));
    let l = line3(text_seg("    • Drive "), drive, plain_seg(rest));
    assert(l@ =~= cd_line(*c));
    l
}

fn wmi_lines_of(w: &WmiStorage) -> (lines: Vec<Line>)
    ensures
        lines_view(lines@) == wmi_lines(*w),
{
    let mut lines: Vec<Line> = Vec::new();
    push_line(&mut lines, heading_line("\n  ", "Physical Hardware Drives (WMI):"));
    let ghost p1 = lines_view(lines@);
    match &w.drives {
        Some(ds) => {
            let n = ds.len();
            let mut i: usize = 0;
            while i < n
                invariant
                    n == ds@.len(),
                    i <= n,
                    lines_view(lines@) == p1 + drives_lines(ds@.subrange(0, i as int)),
                decreases n - i,
            {
                push_line(&mut lines, drive_line_of(&ds[i]));
                proof {
                    let s = ds@.subrange(0, i + 1);
                    assert(s.drop_last() =~= ds@.subrange(0, i as int));
                    assert(lines_view(lines@) =~= p1 + drives_lines(s));
                }
                i = i + 1;
            }
            assert(ds@.subrange(0, n as int) =~= ds@);
        },
        None => {},
    }
    let ghost p2 = lines_view(lines@);
    push_line(&mut lines, heading_line("\n  ", "Optical / CD-ROM Units:"));
    let ghost p3 = lines_view(lines@);
    match &w.cdroms {
        Some(cs) => {
            let n = cs.len();
            if n == 0 {
                push_line(&mut lines, text_line(owned("    None detected.")));
            } else {
                let mut i: usize = 0;
                while i < n
                    invariant
                        n == cs@.len(),
                        i <= n,
                        lines_view(lines@) == p3 + cds_lines(cs@.subrange(0, i as int)),
                    decreases n - i,
                {
                    push_line(&mut lines, cd_line_of(&cs[i]));
                    proof {
                        let s = cs@.subrange(0, i + 1);
                        assert(s.drop_last() =~= cs@.subrange(0, i as int));
                        assert(lines_view(lines@) =~= p3 + cds_lines(s));
                    }
                    i = i + 1;
                }
                assert(cs@.subrange(0, n as int) =~= cs@);
            }
        },
        None => {},
    }
    assert(lines_view(lines@) =~= wmi_lines(*w));
    lines
}

/// The storage report's lines.
pub fn storage_report_lines(info: &StorageInfo) -> (lines: Vec<Line>)
    ensures
        lines_view(lines@) == storage_report(*info),
{
    let mut lines = section_header("STORAGE DRIVES & MOUNTED PARTITIONS");
    push_line(&mut lines, heading_line("  ", "Mounted File Systems:"));
    let ghost prefix = lines_view(lines@);
    let n = info.disks.len();
    let mut i: usize = 0;
    while i < n
        invariant
            n == info.disks@.len(),
            i <= n,
            lines_view(lines@) == prefix + disks_lines(info.disks@.subrange(0, i as int)),
        decreases n - i,
    {
        let more = disk_lines_of(&info.disks[i]);
        push_lines(&mut lines, more);
        proof {
            let s = info.disks@.subrange(0, i + 1);
            assert(s.drop_last() =~= info.disks@.subrange(0, i as int));
            assert(lines_view(lines@) =~= prefix + disks_lines(s));
        }
        i = i + 1;
    }
    assert(info.disks@.subrange(0, n as int) =~= info.disks@);
    match &info.wmi {
        Some(w) => push_lines(&mut lines, wmi_lines_of(w)),
        None => {},
    }
    assert(lines_view(lines@) =~= storage_report(*info));
    lines
}


/// An optical drive's line shows its drive letter in yellow, its trimmed
/// name, and `Media Ready: true` exactly when media is known to be loaded
/// (`false` when none is, or when that is unknown).
pub proof fn law_cd_media_ready(c: CdInfo)
    ensures
        cd_line(c) == seq![
            plain("    • Drive "@),
            tinted(or_empty(c.drive), Some(Hue::Yellow), false, 0),
            plain(" ("@ + trimmed(or_empty(c.name)) + ") - Media Ready: "@ + if c.media_loaded == Some(
                true,
            ) {
                "true"@
            } else {
                "false"@
            }),
        ],
{
}

/// The volume blocks come three lines each, in order.
proof fn lemma_disks_blocks(disks: Seq<DiskInfo>)
    ensures
        disks_lines(disks).len() == 3 * disks.len(),
        forall|i: int, j: int|
            0 <= i < disks.len() && 0 <= j < 3 ==> disks_lines(disks)[3 * i + j]
                == #[trigger] disk_lines(disks[i])[j],
    decreases disks.len(),
{
    if disks.len() > 0 {
        let init = disks.drop_last();
        lemma_disks_blocks(init);
        assert forall|i: int, j: int|
            0 <= i < disks.len() && 0 <= j < 3 implies disks_lines(disks)[3 * i + j]
                == #[trigger] disk_lines(disks[i])[j] by {
            if i < disks.len() - 1 {
                assert(init[i] == disks[i]);
                assert(disk_lines(init[i])[j] == disks_lines(init)[3 * i + j]);
            }
        }
    }
}

/// One line per physical drive, in order.
proof fn lemma_drives_index(drives: Seq<DriveInfo>)
    ensures
        drives_lines(drives).len() == drives.len(),
        forall|k: int| 0 <= k < drives.len() ==> drives_lines(drives)[k] == drive_line(#[trigger] drives[k]),
    decreases drives.len(),
{
    if drives.len() > 0 {
        lemma_drives_index(drives.drop_last());
        assert forall|k: int| 0 <= k < drives.len() implies drives_lines(drives)[k] == drive_line(
            #[trigger] drives[k],
        ) by {
            if k < drives.len() - 1 {
                assert(drives.drop_last()[k] == drives[k]);
            }
        }
    }
}

/// One line per optical drive, in order.
proof fn lemma_cds_index(cds: Seq<CdInfo>)
    ensures
        cds_lines(cds).len() == cds.len(),
        forall|k: int| 0 <= k < cds.len() ==> cds_lines(cds)[k] == cd_line(#[trigger] cds[k]),
    decreases cds.len(),
{
    if cds.len() > 0 {
        lemma_cds_index(cds.drop_last());
        assert forall|k: int| 0 <= k < cds.len() implies cds_lines(cds)[k] == cd_line(#[trigger] cds[k]) by {
            if k < cds.len() - 1 {
                assert(cds.drop_last()[k] == cds[k]);
            }
        }
    }
}

/// The storage report lists every mounted file system given, in order,
/// three lines each: its mount point (yellow, bold) and file system; its
/// size, free space and the space in use (size less free space, never
/// below zero); its usage with a bar. Without a connection to Windows
/// Management Instrumentation nothing follows them.
pub proof fn law_storage_lists_every_volume(info: StorageInfo)
    ensures
        storage_report(info).len() >= 4 + 3 * info.disks@.len(),
        info.wmi is None ==> storage_report(info).len() == 4 + 3 * info.disks@.len(),
        storage_report(info)[3] == seq![plain("  "@), tinted("Mounted File Systems:"@, Some(Hue::White), true, 0)],
        forall|i: int|
            #![trigger info.disks@[i]]
            0 <= i < info.disks@.len() ==> {
                let d = info.disks@[i];
                &&& storage_report(info)[4 + 3 * i] == seq![
                    plain("    Volume "@),
                    tinted(d.mount_point@, Some(Hue::Yellow), true, 0),
                    plain(" ["@ + d.file_system@ + "]"@),
                ]
                &&& storage_report(info)[5 + 3 * i] == seq![
                    plain("      ├─ Total: "@),
                    field(bytes_text(d.total as nat), 10),
                    plain(" Free: "@),
                    field(bytes_text(d.available as nat), 10),
                    plain(" Used: "@ + bytes_text(
                        if d.available <= d.total {
                            (d.total - d.available) as nat
                        } else {
                            0
                        },
                    )),
                ]
                &&& storage_report(info)[6 + 3 * i] == seq![
                    plain("      └─ Usage: "@ + d.usage.percent_text@ + "% "@),
                    bar_piece(d.usage.filled as nat, VOLUME_BAR as nat, d.usage.level),
                ]
            },
{
    let ds = info.disks@;
    lemma_disks_blocks(ds);
    let front = header("STORAGE DRIVES & MOUNTED PARTITIONS"@) + seq![heading("  "@, "Mounted File Systems:"@)];
    assert(front.len() == 4);
    let rest = match info.wmi {
        Some(w) => wmi_lines(w),
        None => Seq::empty(),
    };
    assert(storage_report(info) == front + disks_lines(ds) + rest);
    assert forall|i: int| #![trigger info.disks@[i]] 0 <= i < ds.len() implies {
        let d = info.disks@[i];
        &&& storage_report(info)[4 + 3 * i] == seq![
            plain("    Volume "@),
            tinted(d.mount_point@, Some(Hue::Yellow), true, 0),
            plain(" ["@ + d.file_system@ + "]"@),
        ]
        &&& storage_report(info)[5 + 3 * i] == seq![
            plain("      ├─ Total: "@),
            field(bytes_text(d.total as nat), 10),
            plain(" Free: "@),
            field(bytes_text(d.available as nat), 10),
            plain(" Used: "@ + bytes_text(
                if d.available <= d.total {
                    (d.total - d.available) as nat
                } else {
                    0
                },
            )),
        ]
        &&& storage_report(info)[6 + 3 * i] == seq![
            plain("      └─ Usage: "@ + d.usage.percent_text@ + "% "@),
            bar_piece(d.usage.filled as nat, VOLUME_BAR as nat, d.usage.level),
        ]
    } by {
        let b = disk_lines(ds[i]);
        assert(storage_report(info)[4 + 3 * i] == b[0]);
        assert(storage_report(info)[5 + 3 * i] == b[1]);
        assert(storage_report(info)[6 + 3 * i] == b[2]);
    }
}

/// With a connection to Windows Management Instrumentation, the volumes are
/// followed by the physical drives heading, one line per physical drive in
/// order (none when that query failed), the optical drives heading, and one
/// line per optical drive in order; `None detected.` when the optical query
/// found none, and nothing when it failed.
pub proof fn law_storage_lists_every_drive(info: StorageInfo, w: WmiStorage)
    requires
        info.wmi == Some(w),
    ensures
        ({
            let base: int = 4 + 3 * info.disks@.len() as int;
            let nd: int = match w.drives {
                Some(ds) => ds@.len() as int,
                None => 0,
            };
            let nc: int = match w.cdroms {
                Some(cs) => if cs@.len() == 0 {
                    1
                } else {
                    cs@.len() as int
                },
                None => 0,
            };
            let r = storage_report(info);
            &&& r.len() == base + 2 + nd + nc
            &&& r[base] == seq![plain("\n  "@), tinted("Physical Hardware Drives (WMI):"@, Some(Hue::White), true, 0)]
            &&& r[base + 1 + nd] == seq![plain("\n  "@), tinted("Optical / CD-ROM Units:"@, Some(Hue::White), true, 0)]
            &&& w.drives matches Some(ds) ==> forall|k: int|
                #![trigger ds@[k]]
                0 <= k < ds@.len() ==> r[base + 1 + k] == seq![
                    plain("    • "@),
                    tinted(trimmed(or_empty(ds@[k].model)), None, true, 32),
                    plain(" | Bus: "@),
                    tinted(trimmed(or_empty(ds@[k].interface_type)), Some(Hue::Cyan), false, 6),
                    plain(" | Type: "@),
                    field(trimmed(or_empty(ds@[k].media_type)), 12),
                    plain(" | Capacity: "@ + match ds@[k].size {
                        Some(b) => bytes_text(b as nat),
                        None => Seq::empty(),
                    }),
                ]
            &&& w.cdroms matches Some(cs) ==> (cs@.len() == 0 ==> r[base + 2 + nd] == seq![
                plain("    None detected."@),
            ])
            &&& w.cdroms matches Some(cs) ==> forall|k: int|
                #![trigger cs@[k]]
                0 <= k < cs@.len() ==> r[base + 2 + nd + k] == cd_line(cs@[k])
        }),
{
    let ds = info.disks@;
    lemma_disks_blocks(ds);
    let base: int = 4 + 3 * ds.len() as int;
    let front = header("STORAGE DRIVES & MOUNTED PARTITIONS"@) + seq![heading("  "@, "Mounted File Systems:"@)] + disks_lines(ds);
    assert(front.len() == base);
    let r = storage_report(info);
    assert(r == front + wmi_lines(w));
    let dl = match w.drives {
        Some(d) => drives_lines(d@),
        None => Seq::empty(),
    };
    let cl = match w.cdroms {
        Some(cs) => if cs@.len() == 0 {
            seq![seq![plain("    None detected."@)]]
        } else {
            cds_lines(cs@)
        },
        None => Seq::empty(),
    };
    let h1 = seq![heading("\n  "@, "Physical Hardware Drives (WMI):"@)];
    let h2 = seq![heading("\n  "@, "Optical / CD-ROM Units:"@)];
    assert(wmi_lines(w) == h1 + dl + h2 + cl);
    match w.drives {
        Some(d) => {
            lemma_drives_index(d@);
        },
        None => {},
    }
    match w.cdroms {
        Some(cs) => {
            lemma_cds_index(cs@);
        },
        None => {},
    }
    let nd = dl.len() as int;
    assert(r == front + h1 + dl + h2 + cl);
    match w.drives {
        Some(d) => {
            assert forall|k: int| #![trigger d@[k]] 0 <= k < d@.len() implies r[base + 1 + k] == drive_line(d@[k]) by {
                assert(r[base + 1 + k] == dl[k]);
            }
        },
        None => {},
    }
    match w.cdroms {
        Some(cs) => {
            assert forall|k: int| #![trigger cs@[k]] 0 <= k < cs@.len() implies r[base + 2 + nd + k] == cd_line(cs@[k]) by {
                assert(r[base + 2 + nd + k] == cl[k]);
            }
        },
        None => {},
    }
}

} // verus!
