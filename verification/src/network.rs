//! The network report.

use vstd::prelude::*;
use crate::layout::{line2, header, labelled, labelled_line, owned, plain, plain_seg, push_line, section_header, text_seg, tinted, tinted_seg};
use crate::paint::{Hue, Line, Piece, lines_view};
use crate::units::{bytes_text, format_bytes};

verus! {

/// A network interface and its traffic since it came up.
#[derive(Debug)]
pub struct NetInfo {
    pub name: String,
    /// The hardware address as the host prints it.
    pub mac_address: String,
    /// Bytes received.
    pub received: u64,
    /// Bytes sent.
    pub transmitted: u64,
}

/// The lines of one interface.
pub open spec fn interface_lines(n: NetInfo) -> Seq<Seq<Piece>> {
    seq![
        seq![plain("  Interface: "@), tinted(n.name@, Some(Hue::Blue), true, 0)],
        labelled("    ├─ "@, "Physical (MAC)"@, 16, plain(n.mac_address@)),
        labelled(
            "    ├─ "@,
            "Total Received"@,
            16,
            tinted(bytes_text(n.received as nat), Some(Hue::Green), false, 0),
        ),
        labelled(
            "    └─ "@,
            "Total Sent"@,
            16,
            tinted(bytes_text(n.transmitted as nat), Some(Hue::Yellow), false, 0),
        ),
    ]
}

/// The lines of all interfaces, in the order given.
pub open spec fn interfaces_lines(nets: Seq<NetInfo>) -> Seq<Seq<Piece>>
    decreases nets.len(),
{
    if nets.len() == 0 {
        Seq::empty()
    } else {
        interfaces_lines(nets.drop_last()) + interface_lines(nets.last())
    }
}

/// The network report.
pub open spec fn network_report(nets: Seq<NetInfo>) -> Seq<Seq<Piece>> {
    header("NETWORK INTERFACES & TRAFFIC"@) + interfaces_lines(nets)
}

/// The network report's lines.
pub fn network_report_lines(nets: &Vec<NetInfo>) -> (lines: Vec<Line>)
    ensures
        lines_view(lines@) == network_report(nets@),
{
    let mut lines = section_header("NETWORK INTERFACES & TRAFFIC");
    let ghost prefix = lines_view(lines@);
    let n = nets.len();
    let mut i: usize = 0;
    while i < n
        invariant
            n == nets@.len(),
            i <= n,
            lines_view(lines@) == prefix + interfaces_lines(nets@.subrange(0, i as int)),
        decreases n - i,
    {
        let net = &nets[i];
        let first = line2(text_seg("  Interface: "), tinted_seg(owned(net.name.as_str()), Some(Hue::Blue), true, 0));
        push_line(&mut lines, first);
        push_line(&mut lines, labelled_line("    ├─ ", "Physical (MAC)", 16, plain_seg(owned(net.mac_address.as_str()))));
        push_line(
            &mut lines,
            labelled_line("    ├─ ", "Total Received", 16, tinted_seg(format_bytes(net.received), Some(Hue::Green), false, 0)),
        );
        push_line(
            &mut lines,
            labelled_line("    └─ ", "Total Sent", 16, tinted_seg(format_bytes(net.transmitted), Some(Hue::Yellow), false, 0)),
        );
        proof {
            let s = nets@.subrange(0, i + 1);
            assert(s.drop_last() =~= nets@.subrange(0, i as int));
            assert(lines_view(lines@) =~= prefix + interfaces_lines(s));
        }
        i = i + 1;
    }
    assert(nets@.subrange(0, n as int) =~= nets@);
    lines
}


/// The lines of `interfaces_lines` come four per interface, in order.
proof fn lemma_interfaces_blocks(nets: Seq<NetInfo>)
    ensures
        interfaces_lines(nets).len() == 4 * nets.len(),
        forall|i: int, j: int|
            0 <= i < nets.len() && 0 <= j < 4 ==> interfaces_lines(nets)[4 * i + j]
                == #[trigger] interface_lines(nets[i])[j],
    decreases nets.len(),
{
    if nets.len() > 0 {
        let init = nets.drop_last();
        lemma_interfaces_blocks(init);
        assert forall|i: int, j: int|
            0 <= i < nets.len() && 0 <= j < 4 implies interfaces_lines(nets)[4 * i + j]
                == #[trigger] interface_lines(nets[i])[j] by {
            if i < nets.len() - 1 {
                assert(nets[i] == init[i]);
                assert(interface_lines(init[i])[j] == interfaces_lines(init)[4 * i + j]);
            }
        }
    }
}

/// The network report lists every interface it is given, in order, with
/// four lines each (also an idle one): its name in bold blue, its hardware
/// address, and the bytes received and sent.
pub proof fn law_network_lists_every_interface(nets: Seq<NetInfo>)
    ensures
        network_report(nets).len() == 3 + 4 * nets.len(),
        forall|i: int|
            #![trigger nets[i]]
            0 <= i < nets.len() ==> {
                &&& network_report(nets)[3 + 4 * i] == seq![
                    plain("  Interface: "@),
                    tinted(nets[i].name@, Some(Hue::Blue), true, 0),
                ]
                &&& network_report(nets)[4 + 4 * i] == labelled(
                    "    ├─ "@,
                    "Physical (MAC)"@,
                    16,
                    plain(nets[i].mac_address@),
                )
                &&& network_report(nets)[5 + 4 * i] == labelled(
                    "    ├─ "@,
                    "Total Received"@,
                    16,
                    tinted(bytes_text(nets[i].received as nat), Some(Hue::Green), false, 0),
                )
                &&& network_report(nets)[6 + 4 * i] == labelled(
                    "    └─ "@,
                    "Total Sent"@,
                    16,
                    tinted(bytes_text(nets[i].transmitted as nat), Some(Hue::Yellow), false, 0),
                )
            },
{
    lemma_interfaces_blocks(nets);
    assert forall|i: int| #![trigger nets[i]] 0 <= i < nets.len() implies {
        &&& network_report(nets)[3 + 4 * i] == seq![
            plain("  Interface: "@),
            tinted(nets[i].name@, Some(Hue::Blue), true, 0),
        ]
        &&& network_report(nets)[4 + 4 * i] == labelled(
            "    ├─ "@,
            "Physical (MAC)"@,
            16,
            plain(nets[i].mac_address@),
        )
        &&& network_report(nets)[5 + 4 * i] == labelled(
            "    ├─ "@,
            "Total Received"@,
            16,
            tinted(bytes_text(nets[i].received as nat), Some(Hue::Green), false, 0),
        )
        &&& network_report(nets)[6 + 4 * i] == labelled(
            "    └─ "@,
            "Total Sent"@,
            16,
            tinted(bytes_text(nets[i].transmitted as nat), Some(Hue::Yellow), false, 0),
        )
    } by {
        let b = interface_lines(nets[i]);
        assert(network_report(nets)[3 + 4 * i] == b[0]);
        assert(network_report(nets)[4 + 4 * i] == b[1]);
        assert(network_report(nets)[5 + 4 * i] == b[2]);
        assert(network_report(nets)[6 + 4 * i] == b[3]);
    }
}

} // verus!
