//! Building blocks of the report screens: pieces, lines, section headers
//! and labelled value lines.

use vstd::prelude::*;
use crate::paint::{Hue, Line, Paint, Piece, Segment, joined, laid_out_all, line_text, lines_view};
use crate::text::pad_right;
use crate::bar::lemma_repeated_len;
use crate::text::{push_repeated, repeated, trim_text, trimmed};

verus! {

/// No colour and no bold.
pub open spec fn no_paint() -> Paint {
    Paint { hue: None, bold: false }
}

/// A plain piece without a field.
pub open spec fn plain(text: Seq<char>) -> Piece {
    Piece { text, paint: no_paint(), width: 0 }
}

/// A plain piece laid out in a field of `width`.
pub open spec fn field(text: Seq<char>, width: nat) -> Piece {
    Piece { text, paint: no_paint(), width }
}

/// A piece in a colour, possibly bold, laid out in a field of `width`.
pub open spec fn tinted(text: Seq<char>, hue: Option<Hue>, bold: bool, width: nat) -> Piece {
    Piece { text, paint: Paint { hue, bold }, width }
}

/// The text of an optional value, empty when absent (`unwrap_or_default`).
pub open spec fn or_empty(o: Option<String>) -> Seq<char> {
    match o {
        Some(s) => s@,
        None => Seq::empty(),
    }
}

/// The text of an optional value, or `default` when absent (`unwrap_or_else`).
pub open spec fn or_text(o: Option<String>, default: Seq<char>) -> Seq<char> {
    match o {
        Some(s) => s@,
        None => default,
    }
}

/// The first line of a section header: a blank line, then the top of the box.
pub open spec fn header_top() -> Seq<char> {
    "\n  ┌"@ + repeated("─"@, 66) + "┐"@
}

/// The last line of a section header: the bottom of the box.
pub open spec fn header_bottom() -> Seq<char> {
    "  └"@ + repeated("─"@, 66) + "┘"@
}

/// The three lines of a section header: a box 66 characters wide around
/// the title, which is bold cyan in a field of 64.
pub open spec fn header(title: Seq<char>) -> Seq<Seq<Piece>> {
    seq![
        seq![plain(header_top())],
        seq![plain("  │  "@), tinted(title, Some(Hue::Cyan), true, 64), plain("│"@)],
        seq![plain(header_bottom())],
    ]
}

/// A value line: the indent, the label in a field of `width`, ` : ` and
/// the value (`"{indent}{:<width} : {}"`).
pub open spec fn labelled(indent: Seq<char>, label: Seq<char>, width: nat, value: Piece) -> Seq<
    Piece,
> {
    seq![plain(indent), field(label, width), plain(" : "@), value]
}

/// A plain segment.
pub fn plain_seg(text: String) -> (s: Segment)
    ensures
        s@ == plain(text@),
{
    Segment { text, paint: Paint { hue: None, bold: false }, width: 0 }
}

/// A plain segment with the given text.
pub fn text_seg(text: &str) -> (s: Segment)
    ensures
        s@ == plain(text@),
{
    let mut t = String::new();
    t.append(text);
    plain_seg(t)
}

/// A plain segment in a field of `width`.
pub fn field_seg(text: &str, width: usize) -> (s: Segment)
    ensures
        s@ == field(text@, width as nat),
{
    let mut t = String::new();
    t.append(text);
    Segment { text: t, paint: Paint { hue: None, bold: false }, width }
}

/// A painted segment in a field of `width`.
pub fn tinted_seg(text: String, hue: Option<Hue>, bold: bool, width: usize) -> (s: Segment)
    ensures
        s@ == tinted(text@, hue, bold, width as nat),
{
    Segment { text, paint: Paint { hue, bold }, width }
}

/// An owned copy of a text.
pub fn owned(text: &str) -> (r: String)
    ensures
        r@ == text@,
{
    let mut r = String::new();
    r.append(text);
    r
}

/// The text of an optional value, empty when absent.
pub fn text_or_empty(o: &Option<String>) -> (r: String)
    ensures
        r@ == or_empty(*o),
{
    match o {
        Some(s) => owned(s.as_str()),
        None => String::new(),
    }
}

/// The text of an optional value, or `default` when absent.
pub fn text_or(o: &Option<String>, default: &str) -> (r: String)
    ensures
        r@ == or_text(*o, default@),
{
    match o {
        Some(s) => owned(s.as_str()),
        None => owned(default),
    }
}

/// The text of an optional value, empty when absent, trimmed.
pub fn trimmed_or_empty(o: &Option<String>) -> (r: String)
    ensures
        r@ == trimmed(or_empty(*o)),
{
    let t = text_or_empty(o);
    owned(trim_text(t.as_str()))
}

/// A line of one segment.
pub fn line1(a: Segment) -> (l: Line)
    ensures
        l@ == seq![a@],
{
    let l = Line { segments: vec![a] };
    assert(l@ =~= seq![a@]);
    l
}

/// A line of two segments.
pub fn line2(a: Segment, b: Segment) -> (l: Line)
    ensures
        l@ == seq![a@, b@],
{
    let l = Line { segments: vec![a, b] };
    assert(l@ =~= seq![a@, b@]);
    l
}

/// A line of three segments.
pub fn line3(a: Segment, b: Segment, c: Segment) -> (l: Line)
    ensures
        l@ == seq![a@, b@, c@],
{
    let l = Line { segments: vec![a, b, c] };
    assert(l@ =~= seq![a@, b@, c@]);
    l
}

/// A line of four segments.
pub fn line4(a: Segment, b: Segment, c: Segment, d: Segment) -> (l: Line)
    ensures
        l@ == seq![a@, b@, c@, d@],
{
    let l = Line { segments: vec![a, b, c, d] };
    assert(l@ =~= seq![a@, b@, c@, d@]);
    l
}

/// A line of one plain segment.
pub fn text_line(text: String) -> (l: Line)
    ensures
        l@ == seq![plain(text@)],
{
    line1(plain_seg(text))
}

/// Appends a line to a report.
pub fn push_line(lines: &mut Vec<Line>, l: Line)
    ensures
        lines_view(final(lines)@) == lines_view(old(lines)@).push(l@),
{
    let ghost before = lines@;
    let ghost lv = l@;
    lines.push(l);
    assert(lines_view(lines@) =~= lines_view(before).push(lv));
}

/// Appends the lines of `more` to a report.
pub fn push_lines(lines: &mut Vec<Line>, more: Vec<Line>)
    ensures
        lines_view(final(lines)@) == lines_view(old(lines)@) + lines_view(more@),
{
    let ghost before = lines@;
    let ghost added = more@;
    let mut more = more;
    lines.append(&mut more);
    assert(lines@ =~= before + added);
    assert(lines_view(lines@) =~= lines_view(before) + lines_view(added));
}

/// A value line (see `labelled`).
pub fn labelled_line(indent: &str, label: &str, width: usize, value: Segment) -> (l: Line)
    ensures
        l@ == labelled(indent@, label@, width as nat, value@),
{
    proof {
        reveal_strlit(" : ");
    }
    line4(text_seg(indent), field_seg(label, width), text_seg(" : "), value)
}

/// The three lines of a section header around `title`.
pub fn section_header(title: &str) -> (lines: Vec<Line>)
    ensures
        lines_view(lines@) == header(title@),
{
    let mut top = String::new();
    top.append("\n  ┌");
    push_repeated(&mut top, "─", 66);
    top.append("┐");
    let mut bottom = String::new();
    bottom.append("  └");
    push_repeated(&mut bottom, "─", 66);
    bottom.append("┘");
    let mid = line3(text_seg("  │  "), tinted_seg(owned(title), Some(Hue::Cyan), true, 64), text_seg("│"));
    let mut lines: Vec<Line> = Vec::new();
    push_line(&mut lines, text_line(top));
    push_line(&mut lines, mid);
    push_line(&mut lines, text_line(bottom));
    assert(lines_view(lines@) =~= header(title@));
    lines
}


/// The lines of a section header line up: for a title of at most 64
/// characters, the title line is exactly as wide as the box's top and
/// bottom (70 characters; the top line starts with a line break).
pub proof fn law_header_box_aligned(title: Seq<char>)
    requires
        title.len() <= 64,
    ensures
        line_text(header(title)[0]).len() == 71,
        line_text(header(title)[1]).len() == 70,
        line_text(header(title)[2]).len() == 70,
{
    reveal_strlit("\n  ┌");
    reveal_strlit("─");
    reveal_strlit("┐");
    reveal_strlit("  └");
    reveal_strlit("┘");
    reveal_strlit("  │  ");
    reveal_strlit("│");
    lemma_repeated_len("─"@, 66);
    let h = header(title);
    reveal_with_fuel(joined, 4);
    assert(laid_out_all(h[0]) =~= seq![header_top()]);
    assert(laid_out_all(h[2]) =~= seq![header_bottom()]);
    let t = pad_right(title, 64);
    assert(t.len() == 64);
    assert(laid_out_all(h[1]) =~= seq!["  │  "@, t, "│"@]);
    let parts = seq!["  │  "@, t, "│"@];
    assert(parts.drop_last() =~= seq!["  │  "@, t]);
    assert(parts.drop_last().drop_last() =~= seq!["  │  "@]);
    assert(parts.drop_last().drop_last().drop_last() =~= Seq::<Seq<char>>::empty());
}

/// A plain value line reads `{indent}{label:<width} : {value}`: the indent,
/// the label followed by blanks up to `width` characters (none when it is
/// that long already), ` : ` and the value.
pub proof fn law_value_line_text(indent: Seq<char>, label: Seq<char>, width: nat, value: Seq<char>)
    ensures
        ({
            let a: int = indent.len() as int;
            let b: int = label.len() as int;
            let w: int = if label.len() < width {
                width as int
            } else {
                b
            };
            let t = line_text(labelled(indent, label, width, plain(value)));
            &&& t.len() == a + w + 3 + value.len()
            &&& t.subrange(0, a) == indent
            &&& t.subrange(a, a + b) == label
            &&& forall|i: int| a + b <= i < a + w ==> #[trigger] t[i] == ' '
            &&& t.subrange(a + w, a + w + 3) == " : "@
            &&& t.subrange(a + w + 3, t.len() as int) == value
        }),
{
    reveal_strlit(" : ");
    let pieces = labelled(indent, label, width, plain(value));
    let parts = laid_out_all(pieces);
    let l = pad_right(label, width);
    assert(pad_right(indent, 0) == indent);
    assert(pad_right(" : "@, 0) == " : "@);
    assert(pad_right(value, 0) == value);
    assert(parts =~= seq![indent, l, " : "@, value]);
    reveal_with_fuel(joined, 5);
    assert(parts.drop_last() =~= seq![indent, l, " : "@]);
    assert(parts.drop_last().drop_last() =~= seq![indent, l]);
    assert(parts.drop_last().drop_last().drop_last() =~= seq![indent]);
    assert(parts.drop_last().drop_last().drop_last().drop_last() =~= Seq::<Seq<char>>::empty());
    let t = line_text(pieces);
    let a: int = indent.len() as int;
    let b: int = label.len() as int;
    let w: int = l.len() as int;
    assert(t =~= indent + l + " : "@ + value);
    assert(t.subrange(0, a) =~= indent);
    assert(t.subrange(a, a + b) =~= label);
    assert(t.subrange(a + w, a + w + 3) =~= " : "@);
    assert(t.subrange(a + w + 3, t.len() as int) =~= value);
}

} // verus!