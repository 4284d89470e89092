//! Coloured terminal text.
//!
//! A report line is a sequence of segments; each segment has a text, a
//! field width and a paint (a foreground hue and/or bold).  Plain segments
//! are laid out here; painted ones are laid out by the `colored` crate,
//! which wraps the text in an ANSI SGR escape sequence when colouring is
//! enabled for the process (a decision it takes from the environment and
//! from whether standard output is a terminal).

use vstd::prelude::*;
use colored::Colorize;
use crate::text::{pad_right, pad_right_text};

verus! {

/// A foreground colour.
#[derive(Clone, Copy, Debug, PartialEq, Eq, Structural)]
pub enum Hue {
    Green,
    Yellow,
    Red,
    Cyan,
    White,
    Magenta,
    Blue,
}

/// How a segment is painted: an optional foreground colour and bold.
#[derive(Clone, Copy, Debug, PartialEq, Eq, Structural)]
pub struct Paint {
    pub hue: Option<Hue>,
    pub bold: bool,
}

/// A piece of a report line: `text`, laid out left-aligned in a field of
/// `width` characters (`{:<width}`), in `paint`.
#[derive(Debug)]
pub struct Segment {
    pub text: String,
    pub paint: Paint,
    pub width: usize,
}

/// The mathematical value of a segment.
pub struct Piece {
    pub text: Seq<char>,
    pub paint: Paint,
    pub width: nat,
}

impl View for Segment {
    type V = Piece;

    open spec fn view(&self) -> Piece {
        Piece { text: self.text@, paint: self.paint, width: self.width as nat }
    }
}

/// A report line: its segments, from left to right.
#[derive(Debug)]
pub struct Line {
    pub segments: Vec<Segment>,
}

impl View for Line {
    type V = Seq<Piece>;

    open spec fn view(&self) -> Seq<Piece> {
        self.segments@.map_values(|s: Segment| s@)
    }
}

/// The pieces of each line of a report.
pub open spec fn lines_view(lines: Seq<Line>) -> Seq<Seq<Piece>> {
    lines.map_values(|l: Line| l@)
}

/// No colour and no bold.
pub open spec fn is_plain(paint: Paint) -> bool {
    paint.hue is None && !paint.bold
}

/// The piece's text laid out in its field.
pub open spec fn laid_out(p: Piece) -> Seq<char> {
    pad_right(p.text, p.width)
}

/// The name by which the `colored` crate knows a hue.
pub open spec fn hue_name(hue: Hue) -> Seq<char> {
    match hue {
        Hue::Green => "green"@,
        Hue::Yellow => "yellow"@,
        Hue::Red => "red"@,
        Hue::Cyan => "cyan"@,
        Hue::White => "white"@,
        Hue::Magenta => "magenta"@,
        Hue::Blue => "blue"@,
    }
}

/// The ANSI foreground code of a hue.
pub open spec fn hue_code(hue: Hue) -> Seq<char> {
    match hue {
        Hue::Green => "32"@,
        Hue::Yellow => "33"@,
        Hue::Red => "31"@,
        Hue::Cyan => "36"@,
        Hue::White => "37"@,
        Hue::Magenta => "35"@,
        Hue::Blue => "34"@,
    }
}

/// The escape sequence that starts text in `paint` (for a paint that is
/// not plain): `ESC [`, `1` for bold, `;` between, the hue's code, `m`.
pub open spec fn sgr_start(paint: Paint) -> Seq<char> {
    let codes = match paint.hue {
        Some(h) => if paint.bold {
            "1;"@ + hue_code(h)
        } else {
            hue_code(h)
        },
        None => "1"@,
    };
    "\x1B["@ + codes + "m"@
}

/// The escape sequence that ends coloured text.
pub open spec fn sgr_reset() -> Seq<char> {
    "\x1B[0m"@
}

/// `text` with `style` written again after each reset sequence inside it
/// (the matches taken from the left), as the crate keeps an inner reset
/// from ending the outer colour.
pub open spec fn reopened(text: Seq<char>, style: Seq<char>) -> Seq<char>
    decreases text.len(),
{
    if text.len() == 0 {
        Seq::empty()
    } else if text.len() >= 4 && text.subrange(0, 4) == sgr_reset() {
        sgr_reset() + style + reopened(text.subrange(4, text.len() as int), style)
    } else {
        seq![text[0]] + reopened(text.drop_first(), style)
    }
}

/// A text without an escape character is re-opened nowhere: coloured, it
/// is just the padded text between the start sequence and the reset.
pub proof fn law_reopened_without_escapes(text: Seq<char>, style: Seq<char>)
    requires
        !text.contains('\x1B'),
    ensures
        reopened(text, style) == text,
    decreases text.len(),
{
    reveal_strlit("\x1B[0m");
    if text.len() > 0 {
        if text.len() >= 4 && text.subrange(0, 4) == sgr_reset() {
            assert(text.subrange(0, 4)[0] == text[0]);
            assert(text.contains(text[0]));
        }
        assert(!text.drop_first().contains('\x1B')) by {
            if text.drop_first().contains('\x1B') {
                let i = choose|i: int| 0 <= i < text.drop_first().len() && text.drop_first()[i] == '\x1B';
                assert(text[i + 1] == '\x1B');
            }
        }
        law_reopened_without_escapes(text.drop_first(), style);
        assert(seq![text[0]] + text.drop_first() =~= text);
    }
}

/// `out` is `text` shown in `paint` in a field of `width`: the padded text
/// itself when colouring is disabled; else the paint's start sequence, the
/// padded text with the start sequence re-opened after each inner reset,
/// and the reset.
pub open spec fn shown_in(out: Seq<char>, text: Seq<char>, width: nat, paint: Paint) -> bool {
    out == pad_right(text, width) || out == sgr_start(paint) + pad_right(
        reopened(text, sgr_start(paint)),
        width,
    ) + sgr_reset()
}

/// `out` is how a piece is shown on the terminal: a plain piece is its
/// laid-out text, a painted one is shown in its paint (coloured or not).
pub open spec fn renders_as(out: Seq<char>, p: Piece) -> bool {
    if is_plain(p.paint) {
        out == laid_out(p)
    } else {
        shown_in(out, p.text, p.width, p.paint)
    }
}

/// The texts of `parts`, one after the other.
pub open spec fn joined(parts: Seq<Seq<char>>) -> Seq<char>
    decreases parts.len(),
{
    if parts.len() == 0 {
        Seq::empty()
    } else {
        joined(parts.drop_last()) + parts.last()
    }
}

/// `out` shows the pieces of a line, each as `renders_as` allows.
pub open spec fn renders_line(out: Seq<char>, pieces: Seq<Piece>) -> bool {
    exists|parts: Seq<Seq<char>>|
        parts.len() == pieces.len() && (forall|i: int|
            0 <= i < parts.len() ==> renders_as(#[trigger] parts[i], pieces[i])) && out == joined(
            parts,
        )
}

/// The text a line shows with colouring disabled.
pub open spec fn line_text(pieces: Seq<Piece>) -> Seq<char> {
    joined(laid_out_all(pieces))
}

/// Each piece laid out in its field.
pub open spec fn laid_out_all(pieces: Seq<Piece>) -> Seq<Seq<char>> {
    pieces.map_values(|p: Piece| laid_out(p))
}

/// The hue's name, as `colored` parses it.
fn hue_name_text(hue: Hue) -> (r: &'static str)
    ensures
        r@ == hue_name(hue),
{
    match hue {
        Hue::Green => "green",
        Hue::Yellow => "yellow",
        Hue::Red => "red",
        Hue::Cyan => "cyan",
        Hue::White => "white",
        Hue::Magenta => "magenta",
        Hue::Blue => "blue",
    }
}

/// The names that `colour_text` and `bold_colour_text` are given.
pub open spec fn is_hue_name(name: Seq<char>) -> bool {
    exists|h: Hue| hue_name(h) == name
}

/// The hue that a name denotes.
pub open spec fn hue_named(name: Seq<char>) -> Hue {
    choose|h: Hue| hue_name(h) == name
}

/// `format!("{:<width$}", text.color(hue))` from `colored`: the
/// `ColoredString` made by `Colorize::color` (the colour parsed from its
/// name by `From<&str> for Color`), displayed in a field of `width`.  By
/// the crate's source its `Display` pads the text and, when colouring is
/// enabled, puts `ESC[<code>m` before and `ESC[0m` after it and writes the
/// start sequence again after each `ESC[0m` inside the text.  Whether
/// colouring is enabled (environment variables `CLICOLOR`,
/// `CLICOLOR_FORCE`, `NO_COLOR`, whether stdout is a terminal, a manual
/// override) is not stated.
#[verifier::external_body]
fn colour_text(text: &str, hue: &str, width: usize) -> (r: String)
    requires
        is_hue_name(hue@),
    ensures
        shown_in(r@, text@, width as nat, Paint { hue: Some(hue_named(hue@)), bold: false }),
{
    format!("{:<width$}", text.color(hue), width = width)
}

/// `format!("{:<width$}", text.color(hue).bold())` from `colored`, as
/// `colour_text` but bold: the start sequence is `ESC[1;<code>m`.
/// Whether colouring is enabled is not stated.
#[verifier::external_body]
fn bold_colour_text(text: &str, hue: &str, width: usize) -> (r: String)
    requires
        is_hue_name(hue@),
    ensures
        shown_in(r@, text@, width as nat, Paint { hue: Some(hue_named(hue@)), bold: true }),
{
    format!("{:<width$}", text.color(hue).bold(), width = width)
}

/// `format!("{:<width$}", text.bold())` from `colored`: the start
/// sequence is `ESC[1m`.  Whether colouring is enabled is not stated.
#[verifier::external_body]
fn bold_text(text: &str, width: usize) -> (r: String)
    ensures
        shown_in(r@, text@, width as nat, Paint { hue: None, bold: true }),
{
    format!("{:<width$}", text.bold(), width = width)
}

/// How a segment is shown on the terminal.
pub fn render_segment(seg: &Segment) -> (r: String)
    ensures
        renders_as(r@, seg@),
{
    match seg.paint.hue {
        None => {
            if seg.paint.bold {
                bold_text(seg.text.as_str(), seg.width)
            } else {
                pad_right_text(seg.text.as_str(), seg.width)
            }
        },
        Some(h) => {
            let name = hue_name_text(h);
            proof {
                assert(hue_name(h) == name@);
                assert(is_hue_name(name@));
                lemma_hue_named(h);
            }
            if seg.paint.bold {
                bold_colour_text(seg.text.as_str(), name, seg.width)
            } else {
                colour_text(seg.text.as_str(), name, seg.width)
            }
        },
    }
}

/// Each hue has a name of its own.
proof fn lemma_hue_named(h: Hue)
    ensures
        hue_named(hue_name(h)) == h,
{
    reveal_strlit("green");
    reveal_strlit("yellow");
    reveal_strlit("red");
    reveal_strlit("cyan");
    reveal_strlit("white");
    reveal_strlit("magenta");
    reveal_strlit("blue");
    let g = hue_named(hue_name(h));
    // The names start with distinct letters.
    assert(hue_name(g)[0] == hue_name(h)[0]);
}

/// A line as shown on the terminal: its segments one after the other.
pub fn render_line(line: &Line) -> (r: String)
    ensures
        renders_line(r@, line@),
{
    let mut out = String::new();
    let ghost mut parts: Seq<Seq<char>> = Seq::empty();
    let n = line.segments.len();
    let mut i: usize = 0;
    while i < n
        invariant
            n == line.segments@.len(),
            i <= n,
            parts.len() == i,
            forall|k: int| 0 <= k < i ==> renders_as(#[trigger] parts[k], line@[k]),
            out@ == joined(parts),
        decreases n - i,
    {
        let s = render_segment(&line.segments[i]);
        out.append(s.as_str());
        proof {
            let old_parts = parts;
            parts = parts.push(s@);
            assert(parts.drop_last() =~= old_parts);
        }
        i = i + 1;
    }
    assert(parts.len() == line@.len());
    out
}


/// Each line of a report as shown on the terminal.
pub fn render_report(lines: &Vec<Line>) -> (r: Vec<String>)
    ensures
        r@.len() == lines@.len(),
        forall|i: int| 0 <= i < r@.len() ==> renders_line(#[trigger] r@[i]@, lines@[i]@),
{
    let mut out: Vec<String> = Vec::new();
    let n = lines.len();
    let mut i: usize = 0;
    while i < n
        invariant
            n == lines@.len(),
            i <= n,
            out@.len() == i,
            forall|k: int| 0 <= k < i ==> renders_line(#[trigger] out@[k]@, lines@[k]@),
        decreases n - i,
    {
        let s = render_line(&lines[i]);
        out.push(s);
        i = i + 1;
    }
    out
}

/// A line with no paint shows exactly its laid-out text, whether or not
/// colouring is enabled.
pub proof fn law_plain_line_is_exact(out: Seq<char>, pieces: Seq<Piece>)
    requires
        renders_line(out, pieces),
        forall|i: int| 0 <= i < pieces.len() ==> is_plain(#[trigger] pieces[i].paint),
    ensures
        out == line_text(pieces),
{
    let parts = choose|parts: Seq<Seq<char>>|
        parts.len() == pieces.len() && (forall|i: int|
            0 <= i < parts.len() ==> renders_as(#[trigger] parts[i], pieces[i])) && out == joined(
            parts,
        );
    assert forall|i: int| 0 <= i < parts.len() implies parts[i] == laid_out_all(pieces)[i] by {
        assert(renders_as(parts[i], pieces[i]));
        assert(is_plain(pieces[i].paint));
    }
    assert(parts =~= laid_out_all(pieces));
}

/// Every piece of a line can be shown without colour: the colour-free
/// text of a line is one of the ways `renders_line` allows it to appear.
pub proof fn law_colour_free_rendering_allowed(pieces: Seq<Piece>)
    ensures
        renders_line(line_text(pieces), pieces),
{
    let parts = laid_out_all(pieces);
    assert forall|i: int| 0 <= i < parts.len() implies renders_as(#[trigger] parts[i], pieces[i]) by {
        assert(parts[i] == laid_out(pieces[i]));
    }
}

} // verus!
