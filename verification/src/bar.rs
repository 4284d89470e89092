//! Usage bars: `[■■■■      ]`, green, yellow or red by load.

use vstd::prelude::*;
use crate::paint::{Hue, Paint, Piece, Segment};
use crate::text::{push_repeated, repeated};

verus! {

/// Width of the bar beside the total CPU load and the memory loads.
pub const WIDE_BAR: usize = 24;
/// Width of the bar beside each core's load.
pub const CORE_BAR: usize = 18;
/// Width of the bar beside each volume's usage.
pub const VOLUME_BAR: usize = 20;

/// How heavy a load is: below 60 %, below 85 %, or above.
#[derive(Clone, Copy, Debug, PartialEq, Eq, Structural)]
pub enum Level {
    Normal,
    Elevated,
    Critical,
}

/// The colour of a bar at a load level.
pub open spec fn level_hue(level: Level) -> Hue {
    match level {
        Level::Normal => Hue::Green,
        Level::Elevated => Hue::Yellow,
        Level::Critical => Hue::Red,
    }
}

/// The cells of a bar `width` cells wide with `filled` of them filled;
/// a fill beyond the width leaves no empty cell.
pub open spec fn bar_cells(filled: nat, width: nat) -> Seq<char> {
    "["@ + repeated("■"@, filled) + repeated(" "@, if filled <= width {
        (width - filled) as nat
    } else {
        0
    }) + "]"@
}

/// The bar as a painted piece.
pub open spec fn bar_piece(filled: nat, width: nat, level: Level) -> Piece {
    Piece {
        text: bar_cells(filled, width),
        paint: Paint { hue: Some(level_hue(level)), bold: false },
        width: 0,
    }
}

/// `n` copies of a one-character text are `n` characters long.
pub proof fn lemma_repeated_len(s: Seq<char>, n: nat)
    ensures
        repeated(s, n).len() == n * s.len(),
    decreases n,
{
    if n > 0 {
        lemma_repeated_len(s, (n - 1) as nat);
        assert((n - 1) * s.len() + s.len() == n * s.len()) by (nonlinear_arith);
    }
}

/// The bar for a load: `filled` of `width` cells filled, coloured by
/// `level`.  A bar whose fill does not exceed its width is `width + 2`
/// characters long.
pub fn render_bar(filled: usize, width: usize, level: Level) -> (s: Segment)
    ensures
        s@ == bar_piece(filled as nat, width as nat, level),
        filled <= width ==> s@.text.len() == width + 2,
{
    let empty = width.saturating_sub(filled);
    let mut text = String::new();
    text.append("[");
    push_repeated(&mut text, "■", filled);
    push_repeated(&mut text, " ", empty);
    text.append("]");
    let hue = match level {
        Level::Normal => Hue::Green,
        Level::Elevated => Hue::Yellow,
        Level::Critical => Hue::Red,
    };
    proof {
        reveal_strlit("■");
        reveal_strlit(" ");
        reveal_strlit("[");
        reveal_strlit("]");
        lemma_repeated_len("■"@, filled as nat);
        lemma_repeated_len(" "@, empty as nat);
    }
    Segment { text, paint: Paint { hue: Some(hue), bold: false }, width: 0 }
}

/// Every character of `n` copies of a one-character text is that character.
proof fn lemma_repeated_char(c: char, n: nat)
    ensures
        repeated(seq![c], n).len() == n,
        forall|i: int| 0 <= i < n ==> #[trigger] repeated(seq![c], n)[i] == c,
    decreases n,
{
    if n > 0 {
        lemma_repeated_char(c, (n - 1) as nat);
        let prev = repeated(seq![c], (n - 1) as nat);
        assert forall|i: int| 0 <= i < n implies #[trigger] repeated(seq![c], n)[i] == c by {
            if i < n - 1 {
                assert(repeated(seq![c], n)[i] == prev[i]);
            }
        }
    }
}

/// A bar is `[`, then `filled` cells `■`, then as many blanks as leave it
/// `width` cells wide (none when the fill is wider), then `]`; it is green
/// for a normal load, yellow for an elevated one and red for a critical one,
/// never bold.
pub proof fn law_bar_shape(filled: nat, width: nat, level: Level)
    ensures
        ({
            let p = bar_piece(filled, width, level);
            let t = p.text;
            &&& t.len() == if filled <= width {
                width + 2
            } else {
                filled + 2
            }
            &&& t[0] == '['
            &&& t[t.len() - 1] == ']'
            &&& forall|i: int| 1 <= i <= filled ==> #[trigger] t[i] == '■'
            &&& forall|i: int| filled < i <= width ==> #[trigger] t[i] == ' '
            &&& p.paint.hue == Some(
                match level {
                    Level::Normal => Hue::Green,
                    Level::Elevated => Hue::Yellow,
                    Level::Critical => Hue::Red,
                },
            )
            &&& !p.paint.bold
            &&& p.width == 0
        }),
{
    reveal_strlit("■");
    reveal_strlit(" ");
    reveal_strlit("[");
    reveal_strlit("]");
    let empty: nat = if filled <= width {
        (width - filled) as nat
    } else {
        0
    };
    assert("■"@ =~= seq!['■']);
    assert(" "@ =~= seq![' ']);
    lemma_repeated_char('■', filled);
    lemma_repeated_char(' ', empty);
    let a = repeated("■"@, filled);
    let b = repeated(" "@, empty);
    let t = bar_cells(filled, width);
    assert(t == "["@ + a + b + "]"@);
    assert forall|i: int| 1 <= i <= filled implies #[trigger] t[i] == '■' by {
        assert(t[i] == a[i - 1]);
    }
    assert forall|i: int| filled < i <= width implies #[trigger] t[i] == ' ' by {
        assert(t[i] == b[i - 1 - filled]);
    }
}

} // verus!
