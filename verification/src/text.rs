//! Plain text building blocks: decimal numerals, padding and repetition,
//! each with the meaning that Rust's formatting machinery gives them.

use vstd::prelude::*;
use vstd::utf8::{decode_utf8, encode_scalar, encode_utf8, is_char_boundary};
use vstd::string::StringSliceAdditionalSpecFns;

verus! {

/// The character of a decimal digit `d` (for `d < 10`).
pub open spec fn digit_char(d: nat) -> char {
    (48 + d) as char
}

/// The decimal numeral of `n`, as `{}` prints an unsigned integer.
pub open spec fn decimal(n: nat) -> Seq<char>
    decreases n,
{
    if n < 10 {
        seq![digit_char(n)]
    } else {
        decimal(n / 10).push(digit_char(n % 10))
    }
}

/// The number that a string of decimal digits denotes.
pub open spec fn numeral_value(s: Seq<char>) -> nat
    decreases s.len(),
{
    if s.len() == 0 {
        0
    } else {
        numeral_value(s.drop_last()) * 10 + ((s.last() as int - 48) as nat)
    }
}

/// A decimal numeral has no leading zero (unless it is `0`) and denotes
/// the number it was written for.
pub proof fn law_decimal_denotes(n: nat)
    ensures
        numeral_value(decimal(n)) == n,
        decimal(n).len() >= 1,
        decimal(n).len() == 1 <==> n < 10,
        decimal(n).len() > 1 ==> decimal(n)[0] != '0',
        forall|i: int| 0 <= i < decimal(n).len() ==> '0' <= #[trigger] decimal(n)[i] <= '9',
    decreases n,
{
    if n < 10 {
        assert(decimal(n).drop_last() =~= Seq::<char>::empty());
        assert(numeral_value(decimal(n).drop_last()) == 0);
        assert(digit_char(n) as int == 48 + n);
    } else {
        law_decimal_denotes(n / 10);
        let d = decimal(n);
        assert(d.drop_last() =~= decimal(n / 10));
        assert(d.last() == digit_char(n % 10));
        assert(digit_char(n % 10) as int == 48 + n % 10);
        assert(numeral_value(d) == numeral_value(decimal(n / 10)) * 10 + n % 10);
        assert((n / 10) * 10 + n % 10 == n);
        assert(d[0] == decimal(n / 10)[0]);
        if n / 10 < 10 {
            assert(decimal(n / 10)[0] == digit_char(n / 10));
            assert(digit_char(n / 10) as int == 48 + n / 10);
        }
        assert forall|i: int| 0 <= i < d.len() implies '0' <= #[trigger] d[i] <= '9' by {
            if i < d.len() - 1 {
                assert(d[i] == decimal(n / 10)[i]);
            }
        }
    }
}

/// `n` spaces.
pub open spec fn spaces(n: nat) -> Seq<char> {
    Seq::new(n, |i: int| ' ')
}

/// `s` followed by enough spaces to make it `width` characters long,
/// as the format `{:<width}` lays out a text.
pub open spec fn pad_right(s: Seq<char>, width: nat) -> Seq<char> {
    if s.len() < width {
        s + spaces((width - s.len()) as nat)
    } else {
        s
    }
}

/// Enough spaces followed by `s` to make it `width` characters long,
/// as the format `{:>width}` lays out a text.
pub open spec fn pad_left(s: Seq<char>, width: nat) -> Seq<char> {
    if s.len() < width {
        spaces((width - s.len()) as nat) + s
    } else {
        s
    }
}

/// `n` copies of `s`, one after the other.
pub open spec fn repeated(s: Seq<char>, n: nat) -> Seq<char>
    decreases n,
{
    if n == 0 {
        Seq::empty()
    } else {
        repeated(s, (n - 1) as nat) + s
    }
}

/// The one-character text of the digit `d`.
pub(crate) fn digit_text(d: u64) -> (r: &'static str)
    requires
        d < 10,
    ensures
        r@ == seq![digit_char(d as nat)],
{
    proof {
        reveal_strlit("0");
        reveal_strlit("1");
        reveal_strlit("2");
        reveal_strlit("3");
        reveal_strlit("4");
        reveal_strlit("5");
        reveal_strlit("6");
        reveal_strlit("7");
        reveal_strlit("8");
        reveal_strlit("9");
    }
    let r = match d {
        0 => "0",
        1 => "1",
        2 => "2",
        3 => "3",
        4 => "4",
        5 => "5",
        6 => "6",
        7 => "7",
        8 => "8",
        _ => "9",
    };
    assert(r@ =~= seq![digit_char(d as nat)]);
    r
}

/// The decimal numeral of `n`, the text that `n.to_string()` gives.
pub fn decimal_text(n: u64) -> (r: String)
    ensures
        r@ == decimal(n as nat),
    decreases n,
{
    if n < 10 {
        let mut r = String::new();
        r.append(digit_text(n));
        assert(r@ =~= decimal(n as nat));
        r
    } else {
        let mut r = decimal_text(n / 10);
        r.append(digit_text(n % 10));
        assert(r@ =~= decimal(n as nat));
        r
    }
}

/// Appends `n` spaces to `s`.
fn push_spaces(s: &mut String, n: usize)
    ensures
        final(s)@ == old(s)@ + spaces(n as nat),
{
    let ghost start = s@;
    let mut i: usize = 0;
    while i < n
        invariant
            i <= n,
            s@ == start + spaces(i as nat),
        decreases n - i,
    {
        proof {
            reveal_strlit(" ");
        }
        s.append(" ");
        i = i + 1;
        assert(s@ =~= start + spaces(i as nat));
    }
}

/// `text` laid out left-aligned in a field of `width` characters (`{:<width}`).
pub fn pad_right_text(text: &str, width: usize) -> (r: String)
    ensures
        r@ == pad_right(text@, width as nat),
{
    let len = text.unicode_len();
    let mut r = String::new();
    r.append(text);
    assert(r@ =~= text@);
    if len < width {
        push_spaces(&mut r, width - len);
    }
    r
}

/// `text` laid out right-aligned in a field of `width` characters (`{:>width}`).
pub fn pad_left_text(text: &str, width: usize) -> (r: String)
    ensures
        r@ == pad_left(text@, width as nat),
{
    let len = text.unicode_len();
    let mut r = String::new();
    if len < width {
        push_spaces(&mut r, width - len);
    }
    r.append(text);
    assert(r@ =~= pad_left(text@, width as nat));
    r
}

/// Appends `n` copies of `unit` to `s` (as `unit.repeat(n)` would give them).
pub fn push_repeated(s: &mut String, unit: &str, n: usize)
    ensures
        final(s)@ == old(s)@ + repeated(unit@, n as nat),
{
    let ghost start = s@;
    let mut i: usize = 0;
    assert(start =~= start + repeated(unit@, 0));
    while i < n
        invariant
            i <= n,
            s@ == start + repeated(unit@, i as nat),
        decreases n - i,
    {
        s.append(unit);
        i = i + 1;
        assert(s@ =~= start + repeated(unit@, i as nat));
    }
}

/// White space as `char::is_whitespace` (and so `str::trim`) knows it:
/// the characters with the Unicode `White_Space` property.
pub open spec fn is_white_space(c: char) -> bool {
    ('\u{9}' <= c && c <= '\u{d}') || c == ' ' || c == '\u{85}' || c == '\u{a0}'
        || c == '\u{1680}' || ('\u{2000}' <= c && c <= '\u{200a}') || c == '\u{2028}'
        || c == '\u{2029}' || c == '\u{202f}' || c == '\u{205f}' || c == '\u{3000}'
}

/// `s` without its leading white space.
pub open spec fn trimmed_start(s: Seq<char>) -> Seq<char>
    decreases s.len(),
{
    if s.len() > 0 && is_white_space(s[0]) {
        trimmed_start(s.drop_first())
    } else {
        s
    }
}

/// `s` without its trailing white space.
pub open spec fn trimmed_end(s: Seq<char>) -> Seq<char>
    decreases s.len(),
{
    if s.len() > 0 && is_white_space(s.last()) {
        trimmed_end(s.drop_last())
    } else {
        s
    }
}

/// `s` without its leading and trailing white space, what `str::trim` gives.
pub open spec fn trimmed(s: Seq<char>) -> Seq<char> {
    trimmed_end(trimmed_start(s))
}

/// Whether `c` is white space (`char::is_whitespace`).
pub fn white_space(c: char) -> (b: bool)
    ensures
        b == is_white_space(c),
{
    ('\u{9}' <= c && c <= '\u{d}') || c == ' ' || c == '\u{85}' || c == '\u{a0}'
        || c == '\u{1680}' || ('\u{2000}' <= c && c <= '\u{200a}') || c == '\u{2028}'
        || c == '\u{2029}' || c == '\u{202f}' || c == '\u{205f}' || c == '\u{3000}'
}

/// `text` without its leading and trailing white space (`str::trim`).
pub fn trim_text(text: &str) -> (r: &str)
    ensures
        r@ == trimmed(text@),
{
    let n = text.unicode_len();
    let mut i: usize = 0;
    assert(text@.subrange(0, n as int) =~= text@);
    while i < n && white_space(text.get_char(i))
        invariant
            n == text@.len(),
            i <= n,
            trimmed_start(text@) == trimmed_start(text@.subrange(i as int, n as int)),
        decreases n - i,
    {
        assert(text@.subrange(i as int, n as int).drop_first() =~= text@.subrange(i + 1, n as int));
        i = i + 1;
    }
    let ghost front = text@.subrange(i as int, n as int);
    assert(trimmed_start(front) == front);
    let mut j: usize = n;
    while j > i && white_space(text.get_char(j - 1))
        invariant
            n == text@.len(),
            i <= j <= n,
            front == text@.subrange(i as int, n as int),
            trimmed_end(front) == trimmed_end(text@.subrange(i as int, j as int)),
        decreases j,
    {
        assert(text@.subrange(i as int, j as int).drop_last() =~= text@.subrange(i as int, j - 1));
        j = j - 1;
    }
    assert(trimmed_end(text@.subrange(i as int, j as int)) == text@.subrange(i as int, j as int));
    text.substring_char(i, j)
}

/// A line break at the end of an answer does not change its trimmed text.
pub proof fn law_line_break_ignored(s: Seq<char>)
    ensures
        trimmed(s.push('\n')) == trimmed(s),
    decreases s.len(),
{
    if s.len() > 0 && is_white_space(s[0]) {
        assert(s.push('\n').drop_first() =~= s.drop_first().push('\n'));
        law_line_break_ignored(s.drop_first());
    } else if s.len() == 0 {
        assert(s.push('\n').drop_first() =~= Seq::<char>::empty());
        assert(trimmed_start(s.push('\n')) == trimmed_start(Seq::<char>::empty()));
        assert(trimmed_end(Seq::<char>::empty()) =~= Seq::<char>::empty());
    } else {
        assert(trimmed_start(s.push('\n')) == s.push('\n'));
        assert(s.push('\n').drop_last() =~= s);
    }
}

/// The UTF-8 byte length of a text, what `str::len` counts.
pub open spec fn byte_len(s: Seq<char>) -> nat {
    encode_utf8(s).len()
}

/// The text of a process name as the task table shows it: a name longer
/// than 30 bytes is cut to its first 27 bytes and marked with `...`.
pub open spec fn display_name(name: Seq<char>) -> Seq<char> {
    if byte_len(name) > 30 {
        decode_utf8(encode_utf8(name).subrange(0, 27)) + "..."@
    } else {
        name
    }
}

/// Whether `display_name` can cut `name`: either no cut is needed or the
/// 27th byte ends a character.  (Slicing a `str` elsewhere panics.)
pub open spec fn can_shorten(name: Seq<char>) -> bool {
    byte_len(name) <= 30 || is_char_boundary(encode_utf8(name), 27)
}

/// UTF-8 encoding distributes over concatenation.
pub proof fn lemma_encode_utf8_concat(a: Seq<char>, b: Seq<char>)
    ensures
        encode_utf8(a + b) == encode_utf8(a) + encode_utf8(b),
    decreases a.len(),
{
    if a.len() == 0 {
        assert(a + b =~= b);
        assert(encode_utf8(a) =~= Seq::<u8>::empty());
        assert(encode_utf8(a) + encode_utf8(b) =~= encode_utf8(b));
    } else {
        assert((a + b).drop_first() =~= a.drop_first() + b);
        assert((a + b)[0] == a[0]);
        lemma_encode_utf8_concat(a.drop_first(), b);
        assert(encode_utf8(a + b) =~= encode_utf8(a) + encode_utf8(b));
    }
}

/// The name as the task table shows it (see `display_name`); the shown
/// text never takes more than 30 bytes.
pub fn shorten_name(name: &str) -> (r: String)
    requires
        can_shorten(name@),
    ensures
        r@ == display_name(name@),
        byte_len(r@) <= 30,
{
    if name.as_bytes().len() > 30 {
        let (head, _) = name.split_at(27);
        let mut r = String::new();
        r.append(head);
        r.append("...");
        proof {
            let bytes = encode_utf8(name@);
            let sub = bytes.subrange(0, 27);
            vstd::utf8::encode_utf8_valid_utf8(name@);
            vstd::utf8::valid_utf8_split(bytes, 27);
            vstd::utf8::encode_utf8_decode_utf8(head@);
            assert(head.spec_bytes() =~= sub);
            assert(head@ == decode_utf8(sub));
            lemma_encode_utf8_concat(head@, "..."@);
            reveal_strlit("...");
            assert(encode_utf8("..."@).len() == 3) by {
                reveal_with_fuel(encode_utf8, 4);
                let d = "..."@;
                assert(d.drop_first().drop_first().drop_first() =~= Seq::<char>::empty());
            }
            assert(r@ =~= head@ + "..."@);
        }
        r
    } else {
        let mut r = String::new();
        r.append(name);
        r
    }
}

/// The task table shows a name of at most 30 bytes as it is; a longer one
/// as its first 27 bytes followed by three dots, 30 bytes in all. (A cut
/// inside a character is left out: the slice would panic.)
pub proof fn law_display_name(name: Seq<char>)
    requires
        can_shorten(name),
    ensures
        byte_len(name) <= 30 ==> display_name(name) == name,
        byte_len(name) > 30 ==> encode_utf8(display_name(name)) == encode_utf8(name).subrange(0, 27)
            + seq![46u8, 46u8, 46u8],
        byte_len(display_name(name)) <= 30,
{
    if byte_len(name) > 30 {
        let bytes = encode_utf8(name);
        let sub = bytes.subrange(0, 27);
        vstd::utf8::encode_utf8_valid_utf8(name);
        vstd::utf8::valid_utf8_split(bytes, 27);
        vstd::utf8::decode_utf8_encode_utf8(sub);
        let head = decode_utf8(sub);
        lemma_encode_utf8_concat(head, "..."@);
        reveal_strlit("...");
        assert(encode_utf8("..."@) == seq![46u8, 46u8, 46u8]) by {
            reveal_with_fuel(encode_utf8, 4);
            let d = "..."@;
            assert(d.drop_first().drop_first().drop_first() =~= Seq::<char>::empty());
            assert(d[0] == '.' && d[1] == '.' && d[2] == '.');
            let dot: u32 = 46;
            assert(dot & 0x7F == 46) by (bit_vector)
                requires
                    dot == 46,
            ;
            assert(('.' as u32) == dot);
            assert(encode_scalar(dot) =~= seq![46u8]);
            assert(encode_utf8(d.drop_first().drop_first()) =~= seq![46u8]);
            assert(encode_utf8(d.drop_first()) =~= seq![46u8, 46u8]);
        }
    }
}

} // verus!
