//! Building text: appending characters and writing integers in decimal.

use vstd::prelude::*;
use vstd::string::*;

verus! {

/// `String::push` of the standard library: the character is appended at the
/// end and nothing else changes. Taken on trust from its documentation.
pub assume_specification[ String::push ](s: &mut String, c: char)
    ensures
        final(s)@ == old(s)@.push(c),
;

/// The characters of `s`, one by one.
pub fn chars_of(s: &str) -> (chars: Vec<char>)
    ensures
        chars@ == s@,
{
    let mut chars: Vec<char> = Vec::new();
    for c in it: s.chars()
        invariant
            it.seq() == s@,
            chars@ == s@.take(it.index()),
    {
        chars.push(c);
        assert(chars@ =~= s@.take(it.index() + 1));
    }
    assert(s@.take(s@.len() as int) =~= s@);
    chars
}

/// Appends `line` to `lines`.
pub fn push_text(lines: &mut Vec<String>, line: String)
    ensures
        final(lines).deep_view() == old(lines).deep_view().push(line@),
{
    lines.push(line);
    assert(lines.deep_view() =~= old(lines).deep_view().push(line@));
}

/// Appends a copy of `text` to `lines`.
pub fn push_str_text(lines: &mut Vec<String>, text: &str)
    ensures
        final(lines).deep_view() == old(lines).deep_view().push(text@),
{
    push_text(lines, String::from_str(text));
}

/// The character that writes the digit `d` (0 to 9).
pub open spec fn digit_char(d: int) -> char {
    (d + 48) as char
}

/// The decimal digits of `n`, most significant first, without leading zeros
/// (a single `0` for zero).
pub open spec fn decimal_digits(n: nat) -> Seq<char>
    decreases n,
{
    if n < 10 {
        seq![digit_char(n as int)]
    } else {
        decimal_digits(n / 10).push(digit_char((n % 10) as int))
    }
}

/// `n` written in decimal, with a leading `-` if it is negative.
pub open spec fn decimal_text(n: int) -> Seq<char> {
    if n < 0 {
        seq!['-'] + decimal_digits((-n) as nat)
    } else {
        decimal_digits(n as nat)
    }
}

/// `text` with as many `0` in front as it takes to reach `width` characters;
/// unchanged if it is that long already.
pub open spec fn zero_filled(text: Seq<char>, width: int) -> Seq<char> {
    if text.len() >= width {
        text
    } else {
        Seq::new((width - text.len()) as nat, |i: int| '0') + text
    }
}

/// `n` written in decimal and filled with zeros to at least `width`
/// characters, the sign counted among them and written first.
pub open spec fn zero_padded(n: int, width: int) -> Seq<char> {
    if n < 0 {
        seq!['-'] + zero_filled(decimal_digits((-n) as nat), width - 1)
    } else {
        zero_filled(decimal_digits(n as nat), width)
    }
}

/// A number has at least one digit, and at most twenty if it fits `u64`.
pub proof fn lemma_decimal_digits_len(n: nat)
    ensures
        decimal_digits(n).len() >= 1,
        n <= u64::MAX ==> decimal_digits(n).len() <= 20,
    decreases n,
{
    reveal_with_fuel(decimal_digits, 21);
    if n >= 10 {
        lemma_decimal_digits_len(n / 10);
    }
}

/// How far `n` lies from zero.
pub fn magnitude(n: i64) -> (m: u64)
    ensures
        m == if n < 0 {
            -(n as int)
        } else {
            n as int
        },
{
    if n < 0 {
        (-(n + 1)) as u64 + 1
    } else {
        n as u64
    }
}

/// Counts the decimal digits of `n`.
pub fn digit_count(n: u64) -> (count: usize)
    ensures
        count == decimal_digits(n as nat).len(),
        1 <= count <= 20,
    decreases n,
{
    proof {
        lemma_decimal_digits_len(n as nat);
    }
    if n < 10 {
        1
    } else {
        proof {
            lemma_decimal_digits_len((n / 10) as nat);
        }
        digit_count(n / 10) + 1
    }
}

/// Appends the decimal digits of `n` to `out`.
pub fn push_digits(out: &mut String, n: u64)
    ensures
        final(out)@ == old(out)@ + decimal_digits(n as nat),
    decreases n,
{
    if n >= 10 {
        push_digits(out, n / 10);
    }
    let low: u8 = (n % 10) as u8;
    let c: char = (low + 48) as char;
    assert(c == digit_char((n % 10) as int));
    out.push(c);
    assert(out@ =~= old(out)@ + decimal_digits(n as nat));
}

/// Appends `n`, written in decimal, to `out`.
pub fn push_decimal(out: &mut String, n: i64)
    ensures
        final(out)@ == old(out)@ + decimal_text(n as int),
{
    if n < 0 {
        out.push('-');
    }
    push_digits(out, magnitude(n));
    assert(out@ =~= old(out)@ + decimal_text(n as int));
}

/// Appends `n` to `out`, written in decimal and filled with zeros to at
/// least `width` characters.
pub fn push_zero_padded(out: &mut String, n: i64, width: usize)
    ensures
        final(out)@ == old(out)@ + zero_padded(n as int, width as int),
{
    let m = magnitude(n);
    let digits = digit_count(m);
    let used: usize = if n < 0 {
        out.push('-');
        digits + 1
    } else {
        digits
    };
    let ghost start = out@;
    let mut filled: usize = used;
    while filled < width
        invariant
            used <= filled,
            filled <= width || filled == used,
            out@ == start + Seq::new((filled - used) as nat, |i: int| '0'),
        decreases width - filled,
    {
        out.push('0');
        filled = filled + 1;
        assert(out@ =~= start + Seq::new((filled - used) as nat, |i: int| '0'));
    }
    push_digits(out, m);
    assert(out@ =~= old(out)@ + zero_padded(n as int, width as int));
}

/// `n` written in decimal.
pub fn decimal_string(n: i64) -> (text: String)
    ensures
        text@ == decimal_text(n as int),
{
    let mut text = String::new();
    push_decimal(&mut text, n);
    text
}

} // verus!
