//! The confidence level of a forecast, held as the decimal text that is
//! handed to the forecasting stage: `0.` and the digits after the point.

use vstd::prelude::*;
use crate::text::chars_of;

verus! {

/// The least confidence level accepted, in thousandths.
pub const MIN_THOUSANDTHS: u32 = 500;

/// The greatest confidence level accepted, in thousandths.
pub const MAX_THOUSANDTHS: u32 = 999;

/// The confidence level suggested to the operator, in thousandths.
pub const DEFAULT_THOUSANDTHS: u32 = 950;

/// Whether `c` is a decimal digit.
pub open spec fn is_digit(c: char) -> bool {
    '0' <= c && c <= '9'
}

/// Whether `s` is made of decimal digits only.
pub open spec fn all_digits(s: Seq<char>) -> bool {
    forall|i: int| 0 <= i < s.len() ==> is_digit(#[trigger] s[i])
}

/// The number that the decimal digits `digits` write (0 for none).
pub open spec fn number(digits: Seq<char>) -> nat
    decreases digits.len(),
{
    if digits.len() == 0 {
        0
    } else {
        (10 * number(digits.drop_last()) + (digits.last() as int - 48)) as nat
    }
}

/// Ten to the power `n`.
pub open spec fn pow10(n: nat) -> nat
    decreases n,
{
    if n == 0 {
        1
    } else {
        10 * pow10((n - 1) as nat)
    }
}

/// Whether `text` writes a confidence level in range: `0.` followed by at
/// least one digit, the number written lying from 0.5 to 0.999, both
/// included.
pub open spec fn confidence_text_in_range(text: Seq<char>) -> bool {
    &&& text.len() >= 3
    &&& text[0] == '0'
    &&& text[1] == '.'
    &&& all_digits(text.skip(2))
    &&& MIN_THOUSANDTHS * pow10((text.len() - 2) as nat) <= 1000 * number(text.skip(2))
    &&& 1000 * number(text.skip(2)) <= MAX_THOUSANDTHS * pow10((text.len() - 2) as nat)
}

/// The digits of `digits` up to `k` and those from `k` on write the number
/// together: the first part counts in units of ten to the length of the
/// second, which stays below that unit.
proof fn lemma_number_split(digits: Seq<char>, k: int)
    requires
        all_digits(digits),
        0 <= k <= digits.len(),
    ensures
        number(digits) == number(digits.take(k)) * pow10((digits.len() - k) as nat) + number(
            digits.skip(k),
        ),
        number(digits.skip(k)) < pow10((digits.len() - k) as nat),
    decreases digits.len() - k,
{
    let n = digits.len() as int;
    if k == n {
        assert(digits.take(k) =~= digits);
        assert(digits.skip(k) =~= Seq::<char>::empty());
        assert(number(digits.take(k)) * 1 == number(digits.take(k))) by (nonlinear_arith);
    } else {
        let front = digits.drop_last();
        assert(all_digits(front)) by {
            assert forall|i: int| 0 <= i < front.len() implies is_digit(#[trigger] front[i]) by {
                assert(front[i] == digits[i]);
            }
        }
        lemma_number_split(front, k);
        assert(front.take(k) =~= digits.take(k));
        assert(digits.skip(k).drop_last() =~= front.skip(k));
        assert(digits.skip(k).last() == digits.last());
        assert(is_digit(digits[n - 1]));
        let head = number(digits.take(k));
        let unit = pow10((n - 1 - k) as nat);
        let rest = number(front.skip(k));
        let low = digits.last() as int - 48;
        assert(pow10((n - k) as nat) == 10 * unit);
        assert(number(digits) == 10 * (head * unit + rest) + low);
        assert(number(digits.skip(k)) == 10 * rest + low);
        assert(10 * (head * unit + rest) + low == head * (10 * unit) + (10 * rest + low))
            by (nonlinear_arith);
    }
}

/// Digits write zero only if each of them is `0`.
proof fn lemma_number_zero(digits: Seq<char>)
    requires
        all_digits(digits),
    ensures
        number(digits) == 0 <==> forall|i: int| 0 <= i < digits.len() ==> #[trigger] digits[i]
            == '0',
    decreases digits.len(),
{
    if digits.len() > 0 {
        let front = digits.drop_last();
        assert(all_digits(front)) by {
            assert forall|i: int| 0 <= i < front.len() implies is_digit(#[trigger] front[i]) by {
                assert(front[i] == digits[i]);
            }
        }
        lemma_number_zero(front);
        assert(is_digit(digits[digits.len() - 1]));
        if number(digits) == 0 {
            assert forall|i: int| 0 <= i < digits.len() implies #[trigger] digits[i] == '0' by {
                if i < front.len() {
                    assert(front[i] == digits[i]);
                }
            }
        } else {
            if forall|i: int| 0 <= i < digits.len() ==> #[trigger] digits[i] == '0' {
                assert forall|i: int| 0 <= i < front.len() implies #[trigger] front[i] == '0' by {
                    assert(front[i] == digits[i]);
                }
                assert(digits[digits.len() - 1] == '0');
            }
        }
    }
}

/// The number that up to three digits write, digit by digit.
proof fn lemma_number_short(digits: Seq<char>)
    requires
        all_digits(digits),
        digits.len() <= 3,
    ensures
        digits.len() == 1 ==> number(digits) == digits[0] as int - 48,
        digits.len() == 2 ==> number(digits) == 10 * (digits[0] as int - 48) + (digits[1] as int
            - 48),
        digits.len() == 3 ==> number(digits) == 100 * (digits[0] as int - 48) + 10 * (
        digits[1] as int - 48) + (digits[2] as int - 48),
{
    reveal_with_fuel(number, 4);
    if digits.len() >= 1 {
        assert(is_digit(digits[digits.len() - 1]));
        let a = digits.drop_last();
        if a.len() >= 1 {
            assert(a.last() == digits[a.len() - 1]);
            assert(is_digit(digits[a.len() - 1]));
            let b = a.drop_last();
            if b.len() >= 1 {
                assert(b.last() == digits[0]);
                assert(is_digit(digits[0]));
            }
        }
    }
}

/// A fraction is at least one half exactly if its first digit is at least 5.
proof fn lemma_at_least_half(digits: Seq<char>)
    requires
        all_digits(digits),
        digits.len() >= 1,
    ensures
        500 * pow10(digits.len()) <= 1000 * number(digits) <==> digits[0] >= '5',
{
    let n = digits.len();
    lemma_number_split(digits, 1);
    assert(digits.take(1)[0] == digits[0]);
    assert(is_digit(digits[0]));
    lemma_number_short(digits.take(1));
    let first = digits[0] as int - 48;
    let unit = pow10((n - 1) as nat) as int;
    let rest = number(digits.skip(1)) as int;
    assert(pow10(n) == 10 * unit);
    assert(number(digits) == first * unit + rest);
    assert(5 * unit <= first * unit + rest <==> first >= 5) by (nonlinear_arith)
        requires
            0 <= rest < unit,
            0 <= first <= 9,
    ;
}

/// A fraction of more than three digits is at most 0.999 exactly if its
/// first three digits are not all `9`, or all the digits after them are `0`.
proof fn lemma_at_most_limit(digits: Seq<char>)
    requires
        all_digits(digits),
        digits.len() >= 3,
    ensures
        1000 * number(digits) <= 999 * pow10(digits.len()) <==> !(digits[0] == '9' && digits[1]
            == '9' && digits[2] == '9') || (forall|i: int|
            3 <= i < digits.len() ==> #[trigger] digits[i] == '0'),
{
    let n = digits.len();
    lemma_number_split(digits, 3);
    let front = digits.take(3);
    let tail = digits.skip(3);
    assert(front[0] == digits[0] && front[1] == digits[1] && front[2] == digits[2]);
    assert(is_digit(digits[0]) && is_digit(digits[1]) && is_digit(digits[2]));
    lemma_number_short(front);
    assert(all_digits(tail)) by {
        assert forall|i: int| 0 <= i < tail.len() implies is_digit(#[trigger] tail[i]) by {
            assert(tail[i] == digits[i + 3]);
        }
    }
    lemma_number_zero(tail);
    let head = number(front) as int;
    let unit = pow10((n - 3) as nat) as int;
    let rest = number(tail) as int;
    assert(pow10(n) == 1000 * unit) by {
        reveal_with_fuel(pow10, 4);
    }
    assert(head * unit + rest <= 999 * unit <==> head < 999 || rest == 0) by (nonlinear_arith)
        requires
            0 <= rest < unit,
            0 <= head <= 999,
    ;
    assert(head == 999 <==> digits[0] == '9' && digits[1] == '9' && digits[2] == '9');
    if forall|i: int| 3 <= i < digits.len() ==> #[trigger] digits[i] == '0' {
        assert forall|i: int| 0 <= i < tail.len() implies #[trigger] tail[i] == '0' by {
            assert(tail[i] == digits[i + 3]);
        }
    }
    if forall|i: int| 0 <= i < tail.len() ==> #[trigger] tail[i] == '0' {
        assert forall|i: int| 3 <= i < digits.len() implies #[trigger] digits[i] == '0' by {
            assert(tail[i - 3] == digits[i]);
        }
    }
}

/// A fraction of at most three digits is at most 0.999.
proof fn lemma_short_is_below_limit(digits: Seq<char>)
    requires
        all_digits(digits),
        digits.len() <= 3,
    ensures
        1000 * number(digits) <= 999 * pow10(digits.len()),
{
    reveal_with_fuel(pow10, 4);
    lemma_number_split(digits, 0);
    assert(digits.skip(0) =~= digits);
}

/// Tells whether `text` writes a confidence level in range: `0.` followed by
/// digits, from 0.5 to 0.999.
pub fn confidence_in_range(text: &str) -> (ok: bool)
    ensures
        ok == confidence_text_in_range(text@),
{
    let chars = chars_of(text);
    let n = chars.len();
    if n < 3 || chars[0] != '0' || chars[1] != '.' {
        return false;
    }
    let ghost digits = text@.skip(2);
    let mut i: usize = 2;
    let mut zeros_after_third = true;
    while i < n
        invariant
            2 <= i <= n,
            n == chars.len(),
            chars@ == text@,
            digits == text@.skip(2),
            forall|j: int| 0 <= j < i - 2 ==> is_digit(#[trigger] digits[j]),
            zeros_after_third <==> forall|j: int| 3 <= j < i - 2 ==> #[trigger] digits[j] == '0',
        decreases n - i,
    {
        let c = chars[i];
        assert(digits[i - 2] == c);
        if !(c >= '0' && c <= '9') {
            assert(!is_digit(digits[i - 2]));
            return false;
        }
        if i >= 5 && c != '0' {
            zeros_after_third = false;
        }
        i = i + 1;
    }
    assert(all_digits(digits));
    assert(digits[0] == chars[2]);
    proof {
        lemma_at_least_half(digits);
        if n >= 5 {
            assert(digits[1] == chars[3] && digits[2] == chars[4]);
            lemma_at_most_limit(digits);
        } else {
            lemma_short_is_below_limit(digits);
        }
    }
    let at_least_half = chars[2] >= '5';
    let short = n <= 4;
    at_least_half && (short || !(chars[2] == '9' && chars[3] == '9' && chars[4] == '9')
        || zeros_after_third)
}

} // verus!
