//! Decimal numerals as ASCII bytes: writing them, reading them back, and
//! grouping their digits by thousands.

use num_format::{Locale, ToFormattedString};
use vstd::prelude::*;

verus! {

/// The ASCII code of the decimal digit `d`.
pub open spec fn digit(d: nat) -> u8
    recommends
        d < 10,
{
    (48 + d) as u8
}

/// Whether `b` is the ASCII code of a decimal digit.
pub open spec fn is_digit(b: u8) -> bool {
    48 <= b <= 57
}

/// The decimal numeral of `n`, most significant digit first, without leading
/// zeros (zero itself is the single digit `0`).
pub open spec fn numeral(n: nat) -> Seq<u8>
    decreases n,
{
    if n < 10 {
        seq![digit(n)]
    } else {
        numeral(n / 10).push(digit(n % 10))
    }
}

/// The number that a run of decimal digits stands for; leading zeros count
/// for nothing and the empty run stands for zero.
pub open spec fn numeral_value(s: Seq<u8>) -> nat
    decreases s.len(),
{
    if s.len() == 0 {
        0
    } else {
        numeral_value(s.drop_last()) * 10 + (s.last() - 48) as nat
    }
}

/// Whether every byte of `s` is a decimal digit.
pub open spec fn all_digits(s: Seq<u8>) -> bool {
    forall|i: int| 0 <= i < s.len() ==> is_digit(#[trigger] s[i])
}

/// Appends the decimal numeral of `n` to `out`.
pub fn push_numeral(out: &mut Vec<u8>, n: u64)
    ensures
        final(out)@ == old(out)@ + numeral(n as nat),
    decreases n,
{
    if n >= 10 {
        push_numeral(out, n / 10);
    }
    let d: u8 = (n % 10) as u8;
    out.push(48 + d);
    assert(out@ =~= old(out)@ + numeral(n as nat));
}

/// What a text stands for as an unsigned 16-bit number: an optional `+`, then
/// one or more decimal digits whose value is at most 65535. Anything else,
/// the empty text and a lone sign included, stands for nothing.
pub open spec fn unsigned16(s: Seq<u8>) -> Option<u16> {
    let digits = if s.len() > 0 && s[0] == 43 {
        s.skip(1)
    } else {
        s
    };
    if digits.len() > 0 && all_digits(digits) && numeral_value(digits) <= 65535 {
        Some(numeral_value(digits) as u16)
    } else {
        None
    }
}

/// A numeral is made of digits, stands for the number it was written for,
/// and reads back as that number where the number fits in sixteen bits.
pub proof fn numeral_reads_back(n: nat)
    ensures
        numeral(n).len() > 0,
        all_digits(numeral(n)),
        numeral_value(numeral(n)) == n,
        n <= 65535 ==> unsigned16(numeral(n)) == Some(n as u16),
    decreases n,
{
    if n < 10 {
        assert(numeral(n).drop_last() =~= Seq::<u8>::empty());
        assert(numeral_value(numeral(n).drop_last()) == 0);
    } else {
        numeral_reads_back(n / 10);
        assert(numeral(n).drop_last() =~= numeral(n / 10));
        assert forall|i: int| 0 <= i < numeral(n).len() implies is_digit(
            #[trigger] numeral(n)[i],
        ) by {
            if i < numeral(n / 10).len() {
                assert(numeral(n)[i] == numeral(n / 10)[i]);
            }
        }
    }
    assert(is_digit(numeral(n)[0]));
}

/// A longer run of digits never stands for less than one of its prefixes.
pub proof fn numeral_value_grows(s: Seq<u8>, k: int)
    requires
        0 <= k <= s.len(),
        all_digits(s),
    ensures
        numeral_value(s.take(k)) <= numeral_value(s),
    decreases s.len() - k,
{
    if k == s.len() {
        assert(s.take(k) =~= s);
    } else {
        numeral_value_grows(s, k + 1);
        assert(s.take(k + 1).drop_last() =~= s.take(k));
        assert(is_digit(s[k]));
    }
}

/// Reads an unsigned 16-bit number from `text`.
pub fn parse_unsigned16(text: &[u8]) -> (r: Option<u16>)
    ensures
        r == unsigned16(text@),
{
    let n: usize = text.len();
    let start: usize = if n > 0 && text[0] == 43 {
        1
    } else {
        0
    };
    if start == n {
        return None;
    }
    let ghost digits = text@.skip(start as int);
    assert(text@.skip(0) =~= text@);
    let mut value: u32 = 0;
    let mut i: usize = start;
    while i < n
        invariant
            start <= i <= n,
            n == text@.len(),
            digits == text@.skip(start as int),
            digits == if text@.len() > 0 && text@[0] == 43 {
                text@.skip(1)
            } else {
                text@
            },
            all_digits(digits.take(i - start)),
            value == numeral_value(digits.take(i - start)),
            value <= 65535,
        decreases n - i,
    {
        let b: u8 = text[i];
        let ghost seen = digits.take(i - start);
        let ghost next = digits.take(i - start + 1);
        assert(next.drop_last() =~= seen);
        assert(next.last() == b);
        if b < 48 || b > 57 {
            assert(!is_digit(digits[i - start]));
            return None;
        }
        value = value * 10 + (b - 48) as u32;
        assert(all_digits(next)) by {
            assert forall|j: int| 0 <= j < next.len() implies is_digit(#[trigger] next[j]) by {
                if j < seen.len() {
                    assert(next[j] == seen[j]);
                }
            }
        }
        if value > 65535 {
            proof {
                if all_digits(digits) {
                    numeral_value_grows(digits, i - start + 1);
                }
            }
            return None;
        }
        i = i + 1;
    }
    assert(digits.take(i - start) =~= digits);
    Some(value as u16)
}

/// The numeral of `n` with a comma before each group of three digits, the
/// groups counted from the right: `1,234,567`.
pub open spec fn grouped_numeral(n: nat) -> Seq<u8>
    decreases n,
{
    if n < 1000 {
        numeral(n)
    } else {
        grouped_numeral(n / 1000) + seq![
            44u8,
            digit(n / 100 % 10),
            digit(n / 10 % 10),
            digit(n % 10),
        ]
    }
}

/// The grouped numeral of a signed number: a minus sign goes before the
/// grouped numeral of a negative number's magnitude.
pub open spec fn signed_grouped_numeral(n: int) -> Seq<u8> {
    if n < 0 {
        seq![45u8] + grouped_numeral((-n) as nat)
    } else {
        grouped_numeral(n as nat)
    }
}

/// `s` with its commas taken out.
pub open spec fn without_commas(s: Seq<u8>) -> Seq<u8> {
    s.filter(|b: u8| b != 44u8)
}

/// A run of digits has no comma to take out.
pub proof fn digits_have_no_commas(s: Seq<u8>)
    requires
        all_digits(s),
    ensures
        without_commas(s) == s,
    decreases s.len(),
{
    reveal(Seq::filter);
    if s.len() > 0 {
        assert(is_digit(s[s.len() - 1]));
        assert forall|i: int| 0 <= i < s.drop_last().len() implies is_digit(
            #[trigger] s.drop_last()[i],
        ) by {
            assert(s.drop_last()[i] == s[i]);
        }
        digits_have_no_commas(s.drop_last());
        assert(s.drop_last().push(s.last()) =~= s);
    }
}

/// From a thousand on, a numeral is the numeral of the thousands followed by
/// the last three digits.
pub proof fn numeral_ends_in_three_digits(n: nat)
    requires
        n >= 1000,
    ensures
        numeral(n) == numeral(n / 1000) + seq![
            digit(n / 100 % 10),
            digit(n / 10 % 10),
            digit(n % 10),
        ],
{
    assert(n / 10 / 10 == n / 100 && n / 100 / 10 == n / 1000) by (nonlinear_arith);
    assert(numeral(n) == numeral(n / 10).push(digit(n % 10)));
    assert(numeral(n / 10) == numeral(n / 100).push(digit(n / 10 % 10)));
    assert(numeral(n / 100) == numeral(n / 1000).push(digit(n / 100 % 10)));
    assert(numeral(n) =~= numeral(n / 1000) + seq![
        digit(n / 100 % 10),
        digit(n / 10 % 10),
        digit(n % 10),
    ]);
}

/// Grouping adds commas and nothing else: with the commas taken out, the
/// grouped numeral of a number is its numeral.
pub proof fn grouping_only_adds_commas(n: nat)
    ensures
        without_commas(grouped_numeral(n)) == numeral(n),
    decreases n,
{
    numeral_reads_back(n);
    if n < 1000 {
        digits_have_no_commas(numeral(n));
    } else {
        let tail = seq![digit(n / 100 % 10), digit(n / 10 % 10), digit(n % 10)];
        let grouped_tail = seq![44u8, digit(n / 100 % 10), digit(n / 10 % 10), digit(n % 10)];
        grouping_only_adds_commas(n / 1000);
        numeral_ends_in_three_digits(n);
        Seq::filter_distributes_over_add(
            grouped_numeral(n / 1000),
            grouped_tail,
            |b: u8| b != 44u8,
        );
        assert(without_commas(grouped_tail) == tail) by {
            assert(grouped_tail =~= seq![44u8] + tail);
            Seq::filter_distributes_over_add(seq![44u8], tail, |b: u8| b != 44u8);
            assert(all_digits(tail));
            digits_have_no_commas(tail);
            assert(without_commas(seq![44u8]) =~= Seq::<u8>::empty()) by {
                reveal_with_fuel(Seq::filter, 2);
                assert(seq![44u8].drop_last() =~= Seq::<u8>::empty());
            }
        }
    }
}

/// Calls `num_format`'s `ToFormattedString::to_formatted_string` on an `i32`
/// with `Locale::en`. Trusted: the result is taken to be the decimal digits
/// of the magnitude, with the locale's separator `,` between groups of three
/// digits counted from the right, after the locale's minus sign `-` if the
/// number is negative.
#[verifier::external_body]
pub(crate) fn format_grouped(n: i32) -> (text: Vec<u8>)
    ensures
        text@ == signed_grouped_numeral(n as int),
{
    n.to_formatted_string(&Locale::en).into_bytes()
}

} // verus!
