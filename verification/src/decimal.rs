//! Numbers as decimal text.

use vstd::prelude::*;

verus! {

/// The character `0`.
pub const ZERO: u8 = 0x30;

/// The decimal point.
pub const POINT: u8 = 0x2e;

/// The character of the digit `d`.
pub open spec fn digit(d: nat) -> u8
    recommends
        d < 10,
{
    (ZERO + d) as u8
}

/// The decimal digits of `n`, the first of them no zero unless `n` is zero.
pub open spec fn decimal(n: nat) -> Seq<u8>
    decreases n,
{
    if n < 10 {
        seq![digit(n)]
    } else {
        decimal(n / 10).push(digit(n % 10))
    }
}

/// The whole number `n` as a decimal fraction: its digits, a point and a
/// zero.
pub open spec fn whole(n: nat) -> Seq<u8> {
    decimal(n) + seq![POINT, ZERO]
}

/// `h` hundredths as a decimal fraction: the digits of the whole part, a
/// point, the tenths, and the hundredths unless there are none.
pub open spec fn hundredths(h: nat) -> Seq<u8> {
    decimal(h / 100) + seq![POINT, digit(h / 10 % 10)] + if h % 10 == 0 {
        Seq::<u8>::empty()
    } else {
        seq![digit(h % 10)]
    }
}

/// Decimal digits are digits, and there is at least one.
pub proof fn lemma_decimal_digits(n: nat)
    ensures
        decimal(n).len() >= 1,
        forall|i: int| 0 <= i < decimal(n).len() ==> ZERO <= #[trigger] decimal(n)[i] <= ZERO + 9,
        n > 0 ==> decimal(n)[0] != ZERO,
    decreases n,
{
    if n >= 10 {
        lemma_decimal_digits(n / 10);
    }
}

/// The number that decimal digits spell: `0` for none.
pub open spec fn number(text: Seq<u8>) -> nat
    decreases text.len(),
{
    if text.len() == 0 {
        0
    } else {
        (10 * number(text.drop_last()) + (text.last() - ZERO)) as nat
    }
}

/// The digits of a number spell that number.
pub proof fn lemma_number_of_decimal(n: nat)
    ensures
        number(decimal(n)) == n,
    decreases n,
{
    if n < 10 {
        assert(decimal(n).drop_last() =~= Seq::<u8>::empty());
        assert(number(decimal(n).drop_last()) == 0);
    } else {
        lemma_number_of_decimal(n / 10);
        assert(decimal(n).drop_last() =~= decimal(n / 10));
    }
}

/// Appends the decimal digits of `n` to `out`.
pub fn put_decimal(out: &mut Vec<u8>, n: u64)
    ensures
        final(out)@ == old(out)@ + decimal(n as nat),
    decreases n,
{
    if n >= 10 {
        put_decimal(out, n / 10);
    }
    out.push(ZERO + (n % 10) as u8);
    assert(out@ =~= old(out)@ + decimal(n as nat));
}

/// The whole number `n` as a decimal fraction.
pub fn whole_text(n: u64) -> (text: Vec<u8>)
    ensures
        text@ == whole(n as nat),
{
    let mut text: Vec<u8> = Vec::new();
    put_decimal(&mut text, n);
    text.push(POINT);
    text.push(ZERO);
    assert(text@ =~= whole(n as nat));
    text
}

/// `h` hundredths as a decimal fraction.
pub fn hundredths_text(h: u64) -> (text: Vec<u8>)
    ensures
        text@ == hundredths(h as nat),
{
    let mut text: Vec<u8> = Vec::new();
    put_decimal(&mut text, h / 100);
    text.push(POINT);
    text.push(ZERO + (h / 10 % 10) as u8);
    if h % 10 != 0 {
        text.push(ZERO + (h % 10) as u8);
    }
    assert(text@ =~= hundredths(h as nat));
    text
}

} // verus!
