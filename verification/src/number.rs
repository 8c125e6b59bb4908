//! Numbers as decimal text.

use vstd::prelude::*;

verus! {

/// The character of a decimal digit.
pub open spec fn digit_char(d: nat) -> char {
    (48 + d) as char
}

/// `n` in decimal, without leading zeros.
pub open spec fn decimal(n: nat) -> Seq<char>
    decreases n,
{
    if n < 10 {
        seq![digit_char(n)]
    } else {
        decimal(n / 10).push(digit_char(n % 10))
    }
}

/// `n` in decimal, with a minus sign where it is negative.
pub open spec fn signed_decimal(n: int) -> Seq<char> {
    if n < 0 {
        seq!['-'] + decimal((-n) as nat)
    } else {
        decimal(n as nat)
    }
}

/// `n` in decimal, filled up with leading zeros to at least `width` digits.
pub open spec fn padded(n: nat, width: nat) -> Seq<char> {
    let d = decimal(n);
    if d.len() < width {
        Seq::new((width - d.len()) as nat, |i: int| '0') + d
    } else {
        d
    }
}

/// Whether `c` is one of the ten ASCII digits.
pub open spec fn is_digit(c: char) -> bool {
    '0' <= c && c <= '9'
}

/// The number that the ASCII digits `s` write in decimal.
pub open spec fn digits_value(s: Seq<char>) -> nat
    decreases s.len(),
{
    if s.len() == 0 {
        0
    } else {
        digits_value(s.drop_last()) * 10 + ((s.last() as u32 - 48) as nat)
    }
}

/// Appends `n` in decimal.
pub fn push_decimal(s: &mut String, n: u128)
    ensures
        final(s)@ == old(s)@ + decimal(n as nat),
    decreases n,
{
    let ghost before = s@;
    if n < 10 {
        s.push((48u8 + n as u8) as char);
        assert(s@ =~= before + decimal(n as nat));
    } else {
        push_decimal(s, n / 10);
        s.push((48u8 + (n % 10) as u8) as char);
        assert(s@ =~= before + decimal(n as nat));
    }
}

/// `n` in decimal.
pub fn decimal_text(n: u128) -> (r: String)
    ensures
        r@ == decimal(n as nat),
{
    let mut s = String::new();
    push_decimal(&mut s, n);
    assert(s@ =~= decimal(n as nat));
    s
}

/// `n` in decimal, with its sign where it is negative.
pub fn signed_text(n: i64) -> (r: String)
    ensures
        r@ == signed_decimal(n as int),
{
    let mut s = String::new();
    if n < 0 {
        s.push('-');
        let m: i128 = -(n as i128);
        push_decimal(&mut s, m as u128);
        assert(s@ =~= signed_decimal(n as int));
    } else {
        push_decimal(&mut s, n as u128);
        assert(s@ =~= signed_decimal(n as int));
    }
    s
}

/// `n` in decimal with at least `width` digits.
pub fn padded_text(n: u128, width: usize) -> (r: String)
    ensures
        r@ == padded(n as nat, width as nat),
{
    let d = decimal_text(n);
    let v = crate::text::chars_of(d.as_str());
    let mut s = String::new();
    if v.len() < width {
        let fill: usize = width - v.len();
        for i in 0..fill
            invariant
                s@ == Seq::new(i as nat, |j: int| '0'),
        {
            s.push('0');
            assert(s@ =~= Seq::new((i + 1) as nat, |j: int| '0'));
        }
    }
    s.append(d.as_str());
    assert(s@ =~= padded(n as nat, width as nat));
    s
}

proof fn lemma_digit(d: nat)
    requires
        d < 10,
    ensures
        is_digit(digit_char(d)),
        (digit_char(d) as u32 - 48) == d,
{
}

/// A number in decimal is made of digits and at least one of them, and it is the
/// number that those digits write: two numbers never look alike.
pub proof fn law_decimal_reads_back(n: nat)
    ensures
        decimal(n).len() > 0,
        forall|i: int| 0 <= i < decimal(n).len() ==> is_digit(#[trigger] decimal(n)[i]),
        digits_value(decimal(n)) == n,
    decreases n,
{
    reveal_with_fuel(digits_value, 2);
    if n < 10 {
        lemma_digit(n);
        assert(decimal(n).drop_last() =~= Seq::<char>::empty());
    } else {
        law_decimal_reads_back(n / 10);
        lemma_digit(n % 10);
        assert(decimal(n).drop_last() =~= decimal(n / 10));
    }
}

/// A number that is filled up has the given width, or its own where it needs more, and
/// is the same number.
pub proof fn law_padded_keeps_the_number(n: nat, width: nat)
    ensures
        padded(n, width).len() >= width,
        decimal(n).len() >= width ==> padded(n, width) == decimal(n),
        decimal(n).len() < width ==> padded(n, width).len() == width,
        forall|i: int| 0 <= i < padded(n, width).len() ==> is_digit(#[trigger] padded(n, width)[i]),
        digits_value(padded(n, width)) == n,
{
    law_decimal_reads_back(n);
    let d = decimal(n);
    if d.len() < width {
        let k = (width - d.len()) as nat;
        lemma_leading_zeros(k, d);
        let p = padded(n, width);
        assert forall|i: int| 0 <= i < p.len() implies is_digit(#[trigger] p[i]) by {
            if i >= k {
                assert(p[i] == d[i - k]);
            }
        }
    }
}

proof fn lemma_leading_zeros(k: nat, d: Seq<char>)
    ensures
        digits_value(Seq::new(k, |i: int| '0') + d) == digits_value(d),
    decreases k + d.len(),
{
    let z = Seq::new(k, |i: int| '0');
    let s = z + d;
    if d.len() > 0 {
        lemma_leading_zeros(k, d.drop_last());
        assert(s.drop_last() =~= z + d.drop_last());
        assert(s.last() == d.last());
    } else if k > 0 {
        let m = (k - 1) as nat;
        lemma_leading_zeros(m, d);
        assert(s.drop_last() =~= Seq::new(m, |i: int| '0') + d);
        assert(s.last() == '0');
    } else {
        assert(s =~= d);
    }
}

/// A negative number has a minus sign before its digits, and no other has a sign.
pub proof fn law_sign_stands_in_front(n: int)
    ensures
        n < 0 ==> signed_decimal(n) == seq!['-'] + decimal((-n) as nat),
        n >= 0 ==> signed_decimal(n) == decimal(n as nat),
{
}

} // verus!
