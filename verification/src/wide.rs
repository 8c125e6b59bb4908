//! UTF-16 text as Win32 takes and gives it.

use vstd::prelude::*;
use crate::text::chars_of;

verus! {

/// `char::from_u32` gives the character with the code point `n`, or `None` where
/// `n` is no Unicode scalar value: a surrogate, or beyond U+10FFFF.
pub assume_specification[ char::from_u32 ](n: u32) -> (r: Option<char>)
    ensures
        r == if n < 0xD800 || 0xE000 <= n <= 0x10FFFF {
            Some(n as char)
        } else {
            None
        },
;

/// The UTF-16 code units of one character.
pub open spec fn utf16_char(c: char) -> Seq<u16> {
    let n = c as u32;
    if n < 0x10000 {
        seq![n as u16]
    } else {
        seq![
            (0xD800 + (n - 0x10000) / 0x400) as u16,
            (0xDC00 + (n - 0x10000) % 0x400) as u16,
        ]
    }
}

/// The UTF-16 code units of a text.
pub open spec fn utf16(s: Seq<char>) -> Seq<u16>
    decreases s.len(),
{
    if s.len() == 0 {
        seq![]
    } else {
        utf16_char(s[0]) + utf16(s.drop_first())
    }
}

/// The code units of a text and the NUL that ends it.
pub open spec fn wide(s: Seq<char>) -> Seq<u16> {
    utf16(s).push(0u16)
}

/// A code unit that opens a surrogate pair.
pub open spec fn is_high(u: u16) -> bool {
    0xD800 <= u < 0xDC00
}

/// A code unit that closes a surrogate pair.
pub open spec fn is_low(u: u16) -> bool {
    0xDC00 <= u < 0xE000
}

/// The character of a surrogate pair.
pub open spec fn pair_char(hi: u16, lo: u16) -> char {
    (0x10000 + (hi - 0xD800) * 0x400 + (lo - 0xDC00)) as char
}

/// The characters that code units write, in order, with `None` in place of each
/// surrogate that is no half of a pair.
pub open spec fn utf16_scalars(u: Seq<u16>) -> Seq<Option<char>>
    decreases u.len(),
{
    if u.len() == 0 {
        seq![]
    } else if !is_high(u[0]) && !is_low(u[0]) {
        seq![Some(u[0] as char)] + utf16_scalars(u.skip(1))
    } else if is_high(u[0]) && u.len() > 1 && is_low(u[1]) {
        seq![Some(pair_char(u[0], u[1]))] + utf16_scalars(u.skip(2))
    } else {
        seq![None] + utf16_scalars(u.skip(1))
    }
}

/// The text of code units, with U+FFFD for each surrogate that is alone.
pub open spec fn utf16_lossy(u: Seq<u16>) -> Seq<char> {
    let s = utf16_scalars(u);
    Seq::new(
        s.len(),
        |i: int|
            match s[i] {
                Some(c) => c,
                None => '\u{FFFD}',
            },
    )
}

/// The text of code units, unless a surrogate is alone.
pub open spec fn utf16_strict(u: Seq<u16>) -> Option<Seq<char>> {
    let s = utf16_scalars(u);
    if forall|i: int| 0 <= i < s.len() ==> #[trigger] s[i] is Some {
        Some(utf16_lossy(u))
    } else {
        None
    }
}

/// The code units before the first NUL.
pub open spec fn before_nul(u: Seq<u16>) -> Seq<u16>
    decreases u.len(),
{
    if u.len() == 0 || u[0] == 0 {
        seq![]
    } else {
        seq![u[0]] + before_nul(u.drop_first())
    }
}

/// The UTF-16 code units of `s`.
pub fn encode_units(s: &str) -> (r: Vec<u16>)
    ensures
        r@ == utf16(s@),
{
    let v = chars_of(s);
    let mut out: Vec<u16> = Vec::new();
    assert(s@.skip(0) =~= s@);
    for i in 0..v.len()
        invariant
            v@ == s@,
            out@ + utf16(s@.skip(i as int)) == utf16(s@),
    {
        let ghost before = out@;
        let n: u32 = v[i] as u32;
        if n < 0x10000 {
            out.push(n as u16);
        } else {
            let m: u32 = n - 0x10000;
            out.push((0xD800 + m / 0x400) as u16);
            out.push((0xDC00 + m % 0x400) as u16);
        }
        proof {
            assert(s@.skip(i as int).drop_first() =~= s@.skip(i + 1));
            assert(out@ =~= before + utf16_char(s@[i as int]));
            assert(out@ + utf16(s@.skip(i + 1)) =~= before + (utf16_char(s@[i as int]) + utf16(
                s@.skip(i + 1),
            )));
        }
    }
    assert(out@ + utf16(s@.skip(v.len() as int)) =~= out@);
    out
}

/// The NUL-terminated code units of `s`.
pub fn to_wide(s: &str) -> (r: Vec<u16>)
    ensures
        r@ == wide(s@),
{
    let mut out = encode_units(s);
    out.push(0u16);
    out
}

fn scalars(u: &Vec<u16>) -> (r: Vec<Option<char>>)
    ensures
        r@ == utf16_scalars(u@),
{
    let mut out: Vec<Option<char>> = Vec::new();
    let mut i: usize = 0;
    assert(u@.skip(0) =~= u@);
    while i < u.len()
        invariant
            i <= u.len(),
            out@ + utf16_scalars(u@.skip(i as int)) == utf16_scalars(u@),
        decreases u.len() - i,
    {
        let ghost before = out@;
        let ghost at = i as int;
        let a: u16 = u[i];
        let high = 0xD800 <= a && a < 0xDC00;
        let low = 0xDC00 <= a && a < 0xE000;
        if !high && !low {
            out.push(char::from_u32(a as u32));
            i += 1;
        } else if high && u.len() - i > 1 && 0xDC00 <= u[i + 1] && u[i + 1] < 0xE000 {
            let n: u32 = 0x10000 + (a as u32 - 0xD800) * 0x400 + (u[i + 1] as u32 - 0xDC00);
            out.push(char::from_u32(n));
            i += 2;
        } else {
            out.push(None);
            i += 1;
        }
        proof {
            let rest = u@.skip(at);
            assert(rest.skip(i - at) =~= u@.skip(i as int));
            assert(out@ + utf16_scalars(u@.skip(i as int)) =~= before + utf16_scalars(rest));
        }
    }
    assert(out@ + utf16_scalars(u@.skip(i as int)) =~= out@);
    out
}

/// The text of `u`, with U+FFFD for each surrogate that is alone.
pub fn decode_lossy(u: &Vec<u16>) -> (r: String)
    ensures
        r@ == utf16_lossy(u@),
{
    let s = scalars(u);
    let mut out = String::new();
    for i in 0..s.len()
        invariant
            s@ == utf16_scalars(u@),
            out@ == utf16_lossy(u@).take(i as int),
    {
        match s[i] {
            Some(c) => out.push(c),
            None => out.push('\u{FFFD}'),
        }
        assert(out@ =~= utf16_lossy(u@).take(i + 1));
    }
    assert(utf16_lossy(u@).take(s.len() as int) =~= utf16_lossy(u@));
    out
}

/// The text of `u`, or `None` if a surrogate in it is alone.
pub fn decode_strict(u: &Vec<u16>) -> (r: Option<String>)
    ensures
        crate::text::opt_text(r) == utf16_strict(u@),
{
    let s = scalars(u);
    for i in 0..s.len()
        invariant
            s@ == utf16_scalars(u@),
            forall|j: int| 0 <= j < i ==> #[trigger] s@[j] is Some,
    {
        if s[i].is_none() {
            assert(!(s@[i as int] is Some));
            return None;
        }
    }
    Some(decode_lossy(u))
}

/// The code units of `u` before its first NUL.
pub fn until_nul(u: &Vec<u16>) -> (r: Vec<u16>)
    ensures
        r@ == before_nul(u@),
{
    let mut out: Vec<u16> = Vec::new();
    let mut i: usize = 0;
    assert(u@.skip(0) =~= u@);
    while i < u.len() && u[i] != 0
        invariant
            i <= u.len(),
            out@ + before_nul(u@.skip(i as int)) == before_nul(u@),
        decreases u.len() - i,
    {
        let ghost before = out@;
        out.push(u[i]);
        i += 1;
        proof {
            let rest = u@.skip(i - 1);
            assert(rest.drop_first() =~= u@.skip(i as int));
            assert(out@ + before_nul(u@.skip(i as int)) =~= before + before_nul(rest));
        }
    }
    assert(out@ + before_nul(u@.skip(i as int)) =~= out@);
    out
}

/// Little-endian pairs of bytes as code units; an odd last byte is left out.
pub open spec fn le_units(b: Seq<u8>) -> Seq<u16> {
    Seq::new(b.len() / 2, |i: int| (b[2 * i] + 256 * b[2 * i + 1]) as u16)
}

/// The code units that the bytes of a registry string write.
pub fn units_of_bytes(b: &Vec<u8>) -> (r: Vec<u16>)
    ensures
        r@ == le_units(b@),
{
    let mut out: Vec<u16> = Vec::new();
    let n: usize = b.len() / 2;
    for i in 0..n
        invariant
            n == b.len() / 2,
            out@ == le_units(b@).take(i as int),
    {
        out.push(b[2 * i] as u16 + 256 * b[2 * i + 1] as u16);
        assert(out@ =~= le_units(b@).take(i + 1));
    }
    assert(le_units(b@).take(n as int) =~= le_units(b@));
    out
}

proof fn lemma_utf16_char_reads_back(c: char, rest: Seq<u16>)
    ensures
        utf16_scalars(utf16_char(c) + rest) == seq![Some(c)] + utf16_scalars(rest),
{
    let u = utf16_char(c) + rest;
    let n = c as u32;
    if n < 0x10000 {
        assert(u[0] == n);
        assert(u.skip(1) =~= rest);
    } else {
        let m = n - 0x10000;
        assert(0 <= m / 0x400 < 0x400 && 0 <= m % 0x400 < 0x400);
        assert(u[0] == 0xD800 + m / 0x400);
        assert(u[1] == 0xDC00 + m % 0x400);
        assert(u.skip(2) =~= rest);
        assert(pair_char(u[0], u[1]) == c);
    }
}

/// Encoding a text and decoding the code units gives the text back, and the
/// decoding finds no surrogate that is alone.
pub proof fn law_utf16_reads_back(s: Seq<char>)
    ensures
        utf16_lossy(utf16(s)) == s,
        utf16_strict(utf16(s)) == Some(s),
{
    lemma_utf16_scalars(s);
    assert(utf16_lossy(utf16(s)) =~= s);
}

proof fn lemma_utf16_scalars(s: Seq<char>)
    ensures
        utf16_scalars(utf16(s)) == Seq::new(s.len(), |i: int| Some(s[i])),
    decreases s.len(),
{
    if s.len() == 0 {
        assert(utf16_scalars(utf16(s)) =~= Seq::new(s.len(), |i: int| Some(s[i])));
    } else {
        lemma_utf16_scalars(s.drop_first());
        lemma_utf16_char_reads_back(s[0], utf16(s.drop_first()));
        assert(utf16_scalars(utf16(s)) =~= Seq::new(s.len(), |i: int| Some(s[i])));
    }
}

/// A wide string reads back as its text up to the NUL, for every text that holds
/// no NUL of its own.
pub proof fn law_wide_reads_back(s: Seq<char>)
    requires
        !s.contains('\0'),
    ensures
        before_nul(wide(s)) == utf16(s),
        utf16_lossy(before_nul(wide(s))) == s,
{
    lemma_no_nul(s);
    lemma_before_nul(utf16(s), seq![0u16]);
    assert(wide(s) =~= utf16(s) + seq![0u16]);
    law_utf16_reads_back(s);
}

proof fn lemma_char_no_nul(c: char)
    requires
        c != '\0',
    ensures
        forall|i: int| 0 <= i < utf16_char(c).len() ==> #[trigger] utf16_char(c)[i] != 0,
{
    let n = c as u32;
    if n >= 0x10000 {
        let m = n - 0x10000;
        assert(0 <= m / 0x400 < 0x400 && 0 <= m % 0x400 < 0x400);
    }
}

pub(crate) proof fn lemma_no_nul(s: Seq<char>)
    requires
        !s.contains('\0'),
    ensures
        forall|i: int| 0 <= i < utf16(s).len() ==> #[trigger] utf16(s)[i] != 0,
    decreases s.len(),
{
    if s.len() > 0 {
        let t = s.drop_first();
        assert(!t.contains('\0')) by {
            assert forall|i: int| 0 <= i < t.len() implies t[i] != '\0' by {
                assert(t[i] == s[i + 1]);
            }
        }
        lemma_no_nul(t);
        assert(s[0] != '\0');
        let h = utf16_char(s[0]);
        lemma_char_no_nul(s[0]);
        assert forall|i: int| 0 <= i < utf16(s).len() implies #[trigger] utf16(s)[i] != 0 by {
            if i < h.len() {
                assert(utf16(s)[i] == h[i]);
            } else {
                assert(utf16(s)[i] == utf16(t)[i - h.len()]);
            }
        }
    }
}

pub(crate) proof fn lemma_before_nul(u: Seq<u16>, tail: Seq<u16>)
    requires
        forall|i: int| 0 <= i < u.len() ==> u[i] != 0,
        tail.len() > 0,
        tail[0] == 0,
    ensures
        before_nul(u + tail) == u,
    decreases u.len(),
{
    let all = u + tail;
    if u.len() == 0 {
        assert(all =~= tail);
        assert(before_nul(all) =~= u);
    } else {
        assert(all.drop_first() =~= u.drop_first() + tail);
        lemma_before_nul(u.drop_first(), tail);
        assert(all[0] == u[0]);
        assert(before_nul(all) =~= u);
    }
}

/// A character is written as its code where that fits in one unit, and else as a pair
/// of surrogates; a text is written character by character, and a wide string ends
/// with a zero.
pub proof fn law_texts_are_written_in_utf16(c: char, s: Seq<char>)
    ensures
        (c as u32) < 0x10000 ==> utf16(seq![c] + s) == seq![(c as u32) as u16] + utf16(s),
        (c as u32) >= 0x10000 ==> utf16(seq![c] + s) == seq![
            (0xD800 + (c as u32 - 0x10000) / 0x400) as u16,
            (0xDC00 + (c as u32 - 0x10000) % 0x400) as u16,
        ] + utf16(s),
        utf16(Seq::empty()) == Seq::<u16>::empty(),
        wide(s) == utf16(s).push(0u16),
{
    let t = seq![c] + s;
    assert(t[0] == c);
    assert(t.drop_first() =~= s);
}

} // verus!
