//! Strings as sequences of characters: trimming, searching, splitting and case, each
//! stated over the characters that a string holds.

use vstd::prelude::*;

verus! {

/// `String::push` appends the given character to the end of the string.
pub assume_specification[ String::push ](s: &mut String, c: char)
    ensures
        final(s)@ == old(s)@.push(c),
;

/// The texts that a list of strings holds.
pub open spec fn texts(v: Seq<String>) -> Seq<Seq<char>> {
    Seq::new(v.len(), |i: int| v[i]@)
}

/// The text of an optional string.
pub open spec fn opt_text(o: Option<String>) -> Option<Seq<char>> {
    match o {
        Some(s) => Some(s@),
        None => None,
    }
}

/// The text of an optional borrowed string.
pub open spec fn opt_str(o: Option<&str>) -> Option<Seq<char>> {
    match o {
        Some(s) => Some(s@),
        None => None,
    }
}

/// A result whose success or failure carries a text, seen as its text.
pub open spec fn result_text(r: Result<String, String>) -> Result<Seq<char>, Seq<char>> {
    match r {
        Ok(s) => Ok(s@),
        Err(e) => Err(e@),
    }
}

/// A result without a value, seen as the text of its error.
pub open spec fn unit_result_text(r: Result<(), String>) -> Result<(), Seq<char>> {
    match r {
        Ok(u) => Ok(u),
        Err(e) => Err(e@),
    }
}

/// The characters of `s`, in order.
pub fn chars_of(s: &str) -> (r: Vec<char>)
    ensures
        r@ == s@,
{
    let mut out: Vec<char> = Vec::new();
    for c in it: s.chars()
        invariant
            out@ == s@.take(it.index() as int),
            it.seq() == s@,
    {
        out.push(c);
    }
    out
}

/// The string that holds the characters of `v`.
pub fn string_of(v: &Vec<char>) -> (r: String)
    ensures
        r@ == v@,
{
    let mut out = String::new();
    for i in 0..v.len()
        invariant
            out@ == v@.take(i as int),
    {
        out.push(v[i]);
    }
    out
}

/// The characters from `from` up to `to`, as a copy.
pub fn part(v: &Vec<char>, from: usize, to: usize) -> (r: Vec<char>)
    requires
        from <= to <= v.len(),
    ensures
        r@ == v@.subrange(from as int, to as int),
{
    let mut out: Vec<char> = Vec::new();
    let mut i: usize = from;
    while i < to
        invariant
            from <= i <= to <= v.len(),
            out@ == v@.subrange(from as int, i as int),
        decreases to - i,
    {
        out.push(v[i]);
        i += 1;
        assert(v@.subrange(from as int, i as int) =~= v@.subrange(from as int, i - 1).push(
            v@[i - 1],
        ));
    }
    out
}

/// Whether two lists of characters are the same.
pub fn same_chars(a: &Vec<char>, b: &Vec<char>) -> (r: bool)
    ensures
        r == (a@ == b@),
{
    if a.len() != b.len() {
        return false;
    }
    for i in 0..a.len()
        invariant
            a.len() == b.len(),
            forall|j: int| 0 <= j < i ==> a@[j] == b@[j],
    {
        if a[i] != b[i] {
            assert(a@[i as int] != b@[i as int]);
            return false;
        }
    }
    assert(a@ =~= b@);
    true
}

/// Whether two strings hold the same characters.
pub fn same(a: &str, b: &str) -> (r: bool)
    ensures
        r == (a@ == b@),
{
    same_chars(&chars_of(a), &chars_of(b))
}

// ---------------------------------------------------------------------------
// Trimming

/// The characters with the Unicode property `White_Space`.
pub open spec fn is_white(c: char) -> bool {
    let n = c as u32;
    ||| 0x9 <= n <= 0xD
    ||| n == 0x20
    ||| n == 0x85
    ||| n == 0xA0
    ||| n == 0x1680
    ||| 0x2000 <= n <= 0x200A
    ||| n == 0x2028
    ||| n == 0x2029
    ||| n == 0x202F
    ||| n == 0x205F
    ||| n == 0x3000
}

/// White space, as a class of characters.
pub open spec fn white() -> spec_fn(char) -> bool {
    |c: char| is_white(c)
}

/// The one character `ch`, as a class of characters.
pub open spec fn only(ch: char) -> spec_fn(char) -> bool {
    |c: char| c == ch
}

/// `s` without the longest prefix of characters in `class`.
pub open spec fn strip_front(s: Seq<char>, class: spec_fn(char) -> bool) -> Seq<char>
    decreases s.len(),
{
    if s.len() > 0 && class(s[0]) {
        strip_front(s.drop_first(), class)
    } else {
        s
    }
}

/// `s` without the longest suffix of characters in `class`.
pub open spec fn strip_back(s: Seq<char>, class: spec_fn(char) -> bool) -> Seq<char>
    decreases s.len(),
{
    if s.len() > 0 && class(s.last()) {
        strip_back(s.drop_last(), class)
    } else {
        s
    }
}

/// `s` without white space at its ends.
pub open spec fn trim(s: Seq<char>) -> Seq<char> {
    strip_back(strip_front(s, white()), white())
}

/// `s` without leading and trailing `ch`.
pub open spec fn strip_char(s: Seq<char>, ch: char) -> Seq<char> {
    strip_back(strip_front(s, only(ch)), only(ch))
}

/// Whether `c` is white space.
pub fn char_is_white(c: char) -> (r: bool)
    ensures
        r == is_white(c),
{
    let n = c as u32;
    (0x9 <= n && n <= 0xD) || n == 0x20 || n == 0x85 || n == 0xA0 || n == 0x1680 || (0x2000 <= n
        && n <= 0x200A) || n == 0x2028 || n == 0x2029 || n == 0x202F || n == 0x205F || n == 0x3000
}

proof fn lemma_strip_front_step(s: Seq<char>, class: spec_fn(char) -> bool, k: int)
    requires
        0 <= k < s.len(),
        class(s[k]),
    ensures
        strip_front(s.skip(k), class) == strip_front(s.skip(k + 1), class),
{
    assert(s.skip(k).drop_first() =~= s.skip(k + 1));
}

proof fn lemma_strip_back_step(s: Seq<char>, class: spec_fn(char) -> bool, k: int)
    requires
        0 < k <= s.len(),
        class(s[k - 1]),
    ensures
        strip_back(s.take(k), class) == strip_back(s.take(k - 1), class),
{
    assert(s.take(k).drop_last() =~= s.take(k - 1));
}

/// Removes white space from both ends.
pub fn trim_chars(v: &Vec<char>) -> (r: Vec<char>)
    ensures
        r@ == trim(v@),
{
    let mut a: usize = 0;
    assert(v@.skip(0) =~= v@);
    while a < v.len() && char_is_white(v[a])
        invariant
            a <= v.len(),
            strip_front(v@, white()) == strip_front(v@.skip(a as int), white()),
        decreases v.len() - a,
    {
        proof {
            lemma_strip_front_step(v@, white(), a as int);
        }
        a += 1;
    }
    let w = part(v, a, v.len());
    assert(w@ =~= v@.skip(a as int));
    let mut b: usize = w.len();
    assert(w@.take(b as int) =~= w@);
    while b > 0 && char_is_white(w[b - 1])
        invariant
            b <= w.len(),
            strip_back(w@, white()) == strip_back(w@.take(b as int), white()),
        decreases b,
    {
        proof {
            lemma_strip_back_step(w@, white(), b as int);
        }
        b -= 1;
    }
    let r = part(&w, 0, b);
    assert(r@ =~= w@.take(b as int));
    r
}

/// Removes `ch` from both ends.
pub fn strip_char_chars(v: &Vec<char>, ch: char) -> (r: Vec<char>)
    ensures
        r@ == strip_char(v@, ch),
{
    let mut a: usize = 0;
    assert(v@.skip(0) =~= v@);
    while a < v.len() && v[a] == ch
        invariant
            a <= v.len(),
            strip_front(v@, only(ch)) == strip_front(v@.skip(a as int), only(ch)),
        decreases v.len() - a,
    {
        proof {
            lemma_strip_front_step(v@, only(ch), a as int);
        }
        a += 1;
    }
    let w = part(v, a, v.len());
    assert(w@ =~= v@.skip(a as int));
    let mut b: usize = w.len();
    assert(w@.take(b as int) =~= w@);
    while b > 0 && w[b - 1] == ch
        invariant
            b <= w.len(),
            strip_back(w@, only(ch)) == strip_back(w@.take(b as int), only(ch)),
        decreases b,
    {
        proof {
            lemma_strip_back_step(w@, only(ch), b as int);
        }
        b -= 1;
    }
    let r = part(&w, 0, b);
    assert(r@ =~= w@.take(b as int));
    r
}

/// `s` without white space at its ends.
pub fn trim_text(s: &str) -> (r: String)
    ensures
        r@ == trim(s@),
{
    string_of(&trim_chars(&chars_of(s)))
}

pub(crate) proof fn lemma_strip_front(s: Seq<char>, class: spec_fn(char) -> bool)
    ensures
        strip_front(s, class).len() <= s.len(),
        strip_front(s, class) == s.skip(s.len() - strip_front(s, class).len()),
        strip_front(s, class).len() > 0 ==> !class(strip_front(s, class)[0]),
    decreases s.len(),
{
    if s.len() > 0 && class(s[0]) {
        lemma_strip_front(s.drop_first(), class);
        let n = strip_front(s, class).len();
        assert(s.drop_first().skip(s.drop_first().len() - n) =~= s.skip(s.len() - n));
    } else {
        assert(s.skip(0) =~= s);
    }
}

pub(crate) proof fn lemma_strip_back(s: Seq<char>, class: spec_fn(char) -> bool)
    ensures
        strip_back(s, class).len() <= s.len(),
        strip_back(s, class) == s.take(strip_back(s, class).len() as int),
        strip_back(s, class).len() > 0 ==> !class(strip_back(s, class).last()),
    decreases s.len(),
{
    if s.len() > 0 && class(s.last()) {
        lemma_strip_back(s.drop_last(), class);
        let n = strip_back(s, class).len() as int;
        assert(s.drop_last().take(n) =~= s.take(n));
    } else {
        assert(s.take(s.len() as int) =~= s);
    }
}

/// Characters of the class in front of a text make no difference to what is left.
pub(crate) proof fn lemma_strip_front_prefix(
    pre: Seq<char>,
    s: Seq<char>,
    class: spec_fn(char) -> bool,
)
    requires
        forall|i: int| 0 <= i < pre.len() ==> class(#[trigger] pre[i]),
    ensures
        strip_front(pre + s, class) == strip_front(s, class),
    decreases pre.len(),
{
    if pre.len() == 0 {
        assert(pre + s =~= s);
    } else {
        assert((pre + s).drop_first() =~= pre.drop_first() + s);
        assert forall|i: int| 0 <= i < pre.drop_first().len() implies class(
            #[trigger] pre.drop_first()[i],
        ) by {
            assert(pre.drop_first()[i] == pre[i + 1]);
        }
        assert(class(pre[0]));
        lemma_strip_front_prefix(pre.drop_first(), s, class);
    }
}

/// Characters of the class behind a text make no difference to what is left.
pub(crate) proof fn lemma_strip_back_suffix(
    s: Seq<char>,
    post: Seq<char>,
    class: spec_fn(char) -> bool,
)
    requires
        forall|i: int| 0 <= i < post.len() ==> class(#[trigger] post[i]),
    ensures
        strip_back(s + post, class) == strip_back(s, class),
    decreases post.len(),
{
    if post.len() == 0 {
        assert(s + post =~= s);
    } else {
        assert((s + post).drop_last() =~= s + post.drop_last());
        assert((s + post).last() == post.last());
        assert(class(post[post.len() - 1]));
        assert forall|i: int| 0 <= i < post.drop_last().len() implies class(
            #[trigger] post.drop_last()[i],
        ) by {
            assert(post.drop_last()[i] == post[i]);
        }
        lemma_strip_back_suffix(s, post.drop_last(), class);
    }
}

/// What trimming leaves is a contiguous part of the text, and neither of its
/// ends is white space.
pub proof fn lemma_trim(s: Seq<char>)
    ensures
        trim(s).len() <= s.len(),
        exists|a: int| 0 <= a && a + trim(s).len() <= s.len() && trim(s) == #[trigger] s.subrange(
            a,
            a + trim(s).len(),
        ),
        trim(s).len() > 0 ==> !is_white(trim(s)[0]) && !is_white(trim(s).last()),
{
    lemma_strip_front(s, white());
    let f = strip_front(s, white());
    lemma_strip_back(f, white());
    let t = trim(s);
    let a = s.len() - f.len();
    assert(t =~= s.subrange(a, a + t.len()));
}

/// Trimming a text whose ends are not white space changes nothing.
pub proof fn lemma_trim_noop(s: Seq<char>)
    requires
        s.len() > 0 ==> !is_white(s[0]) && !is_white(s.last()),
    ensures
        trim(s) == s,
{
}

/// Trimming twice is trimming once.
pub proof fn law_trim_idempotent(s: Seq<char>)
    ensures
        trim(trim(s)) == trim(s),
{
    lemma_trim(s);
    lemma_trim_noop(trim(s));
}

// ---------------------------------------------------------------------------
// Searching

/// `p` occurs in `s` at position `i`.
pub open spec fn occurs_at(s: Seq<char>, p: Seq<char>, i: int) -> bool {
    &&& 0 <= i
    &&& i + p.len() <= s.len()
    &&& s.subrange(i, i + p.len()) == p
}

/// `p` occurs somewhere in `s`.
pub open spec fn has(s: Seq<char>, p: Seq<char>) -> bool {
    exists|i: int| occurs_at(s, p, i)
}

/// `s` begins with `p`.
pub open spec fn begins(s: Seq<char>, p: Seq<char>) -> bool {
    occurs_at(s, p, 0)
}

fn matches_at(v: &Vec<char>, p: &Vec<char>, i: usize) -> (r: bool)
    requires
        i <= v.len(),
    ensures
        r == occurs_at(v@, p@, i as int),
{
    if p.len() > v.len() - i {
        return false;
    }
    for j in 0..p.len()
        invariant
            i <= v.len(),
            p.len() <= v.len() - i,
            forall|k: int| 0 <= k < j ==> v@[i + k] == p@[k],
    {
        if v[i + j] != p[j] {
            proof {
                let w = v@.subrange(i as int, i + p@.len());
                assert(w[j as int] == v@[i + j]);
            }
            return false;
        }
    }
    assert(v@.subrange(i as int, i + p@.len()) =~= p@);
    true
}

/// Whether `v` begins with `p`.
pub fn begins_with(v: &Vec<char>, p: &str) -> (r: bool)
    ensures
        r == begins(v@, p@),
{
    matches_at(v, &chars_of(p), 0)
}

/// Whether `p` occurs in `v`.
pub fn contains_text(v: &Vec<char>, p: &str) -> (r: bool)
    ensures
        r == has(v@, p@),
{
    let pc = chars_of(p);
    let mut i: usize = 0;
    while i < v.len()
        invariant
            i <= v.len(),
            pc@ == p@,
            forall|j: int| 0 <= j < i ==> !occurs_at(v@, p@, j),
        decreases v.len() - i,
    {
        if matches_at(v, &pc, i) {
            return true;
        }
        i += 1;
    }
    matches_at(v, &pc, i)
}

/// Whether any of the characters `set` occurs in `v`.
pub fn contains_any(v: &Vec<char>, set: &str) -> (r: bool)
    ensures
        r == exists|i: int| 0 <= i < v@.len() && set@.contains(#[trigger] v@[i]),
{
    let cs = chars_of(set);
    for i in 0..v.len()
        invariant
            cs@ == set@,
            forall|j: int| 0 <= j < i ==> !set@.contains(#[trigger] v@[j]),
    {
        for k in 0..cs.len()
            invariant
                cs@ == set@,
                i < v.len(),
                forall|j: int| 0 <= j < k ==> cs@[j] != v@[i as int],
        {
            if cs[k] == v[i] {
                assert(set@.contains(v@[i as int]));
                return true;
            }
        }
    }
    false
}

/// The position of the first character of `s` in `class`, or the length of `s`
/// if there is none.
pub open spec fn first_in(s: Seq<char>, class: spec_fn(char) -> bool) -> int
    decreases s.len(),
{
    if s.len() == 0 || class(s[0]) {
        0
    } else {
        1 + first_in(s.drop_first(), class)
    }
}

pub(crate) proof fn lemma_first_in(s: Seq<char>, class: spec_fn(char) -> bool)
    ensures
        0 <= first_in(s, class) <= s.len(),
        forall|i: int| 0 <= i < first_in(s, class) ==> !class(#[trigger] s[i]),
        first_in(s, class) < s.len() ==> class(s[first_in(s, class)]),
    decreases s.len(),
{
    if s.len() == 0 || class(s[0]) {
    } else {
        lemma_first_in(s.drop_first(), class);
        let k = first_in(s, class);
        assert forall|i: int| 0 <= i < k implies !class(#[trigger] s[i]) by {
            if i > 0 {
                assert(s[i] == s.drop_first()[i - 1]);
            }
        }
    }
}

pub(crate) proof fn lemma_first_in_is(s: Seq<char>, class: spec_fn(char) -> bool, k: int)
    requires
        0 <= k <= s.len(),
        forall|i: int| 0 <= i < k ==> !class(#[trigger] s[i]),
        k < s.len() ==> class(s[k]),
    ensures
        first_in(s, class) == k,
{
    lemma_first_in(s, class);
    let f = first_in(s, class);
    if f < k {
        assert(class(s[f]));
    }
    if k < f {
        assert(!class(s[k]));
    }
}

/// The position of the first `ch`, or the length if there is none.
pub fn find_char(v: &Vec<char>, ch: char) -> (r: usize)
    ensures
        r == first_in(v@, only(ch)),
        r <= v.len(),
{
    let mut i: usize = 0;
    while i < v.len() && v[i] != ch
        invariant
            i <= v.len(),
            forall|j: int| 0 <= j < i ==> !only(ch)(#[trigger] v@[j]),
        decreases v.len() - i,
    {
        i += 1;
    }
    proof {
        lemma_first_in_is(v@, only(ch), i as int);
    }
    i
}

/// The text before and after the first `ch`, if there is one.
pub open spec fn split_once(s: Seq<char>, ch: char) -> Option<(Seq<char>, Seq<char>)> {
    let k = first_in(s, only(ch));
    if k < s.len() {
        Some((s.take(k), s.skip(k + 1)))
    } else {
        None
    }
}

/// The pieces of `s` between its characters in `class`.
pub open spec fn split(s: Seq<char>, class: spec_fn(char) -> bool) -> Seq<Seq<char>>
    decreases s.len(),
{
    let k = first_in(s, class);
    if 0 <= k < s.len() {
        seq![s.take(k)] + split(s.skip(k + 1), class)
    } else {
        seq![s]
    }
}

/// Lists of characters as texts.
pub open spec fn char_texts(v: Seq<Vec<char>>) -> Seq<Seq<char>> {
    Seq::new(v.len(), |i: int| v[i]@)
}

/// The pieces of `v` between the characters `ch`.
pub fn split_chars(v: &Vec<char>, ch: char) -> (r: Vec<Vec<char>>)
    ensures
        char_texts(r@) == split(v@, only(ch)),
        r.len() == split(v@, only(ch)).len(),
        forall|i: int| 0 <= i < r.len() ==> (#[trigger] r@[i])@ == split(v@, only(ch))[i],
{
    let mut out: Vec<Vec<char>> = Vec::new();
    let mut rest = part(v, 0, v.len());
    assert(rest@ =~= v@);
    assert(char_texts(out@) + split(v@, only(ch)) =~= split(v@, only(ch)));
    loop
        invariant
            char_texts(out@) + split(rest@, only(ch)) == split(v@, only(ch)),
        decreases rest.len(),
    {
        let ghost before = char_texts(out@);
        let ghost all = rest@;
        let k = find_char(&rest, ch);
        let piece = part(&rest, 0, k);
        assert(piece@ =~= all.take(k as int));
        out.push(piece);
        assert(char_texts(out@) =~= before.push(piece@));
        if k == rest.len() {
            assert(piece@ =~= all);
            assert(char_texts(out@) =~= before + split(all, only(ch)));
            assert forall|i: int| 0 <= i < out.len() implies (#[trigger] out@[i])@ == split(
                v@,
                only(ch),
            )[i] by {
                assert(char_texts(out@)[i] == out@[i]@);
            }
            return out;
        }
        rest = part(&rest, k + 1, rest.len());
        assert(rest@ =~= all.skip(k + 1));
        assert(char_texts(out@) + split(rest@, only(ch)) =~= before + split(all, only(ch)));
    }
}

// ---------------------------------------------------------------------------
// Case

/// The lower case of an ASCII letter; any other character as it is.
pub open spec fn ascii_lower_char(c: char) -> char {
    if 'A' <= c && c <= 'Z' {
        ((c as u32) + 32) as char
    } else {
        c
    }
}

/// The upper case of an ASCII letter; any other character as it is.
pub open spec fn ascii_upper_char(c: char) -> char {
    if 'a' <= c && c <= 'z' {
        ((c as u32) - 32) as char
    } else {
        c
    }
}

/// `s` with its ASCII letters in lower case.
pub open spec fn ascii_lower(s: Seq<char>) -> Seq<char> {
    Seq::new(s.len(), |i: int| ascii_lower_char(s[i]))
}

/// `s` with its ASCII letters in upper case.
pub open spec fn ascii_upper(s: Seq<char>) -> Seq<char> {
    Seq::new(s.len(), |i: int| ascii_upper_char(s[i]))
}

/// The ASCII letters of `s` in lower case.
pub fn to_ascii_lower(s: &str) -> (r: Vec<char>)
    ensures
        r@ == ascii_lower(s@),
{
    let v = chars_of(s);
    let mut out: Vec<char> = Vec::new();
    for i in 0..v.len()
        invariant
            v@ == s@,
            out@ == ascii_lower(v@).take(i as int),
    {
        let c = v[i];
        if 'A' <= c && c <= 'Z' {
            out.push((c as u8 + 32) as char);
        } else {
            out.push(c);
        }
        assert(ascii_lower(v@).take(i + 1) =~= ascii_lower(v@).take(i as int).push(
            ascii_lower(v@)[i as int],
        ));
    }
    assert(ascii_lower(v@).take(v.len() as int) =~= ascii_lower(v@));
    out
}

/// The ASCII letters of `s` in upper case.
pub fn to_ascii_upper(s: &str) -> (r: Vec<char>)
    ensures
        r@ == ascii_upper(s@),
{
    let v = chars_of(s);
    let mut out: Vec<char> = Vec::new();
    for i in 0..v.len()
        invariant
            v@ == s@,
            out@ == ascii_upper(v@).take(i as int),
    {
        let c = v[i];
        if 'a' <= c && c <= 'z' {
            out.push((c as u8 - 32) as char);
        } else {
            out.push(c);
        }
        assert(ascii_upper(v@).take(i + 1) =~= ascii_upper(v@).take(i as int).push(
            ascii_upper(v@)[i as int],
        ));
    }
    assert(ascii_upper(v@).take(v.len() as int) =~= ascii_upper(v@));
    out
}

/// A text begins with whatever stands in front of it, and holds whatever stands
/// anywhere in it; and where it does, it can be taken apart there.
pub proof fn law_found_texts_stand_there(s: Seq<char>, a: Seq<char>, p: Seq<char>, b: Seq<char>)
    ensures
        begins(p + b, p),
        has(a + p + b, p),
        begins(s, p) <==> exists|y: Seq<char>| s == #[trigger] (p + y),
        has(s, p) <==> exists|x: Seq<char>, y: Seq<char>| s == #[trigger] (x + p + y),
{
    assert((p + b).subrange(0, p.len() as int) =~= p);
    assert((a + p + b).subrange(a.len() as int, (a.len() + p.len()) as int) =~= p);
    assert(occurs_at(a + p + b, p, a.len() as int));
    if begins(s, p) {
        assert(s =~= p + s.skip(p.len() as int));
    }
    if exists|y: Seq<char>| s == #[trigger] (p + y) {
        let y = choose|y: Seq<char>| s == #[trigger] (p + y);
        assert((p + y).subrange(0, p.len() as int) =~= p);
    }
    if has(s, p) {
        let i = choose|i: int| occurs_at(s, p, i);
        assert(s =~= s.take(i) + p + s.skip(i + p.len()));
    }
    if exists|x: Seq<char>, y: Seq<char>| s == #[trigger] (x + p + y) {
        let (x, y) = choose|x: Seq<char>, y: Seq<char>| s == #[trigger] (x + p + y);
        assert((x + p + y).subrange(x.len() as int, (x.len() + p.len()) as int) =~= p);
        assert(occurs_at(s, p, x.len() as int));
    }
}

/// White space around a text is what trimming takes away, and nothing else.
pub proof fn law_trim_takes_the_ends_away(a: Seq<char>, s: Seq<char>, b: Seq<char>)
    requires
        forall|i: int| 0 <= i < a.len() ==> is_white(#[trigger] a[i]),
        forall|i: int| 0 <= i < b.len() ==> is_white(#[trigger] b[i]),
        s.len() > 0 ==> !is_white(s[0]) && !is_white(s.last()),
    ensures
        trim(a + s + b) == s,
        is_white(' ') && is_white('\t') && is_white('\r') && is_white('\n'),
        forall|c: char| 0x21 <= #[trigger] (c as u32) <= 0x7E ==> !is_white(c),
{
    assert(a + s + b =~= a + (s + b));
    lemma_strip_front_prefix(a, s + b, white());
    if s.len() > 0 {
        assert((s + b)[0] == s[0]);
        assert(strip_front(s + b, white()) == s + b);
        lemma_strip_back_suffix(s, b, white());
    } else {
        assert(s + b =~= b + s);
        lemma_strip_front_prefix(b, s, white());
    }
}

/// The pieces of a text hold none of the characters that it was split at, and with
/// those between them they are the text again.
pub proof fn law_pieces_make_the_text(s: Seq<char>, ch: char)
    ensures
        split(s, only(ch)).len() > 0,
        forall|i: int|
            0 <= i < split(s, only(ch)).len() ==> !(#[trigger] split(s, only(ch))[i]).contains(ch),
        rejoined(split(s, only(ch)), ch) == s,
    decreases s.len(),
{
    let k = first_in(s, only(ch));
    lemma_first_in(s, only(ch));
    let ps = split(s, only(ch));
    if k < s.len() {
        let rest = s.skip(k + 1);
        law_pieces_make_the_text(rest, ch);
        assert(ps.drop_first() =~= split(rest, only(ch)));
        assert forall|i: int| 0 <= i < ps.len() implies !(#[trigger] ps[i]).contains(ch) by {
            if i > 0 {
                assert(ps[i] == split(rest, only(ch))[i - 1]);
            } else {
                assert forall|j: int| 0 <= j < k implies s.take(k)[j] != ch by {
                    assert(!only(ch)(s[j]));
                }
            }
        }
        assert(rejoined(ps, ch) =~= s.take(k) + seq![ch] + rest);
        assert(s.take(k) + seq![ch] + rest =~= s);
    } else {
        assert forall|j: int| 0 <= j < s.len() implies s[j] != ch by {
            assert(!only(ch)(s[j]));
        }
    }
}

/// The texts in order, with `ch` between each two.
pub open spec fn rejoined(parts: Seq<Seq<char>>, ch: char) -> Seq<char>
    decreases parts.len(),
{
    if parts.len() == 0 {
        seq![]
    } else if parts.len() == 1 {
        parts[0]
    } else {
        parts[0] + seq![ch] + rejoined(parts.drop_first(), ch)
    }
}

/// Two texts with a character of the class between them have the pieces of both.
pub proof fn law_split_at_a_character(
    a: Seq<char>,
    c: char,
    b: Seq<char>,
    class: spec_fn(char) -> bool,
)
    requires
        class(c),
    ensures
        split(a + seq![c] + b, class) == split(a, class) + split(b, class),
    decreases a.len(),
{
    let s = a + seq![c] + b;
    lemma_first_in(a, class);
    let k = first_in(a, class);
    if k < a.len() {
        assert forall|i: int| 0 <= i < k implies !class(#[trigger] s[i]) by {
            assert(s[i] == a[i]);
        }
        lemma_first_in_is(s, class, k);
        assert(s.take(k) =~= a.take(k));
        assert(s.skip(k + 1) =~= a.skip(k + 1) + seq![c] + b);
        law_split_at_a_character(a.skip(k + 1), c, b, class);
        assert(split(s, class) =~= split(a, class) + split(b, class));
    } else {
        assert forall|i: int| 0 <= i < a.len() implies !class(#[trigger] s[i]) by {
            assert(s[i] == a[i]);
        }
        lemma_first_in_is(s, class, a.len() as int);
        assert(s.take(a.len() as int) =~= a);
        assert(s.skip(a.len() as int + 1) =~= b);
        assert(split(s, class) =~= split(a, class) + split(b, class));
    }
}

/// A text without characters of the class is its only piece.
pub proof fn law_split_without_characters(s: Seq<char>, class: spec_fn(char) -> bool)
    requires
        forall|i: int| 0 <= i < s.len() ==> !class(#[trigger] s[i]),
    ensures
        split(s, class) == seq![s],
{
    lemma_first_in_is(s, class, s.len() as int);
}

/// Changing the case changes the twenty-six letters, each to its other form, and no
/// other character.
pub proof fn law_case_changes_letters_only(s: Seq<char>, i: int)
    requires
        0 <= i < s.len(),
    ensures
        ascii_upper(s).len() == s.len(),
        ascii_lower(s).len() == s.len(),
        'a' <= s[i] <= 'z' ==> ascii_upper(s)[i] as u32 == s[i] as u32 - 32,
        !('a' <= s[i] <= 'z') ==> ascii_upper(s)[i] == s[i],
        'A' <= s[i] <= 'Z' ==> ascii_lower(s)[i] as u32 == s[i] as u32 + 32,
        !('A' <= s[i] <= 'Z') ==> ascii_lower(s)[i] == s[i],
{
}

/// `s` in lower case, by the case mapping of Unicode.
pub uninterp spec fn lowercase(s: Seq<char>) -> Seq<char>;

/// Calls `str::to_lowercase`, which maps a text to its Unicode lower case: the same
/// text always to the same one.
#[verifier::external_body]
pub(crate) fn to_lowercase(s: &str) -> (r: String)
    ensures
        r@ == lowercase(s@),
{
    s.to_lowercase()
}

// ---------------------------------------------------------------------------
// Values as they are seen

/// Strings are seen as the characters they hold, in lists, where they may be missing,
/// and as results.
pub proof fn law_strings_are_seen_as_their_texts(
    v: Seq<String>,
    w: Seq<Vec<char>>,
    i: int,
    s: String,
    e: String,
)
    ensures
        texts(v).len() == v.len(),
        0 <= i < v.len() ==> texts(v)[i] == v[i]@,
        char_texts(w).len() == w.len(),
        0 <= i < w.len() ==> char_texts(w)[i] == w[i]@,
        opt_text(Some(s)) == Some(s@),
        opt_text(None) is None,
        opt_str(None) is None,
        forall|t: &str| #[trigger] opt_str(Some(t)) == Some(t@),
        result_text(Ok(s)) == Ok::<Seq<char>, Seq<char>>(s@),
        result_text(Err(e)) == Err::<Seq<char>, Seq<char>>(e@),
        unit_result_text(Ok(())) == Ok::<(), Seq<char>>(()),
        unit_result_text(Err(e)) == Err::<(), Seq<char>>(e@),
{
}

} // verus!
