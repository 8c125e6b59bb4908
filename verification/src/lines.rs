//! Texts as lists of lines, and lists of texts joined into one.

use vstd::prelude::*;
use crate::text;
use crate::text::{chars_of, find_char, part, string_of};

verus! {

/// `s` without one carriage return at its end.
pub open spec fn strip_cr(s: Seq<char>) -> Seq<char> {
    if s.len() > 0 && s.last() == '\r' {
        s.drop_last()
    } else {
        s
    }
}

/// The lines of `s`: each ends at a line feed, or at a carriage return and a line
/// feed, and the last one may end with the text.
pub open spec fn lines(s: Seq<char>) -> Seq<Seq<char>>
    decreases s.len(),
{
    let k = text::first_in(s, text::only('\n'));
    if s.len() == 0 {
        seq![]
    } else if 0 <= k < s.len() {
        seq![strip_cr(s.take(k))] + lines(s.skip(k + 1))
    } else {
        seq![s]
    }
}

/// `parts` in order, with `sep` between each two.
pub open spec fn join(parts: Seq<Seq<char>>, sep: Seq<char>) -> Seq<char>
    decreases parts.len(),
{
    if parts.len() == 0 {
        seq![]
    } else if parts.len() == 1 {
        parts[0]
    } else {
        join(parts.drop_last(), sep) + sep + parts.last()
    }
}

/// `parts` in order, each ended by a line feed.
pub open spec fn unlines(parts: Seq<Seq<char>>) -> Seq<char>
    decreases parts.len(),
{
    if parts.len() == 0 {
        seq![]
    } else {
        parts[0] + seq!['\n'] + unlines(parts.drop_first())
    }
}

/// The lines of `s`.
pub fn lines_of(s: &str) -> (r: Vec<String>)
    ensures
        text::texts(r@) == lines(s@),
{
    let mut rest = chars_of(s);
    let mut out: Vec<String> = Vec::new();
    assert(text::texts(out@) + lines(s@) =~= lines(s@));
    while rest.len() > 0
        invariant
            text::texts(out@) + lines(rest@) == lines(s@),
        decreases rest.len(),
    {
        let ghost before = text::texts(out@);
        let ghost all = rest@;
        let k = find_char(&rest, '\n');
        if k < rest.len() {
            let end = if k > 0 && rest[k - 1] == '\r' {
                k - 1
            } else {
                k
            };
            let line = part(&rest, 0, end);
            assert(line@ =~= strip_cr(all.take(k as int)));
            out.push(string_of(&line));
            rest = part(&rest, k + 1, rest.len());
            assert(rest@ =~= all.skip(k + 1));
        } else {
            out.push(string_of(&rest));
            rest = Vec::new();
            assert(lines(rest@) =~= seq![]);
        }
        proof {
            assert(text::texts(out@) =~= before.push(out@.last()@));
            assert(text::texts(out@) + lines(rest@) =~= before + lines(all));
        }
    }
    assert(text::texts(out@) + lines(rest@) =~= text::texts(out@));
    out
}

/// The strings of `v` in order, with `sep` between each two.
pub fn join_texts(v: &[String], sep: &str) -> (r: String)
    ensures
        r@ == join(text::texts(v@), sep@),
{
    let mut out = String::new();
    for i in 0..v.len()
        invariant
            out@ == join(text::texts(v@).take(i as int), sep@),
    {
        if i > 0 {
            out.append(sep);
        }
        out.append(v[i].as_str());
        proof {
            let t = text::texts(v@).take(i + 1);
            assert(t.drop_last() =~= text::texts(v@).take(i as int));
            assert(out@ =~= join(t, sep@));
        }
    }
    assert(text::texts(v@).take(v.len() as int) =~= text::texts(v@));
    out
}

/// The strings of `v` in order, each ended by a line feed.
pub fn unlines_of(v: &Vec<String>) -> (r: String)
    ensures
        r@ == unlines(text::texts(v@)),
{
    let mut out = String::new();
    assert(text::texts(v@).skip(0) =~= text::texts(v@));
    for i in 0..v.len()
        invariant
            out@ + unlines(text::texts(v@).skip(i as int)) == unlines(text::texts(v@)),
    {
        let ghost before = out@;
        out.append(v[i].as_str());
        out.push('\n');
        proof {
            let rest = text::texts(v@).skip(i as int);
            assert(rest.drop_first() =~= text::texts(v@).skip(i + 1));
            assert(out@ + unlines(rest.drop_first()) =~= before + unlines(rest));
        }
    }
    assert(out@ + unlines(text::texts(v@).skip(v.len() as int)) =~= out@);
    out
}

/// A line that is put in front of a text, with a line feed, becomes its first
/// line.
pub proof fn lemma_lines_cons(line: Seq<char>, rest: Seq<char>)
    requires
        !line.contains('\n'),
    ensures
        lines(line + seq!['\n'] + rest) == seq![strip_cr(line)] + lines(rest),
{
    let s = line + seq!['\n'] + rest;
    assert forall|i: int| 0 <= i < line.len() implies !text::only('\n')(#[trigger] s[i]) by {
        assert(s[i] == line[i]);
    }
    text::lemma_first_in_is(s, text::only('\n'), line.len() as int);
    assert(s.take(line.len() as int) =~= line);
    assert(s.skip(line.len() as int + 1) =~= rest);
}

/// No line of a text holds a line feed.
pub proof fn lemma_lines_no_feed(s: Seq<char>)
    ensures
        forall|i: int| 0 <= i < lines(s).len() ==> !(#[trigger] lines(s)[i]).contains('\n'),
    decreases s.len(),
{
    let k = text::first_in(s, text::only('\n'));
    text::lemma_first_in(s, text::only('\n'));
    if s.len() == 0 {
    } else if k < s.len() {
        lemma_lines_no_feed(s.skip(k + 1));
        let l0 = strip_cr(s.take(k));
        assert(!l0.contains('\n')) by {
            assert forall|i: int| 0 <= i < l0.len() implies l0[i] != '\n' by {
                assert(!text::only('\n')(s[i]));
            }
        }
        assert forall|i: int| 0 <= i < lines(s).len() implies !(#[trigger] lines(s)[i]).contains(
            '\n',
        ) by {
            if i > 0 {
                assert(lines(s)[i] == lines(s.skip(k + 1))[i - 1]);
            }
        }
    } else {
        assert(!s.contains('\n')) by {
            assert forall|i: int| 0 <= i < s.len() implies s[i] != '\n' by {
                assert(!text::only('\n')(s[i]));
            }
        }
    }
}

/// Lines that are written each with a line feed read back as those lines, but for
/// a carriage return at the end of one.
pub proof fn law_lines_read_back(parts: Seq<Seq<char>>)
    requires
        forall|i: int| 0 <= i < parts.len() ==> !(#[trigger] parts[i]).contains('\n'),
    ensures
        lines(unlines(parts)) == Seq::new(parts.len(), |i: int| strip_cr(parts[i])),
    decreases parts.len(),
{
    let want = Seq::new(parts.len(), |i: int| strip_cr(parts[i]));
    if parts.len() == 0 {
        assert(lines(unlines(parts)) =~= want);
    } else {
        let tail = parts.drop_first();
        assert forall|i: int| 0 <= i < tail.len() implies !(#[trigger] tail[i]).contains('\n') by {
            assert(tail[i] == parts[i + 1]);
        }
        law_lines_read_back(tail);
        lemma_lines_cons(parts[0], unlines(tail));
        assert(lines(unlines(parts)) =~= want);
    }
}

/// A list joined is its first part, the separator, and the rest joined.
pub proof fn lemma_join_front(parts: Seq<Seq<char>>, sep: Seq<char>)
    requires
        parts.len() >= 2,
    ensures
        join(parts, sep) == parts[0] + sep + join(parts.drop_first(), sep),
    decreases parts.len(),
{
    let tail = parts.drop_first();
    if parts.len() == 2 {
        assert(parts.drop_last().len() == 1);
        assert(join(parts.drop_last(), sep) == parts[0]);
        assert(join(tail, sep) == parts[1]);
    } else {
        lemma_join_front(parts.drop_last(), sep);
        assert(parts.drop_last().drop_first() =~= tail.drop_last());
        assert(parts.drop_last()[0] == parts[0]);
        assert(tail.last() == parts.last());
        assert(join(parts, sep) =~= parts[0] + sep + join(tail, sep));
    }
}

/// Texts that are joined with a character that none of them holds can be told apart
/// again: splitting at it gives them back.
pub proof fn law_joined_texts_split_again(parts: Seq<Seq<char>>, ch: char)
    requires
        parts.len() > 0,
        forall|i: int| 0 <= i < parts.len() ==> !(#[trigger] parts[i]).contains(ch),
    ensures
        text::split(join(parts, seq![ch]), text::only(ch)) == parts,
    decreases parts.len(),
{
    let head = parts[0];
    assert forall|i: int| 0 <= i < head.len() implies !text::only(ch)(#[trigger] head[i]) by {
        assert(head.contains(head[i]));
    }
    text::law_split_without_characters(head, text::only(ch));
    if parts.len() == 1 {
        assert(parts =~= seq![head]);
    } else {
        let tail = parts.drop_first();
        assert forall|i: int| 0 <= i < tail.len() implies !(#[trigger] tail[i]).contains(ch) by {
            assert(tail[i] == parts[i + 1]);
        }
        law_joined_texts_split_again(tail, ch);
        lemma_join_front(parts, seq![ch]);
        text::law_split_at_a_character(head, ch, join(tail, seq![ch]), text::only(ch));
        assert(seq![head] + tail =~= parts);
    }
}

/// A line ends at a line feed, and a carriage return before it belongs to the end; a
/// text without a line feed is one line, and no text is none.
pub proof fn law_lines_end_at_feeds(line: Seq<char>, rest: Seq<char>)
    requires
        !line.contains('\n'),
    ensures
        lines(line + seq!['\r', '\n'] + rest) == seq![line] + lines(rest),
        line.len() == 0 || line.last() != '\r' ==> lines(line + seq!['\n'] + rest) == seq![line]
            + lines(rest),
        line.len() > 0 ==> lines(line) == seq![line],
        lines(Seq::empty()) == Seq::<Seq<char>>::empty(),
{
    let with = line.push('\r');
    assert(!with.contains('\n')) by {
        assert forall|i: int| 0 <= i < with.len() implies with[i] != '\n' by {
            if i < line.len() {
                assert(with[i] == line[i]);
                assert(line.contains(line[i]));
            }
        }
    }
    lemma_lines_cons(with, rest);
    assert(with + seq!['\n'] + rest =~= line + seq!['\r', '\n'] + rest);
    assert(strip_cr(with) =~= line);
    lemma_lines_cons(line, rest);
    assert forall|i: int| 0 <= i < line.len() implies !text::only('\n')(#[trigger] line[i]) by {
        assert(line.contains(line[i]));
    }
    text::lemma_first_in_is(line, text::only('\n'), line.len() as int);
}

/// Joined texts are the texts in order, with the separator between each two and
/// nowhere else.
pub proof fn law_join_puts_separators_between(
    a: Seq<Seq<char>>,
    t: Seq<char>,
    sep: Seq<char>,
)
    ensures
        join(Seq::empty(), sep) == Seq::<char>::empty(),
        join(seq![t], sep) == t,
        a.len() > 0 ==> join(a.push(t), sep) == join(a, sep) + sep + t,
{
    assert(a.push(t).drop_last() =~= a);
}

} // verus!
