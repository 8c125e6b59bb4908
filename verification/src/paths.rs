//! Windows paths as text.

use vstd::prelude::*;
use crate::lines;
use crate::text;
use crate::text::{begins_with, chars_of, find_char, part, split_chars, string_of};

verus! {

/// A letter that can name a drive.
pub open spec fn is_drive_letter(c: char) -> bool {
    'a' <= c && c <= 'z' || 'A' <= c && c <= 'Z'
}

/// A separator of paths in general.
pub open spec fn is_separator(c: char) -> bool {
    c == '\\' || c == '/'
}

/// A plain name: one that leads neither up nor elsewhere.
pub open spec fn is_name(p: Seq<char>) -> bool {
    &&& p.len() > 0
    &&& forall|i: int| 0 <= i < p.len() ==> !is_separator(#[trigger] p[i]) && p[i] != ':'
    &&& p != seq!['.']
    &&& p != seq!['.', '.']
}

/// The path has the shape of a bare drive, such as `C:`.
pub open spec fn is_bare_drive(p: Seq<char>) -> bool {
    p.len() == 2 && p[1] == ':' && is_drive_letter(p[0])
}

/// `base` needs no separator before a relative part that is put behind it.
pub open spec fn joins_directly(base: Seq<char>) -> bool {
    base.len() == 0 || is_separator(base.last()) || is_bare_drive(base)
}

// ---------------------------------------------------------------------------
// Verbatim paths

/// The path begins with `\\?\`, which switches path parsing off: there only a
/// backslash separates.
pub open spec fn is_verbatim(p: Seq<char>) -> bool {
    text::begins(p, "\\\\?\\"@)
}

/// How far the server and the share reach in a text that begins with them.
pub open spec fn share_len(s: Seq<char>) -> int {
    let server = text::first_in(s, text::only('\\'));
    if server < s.len() {
        let share = text::first_in(s.skip(server + 1), text::only('\\'));
        if share > 0 {
            server + 1 + share
        } else {
            server
        }
    } else {
        server
    }
}

/// The text begins with `UNC` and a separator.
pub open spec fn is_unc(s: Seq<char>) -> bool {
    s.len() >= 4 && s[0] == 'U' && s[1] == 'N' && s[2] == 'C' && is_separator(s[3])
}

/// The text begins with a drive and nothing but a drive before the first separator.
pub open spec fn is_drive(s: Seq<char>) -> bool {
    s.len() >= 2 && is_bare_drive(s.take(2)) && (s.len() == 2 || is_separator(s[2]))
}

/// How far the prefix of a verbatim path reaches behind the `\\?\`: a server and its
/// share, a drive, or else the first name.
pub open spec fn device_len(s: Seq<char>) -> int {
    if is_unc(s) {
        4 + share_len(s.skip(4))
    } else if is_drive(s) {
        2
    } else {
        text::first_in(s, text::only('\\'))
    }
}

/// The prefix of a verbatim path.
pub open spec fn verbatim_prefix(p: Seq<char>) -> Seq<char> {
    p.take(4 + device_len(p.skip(4)))
}

/// What stands behind the prefix of a verbatim path and the separator that follows it.
pub open spec fn verbatim_tail(p: Seq<char>) -> Seq<char> {
    let rest = p.skip(4 + device_len(p.skip(4)));
    if rest.len() > 0 {
        rest.skip(1)
    } else {
        rest
    }
}

/// `head` with the names in `parts` behind it; empty ones are left out.
pub open spec fn with_names(head: Seq<char>, parts: Seq<Seq<char>>) -> Seq<char>
    decreases parts.len(),
{
    if parts.len() == 0 {
        head
    } else {
        let before = with_names(head, parts.drop_last());
        if parts.last().len() == 0 {
            before
        } else {
            before + seq!['\\'] + parts.last()
        }
    }
}

/// A verbatim path, put together anew from its prefix and its names.
pub open spec fn tidied(p: Seq<char>) -> Seq<char> {
    with_names(verbatim_prefix(p), text::split(verbatim_tail(p), text::only('\\')))
}

fn bare_drive(v: &Vec<char>) -> (r: bool)
    ensures
        r == is_bare_drive(v@),
{
    v.len() == 2 && v[1] == ':' && (('a' <= v[0] && v[0] <= 'z') || ('A' <= v[0] && v[0] <= 'Z'))
}

fn separator(c: char) -> (r: bool)
    ensures
        r == is_separator(c),
{
    c == '\\' || c == '/'
}

fn length_of_share(v: &Vec<char>) -> (r: usize)
    ensures
        r == share_len(v@),
        r <= v.len(),
{
    let server = find_char(v, '\\');
    if server == v.len() {
        return server;
    }
    let rest = part(v, server + 1, v.len());
    assert(rest@ =~= v@.skip(server + 1));
    let share = find_char(&rest, '\\');
    if share > 0 {
        server + 1 + share
    } else {
        server
    }
}

fn length_of_device(v: &Vec<char>) -> (r: usize)
    ensures
        r == device_len(v@),
        r <= v.len(),
{
    if v.len() >= 4 && v[0] == 'U' && v[1] == 'N' && v[2] == 'C' && separator(v[3]) {
        let rest = part(v, 4, v.len());
        assert(rest@ =~= v@.skip(4));
        return 4 + length_of_share(&rest);
    }
    if v.len() >= 2 {
        let drive = part(v, 0, 2);
        assert(drive@ =~= v@.take(2));
        if bare_drive(&drive) && (v.len() == 2 || separator(v[2])) {
            return 2;
        }
    }
    find_char(v, '\\')
}

fn tidy(v: &Vec<char>) -> (r: String)
    requires
        v.len() >= 4,
    ensures
        r@ == tidied(v@),
{
    let device = part(v, 4, v.len());
    assert(device@ =~= v@.skip(4));
    let n: usize = 4 + length_of_device(&device);
    let prefix = part(v, 0, n);
    assert(prefix@ =~= verbatim_prefix(v@));
    let tail = if n < v.len() {
        part(v, n + 1, v.len())
    } else {
        Vec::new()
    };
    assert(tail@ =~= verbatim_tail(v@));
    let names = split_chars(&tail, '\\');
    let ghost parts = text::char_texts(names@);
    let mut out = string_of(&prefix);
    assert(parts.take(0) =~= Seq::empty());
    for i in 0..names.len()
        invariant
            parts == text::char_texts(names@),
            out@ == with_names(prefix@, parts.take(i as int)),
    {
        assert(parts.take(i + 1).drop_last() =~= parts.take(i as int));
        assert(parts.take(i + 1).last() == names@[i as int]@);
        if names[i].len() > 0 {
            out.push('\\');
            out.append(string_of(&names[i]).as_str());
            assert(out@ =~= with_names(prefix@, parts.take(i as int)) + seq!['\\']
                + names@[i as int]@);
        }
    }
    assert(parts.take(names.len() as int) =~= parts);
    out
}

// ---------------------------------------------------------------------------
// Joining

/// The path `base` with the name `name` behind it.
pub open spec fn path_join(base: Seq<char>, name: Seq<char>) -> Seq<char> {
    if is_verbatim(base) {
        tidied(base) + seq!['\\'] + name
    } else if joins_directly(base) {
        base + name
    } else {
        base + seq!['\\'] + name
    }
}

/// The path `base` with the name `name` behind it.
pub fn join_path(base: &str, name: &str) -> (r: String)
    requires
        is_name(name@),
    ensures
        r@ == path_join(base@, name@),
{
    let v = chars_of(base);
    let n = v.len();
    if begins_with(&v, "\\\\?\\") {
        proof {
            reveal_strlit("\\\\?\\");
        }
        let mut out = tidy(&v);
        out.push('\\');
        assert(out@ =~= tidied(base@) + seq!['\\']);
        out.append(name);
        return out;
    }
    let direct = n == 0 || separator(v[n - 1]) || bare_drive(&v);
    let mut out = base.to_owned();
    if !direct {
        out.push('\\');
        assert(out@ =~= base@ + seq!['\\']);
    }
    out.append(name);
    out
}

/// The last name of a joined path is the name that was put behind it, and what stands
/// before it is the path as it was, unless it is put together anew.
pub proof fn law_join_ends_with_part(base: Seq<char>, name: Seq<char>)
    ensures
        path_join(base, name).len() >= name.len(),
        path_join(base, name).skip(path_join(base, name).len() - name.len()) == name,
        !is_verbatim(base) ==> path_join(base, name).take(base.len() as int) == base,
        is_verbatim(base) ==> path_join(base, name).take(tidied(base).len() as int) == tidied(base),
{
    let j = path_join(base, name);
    assert(j.skip(j.len() - name.len()) =~= name);
    if is_verbatim(base) {
        assert(j.take(tidied(base).len() as int) =~= tidied(base));
    } else {
        assert(j.take(base.len() as int) =~= base);
    }
}

/// A name is put behind a path with a backslash between them, unless the path ends
/// with a separator, or is nothing, or a drive alone.
pub proof fn law_join_puts_one_separator(base: Seq<char>, name: Seq<char>, c: char)
    requires
        !text::begins(base, "\\\\?\\"@),
    ensures
        base.len() > 2 && base.last() != '\\' && base.last() != '/' ==> path_join(base, name)
            == base + seq!['\\'] + name,
        base.len() > 0 && (base.last() == '\\' || base.last() == '/') ==> path_join(base, name)
            == base + name,
        base.len() == 0 ==> path_join(base, name) == name,
        'a' <= c <= 'z' || 'A' <= c <= 'Z' ==> path_join(seq![c, ':'], name) == seq![c, ':']
            + name,
        base.len() == 1 && base[0] != '\\' && base[0] != '/' ==> path_join(base, name) == base
            + seq!['\\'] + name,
        base.len() == 2 && base[1] != ':' && base[1] != '\\' && base[1] != '/' ==> path_join(
            base,
            name,
        ) == base + seq!['\\'] + name,
{
    reveal_strlit("\\\\?\\");
    if base.len() == 0 {
        assert(base + name =~= name);
    }
}

proof fn lemma_names_stand_as_joined(head: Seq<char>, parts: Seq<Seq<char>>)
    requires
        parts.len() > 0,
        forall|i: int| 0 <= i < parts.len() ==> (#[trigger] parts[i]).len() > 0,
    ensures
        with_names(head, parts) == head + seq!['\\'] + lines::join(parts, seq!['\\']),
    decreases parts.len(),
{
    let before = parts.drop_last();
    assert(parts[parts.len() - 1].len() > 0);
    if before.len() == 0 {
        assert(with_names(head, before) == head);
        assert(parts[0] == parts.last());
    } else {
        assert forall|i: int| 0 <= i < before.len() implies (#[trigger] before[i]).len() > 0 by {
            assert(before[i] == parts[i]);
        }
        lemma_names_stand_as_joined(head, before);
        assert(with_names(head, parts) =~= head + seq!['\\'] + lines::join(parts, seq!['\\']));
    }
}

/// A verbatim path below a drive, whose names have single backslashes between them,
/// stays as it is when a name is put behind it, and it makes no difference whether a
/// backslash stands at its end. A slash in it is part of a name.
pub proof fn law_verbatim_paths_keep_their_names(
    c: char,
    parts: Seq<Seq<char>>,
    name: Seq<char>,
)
    requires
        'a' <= c <= 'z' || 'A' <= c <= 'Z',
        parts.len() > 0,
        forall|i: int|
            0 <= i < parts.len() ==> (#[trigger] parts[i]).len() > 0 && !parts[i].contains('\\'),
    ensures
        ({
            let base = "\\\\?\\"@ + seq![c, ':', '\\'] + lines::join(parts, seq!['\\']);
            &&& path_join(base, name) == base + seq!['\\'] + name
            &&& path_join(base.push('\\'), name) == base + seq!['\\'] + name
        }),
{
    reveal_strlit("\\\\?\\");
    let joined = lines::join(parts, seq!['\\']);
    let base = "\\\\?\\"@ + seq![c, ':', '\\'] + joined;
    let head = "\\\\?\\"@ + seq![c, ':'];
    lemma_drive_path(c, joined);
    lines::law_joined_texts_split_again(parts, '\\');
    lemma_names_stand_as_joined(head, parts);
    assert(head + seq!['\\'] + joined =~= base);
    assert(path_join(base, name) =~= base + seq!['\\'] + name);
    let more = joined.push('\\');
    lemma_drive_path(c, more);
    assert(base.push('\\') =~= "\\\\?\\"@ + seq![c, ':', '\\'] + more);
    let none = Seq::<char>::empty();
    assert(more =~= joined + seq!['\\'] + none);
    text::law_split_at_a_character(joined, '\\', none, text::only('\\'));
    text::law_split_without_characters(none, text::only('\\'));
    let all = text::split(more, text::only('\\'));
    assert(all =~= parts.push(none));
    assert(all.drop_last() =~= parts);
    assert(all.last() == none);
    assert(path_join(base.push('\\'), name) =~= base + seq!['\\'] + name);
}

proof fn lemma_drive_path(c: char, tail: Seq<char>)
    requires
        'a' <= c <= 'z' || 'A' <= c <= 'Z',
    ensures
        ({
            let p = "\\\\?\\"@ + seq![c, ':', '\\'] + tail;
            &&& is_verbatim(p)
            &&& verbatim_prefix(p) == "\\\\?\\"@ + seq![c, ':']
            &&& verbatim_tail(p) == tail
        }),
{
    reveal_strlit("\\\\?\\");
    let p = "\\\\?\\"@ + seq![c, ':', '\\'] + tail;
    let s = p.skip(4);
    assert(p.subrange(0, 4) =~= "\\\\?\\"@);
    assert(s[0] == c && s[1] == ':' && s[2] == '\\');
    assert(s.take(2)[0] == c && s.take(2)[1] == ':');
    assert(!is_unc(s));
    assert(is_drive(s));
    assert(p.take(6) =~= "\\\\?\\"@ + seq![c, ':']);
    assert(p.skip(6).skip(1) =~= tail);
}

} // verus!
