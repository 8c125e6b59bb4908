//! The settings file: lines of `key=value`, shared by everything that has settings.

use vstd::prelude::*;
use crate::lines;
use crate::lines::{lines_of, unlines_of};
use crate::paths;
use crate::paths::join_path;
use crate::text;
use crate::text::{chars_of, find_char, part, string_of, trim_chars};

verus! {

/// The name of the settings file.
pub const FILE_NAME: &'static str = "spoolctl-settings.txt";

/// The first line of a settings file.
pub const HEADER: &'static str = "# SpoolCtl settings";

// ---------------------------------------------------------------------------
// One line

/// The key and the value of a line, if it has any: empty lines and lines that begin
/// with `#` have none.
pub open spec fn entry(line: Seq<char>) -> Option<(Seq<char>, Seq<char>)> {
    let t = text::trim(line);
    if t.len() == 0 || t[0] == '#' {
        None
    } else {
        match text::split_once(t, '=') {
            Some((k, v)) => Some((text::trim(k), text::trim(v))),
            None => None,
        }
    }
}

/// The line has one of these keys.
pub open spec fn keyed(line: Seq<char>, keys: spec_fn(Seq<char>) -> bool) -> bool {
    entry(line) is Some && keys((entry(line)->0).0)
}

/// The value stands for yes.
pub open spec fn is_on(v: Seq<char>) -> bool {
    v == "1"@ || v == "true"@ || v == "yes"@ || v == "on"@
}

/// The line that gives `key` the value `value`.
pub open spec fn line_for(key: Seq<char>, value: Seq<char>) -> Seq<char> {
    key + seq!['='] + value
}

/// Yes and no as values.
pub open spec fn bit(b: bool) -> Seq<char> {
    if b {
        "1"@
    } else {
        "0"@
    }
}

/// The key and the value of a line, if it has any.
pub fn read_entry(line: &str) -> (r: Option<(String, String)>)
    ensures
        match r {
            Some((k, v)) => entry(line@) == Some((k@, v@)),
            None => entry(line@) is None,
        },
{
    let t = trim_chars(&chars_of(line));
    if t.len() == 0 || t[0] == '#' {
        return None;
    }
    let k = find_char(&t, '=');
    if k == t.len() {
        return None;
    }
    let key = part(&t, 0, k);
    let value = part(&t, k + 1, t.len());
    assert(key@ =~= t@.take(k as int));
    assert(value@ =~= t@.skip(k + 1));
    Some((string_of(&trim_chars(&key)), string_of(&trim_chars(&value))))
}

/// Whether the value stands for yes.
pub fn means_on(v: &str) -> (r: bool)
    ensures
        r == is_on(v@),
{
    text::same(v, "1") || text::same(v, "true") || text::same(v, "yes") || text::same(v, "on")
}

/// The line that gives `key` the value `value`.
pub fn make_line(key: &str, value: &str) -> (r: String)
    ensures
        r@ == line_for(key@, value@),
{
    let mut s = key.to_owned();
    s.push('=');
    assert(s@ =~= key@ + seq!['=']);
    s.append(value);
    s
}

/// Yes and no as values.
pub fn bit_text(b: bool) -> (r: &'static str)
    ensures
        r@ == bit(b),
{
    if b {
        "1"
    } else {
        "0"
    }
}

// ---------------------------------------------------------------------------
// All lines

/// What the last of the lines with one of these keys says: yes or no, and nothing
/// where there is no such line.
pub open spec fn last_choice(ls: Seq<Seq<char>>, keys: spec_fn(Seq<char>) -> bool) -> Option<bool>
    decreases ls.len(),
{
    if ls.len() == 0 {
        None
    } else if keyed(ls.last(), keys) {
        Some(is_on((entry(ls.last())->0).1))
    } else {
        last_choice(ls.drop_last(), keys)
    }
}

/// Whether the settings file says yes; where it says nothing, that is no.
pub open spec fn choice(file: Option<Seq<char>>, keys: spec_fn(Seq<char>) -> bool) -> bool {
    match file {
        Some(t) => last_choice(lines::lines(t), keys) == Some(true),
        None => false,
    }
}

/// The lines that have a key, but none of these, without the white space around
/// them.
pub open spec fn others(ls: Seq<Seq<char>>, own: spec_fn(Seq<char>) -> bool) -> Seq<Seq<char>>
    decreases ls.len(),
{
    if ls.len() == 0 {
        seq![]
    } else if entry(ls.last()) is Some && !own((entry(ls.last())->0).0) {
        others(ls.drop_last(), own).push(text::trim(ls.last()))
    } else {
        others(ls.drop_last(), own)
    }
}

/// The position of the first line with the key `key`, or the number of lines where
/// there is none.
pub open spec fn first_keyed(ls: Seq<Seq<char>>, key: Seq<char>) -> int
    decreases ls.len(),
{
    if ls.len() == 0 || (entry(ls[0]) is Some && (entry(ls[0])->0).0 == key) {
        0
    } else {
        1 + first_keyed(ls.drop_first(), key)
    }
}

/// The lines with `key` set to `value`: in the place of the first line with that
/// key, or behind all others.
pub open spec fn with_key(ls: Seq<Seq<char>>, key: Seq<char>, value: Seq<char>) -> Seq<Seq<char>> {
    let i = first_keyed(ls, key);
    if i < ls.len() {
        ls.update(i, line_for(key, value))
    } else {
        ls.push(line_for(key, value))
    }
}

/// The lines of a settings file that is yet to be written.
pub open spec fn lines_or_header(file: Option<Seq<char>>) -> Seq<Seq<char>> {
    match file {
        Some(t) => lines::lines(t),
        None => seq![HEADER@],
    }
}

/// The settings file with `key` set to `value`.
pub open spec fn upserted(file: Option<Seq<char>>, key: Seq<char>, value: Seq<char>) -> Seq<char> {
    lines::unlines(with_key(lines_or_header(file), key, value))
}

/// Sets `key` to `value` and leaves all else as it is.
pub fn upsert_key(file: Option<&str>, key: &str, value: &str) -> (r: String)
    ensures
        r@ == upserted(text::opt_str(file), key@, value@),
{
    let mut all: Vec<String> = match file {
        Some(t) => lines_of(t),
        None => {
            let mut v: Vec<String> = Vec::new();
            v.push(HEADER.to_owned());
            assert(text::texts(v@) =~= seq![HEADER@]);
            v
        },
    };
    let ghost ls = lines_or_header(text::opt_str(file));
    assert(text::texts(all@) == ls);
    let mut i: usize = 0;
    assert(ls.skip(0) =~= ls);
    while i < all.len()
        invariant_except_break
            i <= all.len(),
            text::texts(all@) == ls,
            ls.len() == all.len(),
            first_keyed(ls, key@) == i + first_keyed(ls.skip(i as int), key@),
        ensures
            i <= all.len(),
            text::texts(all@) == ls,
            ls.len() == all.len(),
            first_keyed(ls, key@) == i,
        decreases all.len() - i,
    {
        assert(all@[i as int]@ == ls[i as int]);
        assert(ls.skip(i as int)[0] == ls[i as int]);
        assert(ls.skip(i as int).drop_first() =~= ls.skip(i + 1));
        if let Some((k, _)) = read_entry(all[i].as_str()) {
            if text::same(k.as_str(), key) {
                break;
            }
        }
        i += 1;
        assert(i == ls.len() ==> first_keyed(ls.skip(i as int), key@) == 0);
    }
    let line = make_line(key, value);
    if i < all.len() {
        all.set(i, line);
        assert(text::texts(all@) =~= ls.update(i as int, line@));
    } else {
        all.push(line);
        assert(text::texts(all@) =~= ls.push(line@));
    }
    unlines_of(&all)
}

/// The directory of the settings file when it lies beside the program.
pub open spec fn beside(dir: Seq<char>) -> Seq<char> {
    paths::path_join(dir, FILE_NAME@)
}

/// The path of the settings file beside the program.
pub fn settings_beside(dir: &str) -> (r: String)
    ensures
        r@ == beside(dir@),
{
    proof {
        reveal_strlit("spoolctl-settings.txt");
    }
    join_path(dir, FILE_NAME)
}

/// The folder of the program's own files below `LOCALAPPDATA`, or below the folder
/// for temporary files where that is not set.
pub open spec fn data_dir(local_app_data: Option<Seq<char>>, temp: Seq<char>) -> Seq<char> {
    paths::path_join(
        match local_app_data {
            Some(d) => d,
            None => temp,
        },
        "SpoolCtl"@,
    )
}

/// The folder of the program's own files.
pub fn own_data_dir(local_app_data: Option<&str>, temp: &str) -> (r: String)
    ensures
        r@ == data_dir(text::opt_str(local_app_data), temp@),
{
    proof {
        reveal_strlit("SpoolCtl");
    }
    match local_app_data {
        Some(d) => join_path(d, "SpoolCtl"),
        None => join_path(temp, "SpoolCtl"),
    }
}

/// The path of the settings file: beside the program where that can be written,
/// which keeps the program portable, and else among the user's own files.
pub fn settings_path_for_peers(
    writable_dir: Option<&str>,
    local_app_data: Option<&str>,
    temp: &str,
) -> (r: String)
    ensures
        r@ == match writable_dir {
            Some(d) => beside(d@),
            None => beside(data_dir(text::opt_str(local_app_data), temp@)),
        },
{
    match writable_dir {
        Some(d) => settings_beside(d),
        None => settings_beside(own_data_dir(local_app_data, temp).as_str()),
    }
}

// ---------------------------------------------------------------------------
// Reading back what was written

/// A text that stays whole between line feeds and white space: it has neither at its
/// ends, and no line feed at all.
pub open spec fn plain(s: Seq<char>) -> bool {
    &&& s.len() > 0
    &&& !text::is_white(s[0])
    &&& !text::is_white(s.last())
    &&& !s.contains('\n')
}

/// A text that can be a key.
pub open spec fn is_key(k: Seq<char>) -> bool {
    plain(k) && k[0] != '#' && !k.contains('=')
}

/// A line that was made of a key and a value has that key and that value.
pub proof fn law_line_reads_back(key: Seq<char>, value: Seq<char>)
    requires
        is_key(key),
        plain(value),
    ensures
        entry(line_for(key, value)) == Some((key, value)),
        plain(line_for(key, value)),
        lines::strip_cr(line_for(key, value)) == line_for(key, value),
{
    let l = line_for(key, value);
    assert(l[0] == key[0]);
    assert(l.last() == value.last());
    text::lemma_trim_noop(l);
    assert forall|i: int| 0 <= i < key.len() implies !text::only('=')(#[trigger] l[i]) by {
        assert(l[i] == key[i]);
        assert(key.contains(key[i]));
    }
    text::lemma_first_in_is(l, text::only('='), key.len() as int);
    assert(l.take(key.len() as int) =~= key);
    assert(l.skip(key.len() as int + 1) =~= value);
    text::lemma_trim_noop(key);
    text::lemma_trim_noop(value);
    assert(!l.contains('\n')) by {
        assert forall|i: int| 0 <= i < l.len() implies l[i] != '\n' by {
            if i < key.len() {
                assert(key.contains(key[i]));
            } else if i > key.len() {
                assert(l[i] == value[i - key.len() - 1]);
                assert(value.contains(value[i - key.len() - 1]));
            }
        }
    }
    assert(text::is_white('\r'));
}

/// The bits are proper values, and the one for yes says yes.
pub proof fn lemma_bit(b: bool)
    ensures
        plain(bit(b)),
        is_on(bit(b)) == b,
{
    reveal_strlit("1");
    reveal_strlit("0");
    reveal_strlit("true");
    reveal_strlit("yes");
    reveal_strlit("on");
    assert("1"@ =~= seq!['1']);
    assert("0"@ =~= seq!['0']);
    if !b {
        assert("0"@[0] != "1"@[0]);
        assert("true"@.len() == 4);
        assert("yes"@.len() == 3);
        assert("on"@.len() == 2);
    }
}

/// The header is a line of its own, with no key.
pub proof fn lemma_header()
    ensures
        plain(HEADER@),
        entry(HEADER@) is None,
        lines::strip_cr(HEADER@) == HEADER@,
{
    reveal_strlit("# SpoolCtl settings");
    let h = HEADER@;
    assert(h.len() == 19);
    assert(h[0] == '#' && h[18] == 's');
    text::lemma_trim_noop(h);
    assert(!h.contains('\n')) by {
        assert forall|i: int| 0 <= i < h.len() implies h[i] != '\n' by {}
    }
}

/// A carriage return at the end of a line makes no difference to what it says.
pub proof fn lemma_entry_strip_cr(line: Seq<char>)
    ensures
        entry(lines::strip_cr(line)) == entry(line),
{
    if line.len() > 0 && line.last() == '\r' {
        let l = line.drop_last();
        assert(line =~= l + seq!['\r']);
        assert(text::is_white('\r'));
        text::lemma_strip_front(l, text::white());
        text::lemma_strip_front(line, text::white());
        let f = text::strip_front(l, text::white());
        lemma_strip_front_suffix(l, seq!['\r']);
        if f.len() > 0 {
            text::lemma_strip_back_suffix(f, seq!['\r'], text::white());
        }
    }
}

proof fn lemma_strip_front_suffix(s: Seq<char>, post: Seq<char>)
    requires
        forall|i: int| 0 <= i < post.len() ==> text::is_white(#[trigger] post[i]),
    ensures
        text::strip_front(s, text::white()).len() > 0 ==> text::strip_front(
            s + post,
            text::white(),
        ) == text::strip_front(s, text::white()) + post,
        text::strip_front(s, text::white()).len() == 0 ==> text::strip_front(
            s + post,
            text::white(),
        ).len() == 0,
    decreases s.len(),
{
    if s.len() == 0 {
        assert(s + post =~= post);
        assert(post =~= post + Seq::<char>::empty());
        text::lemma_strip_front_prefix(post, Seq::empty(), text::white());
    } else if text::is_white(s[0]) {
        assert((s + post).drop_first() =~= s.drop_first() + post);
        lemma_strip_front_suffix(s.drop_first(), post);
    }
}

/// The last choice depends on nothing but the keys and values of the lines.
pub proof fn lemma_last_choice_same(
    a: Seq<Seq<char>>,
    b: Seq<Seq<char>>,
    keys: spec_fn(Seq<char>) -> bool,
)
    requires
        a.len() == b.len(),
        forall|i: int| 0 <= i < a.len() ==> entry(#[trigger] a[i]) == entry(b[i]) || (!keyed(
            a[i],
            keys,
        ) && !keyed(b[i], keys)),
    ensures
        last_choice(a, keys) == last_choice(b, keys),
    decreases a.len(),
{
    if a.len() > 0 {
        assert(a[a.len() - 1] == a.last());
        assert forall|i: int| 0 <= i < a.drop_last().len() implies entry(
            #[trigger] a.drop_last()[i],
        ) == entry(b.drop_last()[i]) || (!keyed(a.drop_last()[i], keys) && !keyed(
            b.drop_last()[i],
            keys,
        )) by {
            assert(a.drop_last()[i] == a[i]);
        }
        lemma_last_choice_same(a.drop_last(), b.drop_last(), keys);
    }
}

/// Of two lists behind each other, the second one has the last word.
pub proof fn lemma_last_choice_of_both(
    a: Seq<Seq<char>>,
    b: Seq<Seq<char>>,
    keys: spec_fn(Seq<char>) -> bool,
)
    ensures
        last_choice(a + b, keys) == match last_choice(b, keys) {
            Some(x) => Some(x),
            None => last_choice(a, keys),
        },
    decreases b.len(),
{
    if b.len() == 0 {
        assert(a + b =~= a);
    } else {
        assert((a + b).drop_last() =~= a + b.drop_last());
        lemma_last_choice_of_both(a, b.drop_last(), keys);
    }
}

/// The lines of others are proper lines, have none of the own keys, and say of any
/// other key what all the lines say of it.
pub proof fn lemma_others(
    ls: Seq<Seq<char>>,
    own: spec_fn(Seq<char>) -> bool,
    keys: spec_fn(Seq<char>) -> bool,
)
    requires
        forall|i: int| 0 <= i < ls.len() ==> !(#[trigger] ls[i]).contains('\n'),
    ensures
        forall|i: int|
            0 <= i < others(ls, own).len() ==> plain(#[trigger] others(ls, own)[i])
                && lines::strip_cr(others(ls, own)[i]) == others(ls, own)[i] && text::trim(
                others(ls, own)[i],
            ) == others(ls, own)[i] && entry(others(ls, own)[i]) is Some && !own(
                (entry(others(ls, own)[i])->0).0,
            ),
        (forall|k: Seq<char>| own(k) ==> !(#[trigger] keys(k))) ==> last_choice(
            others(ls, own),
            keys,
        ) == last_choice(ls, keys),
    decreases ls.len(),
{
    if ls.len() > 0 {
        let l = ls.last();
        let before = ls.drop_last();
        assert forall|i: int| 0 <= i < before.len() implies !(#[trigger] before[i]).contains(
            '\n',
        ) by {
            assert(before[i] == ls[i]);
        }
        lemma_others(before, own, keys);
        assert(!ls[ls.len() - 1].contains('\n'));
        if entry(l) is Some && !own((entry(l)->0).0) {
            let t = text::trim(l);
            text::lemma_trim(l);
            text::law_trim_idempotent(l);
            assert(!t.contains('\n')) by {
                let a = choose|a: int|
                    0 <= a && a + t.len() <= l.len() && t == #[trigger] l.subrange(a, a + t.len());
                assert forall|i: int| 0 <= i < t.len() implies t[i] != '\n' by {
                    assert(t[i] == l[a + i]);
                    assert(l.contains(l[a + i]));
                }
            }
            assert(text::is_white('\r'));
            assert(others(ls, own).drop_last() =~= others(before, own));
            assert(others(ls, own).last() == t);
        }
    }
}

proof fn lemma_first_keyed(ls: Seq<Seq<char>>, key: Seq<char>)
    ensures
        0 <= first_keyed(ls, key) <= ls.len(),
        first_keyed(ls, key) < ls.len() ==> entry(ls[first_keyed(ls, key)]) is Some && (entry(
            ls[first_keyed(ls, key)],
        )->0).0 == key,
    decreases ls.len(),
{
    if ls.len() == 0 || (entry(ls[0]) is Some && (entry(ls[0])->0).0 == key) {
    } else {
        lemma_first_keyed(ls.drop_first(), key);
        let k = first_keyed(ls.drop_first(), key);
        if k < ls.drop_first().len() {
            assert(ls.drop_first()[k] == ls[k + 1]);
        }
    }
}

proof fn lemma_lines_or_header(file: Option<Seq<char>>)
    ensures
        forall|i: int|
            0 <= i < lines_or_header(file).len() ==> !(#[trigger] lines_or_header(
                file,
            )[i]).contains('\n'),
{
    match file {
        Some(t) => lines::lemma_lines_no_feed(t),
        None => lemma_header(),
    }
}

/// The lines of a written settings file say what the lines said that were written.
proof fn lemma_upserted_lines(
    file: Option<Seq<char>>,
    key: Seq<char>,
    value: Seq<char>,
    keys: spec_fn(Seq<char>) -> bool,
)
    requires
        is_key(key),
        plain(value),
    ensures
        last_choice(lines::lines(upserted(file, key, value)), keys) == last_choice(
            with_key(lines_or_header(file), key, value),
            keys,
        ),
{
    let ls = lines_or_header(file);
    let all = with_key(ls, key, value);
    lemma_lines_or_header(file);
    lemma_first_keyed(ls, key);
    law_line_reads_back(key, value);
    assert forall|i: int| 0 <= i < all.len() implies !(#[trigger] all[i]).contains('\n') by {
        if i < ls.len() && i != first_keyed(ls, key) {
            assert(all[i] == ls[i]);
        }
    }
    lines::law_lines_read_back(all);
    let back = lines::lines(upserted(file, key, value));
    assert forall|i: int| 0 <= i < back.len() implies entry(#[trigger] back[i]) == entry(all[i]) by {
        lemma_entry_strip_cr(all[i]);
    }
    lemma_last_choice_same(back, all, keys);
}

/// Setting one key changes nothing about any other.
pub proof fn law_other_keys_are_kept(
    file: Option<Seq<char>>,
    key: Seq<char>,
    value: Seq<char>,
    keys: spec_fn(Seq<char>) -> bool,
)
    requires
        is_key(key),
        plain(value),
        !keys(key),
    ensures
        choice(Some(upserted(file, key, value)), keys) == choice(file, keys),
{
    let ls = lines_or_header(file);
    let all = with_key(ls, key, value);
    lemma_upserted_lines(file, key, value, keys);
    lemma_first_keyed(ls, key);
    law_line_reads_back(key, value);
    let i = first_keyed(ls, key);
    if i < ls.len() {
        assert forall|j: int| 0 <= j < ls.len() implies entry(#[trigger] ls[j]) == entry(all[j])
            || (!keyed(ls[j], keys) && !keyed(all[j], keys)) by {}
        lemma_last_choice_same(ls, all, keys);
    } else {
        assert(all.drop_last() =~= ls);
    }
    if file is None {
        lemma_header();
        assert(ls.last() == HEADER@);
        assert(last_choice(ls.drop_last(), keys) is None);
        assert(last_choice(ls, keys) is None);
    }
}

/// What the lines behind the first one with the key `key` say about `keys`.
pub open spec fn later_choice(
    file: Option<Seq<char>>,
    key: Seq<char>,
    keys: spec_fn(Seq<char>) -> bool,
) -> Option<bool> {
    let ls = lines_or_header(file);
    let i = first_keyed(ls, key);
    if i < ls.len() {
        last_choice(ls.skip(i + 1), keys)
    } else {
        None
    }
}

/// A choice that was set reads back, unless a later line, which setting it left
/// alone, says otherwise.
pub proof fn law_set_choice_reads_back(
    file: Option<Seq<char>>,
    key: Seq<char>,
    b: bool,
    keys: spec_fn(Seq<char>) -> bool,
)
    requires
        is_key(key),
        keys(key),
        later_choice(file, key, keys) != Some(!b),
    ensures
        choice(Some(upserted(file, key, bit(b))), keys) == b,
{
    let ls = lines_or_header(file);
    let value = bit(b);
    let all = with_key(ls, key, value);
    lemma_bit(b);
    lemma_upserted_lines(file, key, value, keys);
    lemma_first_keyed(ls, key);
    law_line_reads_back(key, value);
    let i = first_keyed(ls, key);
    if i < ls.len() {
        let head = all.take(i + 1);
        assert(all =~= head + ls.skip(i + 1));
        lemma_last_choice_of_both(head, ls.skip(i + 1), keys);
        assert(head.last() == line_for(key, value));
    } else {
        assert(all.last() == line_for(key, value));
    }
}

/// The settings file lies in the folder it is looked for in, and the program's own
/// folder below that of the user, or below the temporary one.
pub proof fn law_settings_lie_in_their_folder(dir: Seq<char>, local: Seq<char>, temp: Seq<char>)
    ensures
        beside(dir) == paths::path_join(dir, "spoolctl-settings.txt"@),
        data_dir(Some(local), temp) == paths::path_join(local, "SpoolCtl"@),
        data_dir(None, temp) == paths::path_join(temp, "SpoolCtl"@),
{
}

/// Of several lines with one of the keys the last one counts; it says yes by one of
/// four words and no by any other. A file that says nothing, or cannot be read, says
/// no.
pub proof fn law_last_line_counts(
    before: Seq<Seq<char>>,
    key: Seq<char>,
    value: Seq<char>,
    after: Seq<Seq<char>>,
    keys: spec_fn(Seq<char>) -> bool,
)
    requires
        is_key(key),
        plain(value),
        keys(key),
        forall|i: int| 0 <= i < after.len() ==> !keyed(#[trigger] after[i], keys),
    ensures
        last_choice(before + seq![key + seq!['='] + value] + after, keys) == Some(
            value == "1"@ || value == "true"@ || value == "yes"@ || value == "on"@,
        ),
        last_choice(after, keys) is None,
        !choice(None, keys),
{
    law_line_reads_back(key, value);
    let l = key + seq!['='] + value;
    lemma_no_line_no_choice(after, keys);
    lemma_last_choice_of_both(before + seq![l], after, keys);
    assert((before + seq![l]).last() == l);
    assert(l == line_for(key, value));
}

proof fn lemma_no_line_no_choice(ls: Seq<Seq<char>>, keys: spec_fn(Seq<char>) -> bool)
    requires
        forall|i: int| 0 <= i < ls.len() ==> !keyed(#[trigger] ls[i], keys),
    ensures
        last_choice(ls, keys) is None,
    decreases ls.len(),
{
    if ls.len() > 0 {
        assert(!keyed(ls[ls.len() - 1], keys));
        assert forall|i: int| 0 <= i < ls.drop_last().len() implies !keyed(
            #[trigger] ls.drop_last()[i],
            keys,
        ) by {
            assert(ls.drop_last()[i] == ls[i]);
        }
        lemma_no_line_no_choice(ls.drop_last(), keys);
    }
}

/// A line that begins with a number sign is a comment, and a line without an equals
/// sign says nothing.
pub proof fn law_comments_say_nothing(line: Seq<char>)
    requires
        line.len() > 0,
        !text::is_white(line[0]) && !text::is_white(line.last()),
    ensures
        line[0] == '#' ==> entry(line) is None,
        !line.contains('=') ==> entry(line) is None,
        entry(Seq::<char>::empty()) is None,
{
    text::lemma_trim_noop(line);
    text::lemma_trim_noop(Seq::empty());
    if !line.contains('=') {
        assert forall|i: int| 0 <= i < line.len() implies !text::only('=')(#[trigger] line[i]) by {
            assert(line.contains(line[i]));
        }
        text::lemma_first_in_is(line, text::only('='), line.len() as int);
    }
}

/// Setting a key changes the first line that has it, or adds a line at the end where
/// none has, and touches no other line; a file that was not there begins with its
/// header.
pub proof fn law_setting_touches_one_line(ls: Seq<Seq<char>>, key: Seq<char>, value: Seq<char>, i: int)
    ensures
        0 <= i < ls.len() && entry(ls[i]) is Some && (entry(ls[i])->0).0 == key && (forall|j: int|
            0 <= j < i ==> !(entry(#[trigger] ls[j]) is Some && (entry(ls[j])->0).0 == key))
            ==> with_key(ls, key, value) == ls.update(i, key + seq!['='] + value),
        (forall|j: int|
            0 <= j < ls.len() ==> !(entry(#[trigger] ls[j]) is Some && (entry(ls[j])->0).0 == key))
            ==> with_key(ls, key, value) == ls.push(key + seq!['='] + value),
        upserted(None, key, value) == lines::unlines(
            with_key(seq!["# SpoolCtl settings"@], key, value),
        ),
        forall|t: Seq<char>| #[trigger]
            upserted(Some(t), key, value) == lines::unlines(with_key(lines::lines(t), key, value)),
{
    if 0 <= i < ls.len() && entry(ls[i]) is Some && (entry(ls[i])->0).0 == key && (forall|j: int|
        0 <= j < i ==> !(entry(#[trigger] ls[j]) is Some && (entry(ls[j])->0).0 == key)) {
        lemma_first_keyed_is(ls, key, i);
    }
    if forall|j: int|
        0 <= j < ls.len() ==> !(entry(#[trigger] ls[j]) is Some && (entry(ls[j])->0).0 == key) {
        lemma_first_keyed_is(ls, key, ls.len() as int);
    }
}

proof fn lemma_first_keyed_is(ls: Seq<Seq<char>>, key: Seq<char>, i: int)
    requires
        0 <= i <= ls.len(),
        i < ls.len() ==> entry(ls[i]) is Some && (entry(ls[i])->0).0 == key,
        forall|j: int|
            0 <= j < i ==> !(entry(#[trigger] ls[j]) is Some && (entry(ls[j])->0).0 == key),
    ensures
        first_keyed(ls, key) == i,
    decreases ls.len(),
{
    if i > 0 {
        let t = ls.drop_first();
        assert(!(entry(ls[0]) is Some && (entry(ls[0])->0).0 == key));
        assert forall|j: int| 0 <= j < i - 1 implies !(entry(#[trigger] t[j]) is Some && (entry(
            t[j],
        )->0).0 == key) by {
            assert(t[j] == ls[j + 1]);
        }
        lemma_first_keyed_is(t, key, i - 1);
    }
}

/// Of the lines of others every one is kept, in order, without the white space around
/// it; lines with an own key, and lines without any, are not.
pub proof fn law_lines_of_others_are_kept(
    a: Seq<Seq<char>>,
    b: Seq<Seq<char>>,
    l: Seq<char>,
    own: spec_fn(Seq<char>) -> bool,
)
    ensures
        others(Seq::empty(), own) == Seq::<Seq<char>>::empty(),
        others(a + b, own) == others(a, own) + others(b, own),
        entry(l) is Some && !own((entry(l)->0).0) ==> others(seq![l], own) == seq![text::trim(l)],
        entry(l) is None || own((entry(l)->0).0) ==> others(seq![l], own) == Seq::<
            Seq<char>,
        >::empty(),
    decreases b.len(),
{
    assert(seq![l].drop_last() =~= Seq::<Seq<char>>::empty());
    reveal_with_fuel(others, 2);
    if entry(l) is Some && !own((entry(l)->0).0) {
        assert(others(seq![l], own) =~= seq![text::trim(l)]);
    }
    if b.len() == 0 {
        assert(a + b =~= a);
        assert(others(a, own) + others(b, own) =~= others(a, own));
    } else {
        law_lines_of_others_are_kept(a, b.drop_last(), l, own);
        assert((a + b).drop_last() =~= a + b.drop_last());
        assert((a + b).last() == b.last());
        assert(others(a + b, own) =~= others(a, own) + others(b, own));
    }
}

} // verus!
