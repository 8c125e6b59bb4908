//! The computer that an operation is meant for: this one, or a remote one.
//!
//! A remote computer needs no agent: its services are reached through the
//! Service Control Manager, its queue files through `\\host\ADMIN$`, and its
//! printers through the print server name `\\host`.

use vstd::prelude::*;
use crate::paths;
use crate::paths::join_path;
use crate::text;
use crate::text::{chars_of, contains_any, string_of, strip_char_chars, trim_chars};
use crate::wide;
use crate::wide::to_wide;

verus! {

/// A target computer. An empty name is this computer.
#[derive(Debug, PartialEq, Eq)]
pub struct Host {
    name: String,
}

impl View for Host {
    type V = Seq<char>;

    closed spec fn view(&self) -> Seq<char> {
        self.name@
    }
}

/// Characters that no computer name holds.
pub open spec fn forbidden(c: char) -> bool {
    "/\\:*?\"<>|"@.contains(c)
}

/// `n` holds a character that no computer name holds.
pub open spec fn has_forbidden(n: Seq<char>) -> bool {
    exists|i: int| 0 <= i < n.len() && forbidden(#[trigger] n[i])
}

/// What is left of the user's text once white space and the backslashes around
/// the name are gone.
pub open spec fn bare_name(raw: Seq<char>) -> Seq<char> {
    text::trim(text::strip_char(text::trim(raw), '\\'))
}

/// The name of the target that the user's text stands for, or why it stands for
/// none.
pub open spec fn parse_host(raw: Seq<char>) -> Result<Seq<char>, Seq<char>> {
    let n = bare_name(raw);
    if n.len() == 0 {
        Ok(n)
    } else if has_forbidden(n) {
        Err("Недопустимые символы в имени ПК. Укажите имя хоста или IPv4 без пути."@)
    } else if vstd::utf8::encode_utf8(n).len() > 255 {
        Err("Слишком длинное имя ПК."@)
    } else {
        Ok(n)
    }
}

/// The names that a target can have.
pub open spec fn valid_host(n: Seq<char>) -> bool {
    &&& n.len() > 0 ==> !text::is_white(n[0]) && !text::is_white(n.last())
    &&& !has_forbidden(n)
    &&& vstd::utf8::encode_utf8(n).len() <= 255
}

/// How the target `n` is called in messages.
pub open spec fn host_label(n: Seq<char>) -> Seq<char> {
    if n.len() == 0 {
        "этот ПК"@
    } else {
        n
    }
}

/// The machine name `\\HOST` as a wide string; none for this computer.
pub open spec fn machine_wide(n: Seq<char>) -> Option<Seq<u16>> {
    if n.len() == 0 {
        None
    } else {
        Some(wide::wide("\\\\"@ + n))
    }
}

/// The name under which a printer of the target `n` is opened.
pub open spec fn open_name(n: Seq<char>, printer: Seq<char>) -> Seq<char> {
    if n.len() == 0 {
        printer
    } else {
        "\\\\"@ + n + "\\"@ + printer
    }
}

/// The spool directory below a system root.
pub open spec fn spool_below(root: Seq<char>) -> Seq<char> {
    paths::path_join(
        paths::path_join(paths::path_join(root, "System32"@), "spool"@),
        "PRINTERS"@,
    )
}

/// The directory that holds the queue files of the target `n`. For this computer
/// it lies below the system root, which `SystemRoot` or else `windir` names.
pub open spec fn queue_dir(
    n: Seq<char>,
    system_root: Option<Seq<char>>,
    windir: Option<Seq<char>>,
) -> Result<Seq<char>, Seq<char>> {
    if n.len() > 0 {
        Ok("\\\\"@ + n + "\\ADMIN$\\System32\\spool\\PRINTERS"@)
    } else if system_root is Some {
        Ok(spool_below(system_root->0))
    } else if windir is Some {
        Ok(spool_below(windir->0))
    } else {
        Err("Не задана переменная SystemRoot."@)
    }
}

/// A parsed target seen as its name.
pub open spec fn host_result(r: Result<Host, String>) -> Result<Seq<char>, Seq<char>> {
    match r {
        Ok(h) => Ok(h@),
        Err(e) => Err(e@),
    }
}

impl Clone for Host {
    fn clone(&self) -> (r: Self)
        ensures
            r@ == self@,
    {
        Host { name: self.name.as_str().to_owned() }
    }
}

impl Default for Host {
    fn default() -> (r: Self)
        ensures
            r@ == Seq::<char>::empty(),
    {
        Host { name: String::new() }
    }
}

impl Host {
    /// This computer.
    pub fn local() -> (r: Self)
        ensures
            r@ == Seq::<char>::empty(),
    {
        Host { name: String::new() }
    }

    /// Reads what the user typed: `PC01`, `\\PC01`, `192.168.1.10` or a full
    /// domain name. Nothing stands for this computer.
    pub fn parse(raw: &str) -> (r: Result<Self, String>)
        ensures
            host_result(r) == parse_host(raw@),
    {
        let trimmed = trim_chars(&chars_of(raw));
        let name = trim_chars(&strip_char_chars(&trimmed, '\\'));
        if name.len() == 0 {
            assert(name@ =~= Seq::<char>::empty());
            return Ok(Self::local());
        }
        if contains_any(&name, "/\\:*?\"<>|") {
            return Err(
                "Недопустимые символы в имени ПК. Укажите имя хоста или IPv4 без пути.".to_owned(),
            );
        }
        let name = string_of(&name);
        if name.as_str().as_bytes().len() > 255 {
            return Err("Слишком длинное имя ПК.".to_owned());
        }
        Ok(Host { name })
    }

    /// Whether the target is this computer.
    pub fn is_local(&self) -> (r: bool)
        ensures
            r == (self@.len() == 0),
    {
        self.name.as_str().is_empty()
    }

    /// The name without `\\`; empty for this computer.
    pub fn name(&self) -> (r: &str)
        ensures
            r@ == self@,
    {
        self.name.as_str()
    }

    /// How the target is called in messages.
    pub fn label_ru(&self) -> (r: String)
        ensures
            r@ == host_label(self@),
    {
        if self.is_local() {
            "этот ПК".to_owned()
        } else {
            self.name.as_str().to_owned()
        }
    }

    /// The machine name for the Service Control Manager; `None` is this computer.
    pub fn scm_machine_wide(&self) -> (r: Option<Vec<u16>>)
        ensures
            (r is Some) == (machine_wide(self@) is Some),
            r is Some ==> Some(r->0@) == machine_wide(self@),
    {
        if self.is_local() {
            None
        } else {
            let mut s = "\\\\".to_owned();
            s.append(self.name.as_str());
            Some(to_wide(s.as_str()))
        }
    }

    /// The server name for the list of printers; `None` is this computer.
    pub fn winspool_server_wide(&self) -> (r: Option<Vec<u16>>)
        ensures
            (r is Some) == (machine_wide(self@) is Some),
            r is Some ==> Some(r->0@) == machine_wide(self@),
    {
        self.scm_machine_wide()
    }

    /// The name under which `printer` of this target is opened.
    pub fn printer_open_name(&self, printer: &str) -> (r: String)
        ensures
            r@ == open_name(self@, printer@),
    {
        if self.is_local() {
            printer.to_owned()
        } else {
            let mut s = "\\\\".to_owned();
            s.append(self.name.as_str());
            s.append("\\");
            s.append(printer);
            s
        }
    }

    /// The directory of the queue files, given the two environment variables that
    /// name the system root.
    pub fn printers_queue_dir(&self, system_root: Option<&str>, windir: Option<&str>) -> (r: Result<
        String,
        String,
    >)
        ensures
            text::result_text(r) == queue_dir(
                self@,
                text::opt_str(system_root),
                text::opt_str(windir),
            ),
    {
        if self.is_local() {
            let root = match system_root {
                Some(s) => s,
                None => match windir {
                    Some(s) => s,
                    None => {
                        return Err("Не задана переменная SystemRoot.".to_owned());
                    },
                },
            };
            proof {
                reveal_strlit("System32");
                reveal_strlit("spool");
                reveal_strlit("PRINTERS");
            }
            let a = join_path(root, "System32");
            let b = join_path(a.as_str(), "spool");
            Ok(join_path(b.as_str(), "PRINTERS"))
        } else {
            let mut s = "\\\\".to_owned();
            s.append(self.name.as_str());
            s.append("\\ADMIN$\\System32\\spool\\PRINTERS");
            Ok(s)
        }
    }

    /// Whether both name the same computer.
    pub fn same_host(&self, other: &Host) -> (r: bool)
        ensures
            r == (self@ == other@),
    {
        text::same(self.name.as_str(), other.name.as_str())
    }
}

/// Whatever the user types, a target that is accepted has a valid name.
pub proof fn law_parsed_host_is_valid(raw: Seq<char>)
    ensures
        parse_host(raw) is Ok ==> valid_host(parse_host(raw)->Ok_0),
{
    text::lemma_trim(text::strip_char(text::trim(raw), '\\'));
}

proof fn lemma_backslash_forbidden()
    ensures
        forbidden('\\'),
{
    reveal_strlit("/\\:*?\"<>|");
    assert("/\\:*?\"<>|"@[1] == '\\');
}

/// A valid name stands for itself, with any number of backslashes in front of it
/// or behind it.
pub proof fn law_backslashes_around_a_name_do_not_matter(
    pre: Seq<char>,
    n: Seq<char>,
    post: Seq<char>,
)
    requires
        valid_host(n),
        n.len() > 0,
        forall|i: int| 0 <= i < pre.len() ==> #[trigger] pre[i] == '\\',
        forall|i: int| 0 <= i < post.len() ==> #[trigger] post[i] == '\\',
    ensures
        parse_host(pre + n + post) == Ok::<Seq<char>, Seq<char>>(n),
{
    let raw = pre + n + post;
    lemma_backslash_forbidden();
    assert(!forbidden(n[0]) && !forbidden(n[n.len() - 1]));
    assert(!text::is_white('\\'));
    assert(raw[0] == if pre.len() > 0 { pre[0] } else { n[0] });
    assert(raw.last() == if post.len() > 0 { post[post.len() - 1] } else { n[n.len() - 1] });
    text::lemma_trim_noop(raw);
    let class = text::only('\\');
    text::lemma_strip_front_prefix(pre, n + post, class);
    assert(raw =~= pre + (n + post));
    assert((n + post)[0] == n[0]);
    assert(text::strip_front(raw, class) == n + post);
    text::lemma_strip_back_suffix(n, post, class);
    assert(text::strip_back(n, class) == n);
    text::lemma_trim_noop(n);
}

/// The name of an accepted target, typed again, gives the same target.
pub proof fn law_parsed_name_parses_to_itself(raw: Seq<char>)
    requires
        parse_host(raw) is Ok,
    ensures
        parse_host(parse_host(raw)->Ok_0) == parse_host(raw),
{
    let n = parse_host(raw)->Ok_0;
    law_parsed_host_is_valid(raw);
    if n.len() > 0 {
        law_backslashes_around_a_name_do_not_matter(seq![], n, seq![]);
        assert(seq![] + n + seq![] =~= n);
    } else {
        assert(bare_name(n) =~= n);
    }
}

/// A target is this computer exactly when it has no machine name to pass on, and
/// the machine name of a remote one reads back as `\\` and its name.
pub proof fn law_machine_name_reads_back(n: Seq<char>)
    requires
        !n.contains('\0'),
    ensures
        machine_wide(n) is None <==> n.len() == 0,
        machine_wide(n) is Some ==> wide::utf16_lossy(wide::before_nul(machine_wide(n)->0))
            == "\\\\"@ + n,
{
    reveal_strlit("\\\\");
    let m = "\\\\"@ + n;
    assert forall|i: int| 0 <= i < m.len() implies m[i] != '\0' by {
        if i >= 2 {
            assert(m[i] == n[i - 2]);
        }
    }
    wide::law_wide_reads_back(m);
}

/// A name that holds none of nine characters is the name of a target, unless it is
/// too long; one that holds any of them is none. White space around it, and
/// backslashes around it, do not matter.
pub proof fn law_names_are_refused_for_nine_characters(
    a: Seq<char>,
    n: Seq<char>,
    b: Seq<char>,
)
    requires
        n.len() > 0,
        !text::is_white(n[0]) && !text::is_white(n.last()),
        n[0] != '\\' && n.last() != '\\',
        forall|i: int| 0 <= i < a.len() ==> text::is_white(#[trigger] a[i]),
        forall|i: int| 0 <= i < b.len() ==> text::is_white(#[trigger] b[i]),
    ensures
        ({
            let bad = n.contains('/') || n.contains('\\') || n.contains(':') || n.contains('*')
                || n.contains('?') || n.contains('"') || n.contains('<') || n.contains('>')
                || n.contains('|');
            &&& bad ==> parse_host(a + n + b) == Err::<Seq<char>, Seq<char>>(
                "Недопустимые символы в имени ПК. Укажите имя хоста или IPv4 без пути."@,
            )
            &&& !bad && vstd::utf8::encode_utf8(n).len() > 255 ==> parse_host(a + n + b) == Err::<
                Seq<char>,
                Seq<char>,
            >("Слишком длинное имя ПК."@)
            &&& !bad && vstd::utf8::encode_utf8(n).len() <= 255 ==> parse_host(a + n + b) == Ok::<
                Seq<char>,
                Seq<char>,
            >(n)
        }),
{
    text::law_trim_takes_the_ends_away(a, n, b);
    text::lemma_trim_noop(n);
    assert(text::strip_char(n, '\\') == n);
    reveal_strlit("/\\:*?\"<>|");
    let f = "/\\:*?\"<>|"@;
    assert(f.len() == 9);
    assert(f[0] == '/' && f[1] == '\\' && f[2] == ':' && f[3] == '*' && f[4] == '?' && f[5] == '"'
        && f[6] == '<' && f[7] == '>' && f[8] == '|');
    assert forall|c: char| #[trigger] forbidden(c) <==> c == '/' || c == '\\' || c == ':' || c
        == '*' || c == '?' || c == '"' || c == '<' || c == '>' || c == '|' by {}
    if has_forbidden(n) {
        let i = choose|i: int| 0 <= i < n.len() && forbidden(#[trigger] n[i]);
        assert(n.contains(n[i]));
    }
    assert forall|c: char| n.contains(c) && forbidden(c) implies has_forbidden(n) by {
        let i = choose|i: int| 0 <= i < n.len() && n[i] == c;
        assert(forbidden(n[i]));
    }
}

/// Nothing, and nothing but white space, stands for this computer.
pub proof fn law_nothing_means_this_computer(raw: Seq<char>)
    requires
        forall|i: int| 0 <= i < raw.len() ==> text::is_white(#[trigger] raw[i]),
    ensures
        parse_host(raw) is Ok,
        parse_host(raw)->Ok_0.len() == 0,
{
    text::law_trim_takes_the_ends_away(raw, Seq::empty(), Seq::empty());
    assert(raw + Seq::<char>::empty() + Seq::<char>::empty() =~= raw);
    assert(bare_name(raw) =~= Seq::<char>::empty());
}

/// This computer is reached without a name, and another one by its name behind two
/// backslashes: its printers, and its queue files through the administrative share.
/// The queue files of this computer lie below the system root, which the first of the
/// two variables names, or else the second.
pub proof fn law_targets_are_reached_by_their_name(
    n: Seq<char>,
    printer: Seq<char>,
    system_root: Option<Seq<char>>,
    windir: Option<Seq<char>>,
)
    ensures
        n.len() == 0 ==> host_label(n) == "этот ПК"@,
        n.len() > 0 ==> host_label(n) == n,
        n.len() == 0 ==> open_name(n, printer) == printer,
        n.len() > 0 ==> open_name(n, printer) == "\\\\"@ + n + "\\"@ + printer,
        n.len() > 0 ==> queue_dir(n, system_root, windir) == Ok::<Seq<char>, Seq<char>>(
            "\\\\"@ + n + "\\ADMIN$\\System32\\spool\\PRINTERS"@,
        ),
        n.len() == 0 && system_root is None && windir is None ==> queue_dir(n, system_root, windir)
            == Err::<Seq<char>, Seq<char>>("Не задана переменная SystemRoot."@),
        n.len() == 0 && system_root is Some ==> queue_dir(n, system_root, windir) == queue_dir(
            n,
            system_root,
            None,
        ),
        n.len() == 0 && system_root is None && windir is Some ==> queue_dir(n, system_root, windir)
            == queue_dir(n, windir, None),
{
}

/// Below a system root such as `C:\Windows` the queue files lie in three folders, one
/// in the other.
pub proof fn law_queue_lies_below_the_root(root: Seq<char>, windir: Option<Seq<char>>)
    requires
        root.len() > 3,
        root.last() != '\\' && root.last() != '/',
        !text::begins(root, "\\\\?\\"@),
    ensures
        queue_dir(Seq::empty(), Some(root), windir) == Ok::<Seq<char>, Seq<char>>(
            root + "\\System32\\spool\\PRINTERS"@,
        ),
{
    reveal_strlit("System32");
    reveal_strlit("spool");
    reveal_strlit("PRINTERS");
    reveal_strlit("\\System32\\spool\\PRINTERS");
    reveal_strlit("\\\\?\\");
    let a = root + seq!['\\'] + "System32"@;
    let b = a + seq!['\\'] + "spool"@;
    let p = "\\\\?\\"@;
    assert(paths::path_join(root, "System32"@) == a);
    assert(!text::begins(a, p)) by {
        lemma_not_longer(root, seq!['\\'] + "System32"@);
        assert(a =~= root + (seq!['\\'] + "System32"@));
    }
    assert(a.last() == '2');
    assert(paths::path_join(a, "spool"@) == b);
    assert(!text::begins(b, p)) by {
        lemma_not_longer(a, seq!['\\'] + "spool"@);
        assert(b =~= a + (seq!['\\'] + "spool"@));
    }
    assert(b.last() == 'l');
    assert(b + seq!['\\'] + "PRINTERS"@ =~= root + "\\System32\\spool\\PRINTERS"@);
}

proof fn lemma_not_longer(s: Seq<char>, t: Seq<char>)
    requires
        s.len() > 3,
        !text::begins(s, "\\\\?\\"@),
    ensures
        !text::begins(s + t, "\\\\?\\"@),
{
    reveal_strlit("\\\\?\\");
    let p = "\\\\?\\"@;
    if text::begins(s + t, p) {
        let head = (s + t).subrange(0, 4);
        assert(head == p);
        assert(s.subrange(0, 4) =~= head);
    }
}

/// A parsed target is seen as its name, and a failure as its words.
pub proof fn law_targets_are_seen_as_their_names(h: Host, e: String)
    ensures
        host_result(Ok(h)) == Ok::<Seq<char>, Seq<char>>(h@),
        host_result(Err(e)) == Err::<Seq<char>, Seq<char>>(e@),
{
}

} // verus!
