//! The log: one line for each thing that happened, with no secrets and no contents
//! of files. A log that has grown too long is put aside.

use vstd::prelude::*;
use crate::number;
use crate::number::{padded_text, push_decimal};
use crate::paths;
use crate::paths::join_path;
use crate::settings;
use crate::settings::own_data_dir;
use crate::shell;
use crate::shell::shell_result;
use crate::text;
use crate::text::{chars_of, part, string_of, trim_chars};
use crate::wide;
use crate::wide::to_wide;

verus! {

/// A log of more than this many bytes is put aside.
pub const MAX_LOG_BYTES: u64 = 1_048_576;

/// How many logs that were put aside are kept.
pub const ROTATED_FILES: u32 = 3;

/// How many characters of a message go into the log.
pub const MAX_MESSAGE_CHARS: usize = 500;

/// The name of the log file.
pub const FILE_NAME: &'static str = "spoolctl.log";

// ---------------------------------------------------------------------------
// Where the log is

/// The folder of the log beside the program.
pub open spec fn beside(dir: Seq<char>) -> Seq<char> {
    paths::path_join(dir, "logs"@)
}

/// The folder of the log: beside the program, in `dir`, where that can be written,
/// and else among the user's own files.
pub open spec fn folder(
    dir: Option<Seq<char>>,
    local_app_data: Option<Seq<char>>,
    temp: Seq<char>,
) -> Seq<char> {
    match dir {
        Some(d) => beside(d),
        None => beside(settings::data_dir(local_app_data, temp)),
    }
}

/// The folder of the log beside the program.
pub fn logs_beside(dir: &str) -> (r: String)
    ensures
        r@ == beside(dir@),
{
    proof {
        reveal_strlit("logs");
    }
    join_path(dir, "logs")
}

/// The folder of the log.
pub fn log_dir(writable_dir: Option<&str>, local_app_data: Option<&str>, temp: &str) -> (r: String)
    ensures
        r@ == folder(text::opt_str(writable_dir), text::opt_str(local_app_data), temp@),
{
    match writable_dir {
        Some(d) => logs_beside(d),
        None => logs_beside(own_data_dir(local_app_data, temp).as_str()),
    }
}

/// The path of the log.
pub fn log_path(writable_dir: Option<&str>, local_app_data: Option<&str>, temp: &str) -> (r: String)
    ensures
        r@ == paths::path_join(
            folder(text::opt_str(writable_dir), text::opt_str(local_app_data), temp@),
            FILE_NAME@,
        ),
{
    proof {
        reveal_strlit("spoolctl.log");
    }
    join_path(log_dir(writable_dir, local_app_data, temp).as_str(), FILE_NAME)
}

/// What the shell opens to show the folder of the log.
pub fn open_log_dir(dir: &str) -> (r: Vec<u16>)
    ensures
        r@ == wide::wide(dir@),
{
    to_wide(dir)
}

/// What came of it, by the code that the shell returned.
pub fn log_dir_opened(code: i64) -> (r: Result<(), String>)
    ensures
        text::unit_result_text(r) == shell::shell_outcome("папку журнала"@, code),
{
    shell_result("папку журнала", code)
}

// ---------------------------------------------------------------------------
// What is in it

/// A moment by the clock on the wall.
#[derive(Debug, Clone, Copy, PartialEq, Eq, Structural)]
pub struct LocalTime {
    pub year: u16,
    pub month: u16,
    pub day: u16,
    pub hour: u16,
    pub minute: u16,
    pub second: u16,
}

/// A moment as the log writes it.
pub open spec fn stamp(t: LocalTime) -> Seq<char> {
    number::padded(t.year as nat, 4) + "-"@ + number::padded(t.month as nat, 2) + "-"@
        + number::padded(t.day as nat, 2) + " "@ + number::padded(t.hour as nat, 2) + ":"@
        + number::padded(t.minute as nat, 2) + ":"@ + number::padded(t.second as nat, 2)
}

/// A line break becomes a space.
pub open spec fn flat_char(c: char) -> char {
    if c == '\r' || c == '\n' {
        ' '
    } else {
        c
    }
}

/// A message as it goes into the log: on one line, without the white space around
/// it, and not too long.
pub open spec fn clean(message: Seq<char>) -> Seq<char> {
    let t = text::trim(message.map_values(|c: char| flat_char(c)));
    if t.len() <= MAX_MESSAGE_CHARS {
        t
    } else {
        t.take(MAX_MESSAGE_CHARS as int)
    }
}

/// A line of the log.
pub open spec fn record(t: LocalTime, level: Seq<char>, message: Seq<char>) -> Seq<char> {
    stamp(t) + " ["@ + level + "] "@ + clean(message) + "\n"@
}

/// A moment as the log writes it.
pub fn timestamp(t: LocalTime) -> (r: String)
    ensures
        r@ == stamp(t),
{
    let mut s = padded_text(t.year as u128, 4);
    s.append("-");
    s.append(padded_text(t.month as u128, 2).as_str());
    s.append("-");
    s.append(padded_text(t.day as u128, 2).as_str());
    s.append(" ");
    s.append(padded_text(t.hour as u128, 2).as_str());
    s.append(":");
    s.append(padded_text(t.minute as u128, 2).as_str());
    s.append(":");
    s.append(padded_text(t.second as u128, 2).as_str());
    s
}

/// A message as it goes into the log.
pub fn sanitize(message: &str) -> (r: String)
    ensures
        r@ == clean(message@),
{
    let chars = chars_of(message);
    let ghost flat = message@.map_values(|c: char| flat_char(c));
    let mut out: Vec<char> = Vec::new();
    for i in 0..chars.len()
        invariant
            chars@ == message@,
            flat == message@.map_values(|c: char| flat_char(c)),
            out@ == flat.take(i as int),
    {
        let c = chars[i];
        if c == '\r' || c == '\n' {
            out.push(' ');
        } else {
            out.push(c);
        }
        assert(flat.take(i + 1) =~= flat.take(i as int).push(flat[i as int]));
    }
    assert(flat.take(chars.len() as int) =~= flat);
    let trimmed = trim_chars(&out);
    if trimmed.len() <= MAX_MESSAGE_CHARS {
        string_of(&trimmed)
    } else {
        let head = part(&trimmed, 0, MAX_MESSAGE_CHARS);
        assert(head@ =~= trimmed@.take(MAX_MESSAGE_CHARS as int));
        string_of(&head)
    }
}

/// How much a message matters.
#[derive(Debug, Clone, Copy, PartialEq, Eq, Structural)]
pub enum Level {
    Info,
    Warn,
    Error,
}

fn make_record(t: LocalTime, level: &str, message: &str) -> (r: String)
    ensures
        r@ == record(t, level@, message@),
{
    let mut s = timestamp(t);
    s.append(" [");
    s.append(level);
    s.append("] ");
    s.append(sanitize(message).as_str());
    s.append("\n");
    s
}

/// The line that says what happened.
pub fn info(t: LocalTime, message: &str) -> (r: String)
    ensures
        r@ == record(t, "INFO"@, message@),
{
    make_record(t, "INFO", message)
}

/// The line that warns of something.
pub fn warn(t: LocalTime, message: &str) -> (r: String)
    ensures
        r@ == record(t, "WARN"@, message@),
{
    make_record(t, "WARN", message)
}

/// The line that says what went wrong.
pub fn error(t: LocalTime, message: &str) -> (r: String)
    ensures
        r@ == record(t, "ERROR"@, message@),
{
    make_record(t, "ERROR", message)
}

/// The line for a message of this level.
pub fn write_line(t: LocalTime, level: Level, message: &str) -> (r: String)
    ensures
        r@ == record(
            t,
            match level {
                Level::Info => "INFO"@,
                Level::Warn => "WARN"@,
                Level::Error => "ERROR"@,
            },
            message@,
        ),
{
    match level {
        Level::Info => info(t, message),
        Level::Warn => warn(t, message),
        Level::Error => error(t, message),
    }
}

/// No message breaks its line, and none is too long.
pub proof fn law_messages_stay_on_their_line(message: Seq<char>)
    ensures
        !clean(message).contains('\n'),
        !clean(message).contains('\r'),
        clean(message).len() <= MAX_MESSAGE_CHARS,
{
    let flat = message.map_values(|c: char| flat_char(c));
    let t = text::trim(flat);
    text::lemma_trim(flat);
    let a = choose|a: int|
        0 <= a && a + t.len() <= flat.len() && t == #[trigger] flat.subrange(a, a + t.len());
    let s = clean(message);
    assert forall|i: int| 0 <= i < s.len() implies s[i] != '\n' && s[i] != '\r' by {
        assert(s[i] == t[i]);
        assert(t[i] == flat[a + i]);
        assert(flat[a + i] == flat_char(message[a + i]));
    }
}

/// A message goes into the log as it is, but that a line break becomes a space and
/// that no more than five hundred characters of it are kept.
pub proof fn law_messages_are_kept(message: Seq<char>)
    requires
        message.len() > 0,
        !text::is_white(message[0]) && !text::is_white(message.last()),
    ensures
        message.len() <= 500 ==> clean(message).len() == message.len(),
        message.len() > 500 ==> clean(message).len() == 500,
        forall|i: int|
            0 <= i < clean(message).len() ==> #[trigger] clean(message)[i] == if message[i] == '\r'
                || message[i] == '\n' {
                ' '
            } else {
                message[i]
            },
{
    let flat = message.map_values(|c: char| flat_char(c));
    assert(text::is_white('\r') && text::is_white('\n'));
    assert(flat[0] == message[0] && flat.last() == message.last());
    text::lemma_trim_noop(flat);
}

/// White space around a message does not go into the log.
pub proof fn law_messages_are_trimmed(a: Seq<char>, message: Seq<char>, b: Seq<char>)
    requires
        message.len() > 0 ==> !text::is_white(message[0]) && !text::is_white(message.last()),
        forall|i: int| 0 <= i < a.len() ==> text::is_white(#[trigger] a[i]),
        forall|i: int| 0 <= i < b.len() ==> text::is_white(#[trigger] b[i]),
    ensures
        clean(a + message + b) == clean(message),
{
    let f = |c: char| flat_char(c);
    let (fa, fm, fb) = (a.map_values(f), message.map_values(f), b.map_values(f));
    assert(text::is_white('\r') && text::is_white('\n') && text::is_white(' '));
    assert((a + message + b).map_values(f) =~= fa + fm + fb);
    assert forall|i: int| 0 <= i < fa.len() implies text::is_white(#[trigger] fa[i]) by {
        assert(text::is_white(a[i]));
    }
    assert forall|i: int| 0 <= i < fb.len() implies text::is_white(#[trigger] fb[i]) by {
        assert(text::is_white(b[i]));
    }
    if message.len() > 0 {
        assert(fm[0] == message[0] && fm.last() == message.last());
    }
    text::law_trim_takes_the_ends_away(fa, fm, fb);
    text::lemma_trim_noop(fm);
}

/// A line of the log holds the moment, how much the message matters, and the message,
/// and ends with a line feed and not before.
pub proof fn law_record_is_one_line(t: LocalTime, level: Seq<char>, message: Seq<char>)
    ensures
        record(t, level, message) == stamp(t) + " ["@ + level + "] "@ + clean(message) + "\n"@,
        stamp(t) == number::padded(t.year as nat, 4) + "-"@ + number::padded(t.month as nat, 2)
            + "-"@ + number::padded(t.day as nat, 2) + " "@ + number::padded(t.hour as nat, 2)
            + ":"@ + number::padded(t.minute as nat, 2) + ":"@ + number::padded(
            t.second as nat,
            2,
        ),
{
}

/// The last lines of a log, oldest first: `max_lines` of them, or all there are.
pub fn read_tail(all: &Vec<String>, max_lines: usize) -> (r: Vec<String>)
    ensures
        text::texts(r@) == text::texts(all@).skip(
            if all@.len() > max_lines {
                all@.len() - max_lines
            } else {
                0
            },
        ),
{
    let from: usize = if all.len() > max_lines {
        all.len() - max_lines
    } else {
        0
    };
    let mut out: Vec<String> = Vec::new();
    for i in from..all.len()
        invariant
            from <= all.len(),
            text::texts(out@) == text::texts(all@).subrange(from as int, i as int),
    {
        let ghost before = text::texts(out@);
        let line = all[i].as_str().to_owned();
        out.push(line);
        proof {
            assert(text::texts(out@) =~= before.push(line@));
            assert(text::texts(all@)[i as int] == line@);
            assert(text::texts(out@) =~= text::texts(all@).subrange(from as int, i + 1));
        }
    }
    assert(text::texts(out@) =~= text::texts(all@).skip(from as int));
    out
}

// ---------------------------------------------------------------------------
// Putting a log aside

/// One thing to do with a file; what cannot be done is left undone.
#[derive(Debug, PartialEq, Eq)]
pub enum FileStep {
    Remove(String),
    Rename { from: String, to: String },
}

/// One thing to do with a file, as a value of its own.
pub enum StepView {
    Remove(Seq<char>),
    Rename(Seq<char>, Seq<char>),
}

impl View for FileStep {
    type V = StepView;

    open spec fn view(&self) -> StepView {
        match self {
            FileStep::Remove(name) => StepView::Remove(name@),
            FileStep::Rename { from, to } => StepView::Rename(from@, to@),
        }
    }
}

/// Things to do, as values of their own.
pub open spec fn step_views(v: Seq<FileStep>) -> Seq<StepView> {
    Seq::new(v.len(), |i: int| v[i]@)
}

/// The name of the log at `path` with a number behind it.
pub open spec fn numbered(path: Seq<char>, n: nat) -> Seq<char> {
    path + "."@ + number::decimal(n)
}

/// The name of the log number `n` that was put aside; the log itself has number zero.
pub open spec fn log_name(path: Seq<char>, n: nat) -> Seq<char> {
    if n == 0 {
        path
    } else {
        numbered(path, n)
    }
}

/// Every log from number `n` on downwards moves up by one.
pub open spec fn shifts(path: Seq<char>, n: nat) -> Seq<StepView>
    decreases n,
{
    if n == 0 {
        seq![StepView::Rename(log_name(path, 0), log_name(path, 1))]
    } else {
        seq![StepView::Rename(log_name(path, n), log_name(path, n + 1))] + shifts(
            path,
            (n - 1) as nat,
        )
    }
}

/// What is to be done with a log of `size` bytes: nothing where there is none, where
/// it is no longer than `max_bytes`, or where none are kept; else the oldest one goes, and all others
/// move up.
pub open spec fn rotation(path: Seq<char>, size: Option<u64>, max_bytes: u64, keep: u32) -> Seq<
    StepView,
> {
    if size is None || size->0 <= max_bytes || keep == 0 {
        seq![]
    } else {
        seq![StepView::Remove(log_name(path, keep as nat))] + shifts(path, (keep - 1) as nat)
    }
}

/// The name of the log at `path` with a number behind it.
pub fn rotated_name(path: &str, index: u32) -> (r: String)
    ensures
        r@ == numbered(path@, index as nat),
{
    let mut s = path.to_owned();
    s.append(".");
    push_decimal(&mut s, index as u128);
    s
}

/// What is to be done with the log at `path`, of `size` bytes if it is there.
pub fn rotate_if_needed(path: &str, size: Option<u64>, max_bytes: u64, keep: u32) -> (r: Vec<
    FileStep,
>)
    ensures
        step_views(r@) == rotation(path@, size, max_bytes, keep),
{
    let mut steps: Vec<FileStep> = Vec::new();
    let needed = match size {
        None => false,
        Some(n) => n > max_bytes && keep > 0,
    };
    if !needed {
        assert(step_views(steps@) =~= seq![]);
        return steps;
    }
    let oldest = rotated_name(path, keep);
    steps.push(FileStep::Remove(oldest));
    let ghost goal = rotation(path@, size, max_bytes, keep);
    assert(step_views(steps@) + shifts(path@, (keep - 1) as nat) =~= goal);
    let mut n: u32 = keep - 1;
    while n > 0
        invariant
            n < keep,
            step_views(steps@) + shifts(path@, n as nat) == goal,
        decreases n,
    {
        let ghost before = step_views(steps@);
        let from = rotated_name(path, n);
        let to = rotated_name(path, n + 1);
        steps.push(FileStep::Rename { from, to });
        proof {
            assert(step_views(steps@) =~= before.push(StepView::Rename(from@, to@)));
            assert(step_views(steps@) + shifts(path@, (n - 1) as nat) =~= before + shifts(
                path@,
                n as nat,
            ));
        }
        n -= 1;
    }
    let ghost before = step_views(steps@);
    let to = rotated_name(path, 1);
    let from = path.to_owned();
    steps.push(FileStep::Rename { from, to });
    assert(step_views(steps@) =~= before.push(StepView::Rename(path@, to@)));
    assert(step_views(steps@) =~= goal);
    steps
}

/// What one step makes of the files of a folder.
pub open spec fn stepped<C>(files: Map<Seq<char>, C>, step: StepView) -> Map<Seq<char>, C> {
    match step {
        StepView::Remove(name) => files.remove(name),
        StepView::Rename(from, to) => if files.contains_key(from) {
            files.remove(from).insert(to, files[from])
        } else {
            files
        },
    }
}

/// What the steps make of the files of a folder.
pub open spec fn after_steps<C>(files: Map<Seq<char>, C>, steps: Seq<StepView>) -> Map<Seq<char>, C>
    decreases steps.len(),
{
    if steps.len() == 0 {
        files
    } else {
        after_steps(stepped(files, steps[0]), steps.drop_first())
    }
}

/// What a folder has under a name.
pub open spec fn at<C>(files: Map<Seq<char>, C>, name: Seq<char>) -> Option<C> {
    if files.contains_key(name) {
        Some(files[name])
    } else {
        None
    }
}

/// Logs with different numbers have different names.
pub proof fn law_log_names_differ(path: Seq<char>, a: nat, b: nat)
    ensures
        log_name(path, a) == log_name(path, b) <==> a == b,
{
    reveal_strlit(".");
    let x = log_name(path, a);
    let y = log_name(path, b);
    if a > 0 {
        assert(x.skip(path.len() as int + 1) =~= number::decimal(a));
        number::law_decimal_reads_back(a);
    }
    if b > 0 {
        assert(y.skip(path.len() as int + 1) =~= number::decimal(b));
        number::law_decimal_reads_back(b);
    }
}

proof fn lemma_shifted<C>(files: Map<Seq<char>, C>, path: Seq<char>, n: nat)
    requires
        !files.contains_key(log_name(path, n + 1)),
    ensures
        at(after_steps(files, shifts(path, n)), path) is None,
        forall|k: nat|
            k <= n ==> #[trigger] at(after_steps(files, shifts(path, n)), log_name(path, k + 1))
                == at(files, log_name(path, k)),
        forall|name: Seq<char>|
            (forall|k: nat| k <= n + 1 ==> name != #[trigger] log_name(path, k)) ==> #[trigger] at(
                after_steps(files, shifts(path, n)),
                name,
            ) == at(files, name),
        forall|k: nat|
            k > n + 1 ==> #[trigger] at(after_steps(files, shifts(path, n)), log_name(path, k))
                == at(files, log_name(path, k)),
    decreases n,
{
    let steps = shifts(path, n);
    let from = log_name(path, n);
    let to = log_name(path, n + 1);
    let next = stepped(files, steps[0]);
    assert(steps[0] == StepView::Rename(from, to));
    law_log_names_differ(path, n, n + 1);
    assert(!next.contains_key(from));
    assert(at(next, to) == at(files, from));
    let end = after_steps(files, steps);
    if n == 0 {
        assert(steps.drop_first() =~= Seq::<StepView>::empty());
        assert(after_steps(next, Seq::<StepView>::empty()) == next);
        assert forall|k: nat| k > n + 1 implies #[trigger] at(end, log_name(path, k)) == at(
            files,
            log_name(path, k),
        ) by {
            law_log_names_differ(path, k, n);
            law_log_names_differ(path, k, n + 1);
        }
        assert forall|name: Seq<char>|
            (forall|k: nat| k <= n + 1 ==> name != #[trigger] log_name(path, k)) implies #[trigger] at(
            end,
            name,
        ) == at(files, name) by {
            assert(name != log_name(path, 0) && name != log_name(path, 1));
        }
        assert forall|k: nat| k <= n implies #[trigger] at(end, log_name(path, k + 1)) == at(
            files,
            log_name(path, k),
        ) by {}
    } else {
        let m = (n - 1) as nat;
        assert(steps.drop_first() =~= shifts(path, m));
        assert(end == after_steps(next, shifts(path, m)));
        assert(log_name(path, m + 1) == from);
        lemma_shifted(next, path, m);
        assert forall|k: nat| k <= n implies #[trigger] at(end, log_name(path, k + 1)) == at(
            files,
            log_name(path, k),
        ) by {
            law_log_names_differ(path, k, n);
            law_log_names_differ(path, k, n + 1);
            if k < n {
                assert(at(next, log_name(path, k)) == at(files, log_name(path, k)));
            } else {
                assert(at(end, log_name(path, m + 2)) == at(next, log_name(path, m + 2)));
            }
        }
        assert forall|k: nat| k > n + 1 implies #[trigger] at(end, log_name(path, k)) == at(
            files,
            log_name(path, k),
        ) by {
            law_log_names_differ(path, k, n);
            law_log_names_differ(path, k, n + 1);
        }
        assert forall|name: Seq<char>|
            (forall|k: nat| k <= n + 1 ==> name != #[trigger] log_name(path, k)) implies #[trigger] at(
            end,
            name,
        ) == at(files, name) by {
            assert(name != log_name(path, n) && name != log_name(path, n + 1));
            assert forall|k: nat| k <= m + 1 implies name != #[trigger] log_name(path, k) by {
                assert(k <= n + 1);
            }
            assert(at(end, name) == at(next, name));
        }
    }
}

/// A log that is put aside becomes number one, every log that was put aside before
/// moves up by one, the oldest one goes, and no other file is touched.
pub proof fn law_rotation_moves_every_log_up<C>(
    files: Map<Seq<char>, C>,
    path: Seq<char>,
    size: u64,
    max_bytes: u64,
    keep: u32,
)
    requires
        size > max_bytes,
        keep > 0,
    ensures
        !after_steps(files, rotation(path, Some(size), max_bytes, keep)).contains_key(path),
        forall|k: nat|
            k < keep ==> #[trigger] at(
                after_steps(files, rotation(path, Some(size), max_bytes, keep)),
                log_name(path, k + 1),
            ) == at(files, log_name(path, k)),
        forall|name: Seq<char>|
            (forall|k: nat| k <= keep ==> name != #[trigger] log_name(path, k)) ==> #[trigger] at(
                after_steps(files, rotation(path, Some(size), max_bytes, keep)),
                name,
            ) == at(files, name),
{
    let steps = rotation(path, Some(size), max_bytes, keep);
    let n = (keep - 1) as nat;
    let next = stepped(files, steps[0]);
    let end = after_steps(files, steps);
    assert(steps.drop_first() =~= shifts(path, n));
    assert(end == after_steps(next, shifts(path, n)));
    assert(log_name(path, n + 1) == log_name(path, keep as nat));
    lemma_shifted(next, path, n);
    assert(at(end, path) is None);
    assert forall|k: nat| k < keep implies #[trigger] at(end, log_name(path, k + 1)) == at(
        files,
        log_name(path, k),
    ) by {
        law_log_names_differ(path, k, keep as nat);
        assert(at(next, log_name(path, k)) == at(files, log_name(path, k)));
    }
    assert forall|name: Seq<char>|
        (forall|k: nat| k <= keep ==> name != #[trigger] log_name(path, k)) implies #[trigger] at(
        end,
        name,
    ) == at(files, name) by {
        assert(name != log_name(path, keep as nat));
        assert forall|k: nat| k <= n + 1 implies name != #[trigger] log_name(path, k) by {
            assert(k <= keep);
        }
        assert(at(end, name) == at(next, name));
    }
}

/// A log that is not there, or is no longer than it may be, stays where it is, and so
/// does any log where none are kept. The log itself has its own name, and one that was
/// put aside its number behind a dot.
pub proof fn law_short_logs_stay(path: Seq<char>, size: Option<u64>, max_bytes: u64, keep: u32, n: nat)
    ensures
        size is None || size->0 <= max_bytes || keep == 0 ==> rotation(path, size, max_bytes, keep)
            == Seq::<StepView>::empty(),
        log_name(path, 0) == path,
        n > 0 ==> log_name(path, n) == path + "."@ + number::decimal(n),
{
}

/// Rotating touches no file but the log and those that were put aside: it removes the
/// oldest one first, and only the oldest one.
pub proof fn law_only_the_oldest_log_is_removed(
    path: Seq<char>,
    size: Option<u64>,
    max_bytes: u64,
    keep: u32,
    i: int,
)
    requires
        0 <= i < rotation(path, size, max_bytes, keep).len(),
    ensures
        rotation(path, size, max_bytes, keep)[i] is Remove <==> i == 0,
        rotation(path, size, max_bytes, keep)[0] == StepView::Remove(
            path + "."@ + number::decimal(keep as nat),
        ),
        rotation(path, size, max_bytes, keep).len() == keep + 1,
{
    lemma_shifts_rename(path, (keep - 1) as nat);
    if i > 0 {
        assert(rotation(path, size, max_bytes, keep)[i] == shifts(path, (keep - 1) as nat)[i - 1]);
    }
}

proof fn lemma_shifts_rename(path: Seq<char>, n: nat)
    ensures
        shifts(path, n).len() == n + 1,
        forall|i: int| 0 <= i < shifts(path, n).len() ==> #[trigger] shifts(path, n)[i] is Rename,
    decreases n,
{
    if n > 0 {
        lemma_shifts_rename(path, (n - 1) as nat);
        assert forall|i: int| 0 <= i < shifts(path, n).len() implies #[trigger] shifts(
            path,
            n,
        )[i] is Rename by {
            if i > 0 {
                assert(shifts(path, n)[i] == shifts(path, (n - 1) as nat)[i - 1]);
            }
        }
    }
}

/// The log lies in a folder of its own: beside the program where that can be written,
/// and else below the user's own files, or below the temporary ones.
pub proof fn law_log_lies_beside_the_program_or_with_the_user(
    dir: Seq<char>,
    local: Seq<char>,
    temp: Seq<char>,
    any: Option<Seq<char>>,
)
    ensures
        folder(Some(dir), any, temp) == paths::path_join(dir, "logs"@),
        folder(None, Some(local), temp) == paths::path_join(
            paths::path_join(local, "SpoolCtl"@),
            "logs"@,
        ),
        folder(None, None, temp) == paths::path_join(
            paths::path_join(temp, "SpoolCtl"@),
            "logs"@,
        ),
{
}

// ---------------------------------------------------------------------------
// Values as they are seen

/// A step is seen as what it is, and steps in order.
pub proof fn law_steps_are_seen_as_they_are(a: String, b: String, v: Seq<FileStep>, i: int)
    ensures
        FileStep::Remove(a)@ == StepView::Remove(a@),
        (FileStep::Rename { from: a, to: b })@ == StepView::Rename(a@, b@),
        step_views(v).len() == v.len(),
        0 <= i < v.len() ==> step_views(v)[i] == v[i]@,
{
}

} // verus!
