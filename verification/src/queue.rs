//! The print queue: its files, its printers and their jobs, and what is said about
//! them.

use vstd::prelude::*;
use crate::clock::Nanos;
use crate::control;
use crate::control::{Act, Control, Goal};
use crate::host;
use crate::host::Host;
use crate::lines;
use crate::lines::join_texts;
use crate::number;
use crate::number::push_decimal;
use crate::order;
use crate::order::stable_positions;
use crate::shell;
use crate::shell::shell_result;
use crate::text;
use crate::text::{
    begins_with, chars_of, contains_text, part, string_of, to_ascii_lower, to_ascii_upper,
    to_lowercase,
};
use crate::wide;
use crate::wide::{decode_strict, to_wide};
use crate::win32;
use crate::win32::{is_win32, probe_answered, WinError, ERROR_INSUFFICIENT_BUFFER};

verus! {

/// How many deleted files a report names.
pub const MAX_NAMED_FILES: usize = 12;

/// What deleting the queue files came to. It says nothing about what was in them.
#[derive(Debug, PartialEq, Eq)]
pub struct ClearReport {
    pub directory: String,
    pub deleted: usize,
    /// The names of the first files that were deleted.
    pub deleted_names: Vec<String>,
    pub failed: Vec<String>,
}

/// A report in one line.
pub open spec fn report_summary(
    directory: Seq<char>,
    deleted: nat,
    failed: Seq<Seq<char>>,
) -> Seq<char> {
    if deleted == 0 && failed.len() == 0 {
        "Очередь пуста ("@ + directory + ")"@
    } else if failed.len() == 0 {
        "Удалено файлов: "@ + number::decimal(deleted)
    } else {
        "Удалено: "@ + number::decimal(deleted) + ", ошибок: "@ + number::decimal(failed.len())
            + " ("@ + lines::join(failed, "; "@) + ")"@
    }
}

/// What a report adds about the files that were deleted.
pub open spec fn report_names(deleted: nat, names: Seq<Seq<char>>) -> Seq<char> {
    if names.len() == 0 {
        Seq::empty()
    } else if deleted > names.len() {
        ". Файлы: "@ + lines::join(names, ", "@) + " … ещё "@ + number::decimal(
            (deleted - names.len()) as nat,
        )
    } else {
        ". Файлы: "@ + lines::join(names, ", "@)
    }
}

impl ClearReport {
    /// The report in one line.
    pub fn summary_ru(&self) -> (r: String)
        ensures
            r@ == report_summary(
                self.directory@,
                self.deleted as nat,
                text::texts(self.failed@),
            ),
    {
        if self.deleted == 0 && self.failed.len() == 0 {
            let mut s = "Очередь пуста (".to_owned();
            s.append(self.directory.as_str());
            s.append(")");
            s
        } else if self.failed.len() == 0 {
            let mut s = "Удалено файлов: ".to_owned();
            push_decimal(&mut s, self.deleted as u128);
            s
        } else {
            let mut s = "Удалено: ".to_owned();
            push_decimal(&mut s, self.deleted as u128);
            s.append(", ошибок: ");
            push_decimal(&mut s, self.failed.len() as u128);
            s.append(" (");
            s.append(join_texts(self.failed.as_slice(), "; ").as_str());
            s.append(")");
            s
        }
    }

    /// The report with the names of the deleted files.
    pub fn detail_ru(&self) -> (r: String)
        ensures
            r@ == report_summary(
                self.directory@,
                self.deleted as nat,
                text::texts(self.failed@),
            ) + report_names(self.deleted as nat, text::texts(self.deleted_names@)),
    {
        let mut s = self.summary_ru();
        let ghost summary = s@;
        if self.deleted_names.len() > 0 {
            let mut tail = ". Файлы: ".to_owned();
            tail.append(join_texts(self.deleted_names.as_slice(), ", ").as_str());
            if self.deleted > self.deleted_names.len() {
                tail.append(" … ещё ");
                push_decimal(&mut tail, (self.deleted - self.deleted_names.len()) as u128);
            }
            s.append(tail.as_str());
        } else {
            assert(summary =~= summary + Seq::<char>::empty());
        }
        s
    }
}

// ---------------------------------------------------------------------------
// The queue folder

/// What the path of the queue folder leads to.
#[derive(Debug, PartialEq, Eq)]
pub enum Folder {
    Missing,
    NotFolder,
    /// A folder that cannot be listed, and why.
    Unreadable(String),
    Readable,
}

/// Whether there is anything to list below `dir`, or why that cannot be said.
pub open spec fn folder_check(dir: Seq<char>, folder: Folder) -> Result<bool, Seq<char>> {
    match folder {
        Folder::Missing => Ok(false),
        Folder::NotFolder => Err("Путь очереди не является папкой: "@ + dir),
        Folder::Unreadable(error) => Err("Не удалось прочитать "@ + dir + ": "@ + error@),
        Folder::Readable => Ok(true),
    }
}

fn check_folder(dir: &str, folder: &Folder) -> (r: Result<bool, String>)
    ensures
        match r {
            Ok(b) => folder_check(dir@, *folder) == Ok::<bool, Seq<char>>(b),
            Err(e) => folder_check(dir@, *folder) == Err::<bool, Seq<char>>(e@),
        },
{
    match folder {
        Folder::Missing => Ok(false),
        Folder::NotFolder => {
            let mut e = "Путь очереди не является папкой: ".to_owned();
            e.append(dir);
            Err(e)
        },
        Folder::Unreadable(error) => {
            let mut e = "Не удалось прочитать ".to_owned();
            e.append(dir);
            e.append(": ");
            e.append(error.as_str());
            Err(e)
        },
        Folder::Readable => Ok(true),
    }
}

/// How many of the entries of a folder are files. An entry of which nothing could
/// be learned is `None`; of any other it is known whether it is a file.
pub open spec fn file_entries(entries: Seq<Option<bool>>) -> nat
    decreases entries.len(),
{
    if entries.len() == 0 {
        0
    } else {
        file_entries(entries.drop_last()) + if entries.last() == Some(true) {
            1nat
        } else {
            0nat
        }
    }
}

/// How many files there are in the folder `dir`.
pub open spec fn count_in(
    dir: Seq<char>,
    folder: Folder,
    entries: Seq<Option<bool>>,
) -> Result<nat, Seq<char>> {
    match folder_check(dir, folder) {
        Ok(true) => Ok(file_entries(entries)),
        Ok(false) => Ok(0),
        Err(e) => Err(e),
    }
}

/// A count, or why there is none.
pub open spec fn count_result(r: Result<usize, String>) -> Result<nat, Seq<char>> {
    match r {
        Ok(n) => Ok(n as nat),
        Err(e) => Err(e@),
    }
}

/// Counts the files in the folder `dir`; folders in it do not count.
pub fn count_files_in(dir: &str, folder: &Folder, entries: &Vec<Option<bool>>) -> (r: Result<
    usize,
    String,
>)
    ensures
        count_result(r) == count_in(dir@, *folder, entries@),
{
    match check_folder(dir, folder) {
        Err(e) => Err(e),
        Ok(false) => Ok(0),
        Ok(true) => {
            let mut count: usize = 0;
            for i in 0..entries.len()
                invariant
                    count == file_entries(entries@.take(i as int)),
                    count <= i,
            {
                assert(entries@.take(i + 1).drop_last() =~= entries@.take(i as int));
                if let Some(true) = entries[i] {
                    count += 1;
                }
            }
            assert(entries@.take(entries.len() as int) =~= entries@);
            Ok(count)
        },
    }
}

/// The name by which a file is spoken of: the last part of its path, or the whole
/// path where it has none.
pub fn file_label(name: Option<&str>, path: &str) -> (r: String)
    ensures
        r@ == match name {
            Some(n) => n@,
            None => path@,
        },
{
    match name {
        Some(n) => n.to_owned(),
        None => path.to_owned(),
    }
}

/// What one entry of the queue folder turned out to be.
#[derive(Debug, PartialEq, Eq)]
pub enum Found {
    /// The entry could not be read.
    Unread { error: String },
    /// Nothing is known of the entry but its name.
    Unknown { name: String, error: String },
    Folder,
    File { name: String },
}

/// What became of one entry of the queue folder.
#[derive(Debug, PartialEq, Eq)]
pub enum Outcome {
    /// It was left alone.
    Left,
    Deleted { name: String },
    Failed { error: String },
}

/// What to do about an entry.
#[derive(Debug, PartialEq, Eq)]
pub enum Verdict {
    /// Delete the file of this name.
    Delete { name: String },
    /// Delete nothing.
    Settled(Outcome),
}

/// An outcome as a value of its own.
pub enum OutcomeView {
    Left,
    Deleted(Seq<char>),
    Failed(Seq<char>),
}

impl View for Outcome {
    type V = OutcomeView;

    open spec fn view(&self) -> OutcomeView {
        match self {
            Outcome::Left => OutcomeView::Left,
            Outcome::Deleted { name } => OutcomeView::Deleted(name@),
            Outcome::Failed { error } => OutcomeView::Failed(error@),
        }
    }
}

/// Decides about an entry: files are deleted, folders are left alone, and whatever
/// else there is, is a failure.
pub fn judge(found: Found) -> (r: Verdict)
    ensures
        match found {
            Found::File { name } => r is Delete && r->name@ == name@,
            Found::Folder => r is Settled && r->Settled_0@ == OutcomeView::Left,
            Found::Unread { error } => r is Settled && r->Settled_0@ == OutcomeView::Failed(
                "чтение записи: "@ + error@,
            ),
            Found::Unknown { name, error } => r is Settled && r->Settled_0@ == OutcomeView::Failed(
                name@ + ": "@ + error@,
            ),
        },
{
    match found {
        Found::File { name } => Verdict::Delete { name },
        Found::Folder => Verdict::Settled(Outcome::Left),
        Found::Unread { error } => {
            let mut e = "чтение записи: ".to_owned();
            e.append(error.as_str());
            Verdict::Settled(Outcome::Failed { error: e })
        },
        Found::Unknown { name, error } => {
            let mut e = name.as_str().to_owned();
            e.append(": ");
            e.append(error.as_str());
            Verdict::Settled(Outcome::Failed { error: e })
        },
    }
}

/// What became of a file that was to be deleted.
pub fn deletion(name: String, result: Result<(), String>) -> (r: Outcome)
    ensures
        r@ == match result {
            Ok(()) => OutcomeView::Deleted(name@),
            Err(error) => OutcomeView::Failed(name@ + ": "@ + error@),
        },
{
    match result {
        Ok(()) => Outcome::Deleted { name },
        Err(error) => {
            let mut e = name.as_str().to_owned();
            e.append(": ");
            e.append(error.as_str());
            Outcome::Failed { error: e }
        },
    }
}

/// The names of the files that were deleted, in order.
pub open spec fn deleted_in(outcomes: Seq<Outcome>) -> Seq<Seq<char>>
    decreases outcomes.len(),
{
    if outcomes.len() == 0 {
        seq![]
    } else {
        let before = deleted_in(outcomes.drop_last());
        match outcomes.last()@ {
            OutcomeView::Deleted(name) => before.push(name),
            _ => before,
        }
    }
}

/// The failures, in order.
pub open spec fn failures_in(outcomes: Seq<Outcome>) -> Seq<Seq<char>>
    decreases outcomes.len(),
{
    if outcomes.len() == 0 {
        seq![]
    } else {
        let before = failures_in(outcomes.drop_last());
        match outcomes.last()@ {
            OutcomeView::Failed(error) => before.push(error),
            _ => before,
        }
    }
}

/// The first of a list, at most `n` of them.
pub open spec fn first(s: Seq<Seq<char>>, n: nat) -> Seq<Seq<char>> {
    if s.len() <= n {
        s
    } else {
        s.take(n as int)
    }
}

/// The report says what became of the entries of the folder `dir`.
pub open spec fn reports(
    r: Result<ClearReport, String>,
    dir: Seq<char>,
    folder: Folder,
    outcomes: Seq<Outcome>,
) -> bool {
    match folder_check(dir, folder) {
        Err(e) => r is Err && r->Err_0@ == e,
        Ok(listed) => {
            let gone = if listed {
                deleted_in(outcomes)
            } else {
                seq![]
            };
            let failed = if listed {
                failures_in(outcomes)
            } else {
                seq![]
            };
            &&& r is Ok
            &&& r->Ok_0.directory@ == dir
            &&& r->Ok_0.deleted == gone.len()
            &&& text::texts(r->Ok_0.deleted_names@) == first(gone, MAX_NAMED_FILES as nat)
            &&& text::texts(r->Ok_0.failed@) == failed
        },
    }
}

/// Sums up what became of the entries of the folder `dir`.
pub fn clear_queue_files(dir: &str, folder: &Folder, outcomes: &Vec<Outcome>) -> (r: Result<
    ClearReport,
    String,
>)
    ensures
        reports(r, dir@, *folder, outcomes@),
{
    let mut deleted: usize = 0;
    let mut deleted_names: Vec<String> = Vec::new();
    let mut failed: Vec<String> = Vec::new();
    match check_folder(dir, folder) {
        Err(e) => {
            return Err(e);
        },
        Ok(false) => {
            assert(text::texts(deleted_names@) =~= seq![]);
            assert(text::texts(failed@) =~= seq![]);
        },
        Ok(true) => {
            assert(text::texts(deleted_names@) =~= seq![]);
            assert(text::texts(failed@) =~= seq![]);
            for i in 0..outcomes.len()
                invariant
                    deleted == deleted_in(outcomes@.take(i as int)).len(),
                    deleted <= i,
                    text::texts(deleted_names@) == first(
                        deleted_in(outcomes@.take(i as int)),
                        MAX_NAMED_FILES as nat,
                    ),
                    text::texts(failed@) == failures_in(outcomes@.take(i as int)),
            {
                let ghost gone = deleted_in(outcomes@.take(i as int));
                let ghost names = text::texts(deleted_names@);
                let ghost errors = text::texts(failed@);
                assert(outcomes@.take(i + 1).drop_last() =~= outcomes@.take(i as int));
                assert(names.len() == deleted_names@.len());
                match &outcomes[i] {
                    Outcome::Left => {},
                    Outcome::Deleted { name } => {
                        deleted += 1;
                        if deleted_names.len() < MAX_NAMED_FILES {
                            deleted_names.push(name.as_str().to_owned());
                            assert(text::texts(deleted_names@) =~= names.push(name@));
                        } else {
                            assert(first(gone.push(name@), MAX_NAMED_FILES as nat) =~= names);
                        }
                    },
                    Outcome::Failed { error } => {
                        failed.push(error.as_str().to_owned());
                        assert(text::texts(failed@) =~= errors.push(error@));
                    },
                }
            }
            assert(outcomes@.take(outcomes.len() as int) =~= outcomes@);
        },
    }
    Ok(ClearReport { directory: dir.to_owned(), deleted, deleted_names, failed })
}

/// How many of the entries were left alone.
pub open spec fn left_alone(outcomes: Seq<Outcome>) -> nat
    decreases outcomes.len(),
{
    if outcomes.len() == 0 {
        0
    } else {
        left_alone(outcomes.drop_last()) + if outcomes.last() is Left {
            1nat
        } else {
            0nat
        }
    }
}

/// Whatever is found in the queue folder is deleted, has failed, or was left alone,
/// and is counted once.
pub proof fn law_every_entry_is_accounted_for(outcomes: Seq<Outcome>)
    ensures
        deleted_in(outcomes).len() + failures_in(outcomes).len() + left_alone(outcomes)
            == outcomes.len(),
    decreases outcomes.len(),
{
    if outcomes.len() > 0 {
        law_every_entry_is_accounted_for(outcomes.drop_last());
    }
}

/// A report counts every file that was deleted and names the first twelve, and tells
/// every failure, in order; and nothing else is in it.
pub proof fn law_report_tells_every_outcome(a: Seq<Outcome>, b: Seq<Outcome>, o: Outcome)
    ensures
        deleted_in(Seq::<Outcome>::empty()) == Seq::<Seq<char>>::empty(),
        failures_in(Seq::<Outcome>::empty()) == Seq::<Seq<char>>::empty(),
        deleted_in(a + b) == deleted_in(a) + deleted_in(b),
        failures_in(a + b) == failures_in(a) + failures_in(b),
        deleted_in(seq![o]) == match o {
            Outcome::Deleted { name } => seq![name@],
            _ => Seq::<Seq<char>>::empty(),
        },
        failures_in(seq![o]) == match o {
            Outcome::Failed { error } => seq![error@],
            _ => Seq::<Seq<char>>::empty(),
        },
    decreases b.len(),
{
    assert(seq![o].drop_last() =~= Seq::<Outcome>::empty());
    reveal_with_fuel(deleted_in, 2);
    reveal_with_fuel(failures_in, 2);
    assert(deleted_in(seq![o]) =~= match o {
        Outcome::Deleted { name } => seq![name@],
        _ => Seq::<Seq<char>>::empty(),
    });
    assert(failures_in(seq![o]) =~= match o {
        Outcome::Failed { error } => seq![error@],
        _ => Seq::<Seq<char>>::empty(),
    });
    if b.len() == 0 {
        assert(a + b =~= a);
        assert(deleted_in(a) + deleted_in(b) =~= deleted_in(a));
        assert(failures_in(a) + failures_in(b) =~= failures_in(a));
    } else {
        law_report_tells_every_outcome(a, b.drop_last(), o);
        assert((a + b).drop_last() =~= a + b.drop_last());
        assert((a + b).last() == b.last());
        assert(deleted_in(a + b) =~= deleted_in(a) + deleted_in(b));
        assert(failures_in(a + b) =~= failures_in(a) + failures_in(b));
    }
}

/// The report of a folder that could be listed holds what became of its entries; that
/// of a folder that is missing is empty; and what is no folder, or cannot be listed,
/// is a failure.
pub proof fn law_report_follows_the_folder(
    r: Result<ClearReport, String>,
    dir: Seq<char>,
    folder: Folder,
    outcomes: Seq<Outcome>,
)
    requires
        reports(r, dir, folder, outcomes),
    ensures
        folder is Readable ==> {
            &&& r is Ok
            &&& r->Ok_0.directory@ == dir
            &&& r->Ok_0.deleted == deleted_in(outcomes).len()
            &&& text::texts(r->Ok_0.failed@) == failures_in(outcomes)
            &&& deleted_in(outcomes).len() <= 12 ==> text::texts(r->Ok_0.deleted_names@)
                == deleted_in(outcomes)
            &&& deleted_in(outcomes).len() > 12 ==> text::texts(r->Ok_0.deleted_names@)
                == deleted_in(outcomes).take(12)
        },
        folder is Missing ==> {
            &&& r is Ok
            &&& r->Ok_0.directory@ == dir
            &&& r->Ok_0.deleted == 0
            &&& text::texts(r->Ok_0.deleted_names@).len() == 0
            &&& text::texts(r->Ok_0.failed@).len() == 0
        },
        folder is NotFolder ==> r is Err && r->Err_0@ == "Путь очереди не является папкой: "@
            + dir,
        folder is Unreadable ==> r is Err && r->Err_0@ == "Не удалось прочитать "@ + dir + ": "@
            + folder->Unreadable_0@,
{
}

/// The files of a folder that can be listed are counted, and nothing else in it; a
/// folder that is missing holds none; and what is no folder, or cannot be listed, is a
/// failure.
pub proof fn law_only_files_are_counted(
    dir: Seq<char>,
    folder: Folder,
    a: Seq<Option<bool>>,
    b: Seq<Option<bool>>,
)
    ensures
        file_entries(Seq::<Option<bool>>::empty()) == 0,
        file_entries(seq![Some(true)]) == 1,
        file_entries(seq![Some(false)]) == 0,
        file_entries(seq![None::<bool>]) == 0,
        file_entries(a + b) == file_entries(a) + file_entries(b),
        folder is Readable ==> count_in(dir, folder, a) == Ok::<nat, Seq<char>>(file_entries(a)),
        folder is Missing ==> count_in(dir, folder, a) == Ok::<nat, Seq<char>>(0),
        folder is NotFolder ==> count_in(dir, folder, a) == Err::<nat, Seq<char>>(
            "Путь очереди не является папкой: "@ + dir,
        ),
        folder is Unreadable ==> count_in(dir, folder, a) == Err::<nat, Seq<char>>(
            "Не удалось прочитать "@ + dir + ": "@ + folder->Unreadable_0@,
        ),
    decreases b.len(),
{
    reveal_with_fuel(file_entries, 2);
    assert(seq![Some(true)].drop_last() =~= Seq::<Option<bool>>::empty());
    assert(seq![Some(false)].drop_last() =~= Seq::<Option<bool>>::empty());
    assert(seq![None::<bool>].drop_last() =~= Seq::<Option<bool>>::empty());
    if b.len() == 0 {
        assert(a + b =~= a);
    } else {
        law_only_files_are_counted(dir, folder, a, b.drop_last());
        assert((a + b).drop_last() =~= a + b.drop_last());
        assert((a + b).last() == b.last());
    }
}

/// A report says that the queue was empty only where nothing was deleted and nothing
/// has failed; else it says how many files were deleted, and how many failures there
/// were and which. It names deleted files where it has names, and says how many more
/// there were.
pub proof fn law_report_says_its_numbers(
    dir: Seq<char>,
    deleted: nat,
    names: Seq<Seq<char>>,
    failed: Seq<Seq<char>>,
)
    ensures
        deleted == 0 && failed.len() == 0 ==> report_summary(dir, deleted, failed)
            == "Очередь пуста ("@ + dir + ")"@,
        deleted > 0 && failed.len() == 0 ==> report_summary(dir, deleted, failed)
            == "Удалено файлов: "@ + number::decimal(deleted),
        failed.len() > 0 ==> report_summary(dir, deleted, failed) == "Удалено: "@ + number::decimal(
            deleted,
        ) + ", ошибок: "@ + number::decimal(failed.len()) + " ("@ + lines::join(failed, "; "@)
            + ")"@,
        names.len() == 0 ==> report_names(deleted, names).len() == 0,
        names.len() > 0 && deleted <= names.len() ==> report_names(deleted, names)
            == ". Файлы: "@ + lines::join(names, ", "@),
        names.len() > 0 && deleted > names.len() ==> report_names(deleted, names) == ". Файлы: "@
            + lines::join(names, ", "@) + " … ещё "@ + number::decimal(
            (deleted - names.len()) as nat,
        ),
{
}

// ---------------------------------------------------------------------------
// Printers

/// An installed printer and the number of its jobs.
#[derive(Debug, PartialEq, Eq)]
pub struct PrinterEntry {
    pub name: String,
    pub jobs: usize,
    /// Whether the printer is reached over the network.
    pub network: bool,
    /// The IPv4 address, where the port or the printer is named after it.
    pub ip: Option<String>,
    /// A short name for the port.
    pub port_hint: Option<String>,
}

/// A printer as a value of its own.
#[verifier::ext_equal]
pub struct PrinterView {
    pub name: Seq<char>,
    pub jobs: nat,
    pub network: bool,
    pub ip: Option<Seq<char>>,
    pub port_hint: Option<Seq<char>>,
}

impl View for PrinterEntry {
    type V = PrinterView;

    open spec fn view(&self) -> PrinterView {
        PrinterView {
            name: self.name@,
            jobs: self.jobs as nat,
            network: self.network,
            ip: text::opt_text(self.ip),
            port_hint: text::opt_text(self.port_hint),
        }
    }
}

impl Clone for PrinterEntry {
    fn clone(&self) -> (r: Self)
        ensures
            r@ == self@,
    {
        PrinterEntry {
            name: self.name.as_str().to_owned(),
            jobs: self.jobs,
            network: self.network,
            ip: copy_option(&self.ip),
            port_hint: copy_option(&self.port_hint),
        }
    }
}

fn copy_option(o: &Option<String>) -> (r: Option<String>)
    ensures
        text::opt_text(r) == text::opt_text(*o),
{
    match o {
        Some(s) => Some(s.as_str().to_owned()),
        None => None,
    }
}

/// Printers as values of their own.
pub open spec fn views(v: Seq<PrinterEntry>) -> Seq<PrinterView> {
    Seq::new(v.len(), |i: int| v[i]@)
}

/// Whether a printer is local, in words.
pub open spec fn kind(network: bool) -> Seq<char> {
    if network {
        "сеть"@
    } else {
        "локальный"@
    }
}

/// A number of jobs in words: the noun follows the number as Russian wants it.
pub open spec fn jobs_words(n: nat) -> Seq<char> {
    number::decimal(n) + if 11 <= n % 100 <= 14 {
        " заданий"@
    } else if n % 10 == 1 {
        " задание"@
    } else if 2 <= n % 10 <= 4 {
        " задания"@
    } else {
        " заданий"@
    }
}

/// Where a printer is found, in words.
pub open spec fn printer_meta(p: PrinterView) -> Seq<char> {
    match (p.ip, p.port_hint) {
        (Some(ip), _) => kind(p.network) + " · "@ + ip,
        (None, Some(hint)) => if p.network {
            kind(p.network) + " · "@ + hint + " (IP в порте нет)"@
        } else {
            kind(p.network) + " · "@ + hint
        },
        (None, None) => kind(p.network),
    }
}

/// A number of jobs in words.
pub fn jobs_phrase(n: usize) -> (r: String)
    ensures
        r@ == jobs_words(n as nat),
{
    let mut s = String::new();
    push_decimal(&mut s, n as u128);
    assert(s@ =~= number::decimal(n as nat));
    let n10 = n % 10;
    let n100 = n % 100;
    if 11 <= n100 && n100 <= 14 {
        s.append(" заданий");
    } else if n10 == 1 {
        s.append(" задание");
    } else if 2 <= n10 && n10 <= 4 {
        s.append(" задания");
    } else {
        s.append(" заданий");
    }
    s
}

/// Two numbers with the same last two digits take the same form of the noun.
pub proof fn law_jobs_noun_follows_the_last_digits(a: nat, b: nat)
    requires
        a % 100 == b % 100,
    ensures
        jobs_words(a).skip(number::decimal(a).len() as int) == jobs_words(b).skip(
            number::decimal(b).len() as int,
        ),
{
    let noun = if 11 <= a % 100 <= 14 {
        " заданий"@
    } else if a % 10 == 1 {
        " задание"@
    } else if 2 <= a % 10 <= 4 {
        " задания"@
    } else {
        " заданий"@
    };
    assert(a % 10 == b % 10);
    assert(jobs_words(a) == number::decimal(a) + noun);
    assert(jobs_words(b) == number::decimal(b) + noun);
    assert(jobs_words(a).skip(number::decimal(a).len() as int) =~= noun);
    assert(jobs_words(b).skip(number::decimal(b).len() as int) =~= noun);
}

/// The noun follows the number as Russian wants it.
pub proof fn law_jobs_are_counted_in_russian(n: nat)
    ensures
        n % 10 == 1 && n % 100 != 11 ==> jobs_words(n) == number::decimal(n) + " задание"@,
        (n % 10 == 2 || n % 10 == 3 || n % 10 == 4) && !(12 <= n % 100 <= 14) ==> jobs_words(n)
            == number::decimal(n) + " задания"@,
        n % 10 == 0 || n % 10 >= 5 || 11 <= n % 100 <= 14 ==> jobs_words(n) == number::decimal(n)
            + " заданий"@,
{
}

/// What is said of a printer: whether it is in the network, and its address; without
/// one, the short name of its port, and in the network that the port has no address.
pub proof fn law_printer_is_said_with_its_place(p: PrinterView)
    ensures
        ({
            let kind = if p.network {
                "сеть"@
            } else {
                "локальный"@
            };
            &&& p.ip is Some ==> printer_meta(p) == kind + " · "@ + p.ip->0
            &&& p.ip is None && p.port_hint is Some && p.network ==> printer_meta(p) == kind
                + " · "@ + p.port_hint->0 + " (IP в порте нет)"@
            &&& p.ip is None && p.port_hint is Some && !p.network ==> printer_meta(p) == kind
                + " · "@ + p.port_hint->0
            &&& p.ip is None && p.port_hint is None ==> printer_meta(p) == kind
        }),
{
}

impl PrinterEntry {
    /// Whether the printer is local, in words.
    pub fn kind_ru(&self) -> (r: &'static str)
        ensures
            r@ == kind(self.network),
    {
        if self.network {
            "сеть"
        } else {
            "локальный"
        }
    }

    /// Where the printer is found, in words.
    pub fn meta_ru(&self) -> (r: String)
        ensures
            r@ == printer_meta(self@),
    {
        let mut s = self.kind_ru().to_owned();
        if let Some(ip) = &self.ip {
            s.append(" · ");
            s.append(ip.as_str());
        } else if let Some(hint) = &self.port_hint {
            s.append(" · ");
            s.append(hint.as_str());
            if self.network {
                s.append(" (IP в порте нет)");
            }
        }
        s
    }

    /// The printer and its jobs in one line.
    pub fn line_ru(&self) -> (r: String)
        ensures
            r@ == self.name@ + " — "@ + printer_meta(self@) + " — "@ + jobs_words(
                self.jobs as nat,
            ),
    {
        let mut s = self.name.as_str().to_owned();
        s.append(" — ");
        s.append(self.meta_ru().as_str());
        s.append(" — ");
        s.append(jobs_phrase(self.jobs).as_str());
        s
    }
}

// ---------------------------------------------------------------------------
// Ports and addresses

/// A character that may stand in an IPv4 address.
pub open spec fn ip_char(c: char) -> bool {
    number::is_digit(c) || c == '.'
}

/// The characters that end an address.
pub open spec fn not_ip_char() -> spec_fn(char) -> bool {
    |c: char| !ip_char(c)
}

/// A number written in digits, and no more than 255.
pub open spec fn is_byte(digits: Seq<char>) -> bool {
    &&& digits.len() > 0
    &&& forall|i: int| 0 <= i < digits.len() ==> number::is_digit(#[trigger] digits[i])
    &&& number::digits_value(digits) <= 255
}

/// One of the four numbers of an address: up to three characters, among them at
/// most one plus sign, in front.
pub open spec fn is_octet(s: Seq<char>) -> bool {
    s.len() <= 3 && if s.len() > 0 && s[0] == '+' {
        is_byte(s.skip(1))
    } else {
        is_byte(s)
    }
}

/// An IPv4 address: four numbers with dots between them.
pub open spec fn is_ipv4(s: Seq<char>) -> bool {
    let parts = text::split(s, text::only('.'));
    parts.len() == 4 && is_octet(parts[0]) && is_octet(parts[1]) && is_octet(parts[2])
        && is_octet(parts[3])
}

/// The first of the texts that is an IPv4 address.
pub open spec fn first_ipv4(parts: Seq<Seq<char>>) -> Option<Seq<char>>
    decreases parts.len(),
{
    if parts.len() == 0 {
        None
    } else if is_ipv4(parts[0]) {
        Some(parts[0])
    } else {
        first_ipv4(parts.drop_first())
    }
}

/// The first IPv4 address in a text: the first of the runs of digits and dots that
/// is one.
pub open spec fn ipv4_in(s: Seq<char>) -> Option<Seq<char>> {
    first_ipv4(text::split(s, not_ip_char()))
}

fn octet(v: &Vec<char>) -> (r: bool)
    ensures
        r == is_octet(v@),
{
    let from: usize = if v.len() > 0 && v[0] == '+' {
        1
    } else {
        0
    };
    if v.len() > 3 || v.len() == from {
        return false;
    }
    let ghost digits = v@.skip(from as int);
    proof {
        if from == 0 {
            assert(digits =~= v@);
        }
    }
    let mut value: u32 = 0;
    let mut i: usize = from;
    while i < v.len()
        invariant
            from <= 1,
            from <= i <= v.len() <= 3,
            digits == v@.skip(from as int),
            from == 1 <==> v@[0] == '+',
            from == 0 ==> digits == v@,
            forall|k: int| 0 <= k < i - from ==> number::is_digit(#[trigger] digits[k]),
            value == number::digits_value(digits.take(i - from)),
            i == 0 ==> value == 0,
            i == 1 ==> value <= 9,
            i == 2 ==> value <= 99,
            i == 3 ==> value <= 999,
        decreases v.len() - i,
    {
        let c = v[i];
        assert(c == digits[i - from]);
        if !('0' <= c && c <= '9') {
            assert(!number::is_digit(digits[i - from]));
            return false;
        }
        assert(digits.take(i + 1 - from).drop_last() =~= digits.take(i - from));
        value = value * 10 + (c as u32 - 48);
        i += 1;
    }
    assert(digits.take(v.len() - from) =~= digits);
    value <= 255
}

/// Whether `s` is an IPv4 address.
pub fn is_valid_ipv4(s: &str) -> (r: bool)
    ensures
        r == is_ipv4(s@),
{
    ipv4_chars(&chars_of(s))
}

fn ipv4_chars(v: &Vec<char>) -> (r: bool)
    ensures
        r == is_ipv4(v@),
{
    let parts = text::split_chars(v, '.');
    parts.len() == 4 && octet(&parts[0]) && octet(&parts[1]) && octet(&parts[2]) && octet(
        &parts[3],
    )
}

fn end_of_address(v: &Vec<char>) -> (r: usize)
    ensures
        r == text::first_in(v@, not_ip_char()),
        r <= v.len(),
{
    let mut i: usize = 0;
    while i < v.len() && ('0' <= v[i] && v[i] <= '9' || v[i] == '.')
        invariant
            i <= v.len(),
            forall|j: int| 0 <= j < i ==> !not_ip_char()(#[trigger] v@[j]),
        decreases v.len() - i,
    {
        i += 1;
    }
    proof {
        text::lemma_first_in_is(v@, not_ip_char(), i as int);
    }
    i
}

/// The first IPv4 address in `s`.
pub fn extract_ipv4(s: &str) -> (r: Option<String>)
    ensures
        text::opt_text(r) == ipv4_in(s@),
{
    let mut rest = chars_of(s);
    loop
        invariant
            ipv4_in(rest@) == ipv4_in(s@),
        decreases rest.len(),
    {
        let ghost all = rest@;
        let k = end_of_address(&rest);
        let token = part(&rest, 0, k);
        proof {
            assert(token@ =~= all.take(k as int));
            if k == all.len() {
                assert(token@ =~= all);
                assert(text::split(all, not_ip_char()).drop_first() =~= Seq::<Seq<char>>::empty());
                assert(first_ipv4(Seq::<Seq<char>>::empty()) is None);
            } else {
                assert(text::split(all, not_ip_char()).drop_first() =~= text::split(
                    all.skip(k + 1),
                    not_ip_char(),
                ));
            }
            assert(text::split(all, not_ip_char())[0] == token@);
        }
        if ipv4_chars(&token) {
            return Some(string_of(&token));
        }
        if k == rest.len() {
            return None;
        }
        rest = part(&rest, k + 1, rest.len());
        assert(rest@ =~= all.skip(k + 1));
    }
}

/// The port belongs to a printer at this machine, or to none at all.
pub open spec fn local_port(upper: Seq<char>, name: Seq<char>) -> bool {
    text::begins(upper, "USB"@) || text::begins(upper, "DOT4"@) || text::begins(upper, "LPT"@)
        || text::begins(upper, "COM"@) || text::begins(upper, "FILE"@) || text::begins(
        upper,
        "PORTPROMPT"@,
    ) || text::begins(upper, "NUL"@) || text::begins(upper, "SHRFAX"@) || text::begins(
        upper,
        "XPSSPOOL"@,
    ) || text::has(upper, "DOCUMENT WRITER"@) || text::has(upper, "PDF"@) || text::has(
        upper,
        "ONENOTE"@,
    ) || text::begins(upper, "TS"@) || (upper.len() == 0 && virtual_name(name))
}

/// The port belongs to a printer in the network.
pub open spec fn network_port(upper: Seq<char>) -> bool {
    text::begins(upper, "IP_"@) || text::begins(upper, "WSD"@) || text::has(upper, "IPP"@)
        || text::begins(upper, "\\\\"@) || text::has(upper, "TCP"@) || text::begins(
        upper,
        "HTTP"@,
    ) || text::begins(upper, "SMB"@) || text::has(upper, "NETWORK"@)
}

/// The name is that of a printer that prints on no paper.
pub open spec fn virtual_name(name: Seq<char>) -> bool {
    let lower = text::ascii_lower(name);
    text::has(lower, "rustdesk"@) || text::has(lower, "anydesk"@) || text::has(lower, "onenote"@)
        || text::has(lower, "pdf"@) || text::has(lower, "xps"@) || text::has(lower, "fax"@)
        || text::has(lower, "microsoft print to"@)
}

/// A short name for a port.
pub open spec fn hint_for(port: Seq<char>) -> Option<Seq<char>> {
    let upper = text::ascii_upper(port);
    if port.len() == 0 {
        None
    } else if text::begins(upper, "WSD"@) {
        Some("WSD"@)
    } else if text::has(upper, "IPP"@) {
        Some("IPP"@)
    } else if (text::begins(port, "IP_"@) || text::begins(port, "ip_"@)) && ipv4_in(port) is Some {
        Some("TCP/IP"@)
    } else if text::begins(upper, "USB"@) {
        Some("USB"@)
    } else if port.len() <= 24 {
        Some(port)
    } else {
        Some(port.take(20) + "…"@)
    }
}

/// The address of a printer: that of its port, or else the one in its name.
pub open spec fn address(name: Seq<char>, port: Seq<char>) -> Option<Seq<char>> {
    match ipv4_in(port) {
        Some(ip) => Some(ip),
        None => ipv4_in(name),
    }
}

/// The text, or an empty one where there is none.
pub open spec fn or_empty(port: Option<Seq<char>>) -> Seq<char> {
    match port {
        Some(p) => p,
        None => Seq::empty(),
    }
}

/// Whether a printer is in the network, its address, and a short name for its port.
/// The port tells more than the network attribute, which has the last word only
/// where the port is not plainly a local one.
pub open spec fn classify(name: Seq<char>, port: Option<Seq<char>>, attr_network: bool) -> (
    bool,
    Option<Seq<char>>,
    Option<Seq<char>>,
) {
    let p = or_empty(port);
    let upper = text::ascii_upper(p);
    let ip = address(name, p);
    if local_port(upper, name) && ip is None && !text::begins(upper, "\\\\"@) {
        (false, None, hint_for(p))
    } else if attr_network || ip is Some || network_port(upper) {
        (true, ip, hint_for(p))
    } else {
        (false, None, hint_for(p))
    }
}

/// Whether the name is that of a printer that prints on no paper.
pub fn looks_like_virtual_printer(name: &str) -> (r: bool)
    ensures
        r == virtual_name(name@),
{
    let lower = to_ascii_lower(name);
    contains_text(&lower, "rustdesk") || contains_text(&lower, "anydesk") || contains_text(
        &lower,
        "onenote",
    ) || contains_text(&lower, "pdf") || contains_text(&lower, "xps") || contains_text(
        &lower,
        "fax",
    ) || contains_text(&lower, "microsoft print to")
}

/// A short name for a port.
pub fn port_hint_from(port: &str) -> (r: Option<String>)
    ensures
        text::opt_text(r) == hint_for(port@),
{
    let chars = chars_of(port);
    if chars.len() == 0 {
        return None;
    }
    let upper = to_ascii_upper(port);
    if begins_with(&upper, "WSD") {
        return Some("WSD".to_owned());
    }
    if contains_text(&upper, "IPP") {
        return Some("IPP".to_owned());
    }
    if (begins_with(&chars, "IP_") || begins_with(&chars, "ip_")) && extract_ipv4(port).is_some() {
        return Some("TCP/IP".to_owned());
    }
    if begins_with(&upper, "USB") {
        return Some("USB".to_owned());
    }
    if chars.len() <= 24 {
        Some(port.to_owned())
    } else {
        let mut s = string_of(&part(&chars, 0, 20));
        assert(s@ =~= port@.take(20));
        s.append("…");
        Some(s)
    }
}

fn is_local_port(upper: &Vec<char>, name: &str) -> (r: bool)
    ensures
        r == local_port(upper@, name@),
{
    begins_with(upper, "USB") || begins_with(upper, "DOT4") || begins_with(upper, "LPT")
        || begins_with(upper, "COM") || begins_with(upper, "FILE") || begins_with(
        upper,
        "PORTPROMPT",
    ) || begins_with(upper, "NUL") || begins_with(upper, "SHRFAX") || begins_with(
        upper,
        "XPSSPOOL",
    ) || contains_text(upper, "DOCUMENT WRITER") || contains_text(upper, "PDF") || contains_text(
        upper,
        "ONENOTE",
    ) || begins_with(upper, "TS") || (upper.len() == 0 && looks_like_virtual_printer(name))
}

fn is_network_port(upper: &Vec<char>) -> (r: bool)
    ensures
        r == network_port(upper@),
{
    begins_with(upper, "IP_") || begins_with(upper, "WSD") || contains_text(upper, "IPP")
        || begins_with(upper, "\\\\") || contains_text(upper, "TCP") || begins_with(upper, "HTTP")
        || begins_with(upper, "SMB") || contains_text(upper, "NETWORK")
}

/// Decides from its name, its port and its network attribute whether a printer is
/// in the network, and finds its address and a short name for its port.
pub fn classify_printer(name: &str, port: Option<&str>, attr_network: bool) -> (r: (
    bool,
    Option<String>,
    Option<String>,
))
    ensures
        (r.0, text::opt_text(r.1), text::opt_text(r.2)) == classify(
            name@,
            text::opt_str(port),
            attr_network,
        ),
{
    let none = String::new();
    assert(none@ =~= Seq::empty());
    let port: &str = match port {
        Some(p) => p,
        None => none.as_str(),
    };
    let ip = match extract_ipv4(port) {
        Some(ip) => Some(ip),
        None => extract_ipv4(name),
    };
    let upper = to_ascii_upper(port);
    let hint = port_hint_from(port);
    if is_local_port(&upper, name) && ip.is_none() && !begins_with(&upper, "\\\\") {
        return (false, None, hint);
    }
    if attr_network || ip.is_some() || is_network_port(&upper) {
        (true, ip, hint)
    } else {
        (false, None, hint)
    }
}

/// A printer with an address is in the network, and so is one whose port is a share;
/// the hint comes from the port alone; and the network attribute never takes a
/// printer out of the network.
pub proof fn law_classification_is_consistent(
    name: Seq<char>,
    port: Option<Seq<char>>,
    attr_network: bool,
)
    ensures
        classify(name, port, attr_network).1 is Some ==> classify(name, port, attr_network).0,
        classify(name, port, attr_network).1 == address(name, or_empty(port)),
        classify(name, port, attr_network).2 == hint_for(or_empty(port)),
        text::begins(text::ascii_upper(or_empty(port)), "\\\\"@) ==> classify(
            name,
            port,
            attr_network,
        ).0,
        classify(name, port, false).0 ==> classify(name, port, true).0,
{
}

/// A printer whose port is not plainly a local one, and is one of a network by its
/// name, is in the network, whatever the network attribute says.
#[verifier::rlimit(30)]
pub proof fn law_network_ports_are_in_the_network(
    name: Seq<char>,
    port: Seq<char>,
    attr_network: bool,
)
    requires
        ({
            let u = text::ascii_upper(port);
            &&& !(text::begins(u, "USB"@) || text::begins(u, "DOT4"@) || text::begins(u, "LPT"@)
                || text::begins(u, "COM"@) || text::begins(u, "FILE"@) || text::begins(
                u,
                "PORTPROMPT"@,
            ) || text::begins(u, "NUL"@) || text::begins(u, "SHRFAX"@) || text::begins(
                u,
                "XPSSPOOL"@,
            ) || text::begins(u, "TS"@) || text::has(u, "DOCUMENT WRITER"@) || text::has(u, "PDF"@)
                || text::has(u, "ONENOTE"@))
            &&& text::begins(u, "IP_"@) || text::begins(u, "WSD"@) || text::begins(u, "HTTP"@)
                || text::begins(u, "SMB"@) || text::begins(u, "\\\\"@) || text::has(u, "IPP"@)
                || text::has(u, "TCP"@) || text::has(u, "NETWORK"@)
        }),
    ensures
        classify(name, Some(port), attr_network).0,
{
    let u = text::ascii_upper(port);
    reveal_strlit("IP_");
    reveal_strlit("WSD");
    reveal_strlit("HTTP");
    reveal_strlit("SMB");
    reveal_strlit("\\\\");
    reveal_strlit("IPP");
    reveal_strlit("TCP");
    reveal_strlit("NETWORK");
    assert(u.len() > 0);
}

/// A printer whose port is a local one, or that has no port and prints on no paper, is
/// not in the network, whatever the network attribute says, as long as neither its
/// port nor its name holds an address.
pub proof fn law_local_ports_are_local(name: Seq<char>, port: Seq<char>, attr_network: bool)
    requires
        ipv4_in(port) is None,
        ipv4_in(name) is None,
        ({
            let u = text::ascii_upper(port);
            let n = text::ascii_lower(name);
            &&& !text::begins(u, "\\\\"@)
            &&& {
                ||| text::begins(u, "USB"@)
                ||| text::begins(u, "DOT4"@)
                ||| text::begins(u, "LPT"@)
                ||| text::begins(u, "COM"@)
                ||| text::begins(u, "FILE"@)
                ||| text::begins(u, "PORTPROMPT"@)
                ||| text::begins(u, "NUL"@)
                ||| text::begins(u, "SHRFAX"@)
                ||| text::begins(u, "XPSSPOOL"@)
                ||| text::begins(u, "TS"@)
                ||| text::has(u, "DOCUMENT WRITER"@)
                ||| text::has(u, "PDF"@)
                ||| text::has(u, "ONENOTE"@)
                ||| port.len() == 0 && (text::has(n, "rustdesk"@) || text::has(n, "anydesk"@)
                    || text::has(n, "onenote"@) || text::has(n, "pdf"@) || text::has(n, "xps"@)
                    || text::has(n, "fax"@) || text::has(n, "microsoft print to"@))
            }
        }),
    ensures
        !classify(name, Some(port), attr_network).0,
        classify(name, Some(port), attr_network).1 is None,
        port.len() == 0 ==> !classify(name, None, attr_network).0,
{
    if port.len() == 0 {
        assert(port =~= Seq::empty());
    }
}

/// Where the port tells nothing, and there is no address, the network attribute
/// decides.
pub proof fn law_attribute_decides_where_the_port_does_not(
    name: Seq<char>,
    port: Seq<char>,
    attr_network: bool,
)
    requires
        ipv4_in(port) is None,
        ipv4_in(name) is None,
        ({
            let u = text::ascii_upper(port);
            let n = text::ascii_lower(name);
            &&& !(text::begins(u, "USB"@) || text::begins(u, "DOT4"@) || text::begins(u, "LPT"@)
                || text::begins(u, "COM"@) || text::begins(u, "FILE"@) || text::begins(
                u,
                "PORTPROMPT"@,
            ) || text::begins(u, "NUL"@) || text::begins(u, "SHRFAX"@) || text::begins(
                u,
                "XPSSPOOL"@,
            ) || text::begins(u, "TS"@) || text::has(u, "DOCUMENT WRITER"@) || text::has(u, "PDF"@)
                || text::has(u, "ONENOTE"@))
            &&& !(text::begins(u, "IP_"@) || text::begins(u, "WSD"@) || text::begins(u, "HTTP"@)
                || text::begins(u, "SMB"@) || text::begins(u, "\\\\"@) || text::has(u, "IPP"@)
                || text::has(u, "TCP"@) || text::has(u, "NETWORK"@))
            &&& port.len() > 0 || !(text::has(n, "rustdesk"@) || text::has(n, "anydesk"@)
                || text::has(n, "onenote"@) || text::has(n, "pdf"@) || text::has(n, "xps"@)
                || text::has(n, "fax"@) || text::has(n, "microsoft print to"@))
        }),
    ensures
        classify(name, Some(port), attr_network).0 == attr_network,
        classify(name, Some(port), attr_network).1 is None,
        port.len() == 0 ==> classify(name, None, attr_network).0 == attr_network,
{
    if port.len() == 0 {
        assert(port =~= Seq::empty());
    }
}

/// A printer is in the network where its port or its name holds an address, whatever
/// kind of port it is; the address of the port comes first.
pub proof fn law_address_means_network(
    name: Seq<char>,
    port: Option<Seq<char>>,
    attr_network: bool,
)
    ensures
        port is Some && ipv4_in(port->0) is Some ==> classify(name, port, attr_network).0
            && classify(name, port, attr_network).1 == ipv4_in(port->0),
        (port is None || ipv4_in(port->0) is None) && ipv4_in(name) is Some ==> classify(
            name,
            port,
            attr_network,
        ).0 && classify(name, port, attr_network).1 == ipv4_in(name),
        (port is None || ipv4_in(port->0) is None) && ipv4_in(name) is None ==> classify(
            name,
            port,
            attr_network,
        ).1 is None,
{
    if port is None {
        law_address_stands_alone(Seq::empty());
        assert(!is_ipv4(Seq::<char>::empty()));
    }
}

/// A text of digits and dots is an address or holds none.
pub proof fn law_address_stands_alone(s: Seq<char>)
    requires
        forall|i: int| 0 <= i < s.len() ==> ('0' <= #[trigger] s[i] <= '9' || s[i] == '.'),
    ensures
        ipv4_in(s) == if is_ipv4(s) {
            Some(s)
        } else {
            None
        },
{
    assert forall|i: int| 0 <= i < s.len() implies !not_ip_char()(#[trigger] s[i]) by {}
    text::law_split_without_characters(s, not_ip_char());
    assert(seq![s].drop_first().len() == 0);
    reveal_with_fuel(first_ipv4, 2);
}

/// Of two texts with anything but a digit or a dot between them, the address is that
/// of the first, or else that of the second.
pub proof fn law_first_address_counts(a: Seq<char>, c: char, b: Seq<char>)
    requires
        !('0' <= c <= '9') && c != '.',
    ensures
        ipv4_in(a + seq![c] + b) == if ipv4_in(a) is Some {
            ipv4_in(a)
        } else {
            ipv4_in(b)
        },
{
    text::law_split_at_a_character(a, c, b, not_ip_char());
    lemma_first_of_both(text::split(a, not_ip_char()), text::split(b, not_ip_char()));
}

proof fn lemma_first_of_both(a: Seq<Seq<char>>, b: Seq<Seq<char>>)
    ensures
        first_ipv4(a + b) == if first_ipv4(a) is Some {
            first_ipv4(a)
        } else {
            first_ipv4(b)
        },
    decreases a.len(),
{
    if a.len() == 0 {
        assert(a + b =~= b);
    } else {
        assert((a + b).drop_first() =~= a.drop_first() + b);
        lemma_first_of_both(a.drop_first(), b);
    }
}

/// Four numbers with dots between them are an address where none is more than 255.
pub proof fn law_address_is_four_bytes(a: nat, b: nat, c: nat, d: nat)
    ensures
        is_ipv4(
            number::decimal(a) + "."@ + number::decimal(b) + "."@ + number::decimal(c) + "."@
                + number::decimal(d),
        ) <==> a <= 255 && b <= 255 && c <= 255 && d <= 255,
{
    let (da, db, dc, dd) = (
        number::decimal(a),
        number::decimal(b),
        number::decimal(c),
        number::decimal(d),
    );
    let parts = seq![da, db, dc, dd];
    reveal_strlit(".");
    assert("."@ =~= seq!['.']);
    lemma_octet(a);
    lemma_octet(b);
    lemma_octet(c);
    lemma_octet(d);
    assert forall|i: int| 0 <= i < parts.len() implies !(#[trigger] parts[i]).contains('.') by {}
    lines::law_joined_texts_split_again(parts, '.');
    let three = parts.drop_last();
    let two = three.drop_last();
    let one = two.drop_last();
    assert(one.len() == 1 && one[0] == da);
    assert(lines::join(one, seq!['.']) == da);
    assert(two.last() == db && three.last() == dc && parts.last() == dd);
    assert(lines::join(two, seq!['.']) == da + seq!['.'] + db);
    assert(lines::join(three, seq!['.']) == da + seq!['.'] + db + seq!['.'] + dc);
    assert(lines::join(parts, seq!['.']) == da + seq!['.'] + db + seq!['.'] + dc + seq!['.'] + dd);
}

proof fn lemma_octet(n: nat)
    ensures
        is_octet(number::decimal(n)) <==> n <= 255,
        !number::decimal(n).contains('.'),
{
    let d = number::decimal(n);
    number::law_decimal_reads_back(n);
    assert forall|i: int| 0 <= i < d.len() implies d[i] != '.' by {
        assert(number::is_digit(d[i]));
    }
    assert(number::is_digit(d[0]));
    if n <= 255 {
        assert(d.len() <= 3) by {
            assert(number::decimal(n / 10 / 10).len() == 1);
            reveal_with_fuel(number::decimal, 3);
        }
    }
}

/// A port has a short name where it has a name at all. That of a web service, of a
/// printing protocol, of an address and of a plug is a word of its own; any other is
/// the name itself, cut where it is long.
pub proof fn law_hint_is_a_short_name(port: Seq<char>)
    ensures
        ({
            let u = text::ascii_upper(port);
            let wsd = text::begins(u, "WSD"@);
            let ipp = text::has(u, "IPP"@);
            let tcp = (text::begins(port, "IP_"@) || text::begins(port, "ip_"@)) && ipv4_in(
                port,
            ) is Some;
            let usb = text::begins(u, "USB"@);
            &&& hint_for(port) is None <==> port.len() == 0
            &&& wsd ==> hint_for(port) == Some("WSD"@)
            &&& ipp && !wsd ==> hint_for(port) == Some("IPP"@)
            &&& tcp && !ipp && !wsd ==> hint_for(port) == Some("TCP/IP"@)
            &&& usb && !tcp && !ipp && !wsd ==> hint_for(port) == Some("USB"@)
            &&& !(wsd || ipp || tcp || usb) && 0 < port.len() <= 24 ==> hint_for(port) == Some(port)
            &&& !(wsd || ipp || tcp || usb) && port.len() > 24 ==> hint_for(port) == Some(
                port.take(20) + "…"@,
            )
        }),
{
    reveal_strlit("WSD");
    reveal_strlit("IPP");
    reveal_strlit("IP_");
    reveal_strlit("ip_");
    reveal_strlit("USB");
    let u = text::ascii_upper(port);
    if port.len() == 0 {
        assert(!text::has(u, "IPP"@));
    }
}

// ---------------------------------------------------------------------------
// The list of printers

/// The attribute of a network printer.
pub const PRINTER_ATTRIBUTE_NETWORK: u32 = 16;

/// What the system says about one printer.
#[derive(Debug)]
pub struct RawPrinter {
    /// The name in UTF-16, if there is one.
    pub name: Option<Vec<u16>>,
    pub attributes: u32,
    /// What was learned by opening the printer, if it could be opened.
    pub opened: Option<Opened>,
}

/// What an open printer says about itself.
#[derive(Debug)]
pub struct Opened {
    /// The number of its jobs, if they could be counted.
    pub jobs: Option<usize>,
    /// The name of its port, if it has one.
    pub port: Option<String>,
}

/// A name that the system gives in UTF-16: one that is there, well-formed and not
/// empty.
pub open spec fn name_in(units: Option<Seq<u16>>) -> Option<Seq<char>> {
    match units {
        None => None,
        Some(u) => match wide::utf16_strict(u) {
            Some(s) => if s.len() == 0 {
                None
            } else {
                Some(s)
            },
            None => None,
        },
    }
}

/// UTF-16 text that may be missing.
pub open spec fn opt_units(u: Option<Vec<u16>>) -> Option<Seq<u16>> {
    match u {
        Some(v) => Some(v@),
        None => None,
    }
}

/// The printer that a record describes; one without a proper name is left out.
pub open spec fn printer_in(raw: RawPrinter) -> Option<PrinterView> {
    match name_in(opt_units(raw.name)) {
        None => None,
        Some(name) => {
            let jobs = match raw.opened {
                Some(o) => match o.jobs {
                    Some(n) => n as nat,
                    None => 0,
                },
                None => 0,
            };
            let port = match raw.opened {
                Some(o) => text::opt_text(o.port),
                None => None,
            };
            let c = classify(name, port, raw.attributes & PRINTER_ATTRIBUTE_NETWORK != 0);
            Some(PrinterView { name, jobs, network: c.0, ip: c.1, port_hint: c.2 })
        },
    }
}

/// The printers that the records describe, in order.
pub open spec fn printers_in(raws: Seq<RawPrinter>) -> Seq<PrinterView>
    decreases raws.len(),
{
    if raws.len() == 0 {
        seq![]
    } else {
        match printer_in(raws.last()) {
            Some(p) => printers_in(raws.drop_last()).push(p),
            None => printers_in(raws.drop_last()),
        }
    }
}

/// The keys by which printers are sorted: their names in lower case.
pub open spec fn sort_keys(s: Seq<PrinterView>) -> Seq<Seq<char>> {
    Seq::new(s.len(), |i: int| text::lowercase(s[i].name))
}

/// Printers sorted by their names in lower case; where these are the same, the
/// printers stay as they were.
pub open spec fn sorted_printers(s: Seq<PrinterView>) -> Seq<PrinterView> {
    Seq::new(s.len(), |i: int| s[order::stable_order(sort_keys(s))[i]])
}

/// A name that the system gives in UTF-16.
pub fn printer_name(units: &Option<Vec<u16>>) -> (r: Option<String>)
    ensures
        text::opt_text(r) == name_in(opt_units(*units)),
{
    match units {
        None => None,
        Some(u) => match decode_strict(u) {
            None => None,
            Some(s) => {
                if chars_of(s.as_str()).len() == 0 {
                    None
                } else {
                    Some(s)
                }
            },
        },
    }
}

/// The printer that a record describes.
pub fn read_printer(raw: &RawPrinter) -> (r: Option<PrinterEntry>)
    ensures
        match r {
            Some(p) => printer_in(*raw) == Some(p@),
            None => printer_in(*raw) is None,
        },
{
    match printer_name(&raw.name) {
        None => None,
        Some(name) => {
            let mut jobs: usize = 0;
            let mut port: Option<&str> = None;
            if let Some(o) = &raw.opened {
                if let Some(n) = o.jobs {
                    jobs = n;
                }
                if let Some(p) = &o.port {
                    port = Some(p.as_str());
                }
            }
            let attr_network = raw.attributes & PRINTER_ATTRIBUTE_NETWORK != 0;
            let (network, ip, port_hint) = classify_printer(name.as_str(), port, attr_network);
            Some(PrinterEntry { name, jobs, network, ip, port_hint })
        },
    }
}

/// Sorts printers by their names in lower case.
pub fn sort_printers(v: &Vec<PrinterEntry>) -> (r: Vec<PrinterEntry>)
    ensures
        views(r@) == sorted_printers(views(v@)),
{
    let mut keys: Vec<Vec<char>> = Vec::new();
    for i in 0..v.len()
        invariant
            text::char_texts(keys@) == sort_keys(views(v@)).take(i as int),
    {
        let ghost before = text::char_texts(keys@);
        let key = chars_of(to_lowercase(v[i].name.as_str()).as_str());
        keys.push(key);
        proof {
            assert(text::char_texts(keys@) =~= before.push(key@));
            assert(sort_keys(views(v@)).take(i + 1) =~= before.push(sort_keys(views(v@))[i as int]));
        }
    }
    assert(sort_keys(views(v@)).take(v.len() as int) =~= sort_keys(views(v@)));
    let positions = stable_positions(&keys);
    let ghost target = sorted_printers(views(v@));
    assert(keys.len() == text::char_texts(keys@).len());
    let mut out: Vec<PrinterEntry> = Vec::new();
    for i in 0..positions.len()
        invariant
            positions.len() == v.len(),
            order::ints(positions@) == order::stable_order(sort_keys(views(v@))),
            forall|k: int| 0 <= k < positions.len() ==> #[trigger] positions@[k] < v.len(),
            target == sorted_printers(views(v@)),
            views(out@) == target.take(i as int),
    {
        let ghost before = views(out@);
        let p = positions[i];
        assert(order::ints(positions@)[i as int] == p);
        out.push(v[p].clone());
        proof {
            assert(views(out@) =~= before.push(v@[p as int]@));
            assert(target[i as int] == v@[p as int]@);
            assert(target.take(i + 1) =~= before.push(target[i as int]));
        }
    }
    assert(target.take(v.len() as int) =~= target);
    out
}

/// The printers that the records describe, sorted by name.
pub fn read_printers(raws: &Vec<RawPrinter>) -> (r: Vec<PrinterEntry>)
    ensures
        views(r@) == sorted_printers(printers_in(raws@)),
{
    let mut found: Vec<PrinterEntry> = Vec::new();
    assert(views(found@) =~= printers_in(raws@.take(0)));
    for i in 0..raws.len()
        invariant
            views(found@) == printers_in(raws@.take(i as int)),
    {
        let ghost before = views(found@);
        assert(raws@.take(i + 1).drop_last() =~= raws@.take(i as int));
        if let Some(p) = read_printer(&raws[i]) {
            found.push(p);
            assert(views(found@) =~= before.push(p@));
        }
    }
    assert(raws@.take(raws.len() as int) =~= raws@);
    sort_printers(&found)
}

/// How large a buffer the list of printers needs: `None` where there is nothing to
/// fetch, because the first call failed or found that there are no printers.
pub fn printers_buffer(probe: Option<i32>, needed: u32) -> (r: Option<u32>)
    ensures
        r == (if probe is Some && probe->0 != win32::win32_hresult(122) {
            None::<u32>
        } else if probe is None && needed == 0 {
            None::<u32>
        } else {
            Some(needed)
        }),
{
    match probe {
        Some(code) => {
            if is_win32(code, ERROR_INSUFFICIENT_BUFFER) {
                Some(needed)
            } else {
                None
            }
        },
        None => {
            if needed == 0 {
                None
            } else {
                Some(needed)
            }
        },
    }
}

/// A failure to list the printers of the target, in words.
pub open spec fn enum_error(n: Seq<char>, detail: Seq<char>) -> Seq<char> {
    "EnumPrinters ("@ + host::host_label(n) + "): "@ + detail
}

fn enum_failure(host: &Host, error: &WinError) -> (r: String)
    ensures
        r@ == enum_error(host@, error.text@),
{
    let mut s = "EnumPrinters (".to_owned();
    s.append(host.label_ru().as_str());
    s.append("): ");
    s.append(error.text.as_str());
    s
}

/// A list of printers, or why there is none.
pub open spec fn list_result(r: Result<Vec<PrinterEntry>, String>) -> Result<
    Seq<PrinterView>,
    Seq<char>,
> {
    match r {
        Ok(v) => Ok(views(v@)),
        Err(e) => Err(e@),
    }
}

/// What the two calls that list printers and the records they left behind come to.
/// The first call asks for the size of the buffer: it is `probe` that failed, if
/// anything did, and `needed` that it reported. The second one fetches the records.
pub open spec fn printer_list(
    n: Seq<char>,
    probe: Option<WinError>,
    needed: u32,
    fetch: Option<WinError>,
    raws: Seq<RawPrinter>,
) -> Result<Seq<PrinterView>, Seq<char>> {
    if probe is Some && probe->0.code != win32::win32_hresult(122) {
        Err(enum_error(n, probe->0.text@))
    } else if probe is None && needed == 0 {
        Ok(seq![])
    } else if fetch is Some {
        Err(enum_error(n, fetch->0.text@))
    } else {
        Ok(sorted_printers(printers_in(raws)))
    }
}

/// The printers of the target and the number of their jobs.
pub fn list_printers_on(
    host: &Host,
    probe: &Option<WinError>,
    needed: u32,
    fetch: &Option<WinError>,
    raws: &Vec<RawPrinter>,
) -> (r: Result<Vec<PrinterEntry>, String>)
    ensures
        list_result(r) == printer_list(host@, *probe, needed, *fetch, raws@),
{
    match probe {
        Some(error) => {
            if !is_win32(error.code, ERROR_INSUFFICIENT_BUFFER) {
                return Err(enum_failure(host, error));
            }
        },
        None => {
            if needed == 0 {
                let none: Vec<PrinterEntry> = Vec::new();
                assert(views(none@) =~= seq![]);
                return Ok(none);
            }
        },
    }
    if let Some(error) = fetch {
        return Err(enum_failure(host, error));
    }
    Ok(read_printers(raws))
}

/// The printers of this computer and the number of their jobs.
pub fn list_printers(
    probe: &Option<WinError>,
    needed: u32,
    fetch: &Option<WinError>,
    raws: &Vec<RawPrinter>,
) -> (r: Result<Vec<PrinterEntry>, String>)
    ensures
        list_result(r) == printer_list(Seq::empty(), *probe, needed, *fetch, raws@),
{
    let here = Host::local();
    assert(here@ =~= Seq::empty());
    list_printers_on(&here, probe, needed, fetch, raws)
}

/// Every printer of the list comes from a record, and none of them is lost: the
/// list is as long as there are records with a proper name.
pub proof fn law_list_keeps_every_printer(raws: Seq<RawPrinter>)
    ensures
        sorted_printers(printers_in(raws)).len() == printers_in(raws).len(),
        sorted_printers(printers_in(raws)).to_multiset() == printers_in(raws).to_multiset(),
{
    let s = printers_in(raws);
    let keys = sort_keys(s);
    let all = Seq::new(keys.len(), |i: int| i);
    let perm = order::stable_order(keys);
    order::law_sorting_by_key_is_stable(keys);
    let f = |i: int| s[i];
    assert(perm.map_values(f) =~= sorted_printers(s));
    assert(all.map_values(f) =~= s);
    order::lemma_map_keeps_multiset(perm, all, f);
}

/// Every record with a proper name is a printer of the list, with that name, with its
/// jobs where they could be counted, and with what its port tells; a record without
/// one is left out.
#[verifier::rlimit(30)]
pub proof fn law_records_become_printers(
    a: Seq<RawPrinter>,
    b: Seq<RawPrinter>,
    raw: RawPrinter,
)
    ensures
        printers_in(Seq::<RawPrinter>::empty()) == Seq::<PrinterView>::empty(),
        printers_in(a + b) == printers_in(a) + printers_in(b),
        raw.name is None ==> printers_in(seq![raw]) == Seq::<PrinterView>::empty(),
        raw.name is Some && wide::utf16_strict(raw.name->0@) is None ==> printers_in(seq![raw])
            == Seq::<PrinterView>::empty(),
        raw.name is Some && wide::utf16_strict(raw.name->0@) == Some(Seq::<char>::empty())
            ==> printers_in(seq![raw]) == Seq::<PrinterView>::empty(),
        raw.name is Some && wide::utf16_strict(raw.name->0@) is Some && wide::utf16_strict(
            raw.name->0@,
        )->0.len() > 0 ==> {
            let name = wide::utf16_strict(raw.name->0@)->0;
            let port = if raw.opened is Some {
                text::opt_text(raw.opened->0.port)
            } else {
                None
            };
            let c = classify(name, port, raw.attributes & 16 != 0);
            &&& printers_in(seq![raw]).len() == 1
            &&& printers_in(seq![raw])[0].name == name
            &&& raw.opened is Some && raw.opened->0.jobs is Some ==> printers_in(seq![raw])[0].jobs
                == raw.opened->0.jobs->0
            &&& raw.opened is None || raw.opened->0.jobs is None ==> printers_in(seq![raw])[0].jobs
                == 0
            &&& printers_in(seq![raw])[0].network == c.0
            &&& printers_in(seq![raw])[0].ip == c.1
            &&& printers_in(seq![raw])[0].port_hint == c.2
        },
    decreases b.len(),
{
    assert(seq![raw].drop_last() =~= Seq::<RawPrinter>::empty());
    reveal_with_fuel(printers_in, 2);
    if b.len() == 0 {
        assert(a + b =~= a);
        assert(printers_in(a) + printers_in(b) =~= printers_in(a));
    } else {
        law_records_become_printers(a, b.drop_last(), raw);
        assert((a + b).drop_last() =~= a + b.drop_last());
        assert((a + b).last() == b.last());
        assert(printers_in(a + b) =~= printers_in(a) + printers_in(b));
    }
}

/// The list is sorted by the names in lower case.
pub proof fn law_list_is_sorted_by_name(s: Seq<PrinterView>, i: int, j: int)
    requires
        0 <= i < j < s.len(),
    ensures
        sorted_printers(s).len() == s.len(),
        order::lex_le(
            text::lowercase(sorted_printers(s)[i].name),
            text::lowercase(sorted_printers(s)[j].name),
        ),
{
    let keys = sort_keys(s);
    let perm = order::stable_order(keys);
    order::law_sorting_by_key_is_stable(keys);
    let all = Seq::new(keys.len(), |k: int| k);
    assert forall|k: int| 0 <= k < perm.len() implies 0 <= #[trigger] perm[k] < s.len() by {
        broadcast use vstd::seq_lib::group_to_multiset_ensures;

        assert(perm.contains(perm[k]));
        assert(all.to_multiset().count(perm[k]) > 0);
        assert(all.contains(perm[k]));
    }
    assert(order::lex_le(keys[perm[i]], keys[perm[j]]));
}

/// The printers are listed where both calls went well, or the first one said that its
/// buffer was too small; there are none where the first call asks for no buffer; and
/// any failure names the target.
pub proof fn law_list_fails_only_with_its_calls(
    n: Seq<char>,
    probe: Option<WinError>,
    needed: u32,
    fetch: Option<WinError>,
    raws: Seq<RawPrinter>,
)
    ensures
        ({
            let small = probe is Some && probe->0.code == win32::win32_hresult(122);
            let r = printer_list(n, probe, needed, fetch, raws);
            &&& probe is Some && !small ==> r == Err::<Seq<PrinterView>, Seq<char>>(
                "EnumPrinters ("@ + host::host_label(n) + "): "@ + probe->0.text@,
            )
            &&& probe is None && needed == 0 ==> r == Ok::<Seq<PrinterView>, Seq<char>>(seq![])
            &&& (small || (probe is None && needed > 0)) && fetch is Some ==> r == Err::<
                Seq<PrinterView>,
                Seq<char>,
            >("EnumPrinters ("@ + host::host_label(n) + "): "@ + fetch->0.text@)
            &&& (small || (probe is None && needed > 0)) && fetch is None ==> r is Ok
                && r->Ok_0.to_multiset() == printers_in(raws).to_multiset()
        }),
{
    law_list_keeps_every_printer(raws);
}

/// A list that is sorted by name already stays as it is, and so do printers whose names
/// are the same in lower case.
pub proof fn law_sorted_list_stays(s: Seq<PrinterView>)
    requires
        forall|i: int, j: int|
            0 <= i < j < s.len() ==> order::lex_le(
                text::lowercase((#[trigger] s[i]).name),
                text::lowercase((#[trigger] s[j]).name),
            ),
    ensures
        sorted_printers(s) == s,
{
    let keys = sort_keys(s);
    let all = Seq::new(keys.len(), |k: int| k);
    let r = order::by_key(keys);
    order::law_order_by_key_is_total(keys);
    all.lemma_sort_by_ensures(r);
    assert forall|i: int, j: int| 0 <= i < j < all.len() implies #[trigger] r(all[i], all[j]) by {
        assert(keys[i] == text::lowercase(s[i].name) && keys[j] == text::lowercase(s[j].name));
    }
    assert(vstd::relations::sorted_by(all, r));
    vstd::seq_lib::lemma_sorted_unique(all.sort_by(r), all, r);
    assert(sorted_printers(s) =~= s);
}

/// How large a buffer the port of a printer needs: `None` where the first call did
/// not get so far.
pub fn port_buffer(probe: Option<i32>, needed: u32) -> (r: Option<u32>)
    ensures
        r == (if (probe is None || probe->0 == win32::win32_hresult(122))
            && needed != 0 {
            Some(needed)
        } else {
            None::<u32>
        }),
{
    if probe_answered(probe) && needed != 0 {
        Some(needed)
    } else {
        None
    }
}

/// The name of the port of a printer: what the second call brought, if it did.
pub fn printer_port_name(fetched: bool, units: &Option<Vec<u16>>) -> (r: Option<String>)
    ensures
        text::opt_text(r) == if fetched {
            name_in(opt_units(*units))
        } else {
            None
        },
{
    if fetched {
        printer_name(units)
    } else {
        None
    }
}

/// What the first of the two calls that count jobs says.
#[derive(Debug, PartialEq, Eq)]
pub enum JobsProbe {
    /// There are this many.
    Counted(usize),
    /// The jobs have to be fetched into a buffer of this size to be counted.
    Fetch(u32),
    Failed(String),
}

/// What the first of the two calls that count jobs says: whether it failed, and the
/// size and the number that it reported.
pub fn jobs_probe(probe: &Option<WinError>, needed: u32, returned: u32) -> (r: JobsProbe)
    ensures
        match *probe {
            None => r == JobsProbe::Counted(returned as usize),
            Some(e) => if e.code != win32::win32_hresult(122) {
                r is Failed && r->Failed_0@ == "EnumJobs: "@ + e.text@
            } else if needed == 0 {
                r == JobsProbe::Counted(0)
            } else {
                r == JobsProbe::Fetch(needed)
            },
        },
{
    match probe {
        None => JobsProbe::Counted(returned as usize),
        Some(e) => {
            if !is_win32(e.code, ERROR_INSUFFICIENT_BUFFER) {
                let mut s = "EnumJobs: ".to_owned();
                s.append(e.text.as_str());
                JobsProbe::Failed(s)
            } else if needed == 0 {
                JobsProbe::Counted(0)
            } else {
                JobsProbe::Fetch(needed)
            }
        },
    }
}

/// The number of the jobs of a printer, once the second call has fetched them.
pub fn count_jobs_for_printer(probe: JobsProbe, fetch: Result<u32, WinError>) -> (r: Result<
    usize,
    String,
>)
    ensures
        count_result(r) == match probe {
            JobsProbe::Counted(n) => Ok(n as nat),
            JobsProbe::Failed(e) => Err(e@),
            JobsProbe::Fetch(_) => match fetch {
                Ok(n) => Ok(n as nat),
                Err(e) => Err("EnumJobs: "@ + e.text@),
            },
        },
{
    match probe {
        JobsProbe::Counted(n) => Ok(n),
        JobsProbe::Failed(e) => Err(e),
        JobsProbe::Fetch(_) => match fetch {
            Ok(n) => Ok(n as usize),
            Err(e) => {
                let mut s = "EnumJobs: ".to_owned();
                s.append(e.text.as_str());
                Err(s)
            },
        },
    }
}

// ---------------------------------------------------------------------------
// The queue at a glance

/// The queue at one moment.
#[derive(Debug, PartialEq, Eq)]
pub struct QueueSnapshot {
    /// The number of jobs, if the printers could be listed.
    pub jobs: Option<usize>,
    /// The number of files in the queue folder, if it could be read.
    pub files: Option<usize>,
    /// Why it could not be read.
    pub files_note: Option<&'static str>,
    pub printers: Vec<PrinterEntry>,
}

/// The number of jobs of all printers.
pub open spec fn total_jobs(v: Seq<PrinterView>) -> nat
    decreases v.len(),
{
    if v.len() == 0 {
        0
    } else {
        total_jobs(v.drop_last()) + v.last().jobs
    }
}

/// The number of jobs of all printers; `None` where it is too large a number.
pub fn count_jobs(v: &[PrinterEntry]) -> (r: Option<usize>)
    ensures
        r == (if total_jobs(views(v@)) <= usize::MAX {
            Some(total_jobs(views(v@)) as usize)
        } else {
            None::<usize>
        }),
{
    let mut total: usize = 0;
    assert(views(v@).take(0).len() == 0);
    for i in 0..v.len()
        invariant
            total == total_jobs(views(v@).take(i as int)),
    {
        assert(views(v@).take(i + 1).drop_last() =~= views(v@).take(i as int));
        assert(views(v@).take(i + 1).last() == v@[i as int]@);
        if v[i].jobs > usize::MAX - total {
            proof {
                lemma_total_grows(views(v@), i + 1);
            }
            return None;
        }
        total += v[i].jobs;
    }
    assert(views(v@).take(v.len() as int) =~= views(v@));
    Some(total)
}

/// The number of jobs of all printers.
pub fn sum_jobs(v: &[PrinterEntry]) -> (r: usize)
    requires
        total_jobs(views(v@)) <= usize::MAX,
    ensures
        r == total_jobs(views(v@)),
{
    match count_jobs(v) {
        Some(n) => n,
        None => 0,
    }
}

proof fn lemma_total_grows(v: Seq<PrinterView>, k: int)
    requires
        0 <= k <= v.len(),
    ensures
        total_jobs(v.take(k)) <= total_jobs(v),
    decreases v.len(),
{
    if k == v.len() {
        assert(v.take(k) =~= v);
    } else {
        lemma_total_grows(v.drop_last(), k);
        assert(v.drop_last().take(k) =~= v.take(k));
    }
}

/// A snapshot in one line.
pub open spec fn snapshot_line(
    jobs: Option<usize>,
    files: Option<usize>,
    note: Option<Seq<char>>,
) -> Seq<char> {
    match (jobs, files) {
        (Some(j), Some(f)) => if j == 0 && f == 0 {
            "Очередь: заданий нет"@
        } else {
            "Очередь: заданий "@ + number::decimal(j as nat) + ", файлов в spool\\PRINTERS — "@
                + number::decimal(f as nat)
        },
        (Some(j), None) => if j != 0 {
            "Очередь: заданий "@ + number::decimal(j as nat)
        } else if note is Some {
            "Очередь: заданий нет (папка spool\\PRINTERS недоступна без прав администратора)"@
        } else {
            "Очередь: заданий нет"@
        },
        (None, Some(f)) => if f == 0 {
            "Очередь: файлов в spool\\PRINTERS нет"@
        } else {
            "Очередь: файлов в spool\\PRINTERS — "@ + number::decimal(f as nat)
        },
        (None, None) => match note {
            Some(n) => n,
            None => "Очередь: сведения недоступны"@,
        },
    }
}

impl QueueSnapshot {
    /// The snapshot in one line.
    pub fn line_ru(&self) -> (r: String)
        ensures
            r@ == snapshot_line(self.jobs, self.files, text::opt_str(self.files_note)),
    {
        match (self.jobs, self.files) {
            (Some(j), Some(f)) => {
                if j == 0 && f == 0 {
                    return "Очередь: заданий нет".to_owned();
                }
                let mut s = "Очередь: заданий ".to_owned();
                push_decimal(&mut s, j as u128);
                s.append(", файлов в spool\\PRINTERS — ");
                push_decimal(&mut s, f as u128);
                s
            },
            (Some(j), None) => {
                if j != 0 {
                    let mut s = "Очередь: заданий ".to_owned();
                    push_decimal(&mut s, j as u128);
                    s
                } else if self.files_note.is_some() {
                    "Очередь: заданий нет (папка spool\\PRINTERS недоступна без прав администратора)".to_owned()
                } else {
                    "Очередь: заданий нет".to_owned()
                }
            },
            (None, Some(f)) => {
                if f == 0 {
                    return "Очередь: файлов в spool\\PRINTERS нет".to_owned();
                }
                let mut s = "Очередь: файлов в spool\\PRINTERS — ".to_owned();
                push_decimal(&mut s, f as u128);
                s
            },
            (None, None) => match self.files_note {
                Some(note) => note.to_owned(),
                None => "Очередь: сведения недоступны".to_owned(),
            },
        }
    }
}

/// The error says that access was denied.
pub open spec fn denied(error: Seq<char>) -> bool {
    let lower = text::ascii_lower(error);
    text::has(lower, "отказано в доступе"@) || text::has(lower, "access is denied"@) || text::has(
        lower,
        "os error 5"@,
    )
}

/// Whether the error says that access was denied.
pub fn is_access_denied(error: &str) -> (r: bool)
    ensures
        r == denied(error@),
{
    let lower = to_ascii_lower(error);
    contains_text(&lower, "отказано в доступе") || contains_text(&lower, "access is denied")
        || contains_text(&lower, "os error 5")
}

/// Why the queue folder could not be read, in words.
pub open spec fn note_for(files: Result<usize, String>) -> Option<Seq<char>> {
    match files {
        Ok(_) => None,
        Err(e) => if denied(e@) {
            Some("папка spool\\PRINTERS недоступна без прав администратора"@)
        } else {
            Some("не удалось прочитать папку очереди"@)
        },
    }
}

/// The jobs of all printers fit in one number.
pub open spec fn jobs_fit(list: Result<Vec<PrinterEntry>, String>) -> bool {
    list is Ok ==> total_jobs(views(list->Ok_0@)) <= usize::MAX
}

/// The snapshot shows this list of printers and this number of files.
pub open spec fn shows(
    s: QueueSnapshot,
    list: Result<Vec<PrinterEntry>, String>,
    files: Result<usize, String>,
) -> bool {
    &&& match list {
        Ok(v) => s.jobs == Some(total_jobs(views(v@)) as usize) && views(s.printers@) == views(v@),
        Err(_) => s.jobs is None && s.printers@.len() == 0,
    }
    &&& s.files == match files {
        Ok(n) => Some(n),
        Err(_) => None,
    }
    &&& text::opt_str(s.files_note) == note_for(files)
}

/// The queue of the target at one moment: its printers, and the files in its queue
/// folder.
pub fn queue_snapshot_on(list: Result<Vec<PrinterEntry>, String>, files: Result<usize, String>) -> (
    r: QueueSnapshot)
    requires
        jobs_fit(list),
    ensures
        shows(r, list, files),
{
    let (jobs, printers) = match list {
        Ok(v) => (Some(sum_jobs(v.as_slice())), v),
        Err(_) => (None, Vec::new()),
    };
    match files {
        Ok(n) => QueueSnapshot { jobs, files: Some(n), files_note: None, printers },
        Err(e) => {
            if is_access_denied(e.as_str()) {
                QueueSnapshot {
                    jobs,
                    files: None,
                    files_note: Some("папка spool\\PRINTERS недоступна без прав администратора"),
                    printers,
                }
            } else {
                QueueSnapshot {
                    jobs,
                    files: None,
                    files_note: Some("не удалось прочитать папку очереди"),
                    printers,
                }
            }
        },
    }
}

/// The queue of this computer at one moment.
pub fn queue_snapshot(list: Result<Vec<PrinterEntry>, String>, files: Result<usize, String>) -> (r:
    QueueSnapshot)
    requires
        jobs_fit(list),
    ensures
        shows(r, list, files),
{
    queue_snapshot_on(list, files)
}

/// The number of jobs of a list is the sum of the numbers of its printers, whatever
/// else there is to say of them.
pub proof fn law_total_is_the_sum_of_all_jobs(
    a: Seq<PrinterView>,
    b: Seq<PrinterView>,
    p: PrinterView,
)
    ensures
        total_jobs(Seq::<PrinterView>::empty()) == 0,
        total_jobs(seq![p]) == p.jobs,
        total_jobs(a + b) == total_jobs(a) + total_jobs(b),
        total_jobs(a) == a.map_values(|q: PrinterView| q.jobs).fold_left(
            0nat,
            |n: nat, m: nat| n + m,
        ),
    decreases a.len() + b.len(),
{
    assert(seq![p].drop_last() =~= Seq::<PrinterView>::empty());
    reveal_with_fuel(total_jobs, 2);
    if b.len() == 0 {
        assert(a + b =~= a);
    } else {
        law_total_is_the_sum_of_all_jobs(a, b.drop_last(), p);
        assert((a + b).drop_last() =~= a + b.drop_last());
        assert((a + b).last() == b.last());
    }
    let f = |q: PrinterView| q.jobs;
    if a.len() > 0 {
        law_total_is_the_sum_of_all_jobs(a.drop_last(), Seq::empty(), p);
        assert(a.map_values(f).drop_last() =~= a.drop_last().map_values(f));
        assert(a.map_values(f).last() == a.last().jobs);
    }
}

/// What is known of a printer is what its entry holds.
pub proof fn law_printers_are_seen_as_they_are(v: Seq<PrinterEntry>, i: int)
    requires
        0 <= i < v.len(),
    ensures
        views(v).len() == v.len(),
        views(v)[i].name == v[i].name@,
        views(v)[i].jobs == v[i].jobs,
        views(v)[i].network == v[i].network,
        views(v)[i].ip == text::opt_text(v[i].ip),
        views(v)[i].port_hint == text::opt_text(v[i].port_hint),
{
}

/// A snapshot shows the jobs of all printers where they could be listed, the number
/// of files where the folder could be read, and why not where it could not.
pub proof fn law_snapshot_shows_jobs_and_files(
    s: QueueSnapshot,
    list: Result<Vec<PrinterEntry>, String>,
    files: Result<usize, String>,
)
    requires
        shows(s, list, files),
        list is Ok ==> total_jobs(views(list->Ok_0@)) <= usize::MAX,
    ensures
        list is Ok ==> s.jobs is Some && s.jobs->0 == total_jobs(views(list->Ok_0@)),
        list is Ok ==> views(s.printers@) == views(list->Ok_0@),
        list is Err ==> s.jobs is None && s.printers@.len() == 0,
        files is Ok ==> s.files == Some(files->Ok_0) && s.files_note is None,
        files is Err ==> s.files is None && s.files_note is Some,
        files is Err ==> {
            let e = text::ascii_lower(files->Err_0@);
            s.files_note->0@ == if text::has(e, "отказано в доступе"@) || text::has(
                e,
                "access is denied"@,
            ) || text::has(e, "os error 5"@) {
                "папка spool\\PRINTERS недоступна без прав администратора"@
            } else {
                "не удалось прочитать папку очереди"@
            }
        },
{
}

/// A number that is there and is not zero is said; jobs that are known to be none are
/// said to be none, unless there are files; and nothing is said of what is not known.
pub proof fn law_snapshot_says_what_it_knows(j: usize, f: usize, note: Option<Seq<char>>)
    ensures
        j > 0 || f > 0 ==> snapshot_line(Some(j), Some(f), note) == "Очередь: заданий "@
            + number::decimal(j as nat) + ", файлов в spool\\PRINTERS — "@ + number::decimal(
            f as nat,
        ),
        snapshot_line(Some(0), Some(0), note) == "Очередь: заданий нет"@,
        j > 0 ==> snapshot_line(Some(j), None, note) == "Очередь: заданий "@ + number::decimal(
            j as nat,
        ),
        snapshot_line(Some(0), None, None) == "Очередь: заданий нет"@,
        note is Some ==> snapshot_line(Some(0), None, note)
            == "Очередь: заданий нет (папка spool\\PRINTERS недоступна без прав администратора)"@,
        f > 0 ==> snapshot_line(None, Some(f), note) == "Очередь: файлов в spool\\PRINTERS — "@
            + number::decimal(f as nat),
        snapshot_line(None, Some(0), note) == "Очередь: файлов в spool\\PRINTERS нет"@,
        note is Some ==> snapshot_line(None, None, note) == note->0,
        snapshot_line(None, None, None) == "Очередь: сведения недоступны"@,
{
}

/// The directory of the queue files of this computer.
pub fn printers_queue_dir(system_root: Option<&str>, windir: Option<&str>) -> (r: Result<
    String,
    String,
>)
    ensures
        text::result_text(r) == host::queue_dir(
            Seq::empty(),
            text::opt_str(system_root),
            text::opt_str(windir),
        ),
{
    let here = Host::local();
    assert(here@ =~= Seq::empty());
    here.printers_queue_dir(system_root, windir)
}

/// The directory of the queue files of the target.
pub fn printers_queue_dir_on(host: &Host, system_root: Option<&str>, windir: Option<&str>) -> (r:
    Result<String, String>)
    ensures
        text::result_text(r) == host::queue_dir(
            host@,
            text::opt_str(system_root),
            text::opt_str(windir),
        ),
{
    host.printers_queue_dir(system_root, windir)
}

/// The number of files in the directory `dir` of the queue files, given what the
/// directory turned out to hold.
pub open spec fn files_in_queue(
    dir: Result<Seq<char>, Seq<char>>,
    folder: Folder,
    entries: Seq<Option<bool>>,
) -> Result<nat, Seq<char>> {
    match dir {
        Ok(d) => count_in(d, folder, entries),
        Err(e) => Err(e),
    }
}

/// The number of queue files of the target.
pub fn queue_file_count_on(
    host: &Host,
    system_root: Option<&str>,
    windir: Option<&str>,
    folder: &Folder,
    entries: &Vec<Option<bool>>,
) -> (r: Result<usize, String>)
    ensures
        count_result(r) == files_in_queue(
            host::queue_dir(host@, text::opt_str(system_root), text::opt_str(windir)),
            *folder,
            entries@,
        ),
{
    match printers_queue_dir_on(host, system_root, windir) {
        Ok(dir) => count_files_in(dir.as_str(), folder, entries),
        Err(e) => Err(e),
    }
}

/// The number of queue files of this computer.
pub fn queue_file_count(
    system_root: Option<&str>,
    windir: Option<&str>,
    folder: &Folder,
    entries: &Vec<Option<bool>>,
) -> (r: Result<usize, String>)
    ensures
        count_result(r) == files_in_queue(
            host::queue_dir(Seq::empty(), text::opt_str(system_root), text::opt_str(windir)),
            *folder,
            entries@,
        ),
{
    let here = Host::local();
    assert(here@ =~= Seq::empty());
    queue_file_count_on(&here, system_root, windir, folder, entries)
}

// ---------------------------------------------------------------------------
// Clearing the queue

/// Stops the service of the target, deletes its queue files and leaves it stopped.
pub fn clear_queue_on(host: &Host, timeout: Nanos) -> (r: (Control, Act))
    ensures
        r.0.label() == host::host_label(host@),
        r.0.report() is None,
        (r.0.plan(), r.1@) == control::begun(Goal::Clear, timeout),
{
    Control::begin(Goal::Clear, host.label_ru().as_str(), timeout)
}

/// Stops the service of this computer, deletes its queue files and leaves it stopped.
pub fn clear_queue(timeout: Nanos) -> (r: (Control, Act))
    ensures
        r.0.label() == host::host_label(Seq::empty()),
        r.0.report() is None,
        (r.0.plan(), r.1@) == control::begun(Goal::Clear, timeout),
{
    let here = Host::local();
    assert(here@ =~= Seq::empty());
    clear_queue_on(&here, timeout)
}

/// Stops the service of the target, deletes its queue files and starts it again.
pub fn fix_queue_on(host: &Host, timeout: Nanos) -> (r: (Control, Act))
    ensures
        r.0.label() == host::host_label(host@),
        r.0.report() is None,
        (r.0.plan(), r.1@) == control::begun(Goal::Fix, timeout),
{
    Control::begin(Goal::Fix, host.label_ru().as_str(), timeout)
}

/// Stops the service of this computer, deletes its queue files and starts it again.
pub fn fix_queue(timeout: Nanos) -> (r: (Control, Act))
    ensures
        r.0.label() == host::host_label(Seq::empty()),
        r.0.report() is None,
        (r.0.plan(), r.1@) == control::begun(Goal::Fix, timeout),
{
    let here = Host::local();
    assert(here@ =~= Seq::empty());
    fix_queue_on(&here, timeout)
}

// ---------------------------------------------------------------------------
// Folders in Explorer

/// What the shell opens to show the queue folder `dir`, if the folder is there.
pub fn open_queue_dir(dir: &str, exists: bool) -> (r: Result<Vec<u16>, String>)
    ensures
        match r {
            Ok(target) => exists && target@ == wide::wide(dir@),
            Err(e) => !exists && e@ == "Папка очереди не найдена: "@ + dir@,
        },
{
    if !exists {
        let mut s = "Папка очереди не найдена: ".to_owned();
        s.append(dir);
        return Err(s);
    }
    Ok(to_wide(dir))
}

/// What came of it, by the code that the shell returned.
pub fn queue_dir_opened(code: i64) -> (r: Result<(), String>)
    ensures
        text::unit_result_text(r) == shell::shell_outcome("папку очереди"@, code),
{
    shell_result("папку очереди", code)
}

/// What the shell opens to show the folder of printers.
pub fn open_printers_folder() -> (r: Vec<u16>)
    ensures
        r@ == wide::wide("shell:PrintersFolder"@),
{
    to_wide("shell:PrintersFolder")
}

/// What came of it, by the code that the shell returned.
pub fn printers_folder_opened(code: i64) -> (r: Result<(), String>)
    ensures
        text::unit_result_text(r) == shell::shell_outcome("папку принтеров"@, code),
{
    shell_result("папку принтеров", code)
}

// ---------------------------------------------------------------------------
// Values as they are seen

/// Counts and lists are seen as what they hold, and so are their failures; files are
/// counted in the folder that could be named, and where none could, that is the
/// failure.
pub proof fn law_counts_are_seen_as_they_are(
    n: usize,
    e: String,
    v: Vec<PrinterEntry>,
    u: Vec<u16>,
    dir: Seq<char>,
    folder: Folder,
    entries: Seq<Option<bool>>,
)
    ensures
        count_result(Ok(n)) == Ok::<nat, Seq<char>>(n as nat),
        count_result(Err(e)) == Err::<nat, Seq<char>>(e@),
        list_result(Ok(v)) == Ok::<Seq<PrinterView>, Seq<char>>(views(v@)),
        list_result(Err(e)) == Err::<Seq<PrinterView>, Seq<char>>(e@),
        opt_units(Some(u)) == Some(u@),
        opt_units(None) is None,
        files_in_queue(Ok(dir), folder, entries) == count_in(dir, folder, entries),
        files_in_queue(Err(dir), folder, entries) == Err::<nat, Seq<char>>(dir),
{
}

/// What became of an entry is seen as what it was, with the name or the error.
pub proof fn law_outcomes_are_seen_as_they_are(s: String)
    ensures
        Outcome::Left@ == OutcomeView::Left,
        (Outcome::Deleted { name: s })@ == OutcomeView::Deleted(s@),
        (Outcome::Failed { error: s })@ == OutcomeView::Failed(s@),
{
}

} // verus!
