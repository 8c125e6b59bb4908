//! Starting with Windows: a task of the scheduler starts the program in the tray,
//! with the rights of an administrator, when the user logs on. An entry that older
//! versions made in the registry is taken away.

use vstd::prelude::*;
use crate::number;
use crate::number::push_decimal;
use crate::text;
use crate::text::{begins_with, chars_of, contains_text, find_char, part, string_of, to_lowercase, trim_text};
use crate::wide;
use crate::wide::{decode_lossy, until_nul, units_of_bytes};
use crate::win32::ERROR_FILE_NOT_FOUND;

verus! {

/// The name of the task.
pub const TASK_NAME: &'static str = "SpoolCtl";

/// The registry key of programs that start with Windows.
pub const RUN_KEY: &'static str = "Software\\Microsoft\\Windows\\CurrentVersion\\Run";

/// The name of the entry there.
pub const RUN_VALUE: &'static str = "SpoolCtl";

// ---------------------------------------------------------------------------
// The program

/// The path without the prefixes that switch off path parsing.
pub open spec fn without_prefix(path: Seq<char>) -> Seq<char>
    decreases path.len(),
{
    if text::begins(path, "\\\\?\\"@) && "\\\\?\\"@.len() > 0 {
        without_prefix(path.skip("\\\\?\\"@.len() as int))
    } else {
        path
    }
}

/// What the task runs.
pub open spec fn task_command(path: Seq<char>) -> Seq<char> {
    if path.contains(' ') {
        "\""@ + path + "\" --tray"@
    } else {
        path + " --tray"@
    }
}

/// The path of the program, without the prefixes that switch off path parsing.
pub fn exe_path_clean(exe: Result<String, String>) -> (r: Result<String, String>)
    ensures
        text::result_text(r) == match exe {
            Ok(path) => Ok(without_prefix(path@)),
            Err(e) => Err("current_exe: "@ + e@),
        },
{
    match exe {
        Err(e) => {
            let mut s = "current_exe: ".to_owned();
            s.append(e.as_str());
            Err(s)
        },
        Ok(path) => {
            proof {
                reveal_strlit("\\\\?\\");
                assert("\\\\?\\"@.len() == 4);
            }
            let mut rest = chars_of(path.as_str());
            while begins_with(&rest, "\\\\?\\")
                invariant
                    "\\\\?\\"@.len() == 4,
                    without_prefix(rest@) == without_prefix(path@),
                decreases rest.len(),
            {
                let ghost all = rest@;
                rest = part(&rest, 4, rest.len());
                assert(rest@ =~= all.skip(4));
            }
            Ok(string_of(&rest))
        },
    }
}

/// What the task runs.
pub fn task_tr(exe: Result<String, String>) -> (r: Result<String, String>)
    ensures
        text::result_text(r) == match exe {
            Ok(path) => Ok(task_command(without_prefix(path@))),
            Err(e) => Err("current_exe: "@ + e@),
        },
{
    match exe_path_clean(exe) {
        Err(e) => Err(e),
        Ok(path) => {
            let chars = chars_of(path.as_str());
            let k = find_char(&chars, ' ');
            proof {
                text::lemma_first_in(chars@, text::only(' '));
                if k < chars.len() {
                    assert(chars@[k as int] == ' ');
                } else if path@.contains(' ') {
                    let i = choose|i: int| 0 <= i < path@.len() && path@[i] == ' ';
                    assert(!text::only(' ')(chars@[i]));
                }
            }
            if k < chars.len() {
                let mut s = "\"".to_owned();
                s.append(path.as_str());
                s.append("\" --tray");
                Ok(s)
            } else {
                let mut s = path;
                s.append(" --tray");
                Ok(s)
            }
        },
    }
}

// ---------------------------------------------------------------------------
// The task

/// What came of running the scheduler's command.
#[derive(Debug)]
pub struct TaskOutput {
    pub success: bool,
    pub stderr: String,
    pub stdout: String,
}

fn arguments(v: &[&'static str]) -> (r: Vec<String>)
    ensures
        r.len() == v.len(),
        forall|i: int| 0 <= i < r.len() ==> (#[trigger] r@[i])@ == v@[i]@,
{
    let mut out: Vec<String> = Vec::new();
    for i in 0..v.len()
        invariant
            out.len() == i,
            forall|k: int| 0 <= k < i ==> (#[trigger] out@[k])@ == v@[k]@,
    {
        out.push(v[i].to_owned());
    }
    out
}

/// The command that asks whether the task is there.
pub open spec fn query_task() -> Seq<Seq<char>> {
    seq!["/Query"@, "/TN"@, TASK_NAME@]
}

/// The command that makes the task: at the logon of the user, with the highest
/// rights, in the place of one that may be there.
pub open spec fn create_task(command: Seq<char>) -> Seq<Seq<char>> {
    seq![
        "/Create"@,
        "/TN"@,
        TASK_NAME@,
        "/TR"@,
        command,
        "/SC"@,
        "ONLOGON"@,
        "/RL"@,
        "HIGHEST"@,
        "/F"@,
    ]
}

/// The command that deletes the task.
pub open spec fn delete_task() -> Seq<Seq<char>> {
    seq!["/Delete"@, "/TN"@, TASK_NAME@, "/F"@]
}

/// The command that asks whether the task is there.
pub fn query_args() -> (r: Vec<String>)
    ensures
        text::texts(r@) == query_task(),
{
    let r = arguments(&["/Query", "/TN", TASK_NAME]);
    assert(text::texts(r@) =~= query_task());
    r
}

/// Whether the task is there, by what came of the command that asks.
pub fn task_exists(output: &Result<TaskOutput, String>) -> (r: bool)
    ensures
        r == worked(*output),
{
    match output {
        Ok(o) => o.success,
        Err(_) => false,
    }
}

/// Whether the program starts with Windows: by the task, or by an old entry.
pub fn is_enabled(task: bool, legacy: &Option<String>) -> (r: bool)
    ensures
        r == (task || (legacy is Some && text::has(text::lowercase(legacy->0@), "spoolctl"@))),
{
    task || legacy_run_enabled(legacy)
}

/// Whether a command, in lower case, names the program.
pub fn names_program(lower: &str) -> (r: bool)
    ensures
        r == text::has(lower@, "spoolctl"@),
{
    contains_text(&chars_of(lower), "spoolctl")
}

fn legacy_run_enabled(legacy: &Option<String>) -> (r: bool)
    ensures
        r == (legacy is Some && text::has(text::lowercase(legacy->0@), "spoolctl"@)),
{
    match legacy {
        None => false,
        Some(v) => names_program(to_lowercase(v.as_str()).as_str()),
    }
}

/// A command that could not be run at all, in words.
pub fn schtasks_failed(error: &str) -> (r: String)
    ensures
        r@ == "schtasks: "@ + error@,
{
    let mut s = "schtasks: ".to_owned();
    s.append(error);
    s
}

// ---------------------------------------------------------------------------
// Switching

/// What is being waited for.
#[derive(Debug, Clone, Copy, PartialEq, Eq, Structural)]
pub enum Phase {
    /// The scheduler is asked whether the task is there.
    Asking,
    /// The task is being made or deleted.
    Changing,
    /// The old entry is being taken away.
    Cleaning,
    /// The change is being put in the log.
    Noting,
    /// Nothing: the switch is turned, or it could not be.
    Over,
}

/// The state of the work: [`enable`] and [`disable`] begin it.
#[derive(Debug, Clone, Copy, PartialEq, Eq, Structural)]
pub struct Switch {
    /// Whether the start with Windows is switched on.
    pub on: bool,
    /// Whether the program has the rights of an administrator.
    pub elevated: bool,
    pub phase: Phase,
}

/// The next call.
#[derive(Debug, PartialEq, Eq)]
pub enum Act {
    /// Run the scheduler's command with these arguments.
    Schtasks(Vec<String>),
    /// Delete [`RUN_VALUE`] from [`RUN_KEY`] of the user.
    DeleteOldEntry,
    /// Put this in the log.
    Log(String),
    /// No call: the switch is turned.
    Done,
    /// No call: the switch could not be turned.
    Failed(String),
}

/// How a call went.
#[derive(Debug)]
pub enum Event {
    /// What came of the scheduler's command.
    Output(Result<TaskOutput, String>),
    /// What came of taking the old entry away.
    OldEntry(Result<(), String>),
    Logged,
}

/// An [`Act`] as a value of its own.
pub enum ActView {
    Schtasks(Seq<Seq<char>>),
    DeleteOldEntry,
    Log(Seq<char>),
    Done,
    Failed(Seq<char>),
}

impl View for Act {
    type V = ActView;

    open spec fn view(&self) -> ActView {
        match self {
            Act::Schtasks(args) => ActView::Schtasks(text::texts(args@)),
            Act::DeleteOldEntry => ActView::DeleteOldEntry,
            Act::Log(note) => ActView::Log(note@),
            Act::Done => ActView::Done,
            Act::Failed(e) => ActView::Failed(e@),
        }
    }
}

/// The scheduler's command was run and has succeeded.
pub open spec fn worked(output: Result<TaskOutput, String>) -> bool {
    output is Ok && output->Ok_0.success
}

/// What is put in the log once the task is changed.
pub open spec fn change_note(on: bool) -> Seq<char> {
    if on {
        "Автозапуск: задача планировщика «SpoolCtl» (/RL HIGHEST, --tray)"@
    } else {
        "Автозапуск: задача планировщика удалена"@
    }
}

/// What a failed command has said.
pub open spec fn task_error(what: Seq<char>, o: TaskOutput) -> Seq<char> {
    what + text::trim(o.stderr@) + " "@ + text::trim(o.stdout@)
}

/// Why the task was not changed.
pub open spec fn change_error(on: bool, output: Result<TaskOutput, String>) -> Seq<char> {
    match output {
        Err(e) => e@,
        Ok(o) => task_error(
            if on {
                "Не удалось создать задачу автозапуска: "@
            } else {
                "Не удалось удалить задачу автозапуска: "@
            },
            o,
        ),
    }
}

/// Why a task stays where the rights to change it are missing.
pub open spec fn rights_error(on: bool) -> Seq<char> {
    if on {
        "Автозапуск с правами администратора: откройте SpoolCtl «от имени администратора» и снова включите галочку (один раз)."@
    } else {
        "Чтобы выключить автозапуск с правами администратора, откройте SpoolCtl «от имени администратора»."@
    }
}

/// The work of switching on, at its very beginning.
pub open spec fn on_begun(elevated: bool, exe: Result<String, String>) -> (Switch, ActView) {
    let s = Switch { on: true, elevated, phase: Phase::Changing };
    if !elevated {
        over(s, ActView::Failed(rights_error(true)))
    } else {
        match exe {
            Ok(path) => (s, ActView::Schtasks(create_task(task_command(without_prefix(path@))))),
            Err(e) => over(s, ActView::Failed("current_exe: "@ + e@)),
        }
    }
}

/// The work of switching off, at its very beginning.
pub open spec fn off_begun(elevated: bool) -> (Switch, ActView) {
    (Switch { on: false, elevated, phase: Phase::Asking }, ActView::Schtasks(query_task()))
}

/// The end of the work.
pub open spec fn over(s: Switch, act: ActView) -> (Switch, ActView) {
    (Switch { phase: Phase::Over, ..s }, act)
}

/// The old entry goes.
pub open spec fn clean(s: Switch) -> (Switch, ActView) {
    (Switch { phase: Phase::Cleaning, ..s }, ActView::DeleteOldEntry)
}

/// The change is told.
pub open spec fn tell(s: Switch) -> (Switch, ActView) {
    (Switch { phase: Phase::Noting, ..s }, ActView::Log(change_note(s.on)))
}

/// The event tells how the call went that is being waited for.
pub open spec fn answers(s: Switch, e: Event) -> bool {
    match e {
        Event::Output(_) => s.phase is Asking || s.phase is Changing,
        Event::OldEntry(_) => s.phase is Cleaning,
        Event::Logged => s.phase is Noting,
    }
}

/// What follows an event. Switching on, the old entry goes before the change is told;
/// switching off, after it.
pub open spec fn next(s: Switch, e: Event) -> (Switch, ActView) {
    match e {
        Event::Output(output) => if s.phase is Asking {
            if !worked(output) {
                clean(s)
            } else if !s.elevated {
                over(s, ActView::Failed(rights_error(s.on)))
            } else {
                (Switch { phase: Phase::Changing, ..s }, ActView::Schtasks(delete_task()))
            }
        } else if !worked(output) {
            over(s, ActView::Failed(change_error(s.on, output)))
        } else if s.on {
            clean(s)
        } else {
            tell(s)
        },
        Event::OldEntry(_) => if s.on {
            tell(s)
        } else {
            over(s, ActView::Done)
        },
        Event::Logged => if s.on {
            over(s, ActView::Done)
        } else {
            clean(s)
        },
    }
}

fn task_failure(what: &str, o: &TaskOutput) -> (r: String)
    ensures
        r@ == task_error(what@, *o),
{
    let mut s = what.to_owned();
    s.append(trim_text(o.stderr.as_str()).as_str());
    s.append(" ");
    s.append(trim_text(o.stdout.as_str()).as_str());
    s
}

fn rights_missing(on: bool) -> (r: String)
    ensures
        r@ == rights_error(on),
{
    if on {
        "Автозапуск с правами администратора: откройте SpoolCtl «от имени администратора» и снова включите галочку (один раз).".to_owned()
    } else {
        "Чтобы выключить автозапуск с правами администратора, откройте SpoolCtl «от имени администратора».".to_owned()
    }
}

/// Begins to switch the start with Windows on, for whoever may do so.
pub fn enable(elevated: bool, exe: Result<String, String>) -> (r: (Switch, Act))
    ensures
        (r.0, r.1@) == on_begun(elevated, exe),
{
    let over = Switch { on: true, elevated, phase: Phase::Over };
    if !elevated {
        return (over, Act::Failed(rights_missing(true)));
    }
    match task_tr(exe) {
        Err(e) => (over, Act::Failed(e)),
        Ok(command) => {
            let mut v = arguments(&["/Create", "/TN", TASK_NAME, "/TR"]);
            v.push(command);
            v.push("/SC".to_owned());
            v.push("ONLOGON".to_owned());
            v.push("/RL".to_owned());
            v.push("HIGHEST".to_owned());
            v.push("/F".to_owned());
            assert(text::texts(v@) =~= create_task(command@));
            (Switch { on: true, elevated, phase: Phase::Changing }, Act::Schtasks(v))
        },
    }
}

/// Begins to switch the start with Windows off.
pub fn disable(elevated: bool) -> (r: (Switch, Act))
    ensures
        (r.0, r.1@) == off_begun(elevated),
{
    (Switch { on: false, elevated, phase: Phase::Asking }, Act::Schtasks(query_args()))
}

impl Switch {
    /// Whether the event tells how the call went that is being waited for.
    pub fn awaits(&self, event: &Event) -> (r: bool)
        ensures
            r == answers(*self, *event),
    {
        match event {
            Event::Output(_) => self.phase == Phase::Asking || self.phase == Phase::Changing,
            Event::OldEntry(_) => self.phase == Phase::Cleaning,
            Event::Logged => self.phase == Phase::Noting,
        }
    }

    fn end(&mut self, act: Act) -> (r: Act)
        ensures
            (*final(self), r@) == over(*old(self), act@),
    {
        self.phase = Phase::Over;
        act
    }

    fn clean(&mut self) -> (r: Act)
        ensures
            (*final(self), r@) == clean(*old(self)),
    {
        self.phase = Phase::Cleaning;
        Act::DeleteOldEntry
    }

    fn tell(&mut self) -> (r: Act)
        ensures
            (*final(self), r@) == tell(*old(self)),
    {
        self.phase = Phase::Noting;
        if self.on {
            Act::Log("Автозапуск: задача планировщика «SpoolCtl» (/RL HIGHEST, --tray)".to_owned())
        } else {
            Act::Log("Автозапуск: задача планировщика удалена".to_owned())
        }
    }

    fn asked(&mut self, output: Result<TaskOutput, String>) -> (r: Act)
        requires
            old(self).phase is Asking,
        ensures
            (*final(self), r@) == next(*old(self), Event::Output(output)),
    {
        if !task_exists(&output) {
            return self.clean();
        }
        if !self.elevated {
            let e = rights_missing(self.on);
            return self.end(Act::Failed(e));
        }
        self.phase = Phase::Changing;
        let v = arguments(&["/Delete", "/TN", TASK_NAME, "/F"]);
        assert(text::texts(v@) =~= delete_task());
        Act::Schtasks(v)
    }

    fn changed(&mut self, output: Result<TaskOutput, String>) -> (r: Act)
        requires
            old(self).phase is Changing,
        ensures
            (*final(self), r@) == next(*old(self), Event::Output(output)),
    {
        match output {
            Err(e) => self.end(Act::Failed(e)),
            Ok(o) => {
                if !o.success {
                    let what = if self.on {
                        "Не удалось создать задачу автозапуска: "
                    } else {
                        "Не удалось удалить задачу автозапуска: "
                    };
                    let e = task_failure(what, &o);
                    self.end(Act::Failed(e))
                } else if self.on {
                    self.clean()
                } else {
                    self.tell()
                }
            },
        }
    }

    /// What follows an event.
    pub fn step(&mut self, event: Event) -> (r: Act)
        requires
            answers(*old(self), event),
        ensures
            (*final(self), r@) == next(*old(self), event),
    {
        match event {
            Event::Output(output) => if self.phase == Phase::Asking {
                self.asked(output)
            } else {
                self.changed(output)
            },
            Event::OldEntry(_) => if self.on {
                self.tell()
            } else {
                self.end(Act::Done)
            },
            Event::Logged => if self.on {
                self.end(Act::Done)
            } else {
                self.clean()
            },
        }
    }
}

/// The calls that follow these events, up to one that answers no call.
pub open spec fn run(s: Switch, events: Seq<Event>) -> Seq<ActView>
    decreases events.len(),
{
    if events.len() == 0 || !answers(s, events[0]) {
        seq![]
    } else {
        seq![next(s, events[0]).1] + run(next(s, events[0]).0, events.skip(1))
    }
}

proof fn lemma_run(s: Switch, events: Seq<Event>, e: Event, more: Seq<Event>)
    requires
        answers(s, e),
        events == seq![e] + more,
    ensures
        run(s, events) == seq![next(s, e).1] + run(next(s, e).0, more),
{
    assert(events.skip(1) =~= more);
}

/// Once the work is done or has failed, no call follows, whatever comes.
pub proof fn law_nothing_follows_the_end(s: Switch, e: Event, events: Seq<Event>)
    requires
        answers(s, e),
        next(s, e).1 is Done || next(s, e).1 is Failed,
    ensures
        run(next(s, e).0, events) == Seq::<ActView>::empty(),
{
}

/// Switching on, the old entry goes once the task is made, whatever comes of that, and
/// the change is told; it stays where the task could not be made.
pub proof fn law_enabling_takes_the_old_entry_away(
    elevated: bool,
    exe: Result<String, String>,
    made: Result<TaskOutput, String>,
    deleted: Result<(), String>,
    events: Seq<Event>,
)
    ensures
        on_begun(elevated, exe).1 is Failed <==> !elevated || exe is Err,
        !elevated || exe is Err ==> run(on_begun(elevated, exe).0, events) == Seq::<
            ActView,
        >::empty(),
        elevated && exe is Ok && !worked(made) ==> run(
            on_begun(elevated, exe).0,
            seq![Event::Output(made)] + events,
        ) == seq![ActView::Failed(change_error(true, made))],
        elevated && exe is Ok && worked(made) ==> run(
            on_begun(elevated, exe).0,
            seq![Event::Output(made), Event::OldEntry(deleted), Event::Logged] + events,
        ) == seq![ActView::DeleteOldEntry, ActView::Log(change_note(true)), ActView::Done],
{
    let s = on_begun(elevated, exe).0;
    if elevated && exe is Ok {
        let e = Event::Output(made);
        if worked(made) {
            let all = seq![e, Event::OldEntry(deleted), Event::Logged] + events;
            let rest = seq![Event::OldEntry(deleted), Event::Logged] + events;
            let last = seq![Event::Logged] + events;
            assert(all =~= seq![e] + rest);
            assert(rest =~= seq![Event::OldEntry(deleted)] + last);
            lemma_run(s, all, e, rest);
            lemma_run(next(s, e).0, rest, Event::OldEntry(deleted), last);
            lemma_run(tell(next(s, e).0).0, last, Event::Logged, events);
            assert(run(s, all) =~= seq![
                ActView::DeleteOldEntry,
                ActView::Log(change_note(true)),
                ActView::Done,
            ]);
        } else {
            lemma_run(s, seq![e] + events, e, events);
            assert(run(s, seq![e] + events) =~= seq![ActView::Failed(change_error(true, made))]);
        }
    }
}

/// Switching off without a task, only the old entry goes: for that no rights are
/// needed, and whatever comes of it the switch is turned.
pub proof fn law_disabling_without_a_task(
    elevated: bool,
    asked: Result<TaskOutput, String>,
    deleted: Result<(), String>,
    events: Seq<Event>,
)
    requires
        !worked(asked),
    ensures
        run(
            off_begun(elevated).0,
            seq![Event::Output(asked), Event::OldEntry(deleted)] + events,
        ) == seq![ActView::DeleteOldEntry, ActView::Done],
{
    let s = off_begun(elevated).0;
    let e = Event::Output(asked);
    let all = seq![e, Event::OldEntry(deleted)] + events;
    let rest = seq![Event::OldEntry(deleted)] + events;
    assert(all =~= seq![e] + rest);
    lemma_run(s, all, e, rest);
    lemma_run(clean(s).0, rest, Event::OldEntry(deleted), events);
    assert(run(s, all) =~= seq![ActView::DeleteOldEntry, ActView::Done]);
}

/// Switching off with a task, both the task and the old entry stay where the rights
/// are missing; the old entry stays where the task could not be deleted; else the task
/// goes, that is told, and the old entry goes.
pub proof fn law_disabling_with_a_task(
    elevated: bool,
    asked: Result<TaskOutput, String>,
    deleted: Result<TaskOutput, String>,
    old_deleted: Result<(), String>,
    events: Seq<Event>,
)
    requires
        worked(asked),
    ensures
        !elevated ==> run(off_begun(elevated).0, seq![Event::Output(asked)] + events)
            == seq![ActView::Failed(rights_error(false))],
        elevated && !worked(deleted) ==> run(
            off_begun(elevated).0,
            seq![Event::Output(asked), Event::Output(deleted)] + events,
        ) == seq![
            ActView::Schtasks(delete_task()),
            ActView::Failed(change_error(false, deleted)),
        ],
        elevated && worked(deleted) ==> run(
            off_begun(elevated).0,
            seq![
                Event::Output(asked),
                Event::Output(deleted),
                Event::Logged,
                Event::OldEntry(old_deleted),
            ] + events,
        ) == seq![
            ActView::Schtasks(delete_task()),
            ActView::Log(change_note(false)),
            ActView::DeleteOldEntry,
            ActView::Done,
        ],
{
    let s = off_begun(elevated).0;
    let e = Event::Output(asked);
    let d = Event::Output(deleted);
    let s1 = next(s, e).0;
    if !elevated {
        lemma_run(s, seq![e] + events, e, events);
        assert(run(s, seq![e] + events) =~= seq![ActView::Failed(rights_error(false))]);
    } else if !worked(deleted) {
        let all = seq![e, d] + events;
        assert(all =~= seq![e] + (seq![d] + events));
        lemma_run(s, all, e, seq![d] + events);
        lemma_run(s1, seq![d] + events, d, events);
        assert(run(s, all) =~= seq![
            ActView::Schtasks(delete_task()),
            ActView::Failed(change_error(false, deleted)),
        ]);
    } else {
        let old = Event::OldEntry(old_deleted);
        let all = seq![e, d, Event::Logged, old] + events;
        let told = seq![Event::Logged, old] + events;
        let last = seq![old] + events;
        assert(all =~= seq![e] + (seq![d] + told));
        assert(told =~= seq![Event::Logged] + last);
        lemma_run(s, all, e, seq![d] + told);
        lemma_run(s1, seq![d] + told, d, told);
        lemma_run(tell(s1).0, told, Event::Logged, last);
        lemma_run(clean(tell(s1).0).0, last, old, events);
        assert(run(s, all) =~= seq![
            ActView::Schtasks(delete_task()),
            ActView::Log(change_note(false)),
            ActView::DeleteOldEntry,
            ActView::Done,
        ]);
    }
}

// ---------------------------------------------------------------------------
// The old entry

/// How large a buffer the old entry needs, by the codes of opening the key and of
/// measuring the value: `None` where there is no entry.
pub fn run_value_size(open: u32, probe: u32, needed: u32) -> (r: Option<u32>)
    ensures
        r == (if open == 0 && probe == 0 && needed != 0 {
            Some(needed)
        } else {
            None::<u32>
        }),
{
    if open == 0 && probe == 0 && needed != 0 {
        Some(needed)
    } else {
        None
    }
}

/// The text of the old entry: its bytes up to the first NUL.
pub open spec fn run_text(bytes: Seq<u8>) -> Seq<char> {
    wide::utf16_lossy(wide::before_nul(wide::le_units(bytes)))
}

/// The old entry, if it is there and could be read.
pub fn read_run_value(open: u32, probe: u32, needed: u32, read: u32, bytes: &Vec<u8>) -> (r: Option<
    String,
>)
    ensures
        text::opt_text(r) == if open == 0 && probe == 0 && needed != 0 && read == 0 {
            Some(run_text(bytes@))
        } else {
            None
        },
{
    if run_value_size(open, probe, needed).is_none() || read != 0 {
        return None;
    }
    Some(decode_lossy(&until_nul(&units_of_bytes(bytes))))
}

/// An entry that was written as a wide string reads back as its text, whatever
/// stands behind the NUL.
pub proof fn law_run_value_reads_back(bytes: Seq<u8>, s: Seq<char>, junk: Seq<u16>)
    requires
        !s.contains('\0'),
        wide::le_units(bytes) == wide::wide(s) + junk,
    ensures
        run_text(bytes) == s,
{
    wide::lemma_no_nul(s);
    wide::law_utf16_reads_back(s);
    wide::lemma_before_nul(wide::utf16(s), seq![0u16] + junk);
    assert(wide::wide(s) + junk =~= wide::utf16(s) + (seq![0u16] + junk));
}

/// What came of taking the old entry away, by the codes of opening the key and of
/// deleting the value: an entry that is not there needs no taking away.
pub fn delete_legacy_run(open: u32, delete: u32) -> (r: Result<(), String>)
    ensures
        text::unit_result_text(r) == if open != 0 || delete == 0 || delete == 2 {
            Ok(())
        } else {
            Err("RegDeleteValue: код "@ + number::decimal(delete as nat))
        },
{
    if open != 0 || delete == 0 || delete == ERROR_FILE_NOT_FOUND {
        return Ok(());
    }
    let mut s = "RegDeleteValue: код ".to_owned();
    push_decimal(&mut s, delete as u128);
    Err(s)
}

// ---------------------------------------------------------------------------
// What holds of the task

/// The task runs the program in the tray; its path loses every prefix that switches
/// path parsing off, and gets quotation marks where it holds a space.
pub proof fn law_task_runs_the_program(path: Seq<char>)
    ensures
        without_prefix("\\\\?\\"@ + path) == without_prefix(path),
        !text::begins(path, "\\\\?\\"@) ==> without_prefix(path) == path,
        path.contains(' ') ==> task_command(path) == "\""@ + path + "\" --tray"@,
        !path.contains(' ') ==> task_command(path) == path + " --tray"@,
{
    reveal_strlit("\\\\?\\");
    let s = "\\\\?\\"@ + path;
    assert(s.subrange(0, 4) =~= "\\\\?\\"@);
    assert(s.skip(4) =~= path);
}

/// The scheduler is asked for the task by its name; it is made for the logon of the
/// user, with the highest rights, over one that may be there; and deleted without a
/// question.
pub proof fn law_scheduler_is_told_the_task(command: Seq<char>)
    ensures
        query_task() == seq!["/Query"@, "/TN"@, "SpoolCtl"@],
        create_task(command) == seq![
            "/Create"@,
            "/TN"@,
            "SpoolCtl"@,
            "/TR"@,
            command,
            "/SC"@,
            "ONLOGON"@,
            "/RL"@,
            "HIGHEST"@,
            "/F"@,
        ],
        delete_task() == seq!["/Delete"@, "/TN"@, "SpoolCtl"@, "/F"@],
{
}

/// Switching on begins with making the task, and switching off with asking for it; a
/// failure of the scheduler is said with what it has written, and missing rights by how
/// they are got.
pub proof fn law_switching_says_what_failed(
    elevated: bool,
    path: String,
    error: String,
    o: TaskOutput,
)
    ensures
        on_begun(true, Ok(path)).1 == ActView::Schtasks(
            create_task(task_command(without_prefix(path@))),
        ),
        on_begun(true, Err(error)).1 == ActView::Failed("current_exe: "@ + error@),
        on_begun(false, Ok(path)).1 == ActView::Failed(
            "Автозапуск с правами администратора: откройте SpoolCtl «от имени администратора» и снова включите галочку (один раз)."@,
        ),
        off_begun(elevated).1 == ActView::Schtasks(query_task()),
        rights_error(false)
            == "Чтобы выключить автозапуск с правами администратора, откройте SpoolCtl «от имени администратора»."@,
        change_error(true, Err(error)) == error@,
        change_error(false, Err(error)) == error@,
        change_error(true, Ok(o)) == "Не удалось создать задачу автозапуска: "@ + text::trim(
            o.stderr@,
        ) + " "@ + text::trim(o.stdout@),
        change_error(false, Ok(o)) == "Не удалось удалить задачу автозапуска: "@ + text::trim(
            o.stderr@,
        ) + " "@ + text::trim(o.stdout@),
        change_note(true) == "Автозапуск: задача планировщика «SpoolCtl» (/RL HIGHEST, --tray)"@,
        change_note(false) == "Автозапуск: задача планировщика удалена"@,
        worked(Ok(o)) == o.success,
        !worked(Err(error)),
{
}

// ---------------------------------------------------------------------------
// Values as they are seen

/// A call is seen as what it is, with what it is made with.
pub proof fn law_acts_are_seen_as_they_are(args: Vec<String>, s: String)
    ensures
        Act::Schtasks(args)@ == ActView::Schtasks(text::texts(args@)),
        Act::DeleteOldEntry@ == ActView::DeleteOldEntry,
        Act::Log(s)@ == ActView::Log(s@),
        Act::Done@ == ActView::Done,
        Act::Failed(s)@ == ActView::Failed(s@),
{
}

} // verus!
