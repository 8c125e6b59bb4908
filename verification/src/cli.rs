//! The command line: which window or command it asks for, and what the commands say.

use vstd::prelude::*;
use crate::clock::MILLISECOND;
use crate::control::Goal;
use crate::host;
use crate::host::Host;
use crate::lines;
use crate::lines::join_texts;
use crate::log::Level;
use crate::number;
use crate::number::push_decimal;
use crate::os::OsVersion;
use crate::queue;
use crate::queue::{ClearReport, QueueSnapshot};
use crate::spooler;
use crate::spooler::SpoolerStatus;
use crate::text;
use crate::text::{begins_with, chars_of, part, string_of};

verus! {

/// The version of the program.
pub const APP_VERSION: &'static str = "0.2.0";

/// The code with which the program ends when its arguments are wrong.
pub const MISUSE_CODE: i32 = 2;

// ---------------------------------------------------------------------------
// The window or a command

/// What the command line asks for.
#[derive(Debug, Clone, Copy, PartialEq, Eq, Structural)]
pub enum Launch {
    /// The window.
    Window,
    /// The window, hidden in the tray.
    InTray,
    /// The window, in front of all others, after the program was started again with
    /// more rights.
    InFront,
    /// A command.
    Command,
}

/// The first argument asks for the tray.
pub open spec fn tray_flag(args: Seq<Seq<char>>) -> bool {
    args.len() > 0 && (args[0] == "--tray"@ || args[0] == "tray"@ || args[0] == "/tray"@)
}

/// The first argument asks for the window.
pub open spec fn show_flag(args: Seq<Seq<char>>) -> bool {
    args.len() > 0 && (args[0] == "--show"@ || args[0] == "show"@ || args[0] == "/show"@)
}

/// Whether the first argument asks for the tray.
pub fn is_tray_launch(args: &[String]) -> (r: bool)
    ensures
        r == tray_flag(text::texts(args@)),
{
    args.len() > 0 && (text::same(args[0].as_str(), "--tray") || text::same(
        args[0].as_str(),
        "tray",
    ) || text::same(args[0].as_str(), "/tray"))
}

/// Whether the first argument asks for the window.
pub fn is_show_launch(args: &[String]) -> (r: bool)
    ensures
        r == show_flag(text::texts(args@)),
{
    args.len() > 0 && (text::same(args[0].as_str(), "--show") || text::same(
        args[0].as_str(),
        "show",
    ) || text::same(args[0].as_str(), "/show"))
}

/// Whether the first argument asks for the window in any way.
pub fn is_gui_flag(args: &[String]) -> (r: bool)
    ensures
        r == (tray_flag(text::texts(args@)) || show_flag(text::texts(args@))),
{
    is_tray_launch(args) || is_show_launch(args)
}

/// What the command line asks for: without arguments, the window.
pub fn launch(args: &[String]) -> (r: Launch)
    ensures
        r == (if tray_flag(text::texts(args@)) {
            Launch::InTray
        } else if show_flag(text::texts(args@)) {
            Launch::InFront
        } else if args@.len() == 0 {
            Launch::Window
        } else {
            Launch::Command
        }),
{
    if is_tray_launch(args) {
        Launch::InTray
    } else if is_show_launch(args) {
        Launch::InFront
    } else if args.len() == 0 {
        Launch::Window
    } else {
        Launch::Command
    }
}

impl Launch {
    /// What is put in the log when the window is opened.
    pub fn log_ru(self) -> (r: &'static str)
        ensures
            r@ == match self {
                Launch::InTray => "Запуск GUI в трее"@,
                Launch::InFront => "Запуск GUI после UAC (окно на передний план)"@,
                _ => "Запуск GUI"@,
            },
    {
        match self {
            Launch::InTray => "Запуск GUI в трее",
            Launch::InFront => "Запуск GUI после UAC (окно на передний план)",
            _ => "Запуск GUI",
        }
    }
}

/// Whether the window can be shown on this version of Windows; on one that is not
/// known it is tried.
pub fn gui_supported(version: Option<OsVersion>) -> (r: bool)
    ensures
        r == (version is None || version->0.major >= 10),
{
    match version {
        None => true,
        Some(v) => v.is_windows_10_or_newer(),
    }
}

/// The version in words.
pub open spec fn version_words(version: Option<OsVersion>) -> Seq<char> {
    match version {
        Some(v) => number::decimal(v.major as nat) + "."@ + number::decimal(v.minor as nat) + "."@
            + number::decimal(v.build as nat),
        None => "неизвестна"@,
    }
}

fn version_text(version: Option<OsVersion>) -> (r: String)
    ensures
        r@ == version_words(version),
{
    match version {
        Some(v) => v.display(),
        None => "неизвестна".to_owned(),
    }
}

/// What is put in the log where the window cannot be shown.
pub fn unsupported_log_ru(version: Option<OsVersion>) -> (r: String)
    ensures
        r@ == "GUI недоступен на этой ОС ("@ + version_words(version) + "); используйте CLI"@,
{
    let mut s = "GUI недоступен на этой ОС (".to_owned();
    s.append(version_text(version).as_str());
    s.append("); используйте CLI");
    s
}

/// What the user is told where the window cannot be shown.
pub fn unsupported_ru(version: Option<OsVersion>) -> (r: String)
    ensures
        r@
            == "Графический интерфейс SpoolCtl рассчитан на Windows 10 / 11.\n\nОбнаружена ОС: "@
            + version_words(version)
            + "\n\nНа Windows 7 используйте командную строку:\nSpoolCtl.exe status\nSpoolCtl.exe restart\nSpoolCtl.exe fix\n\nИли папку Windows7-CLI (status.cmd / restart.cmd / fix.cmd)."@,
{
    let mut s =
        "Графический интерфейс SpoolCtl рассчитан на Windows 10 / 11.\n\nОбнаружена ОС: ".to_owned();
    s.append(version_text(version).as_str());
    s.append(
        "\n\nНа Windows 7 используйте командную строку:\nSpoolCtl.exe status\nSpoolCtl.exe restart\nSpoolCtl.exe fix\n\nИли папку Windows7-CLI (status.cmd / restart.cmd / fix.cmd).",
    );
    s
}

/// What the user is told where the window could not be opened.
pub fn graphics_failed_ru(detail: &str) -> (r: String)
    ensures
        r@ == "Не удалось открыть окно SpoolCtl (графика).\n\n"@ + detail@
            + "\n\nОбновите драйвер видеокарты или используйте командную строку:\nSpoolCtl.exe status\nSpoolCtl.exe restart\nSpoolCtl.exe fix\n\nЖурнал: папка logs рядом с EXE."@,
{
    let mut s = "Не удалось открыть окно SpoolCtl (графика).\n\n".to_owned();
    s.append(detail);
    s.append(
        "\n\nОбновите драйвер видеокарты или используйте командную строку:\nSpoolCtl.exe status\nSpoolCtl.exe restart\nSpoolCtl.exe fix\n\nЖурнал: папка logs рядом с EXE.",
    );
    s
}

// ---------------------------------------------------------------------------
// The target

/// The argument says that the next one names the target.
pub open spec fn host_flag(a: Seq<char>) -> bool {
    a == "--host"@ || a == "/host"@ || a == "-H"@
}

/// Takes the options that name the target out of the arguments: `name` is the target
/// so far, and `rest` the arguments so far that are no such options. The last option
/// counts.
pub open spec fn host_args(
    args: Seq<Seq<char>>,
    name: Seq<char>,
    rest: Seq<Seq<char>>,
) -> Result<(Seq<char>, Seq<Seq<char>>), Seq<char>>
    decreases args.len(),
{
    if args.len() == 0 {
        Ok((name, rest))
    } else if host_flag(args[0]) {
        if args.len() < 2 {
            Err("После --host нужно имя ПК или IP."@)
        } else {
            match host::parse_host(args[1]) {
                Ok(n) => host_args(args.skip(2), n, rest),
                Err(e) => Err(e),
            }
        }
    } else if text::begins(args[0], "--host="@) {
        match host::parse_host(args[0].skip(7)) {
            Ok(n) => host_args(args.skip(1), n, rest),
            Err(e) => Err(e),
        }
    } else {
        host_args(args.skip(1), name, rest.push(args[0]))
    }
}

/// A target and the arguments that are left, or what is wrong.
pub open spec fn host_args_result(r: Result<(Host, Vec<String>), String>) -> Result<
    (Seq<char>, Seq<Seq<char>>),
    Seq<char>,
> {
    match r {
        Ok((h, v)) => Ok((h@, text::texts(v@))),
        Err(e) => Err(e@),
    }
}

/// Takes the options that name the target out of the arguments.
pub fn parse_host_args(args: &[String]) -> (r: Result<(Host, Vec<String>), String>)
    ensures
        host_args_result(r) == host_args(text::texts(args@), Seq::empty(), Seq::empty()),
{
    let ghost all = text::texts(args@);
    let mut target = Host::local();
    let mut rest: Vec<String> = Vec::new();
    let mut i: usize = 0;
    proof {
        reveal_strlit("--host=");
        assert("--host="@.len() == 7);
        assert(target@ =~= Seq::empty());
        assert(text::texts(rest@) =~= Seq::empty());
        assert(all.skip(0) =~= all);
    }
    while i < args.len()
        invariant
            i <= args.len(),
            all == text::texts(args@),
            "--host="@.len() == 7,
            host_args(all, Seq::empty(), Seq::empty()) == host_args(
                all.skip(i as int),
                target@,
                text::texts(rest@),
            ),
        decreases args.len() - i,
    {
        let ghost here = all.skip(i as int);
        assert(here[0] == args@[i as int]@);
        assert(here.skip(1) =~= all.skip(i + 1));
        let a = args[i].as_str();
        if text::same(a, "--host") || text::same(a, "/host") || text::same(a, "-H") {
            if i + 1 >= args.len() {
                return Err("После --host нужно имя ПК или IP.".to_owned());
            }
            assert(here[1] == args@[i + 1]@);
            assert(here.skip(2) =~= all.skip(i + 2));
            match Host::parse(args[i + 1].as_str()) {
                Ok(h) => {
                    target = h;
                },
                Err(e) => {
                    return Err(e);
                },
            }
            i += 2;
            continue ;
        }
        let chars = chars_of(a);
        if begins_with(&chars, "--host=") {
            let value = part(&chars, 7, chars.len());
            assert(value@ =~= here[0].skip(7));
            match Host::parse(string_of(&value).as_str()) {
                Ok(h) => {
                    target = h;
                },
                Err(e) => {
                    return Err(e);
                },
            }
            i += 1;
            continue ;
        }
        let ghost before = text::texts(rest@);
        rest.push(a.to_owned());
        assert(text::texts(rest@) =~= before.push(here[0]));
        i += 1;
    }
    assert(all.skip(args.len() as int).len() == 0);
    Ok((target, rest))
}

/// The argument has nothing to do with the target.
pub open spec fn no_host_option(a: Seq<char>) -> bool {
    !host_flag(a) && !text::begins(a, "--host="@)
}

proof fn lemma_plain_arguments(
    a: Seq<Seq<char>>,
    more: Seq<Seq<char>>,
    name: Seq<char>,
    rest: Seq<Seq<char>>,
)
    requires
        forall|i: int| 0 <= i < a.len() ==> no_host_option(#[trigger] a[i]),
    ensures
        host_args(a + more, name, rest) == host_args(more, name, rest + a),
    decreases a.len(),
{
    if a.len() == 0 {
        assert(a + more =~= more);
        assert(rest + a =~= rest);
    } else {
        let b = a.drop_first();
        assert((a + more)[0] == a[0]);
        assert(no_host_option(a[0]));
        assert((a + more).skip(1) =~= b + more);
        assert forall|i: int| 0 <= i < b.len() implies no_host_option(#[trigger] b[i]) by {
            assert(b[i] == a[i + 1]);
        }
        lemma_plain_arguments(b, more, name, rest.push(a[0]));
        assert(rest.push(a[0]) + b =~= rest + a);
    }
}

/// Arguments without an option for the target mean this computer, and stay as they
/// are.
pub proof fn law_no_option_means_this_computer(args: Seq<Seq<char>>)
    requires
        forall|i: int| 0 <= i < args.len() ==> no_host_option(#[trigger] args[i]),
    ensures
        host_args(args, Seq::empty(), Seq::empty()) == Ok::<
            (Seq<char>, Seq<Seq<char>>),
            Seq<char>,
        >((Seq::empty(), args)),
{
    let none = Seq::<Seq<char>>::empty();
    assert(args + none =~= args);
    assert(none + args =~= args);
    lemma_plain_arguments(args, none, Seq::empty(), none);
}

/// The option for the target can stand anywhere among the other arguments.
pub proof fn law_host_option_can_stand_anywhere(
    a: Seq<Seq<char>>,
    flag: Seq<char>,
    name: Seq<char>,
    b: Seq<Seq<char>>,
)
    requires
        host_flag(flag),
        forall|i: int| 0 <= i < a.len() ==> no_host_option(#[trigger] a[i]),
        forall|i: int| 0 <= i < b.len() ==> no_host_option(#[trigger] b[i]),
    ensures
        host_args(a + seq![flag, name] + b, Seq::empty(), Seq::empty()) == match host::parse_host(
            name,
        ) {
            Ok(n) => Ok::<(Seq<char>, Seq<Seq<char>>), Seq<char>>((n, a + b)),
            Err(e) => Err(e),
        },
{
    let none = Seq::<Seq<char>>::empty();
    let more = seq![flag, name] + b;
    assert(a + seq![flag, name] + b =~= a + more);
    lemma_plain_arguments(a, more, Seq::empty(), none);
    assert(none + a =~= a);
    assert(more[0] == flag && more[1] == name);
    assert(more.skip(2) =~= b);
    match host::parse_host(name) {
        Ok(n) => {
            assert(b + none =~= b);
            lemma_plain_arguments(b, none, n, a);
        },
        Err(_) => {},
    }
}

/// The two ways of writing the option mean the same.
pub proof fn law_both_ways_of_naming_agree(
    flag: Seq<char>,
    name: Seq<char>,
    more: Seq<Seq<char>>,
    so_far: Seq<char>,
    rest: Seq<Seq<char>>,
)
    requires
        host_flag(flag),
    ensures
        host_args(seq!["--host="@ + name] + more, so_far, rest) == host_args(
            seq![flag, name] + more,
            so_far,
            rest,
        ),
{
    reveal_strlit("--host=");
    reveal_strlit("--host");
    reveal_strlit("/host");
    reveal_strlit("-H");
    let joined = "--host="@ + name;
    let a = seq![joined] + more;
    let b = seq![flag, name] + more;
    assert(joined.len() >= 7);
    assert("--host"@.len() == 6 && "/host"@.len() == 5 && "-H"@.len() == 2);
    assert(!host_flag(joined));
    assert(joined.subrange(0, 7) =~= "--host="@);
    assert(joined.skip(7) =~= name);
    assert(a[0] == joined && a.skip(1) =~= more);
    assert(b[0] == flag && b[1] == name && b.skip(2) =~= more);
}

// ---------------------------------------------------------------------------
// Commands

/// A command.
#[derive(Debug, Clone, Copy, PartialEq, Eq, Structural)]
pub enum Command {
    Status,
    Stop,
    Start,
    Restart,
    /// Clear the queue and leave the service stopped.
    ClearQueue,
    /// Clear the queue and start the service.
    Fix,
    Version,
    Help,
}

/// The command of this name.
pub open spec fn command_named(a: Seq<char>) -> Option<Command> {
    if a == "status"@ || a == "--status"@ {
        Some(Command::Status)
    } else if a == "stop"@ {
        Some(Command::Stop)
    } else if a == "start"@ {
        Some(Command::Start)
    } else if a == "restart"@ {
        Some(Command::Restart)
    } else if a == "clear-queue"@ {
        Some(Command::ClearQueue)
    } else if a == "fix"@ {
        Some(Command::Fix)
    } else if a == "version"@ || a == "--version"@ || a == "-V"@ {
        Some(Command::Version)
    } else if a == "help"@ || a == "--help"@ || a == "-h"@ {
        Some(Command::Help)
    } else {
        None
    }
}

/// The command of this name.
pub fn find_command(a: &str) -> (r: Option<Command>)
    ensures
        r == command_named(a@),
{
    if text::same(a, "status") || text::same(a, "--status") {
        Some(Command::Status)
    } else if text::same(a, "stop") {
        Some(Command::Stop)
    } else if text::same(a, "start") {
        Some(Command::Start)
    } else if text::same(a, "restart") {
        Some(Command::Restart)
    } else if text::same(a, "clear-queue") {
        Some(Command::ClearQueue)
    } else if text::same(a, "fix") {
        Some(Command::Fix)
    } else if text::same(a, "version") || text::same(a, "--version") || text::same(a, "-V") {
        Some(Command::Version)
    } else if text::same(a, "help") || text::same(a, "--help") || text::same(a, "-h") {
        Some(Command::Help)
    } else {
        None
    }
}

/// The command and its target, or what is wrong with the arguments, line by line.
pub open spec fn plan(args: Seq<Seq<char>>) -> Result<(Command, Seq<char>), Seq<Seq<char>>> {
    match host_args(args, Seq::empty(), Seq::empty()) {
        Err(e) => Err(seq![e]),
        Ok((name, rest)) => if rest.len() == 0 {
            Err(
                seq![
                    "Укажите команду после --host (например: status)."@,
                    "Используйте: spoolctl help"@,
                ],
            )
        } else {
            match command_named(rest[0]) {
                Some(c) => Ok((c, name)),
                None => Err(
                    seq!["Неизвестная команда: "@ + rest[0], "Используйте: spoolctl help"@],
                ),
            }
        },
    }
}

/// The command and its target, or what is wrong with the arguments.
pub fn run_cli(args: &[String]) -> (r: Result<(Command, Host), Vec<String>>)
    ensures
        match r {
            Ok((c, h)) => plan(text::texts(args@)) == Ok::<
                (Command, Seq<char>),
                Seq<Seq<char>>,
            >((c, h@)),
            Err(v) => plan(text::texts(args@)) == Err::<
                (Command, Seq<char>),
                Seq<Seq<char>>,
            >(text::texts(v@)),
        },
{
    let mut wrong: Vec<String> = Vec::new();
    let (target, rest) = match parse_host_args(args) {
        Ok(p) => p,
        Err(e) => {
            wrong.push(e);
            assert(text::texts(wrong@) =~= seq![e@]);
            return Err(wrong);
        },
    };
    assert(text::texts(rest@).len() == rest.len());
    if rest.len() == 0 {
        wrong.push("Укажите команду после --host (например: status).".to_owned());
        wrong.push("Используйте: spoolctl help".to_owned());
        assert(text::texts(wrong@) =~= seq![
            "Укажите команду после --host (например: status)."@,
            "Используйте: spoolctl help"@,
        ]);
        return Err(wrong);
    }
    assert(text::texts(rest@)[0] == rest@[0]@);
    match find_command(rest[0].as_str()) {
        Some(c) => Ok((c, target)),
        None => {
            let mut s = "Неизвестная команда: ".to_owned();
            s.append(rest[0].as_str());
            wrong.push(s);
            wrong.push("Используйте: spoolctl help".to_owned());
            assert(text::texts(wrong@) =~= seq![
                "Неизвестная команда: "@ + rest@[0]@,
                "Используйте: spoolctl help"@,
            ]);
            Err(wrong)
        },
    }
}

/// What is put in the log about the command line.
pub fn command_line_log_ru(args: &[String]) -> (r: String)
    ensures
        r@ == "CLI: "@ + lines::join(text::texts(args@), " "@),
{
    let mut s = "CLI: ".to_owned();
    s.append(join_texts(args, " ").as_str());
    s
}

// ---------------------------------------------------------------------------
// What commands say

/// Something that is said.
#[derive(Debug, PartialEq, Eq)]
pub enum Line {
    Out(String),
    /// On the error stream.
    Complaint(String),
    Log(Level, String),
}

/// Something that is said, as a value of its own.
pub enum LineView {
    Out(Seq<char>),
    Complaint(Seq<char>),
    Log(Level, Seq<char>),
}

impl View for Line {
    type V = LineView;

    open spec fn view(&self) -> LineView {
        match self {
            Line::Out(s) => LineView::Out(s@),
            Line::Complaint(s) => LineView::Complaint(s@),
            Line::Log(l, s) => LineView::Log(*l, s@),
        }
    }
}

/// All that is said, in order.
#[derive(Debug)]
pub struct Lines {
    pub list: Vec<Line>,
}

impl View for Lines {
    type V = Seq<LineView>;

    open spec fn view(&self) -> Seq<LineView> {
        Seq::new(self.list@.len(), |i: int| self.list@[i]@)
    }
}

impl Lines {
    /// Nothing.
    pub fn none() -> (r: Self)
        ensures
            r@ == Seq::<LineView>::empty(),
    {
        let r = Lines { list: Vec::new() };
        assert(r@ =~= Seq::<LineView>::empty());
        r
    }

    fn say(&mut self, line: Line)
        ensures
            final(self)@ == old(self)@.push(line@),
    {
        self.list.push(line);
        assert(self@ =~= old(self)@.push(line@));
    }
}

/// A status, a queue and its printers in words.
pub open spec fn status_lines(
    name: Seq<char>,
    status: SpoolerStatus,
    snap: QueueSnapshot,
) -> Seq<LineView> {
    let head = seq![
        LineView::Out(
            "ПК: "@ + host::host_label(name) + " | Служба печати (Spooler): "@ + spooler::state_ru(
                status.state,
            ),
        ),
        LineView::Out(
            queue::snapshot_line(snap.jobs, snap.files, text::opt_str(snap.files_note)),
        ),
    ];
    let list = if snap.printers@.len() == 0 {
        head.push(LineView::Out("Принтеры: нет или список недоступен"@))
    } else {
        head.push(LineView::Out("Принтеры:"@)) + printer_lines(queue::views(snap.printers@))
    };
    if spooler::pending(status.state) {
        list.push(
            LineView::Out(
                "Ожидание: ~"@ + number::decimal((status.wait_hint / MILLISECOND) as nat)
                    + " мс (checkpoint "@ + number::decimal(status.check_point as nat) + ")"@,
            ),
        )
    } else {
        list
    }
}

/// A printer and its jobs in one line.
pub open spec fn printer_line(p: queue::PrinterView) -> Seq<char> {
    p.name + " — "@ + queue::printer_meta(p) + " — "@ + queue::jobs_words(p.jobs)
}

/// Printers in words.
pub open spec fn printer_lines(ps: Seq<queue::PrinterView>) -> Seq<LineView> {
    Seq::new(ps.len(), |i: int| LineView::Out("  - "@ + printer_line(ps[i])))
}

/// Says a status, a queue and its printers.
pub fn print_status(out: &mut Lines, target: &Host, status: &SpoolerStatus, snap: &QueueSnapshot)
    ensures
        final(out)@ == old(out)@ + status_lines(target@, *status, *snap),
{
    let ghost start = out@;
    let mut s = "ПК: ".to_owned();
    s.append(target.label_ru().as_str());
    s.append(" | Служба печати (Spooler): ");
    s.append(status.state.as_ru_str());
    out.say(Line::Out(s));
    out.say(Line::Out(snap.line_ru()));
    let ghost head = seq![
        LineView::Out(s@),
        LineView::Out(
            queue::snapshot_line(snap.jobs, snap.files, text::opt_str(snap.files_note)),
        ),
    ];
    assert(out@ =~= start + head);
    if snap.printers.len() == 0 {
        out.say(Line::Out("Принтеры: нет или список недоступен".to_owned()));
    } else {
        out.say(Line::Out("Принтеры:".to_owned()));
        let ghost before = out@;
        let ghost ps = queue::views(snap.printers@);
        assert(out@ =~= before + printer_lines(ps).take(0));
        for i in 0..snap.printers.len()
            invariant
                ps == queue::views(snap.printers@),
                out@ == before + printer_lines(ps).take(i as int),
        {
            let mut line = "  - ".to_owned();
            line.append(snap.printers[i].line_ru().as_str());
            assert(ps[i as int] == snap.printers@[i as int]@);
            assert(printer_lines(ps)[i as int] == LineView::Out(line@));
            out.say(Line::Out(line));
            assert(printer_lines(ps).take(i + 1) =~= printer_lines(ps).take(i as int).push(
                printer_lines(ps)[i as int],
            ));
            assert(out@ =~= before + printer_lines(ps).take(i + 1));
        }
        assert(printer_lines(ps).take(snap.printers.len() as int) =~= printer_lines(ps));
        assert(out@ =~= start + (head.push(LineView::Out("Принтеры:"@)) + printer_lines(ps)));
    }
    if status.state.is_pending() {
        let mut s = "Ожидание: ~".to_owned();
        push_decimal(&mut s, status.wait_hint / MILLISECOND);
        s.append(" мс (checkpoint ");
        push_decimal(&mut s, status.check_point as u128);
        s.append(")");
        out.say(Line::Out(s));
    }
    assert(out@ =~= start + status_lines(target@, *status, *snap));
}

/// What the command `status` says, and the code with which the program ends.
pub open spec fn status_report(
    name: Seq<char>,
    result: Result<(SpoolerStatus, QueueSnapshot), String>,
) -> (Seq<LineView>, int) {
    match result {
        Ok((status, snap)) => (
            seq![
                LineView::Log(
                    Level::Info,
                    "Статус ("@ + host::host_label(name) + "): "@ + spooler::state_ru(status.state),
                ),
            ] + status_lines(name, status, snap),
            0,
        ),
        Err(e) => (
            seq![LineView::Log(Level::Error, e@), LineView::Complaint("Ошибка: "@ + e@)],
            1,
        ),
    }
}

/// What the command `status` says, and the code with which the program ends.
pub fn run_status(target: &Host, result: &Result<(SpoolerStatus, QueueSnapshot), String>) -> (r: (
    Lines,
    i32,
))
    ensures
        r.0@ == status_report(target@, *result).0,
        r.1 == status_report(target@, *result).1,
{
    let mut out = Lines::none();
    match result {
        Ok((status, snap)) => {
            let mut s = "Статус (".to_owned();
            s.append(target.label_ru().as_str());
            s.append("): ");
            s.append(status.state.as_ru_str());
            out.say(Line::Log(Level::Info, s));
            print_status(&mut out, target, status, snap);
            assert(out@ =~= status_report(target@, *result).0);
            (out, 0)
        },
        Err(e) => {
            out.say(Line::Log(Level::Error, e.as_str().to_owned()));
            let mut s = "Ошибка: ".to_owned();
            s.append(e.as_str());
            out.say(Line::Complaint(s));
            assert(out@ =~= status_report(target@, *result).0);
            (out, 1)
        },
    }
}

/// What stopping, starting and restarting are called.
pub open spec fn control_label(goal: Goal) -> Seq<char> {
    match goal {
        Goal::Stop => "Остановка"@,
        Goal::Start => "Запуск"@,
        _ => "Перезапуск"@,
    }
}

fn label_of(goal: Goal) -> (r: &'static str)
    ensures
        r@ == control_label(goal),
{
    match goal {
        Goal::Stop => "Остановка",
        Goal::Start => "Запуск",
        _ => "Перезапуск",
    }
}

/// What is said when something is done: the participle follows the noun.
pub open spec fn done_words(label: Seq<char>) -> Seq<char> {
    label + " "@ + if label == "Остановка"@ {
        "выполнена"@
    } else if label == "Запуск"@ || label == "Перезапуск"@ {
        "выполнен"@
    } else {
        "выполнено"@
    } + "."@
}

/// What is said when something is done.
pub fn done_message_cli(label: &str) -> (r: String)
    ensures
        r@ == done_words(label@),
{
    let participle = if text::same(label, "Остановка") {
        "выполнена"
    } else if text::same(label, "Запуск") || text::same(label, "Перезапуск") {
        "выполнен"
    } else {
        "выполнено"
    };
    let mut s = label.to_owned();
    s.append(" ");
    s.append(participle);
    s.append(".");
    s
}

/// What a command that stops or starts says before it begins.
pub open spec fn control_begins(name: Seq<char>, goal: Goal) -> Seq<LineView> {
    seq![
        LineView::Out(
            control_label(goal) + " службы печати (Spooler) на "@ + host::host_label(name)
                + "..."@,
        ),
        LineView::Log(
            Level::Info,
            control_label(goal) + " ("@ + host::host_label(name) + "): начало"@,
        ),
    ]
}

/// What such a command says in the end, and the code with which the program ends.
pub open spec fn control_report(
    name: Seq<char>,
    goal: Goal,
    result: Result<(SpoolerStatus, QueueSnapshot), String>,
) -> (Seq<LineView>, int) {
    match result {
        Ok((status, snap)) => (
            seq![
                LineView::Log(
                    Level::Info,
                    control_label(goal) + " ("@ + host::host_label(name) + "): ок ("@
                        + spooler::state_ru(status.state) + ")"@,
                ),
                LineView::Out(done_words(control_label(goal))),
            ] + status_lines(name, status, snap),
            0,
        ),
        Err(e) => (
            seq![
                LineView::Log(Level::Error, control_label(goal) + ": "@ + e@),
                LineView::Complaint("Ошибка: "@ + e@),
            ],
            1,
        ),
    }
}

/// What a command that stops or starts says before it begins.
pub fn begin_control(target: &Host, goal: Goal) -> (r: Lines)
    ensures
        r@ == control_begins(target@, goal),
{
    let mut out = Lines::none();
    let mut s = label_of(goal).to_owned();
    s.append(" службы печати (Spooler) на ");
    s.append(target.label_ru().as_str());
    s.append("...");
    out.say(Line::Out(s));
    let mut s = label_of(goal).to_owned();
    s.append(" (");
    s.append(target.label_ru().as_str());
    s.append("): начало");
    out.say(Line::Log(Level::Info, s));
    assert(out@ =~= control_begins(target@, goal));
    out
}

/// What such a command says in the end, and the code with which the program ends.
pub fn run_control(
    target: &Host,
    goal: Goal,
    result: &Result<(SpoolerStatus, QueueSnapshot), String>,
) -> (r: (Lines, i32))
    ensures
        r.0@ == control_report(target@, goal, *result).0,
        r.1 == control_report(target@, goal, *result).1,
{
    let label = label_of(goal);
    let mut out = Lines::none();
    match result {
        Ok((status, snap)) => {
            let mut s = label.to_owned();
            s.append(" (");
            s.append(target.label_ru().as_str());
            s.append("): ок (");
            s.append(status.state.as_ru_str());
            s.append(")");
            out.say(Line::Log(Level::Info, s));
            out.say(Line::Out(done_message_cli(label)));
            print_status(&mut out, target, status, snap);
            assert(out@ =~= control_report(target@, goal, *result).0);
            (out, 0)
        },
        Err(e) => {
            let mut s = label.to_owned();
            s.append(": ");
            s.append(e.as_str());
            out.say(Line::Log(Level::Error, s));
            let mut s = "Ошибка: ".to_owned();
            s.append(e.as_str());
            out.say(Line::Complaint(s));
            assert(out@ =~= control_report(target@, goal, *result).0);
            (out, 1)
        },
    }
}

/// What clearing the queue is called.
pub open spec fn clear_label(restart: bool) -> Seq<char> {
    if restart {
        "Очистка очереди и перезапуск"@
    } else {
        "Очистка очереди"@
    }
}

fn clear_label_of(restart: bool) -> (r: &'static str)
    ensures
        r@ == clear_label(restart),
{
    if restart {
        "Очистка очереди и перезапуск"
    } else {
        "Очистка очереди"
    }
}

/// What a command that clears the queue says before it begins.
pub open spec fn clear_begins(name: Seq<char>, restart: bool) -> Seq<LineView> {
    seq![
        LineView::Out(clear_label(restart) + " на "@ + host::host_label(name) + "..."@),
        LineView::Log(
            Level::Info,
            clear_label(restart) + " ("@ + host::host_label(name) + "): начало"@,
        ),
    ]
}

/// What is said about how the service is to be started again.
pub open spec fn start_hint(name: Seq<char>) -> Seq<char> {
    "Spooler оставлен остановленным. Запуск: spoolctl --host "@ + if name.len() == 0 {
        "<этот ПК>"@
    } else {
        name
    } + " start"@
}

/// The report in one line.
pub open spec fn summary_of(report: ClearReport) -> Seq<char> {
    queue::report_summary(
        report.directory@,
        report.deleted as nat,
        text::texts(report.failed@),
    )
}

/// What a command that clears the queue says in the end, and the code with which the
/// program ends.
pub open spec fn clear_report(
    name: Seq<char>,
    restart: bool,
    result: Result<(ClearReport, SpoolerStatus, QueueSnapshot), String>,
) -> (Seq<LineView>, int) {
    match result {
        Ok((report, status, snap)) => {
            let head = seq![
                LineView::Log(
                    if report.failed@.len() == 0 {
                        Level::Info
                    } else {
                        Level::Warn
                    },
                    clear_label(restart) + " ("@ + host::host_label(name) + "): "@ + summary_of(
                        report,
                    ) + "; служба «"@ + spooler::state_ru(status.state) + "»"@,
                ),
                LineView::Out(summary_of(report)),
            ];
            let warned = if report.failed@.len() == 0 {
                head
            } else {
                head.push(LineView::Complaint("Предупреждение: часть файлов не удалена."@))
            };
            let shown = warned + status_lines(name, status, snap);
            (
                if restart {
                    shown
                } else {
                    shown.push(LineView::Out(start_hint(name)))
                },
                0,
            )
        },
        Err(e) => (
            seq![
                LineView::Log(Level::Error, clear_label(restart) + ": "@ + e@),
                LineView::Complaint("Ошибка: "@ + e@),
            ],
            1,
        ),
    }
}

/// What a command that clears the queue says before it begins.
pub fn begin_clear(target: &Host, restart: bool) -> (r: Lines)
    ensures
        r@ == clear_begins(target@, restart),
{
    let mut out = Lines::none();
    let mut s = clear_label_of(restart).to_owned();
    s.append(" на ");
    s.append(target.label_ru().as_str());
    s.append("...");
    out.say(Line::Out(s));
    let mut s = clear_label_of(restart).to_owned();
    s.append(" (");
    s.append(target.label_ru().as_str());
    s.append("): начало");
    out.say(Line::Log(Level::Info, s));
    assert(out@ =~= clear_begins(target@, restart));
    out
}

/// What a command that clears the queue says in the end, and the code with which the
/// program ends.
pub fn run_clear(
    target: &Host,
    restart: bool,
    result: &Result<(ClearReport, SpoolerStatus, QueueSnapshot), String>,
) -> (r: (Lines, i32))
    ensures
        r.0@ == clear_report(target@, restart, *result).0,
        r.1 == clear_report(target@, restart, *result).1,
{
    let label = clear_label_of(restart);
    let mut out = Lines::none();
    match result {
        Ok((report, status, snap)) => {
            let summary = report.summary_ru();
            let mut s = label.to_owned();
            s.append(" (");
            s.append(target.label_ru().as_str());
            s.append("): ");
            s.append(summary.as_str());
            s.append("; служба «");
            s.append(status.state.as_ru_str());
            s.append("»");
            let level = if report.failed.len() == 0 {
                Level::Info
            } else {
                Level::Warn
            };
            out.say(Line::Log(level, s));
            out.say(Line::Out(summary));
            if report.failed.len() != 0 {
                out.say(Line::Complaint("Предупреждение: часть файлов не удалена.".to_owned()));
            }
            print_status(&mut out, target, status, snap);
            if !restart {
                let mut s =
                    "Spooler оставлен остановленным. Запуск: spoolctl --host ".to_owned();
                if target.is_local() {
                    s.append("<этот ПК>");
                } else {
                    s.append(target.name());
                }
                s.append(" start");
                out.say(Line::Out(s));
            }
            assert(out@ =~= clear_report(target@, restart, *result).0);
            (out, 0)
        },
        Err(e) => {
            let mut s = label.to_owned();
            s.append(": ");
            s.append(e.as_str());
            out.say(Line::Log(Level::Error, s));
            let mut s = "Ошибка: ".to_owned();
            s.append(e.as_str());
            out.say(Line::Complaint(s));
            assert(out@ =~= clear_report(target@, restart, *result).0);
            (out, 1)
        },
    }
}

/// A command fails exactly when its work fails, and then it says so on the error
/// stream.
pub proof fn law_exit_code_tells_failure(
    name: Seq<char>,
    goal: Goal,
    restart: bool,
    control: Result<(SpoolerStatus, QueueSnapshot), String>,
    clear: Result<(ClearReport, SpoolerStatus, QueueSnapshot), String>,
)
    ensures
        status_report(name, control).1 == if control is Ok {
            0int
        } else {
            1
        },
        control_report(name, goal, control).1 == status_report(name, control).1,
        clear_report(name, restart, clear).1 == if clear is Ok {
            0int
        } else {
            1
        },
        control is Err ==> control_report(name, goal, control).0.last() == LineView::Complaint(
            "Ошибка: "@ + control->Err_0@,
        ),
        clear is Err ==> clear_report(name, restart, clear).0.last() == LineView::Complaint(
            "Ошибка: "@ + clear->Err_0@,
        ),
{
}

/// The window is asked for by the first argument and by no other, in one of three
/// ways of writing it; with nothing at all, too. The target is named by one of three
/// options.
pub proof fn law_flags_have_three_forms(args: Seq<Seq<char>>, a: Seq<char>)
    ensures
        args.len() == 0 ==> !tray_flag(args) && !show_flag(args),
        args.len() > 0 ==> (tray_flag(args) <==> args[0] == "--tray"@ || args[0] == "tray"@
            || args[0] == "/tray"@),
        args.len() > 0 ==> (show_flag(args) <==> args[0] == "--show"@ || args[0] == "show"@
            || args[0] == "/show"@),
        host_flag(a) <==> a == "--host"@ || a == "/host"@ || a == "-H"@,
        no_host_option(a) <==> a != "--host"@ && a != "/host"@ && a != "-H"@ && !text::begins(
            a,
            "--host="@,
        ),
{
}

/// Every command has its name, and some have several; nothing else is a command.
pub proof fn law_commands_go_by_their_names(a: Seq<char>)
    ensures
        command_named(a) == Some(Command::Status) <==> a == "status"@ || a == "--status"@,
        command_named(a) == Some(Command::Stop) <==> a == "stop"@,
        command_named(a) == Some(Command::Start) <==> a == "start"@,
        command_named(a) == Some(Command::Restart) <==> a == "restart"@,
        command_named(a) == Some(Command::ClearQueue) <==> a == "clear-queue"@,
        command_named(a) == Some(Command::Fix) <==> a == "fix"@,
        command_named(a) == Some(Command::Version) <==> a == "version"@ || a == "--version"@ || a
            == "-V"@,
        command_named(a) == Some(Command::Help) <==> a == "help"@ || a == "--help"@ || a == "-h"@,
{
    reveal_strlit("status");
    reveal_strlit("--status");
    reveal_strlit("stop");
    reveal_strlit("start");
    reveal_strlit("restart");
    reveal_strlit("clear-queue");
    reveal_strlit("fix");
    reveal_strlit("version");
    reveal_strlit("--version");
    reveal_strlit("-V");
    reveal_strlit("help");
    reveal_strlit("--help");
    reveal_strlit("-h");
    assert("status"@.len() == 6 && "--status"@.len() == 8 && "stop"@.len() == 4 && "start"@.len()
        == 5 && "restart"@.len() == 7 && "clear-queue"@.len() == 11 && "fix"@.len() == 3
        && "version"@.len() == 7 && "--version"@.len() == 9 && "-V"@.len() == 2 && "help"@.len()
        == 4 && "--help"@.len() == 6 && "-h"@.len() == 2);
    assert("status"@[0] == 's' && "--help"@[0] == '-');
    assert("stop"@[0] == 's' && "help"@[0] == 'h');
    assert("restart"@[0] == 'r' && "version"@[0] == 'v');
    assert("-V"@[1] == 'V' && "-h"@[1] == 'h');
}

/// The first argument that is no option for the target is the command, and what stands
/// behind it makes no difference; without one, or with an unknown one, the arguments
/// are wrong.
#[verifier::rlimit(30)]
pub proof fn law_first_argument_is_the_command(
    a: Seq<char>,
    more: Seq<Seq<char>>,
    flag: Seq<char>,
    name: Seq<char>,
)
    requires
        host_flag(flag),
        no_host_option(a),
        forall|i: int| 0 <= i < more.len() ==> no_host_option(#[trigger] more[i]),
    ensures
        command_named(a) is Some ==> plan(seq![a] + more) == Ok::<
            (Command, Seq<char>),
            Seq<Seq<char>>,
        >((command_named(a)->0, Seq::empty())),
        command_named(a) is None ==> plan(seq![a] + more) == Err::<
            (Command, Seq<char>),
            Seq<Seq<char>>,
        >(seq!["Неизвестная команда: "@ + a, "Используйте: spoolctl help"@]),
        command_named(a) is Some && host::parse_host(name) is Ok ==> plan(
            seq![flag, name, a] + more,
        ) == Ok::<(Command, Seq<char>), Seq<Seq<char>>>(
            (command_named(a)->0, host::parse_host(name)->Ok_0),
        ),
        host::parse_host(name) is Err ==> plan(seq![flag, name, a] + more) == Err::<
            (Command, Seq<char>),
            Seq<Seq<char>>,
        >(seq![host::parse_host(name)->Err_0]),
        host::parse_host(name) is Ok ==> plan(seq![flag, name]) == Err::<
            (Command, Seq<char>),
            Seq<Seq<char>>,
        >(
            seq![
                "Укажите команду после --host (например: status)."@,
                "Используйте: spoolctl help"@,
            ],
        ),
        plan(seq![flag]) == Err::<(Command, Seq<char>), Seq<Seq<char>>>(
            seq!["После --host нужно имя ПК или IP."@],
        ),
{
    let plain = seq![a] + more;
    let none = Seq::<Seq<char>>::empty();
    assert forall|i: int| 0 <= i < plain.len() implies no_host_option(#[trigger] plain[i]) by {
        if i > 0 {
            assert(plain[i] == more[i - 1]);
        }
    }
    law_no_option_means_this_computer(plain);
    assert(plain[0] == a);
    law_host_option_can_stand_anywhere(none, flag, name, plain);
    assert(none + seq![flag, name] + plain =~= seq![flag, name, a] + more);
    assert(none + plain =~= plain);
    law_host_option_can_stand_anywhere(none, flag, name, none);
    assert(none + seq![flag, name] + none =~= seq![flag, name]);
    assert(none + none =~= none);
    assert(seq![flag][0] == flag);
}

/// Where the target is named twice, the last name counts.
pub proof fn law_last_target_counts(
    first: Seq<char>,
    second: Seq<char>,
    flag: Seq<char>,
    name: Seq<char>,
    more: Seq<Seq<char>>,
    rest: Seq<Seq<char>>,
)
    requires
        host_flag(flag),
    ensures
        host_args(seq![flag, name] + more, first, rest) == host_args(
            seq![flag, name] + more,
            second,
            rest,
        ),
{
    let all = seq![flag, name] + more;
    assert(all[0] == flag && all[1] == name);
}

/// What is said of a status: the target and the state of its service, the queue at a
/// glance, every printer on a line of its own, and for a service that is on its way
/// how long it asks to be waited for.
#[verifier::rlimit(30)]
pub proof fn law_status_tells_everything(
    name: Seq<char>,
    status: SpoolerStatus,
    snap: QueueSnapshot,
    i: int,
)
    ensures
        ({
            let r = status_lines(name, status, snap);
            let n = snap.printers@.len();
            let waits = status.state == spooler::ServiceState::StartPending || status.state
                == spooler::ServiceState::StopPending || status.state
                == spooler::ServiceState::ContinuePending || status.state
                == spooler::ServiceState::PausePending;
            &&& r.len() == 3 + n + if waits {
                1int
            } else {
                0int
            }
            &&& r[0] == LineView::Out(
                "ПК: "@ + host::host_label(name) + " | Служба печати (Spooler): "@
                    + spooler::state_ru(status.state),
            )
            &&& r[1] == LineView::Out(
                queue::snapshot_line(snap.jobs, snap.files, text::opt_str(snap.files_note)),
            )
            &&& n == 0 ==> r[2] == LineView::Out("Принтеры: нет или список недоступен"@)
            &&& n > 0 ==> r[2] == LineView::Out("Принтеры:"@)
            &&& 0 <= i < n ==> r[3 + i] == LineView::Out(
                "  - "@ + (snap.printers@[i].name@ + " — "@ + queue::printer_meta(
                    snap.printers@[i]@,
                ) + " — "@ + queue::jobs_words(snap.printers@[i].jobs as nat)),
            )
            &&& waits ==> r.last() == LineView::Out(
                "Ожидание: ~"@ + number::decimal((status.wait_hint / 1_000_000) as nat)
                    + " мс (checkpoint "@ + number::decimal(status.check_point as nat) + ")"@,
            )
        }),
{
}

/// A command that went well tells what it has done and the status after it; one that
/// clears the queue tells what was deleted, complains where files were left, and says
/// how the service is started where it was left stopped. All of it names the target.
#[verifier::rlimit(30)]
pub proof fn law_commands_tell_what_they_did(
    name: Seq<char>,
    goal: Goal,
    restart: bool,
    report: ClearReport,
    status: SpoolerStatus,
    snap: QueueSnapshot,
)
    ensures
        ({
            let what = match goal {
                Goal::Stop => "Остановка"@,
                Goal::Start => "Запуск"@,
                _ => "Перезапуск"@,
            };
            let clearing = if restart {
                "Очистка очереди и перезапуск"@
            } else {
                "Очистка очереди"@
            };
            let at = host::host_label(name);
            let state = spooler::state_ru(status.state);
            let shown = status_lines(name, status, snap);
            let s = status_report(name, Ok((status, snap))).0;
            let c = control_report(name, goal, Ok((status, snap))).0;
            let q = clear_report(name, restart, Ok((report, status, snap))).0;
            let summary = queue::report_summary(
                report.directory@,
                report.deleted as nat,
                text::texts(report.failed@),
            );
            &&& s == seq![LineView::Log(Level::Info, "Статус ("@ + at + "): "@ + state)] + shown
            &&& c == seq![
                LineView::Log(Level::Info, what + " ("@ + at + "): ок ("@ + state + ")"@),
                LineView::Out(done_words(what)),
            ] + shown
            &&& q[0] == LineView::Log(
                if report.failed@.len() == 0 {
                    Level::Info
                } else {
                    Level::Warn
                },
                clearing + " ("@ + at + "): "@ + summary + "; служба «"@ + state + "»"@,
            )
            &&& q[1] == LineView::Out(summary)
            &&& report.failed@.len() > 0 ==> q[2] == LineView::Complaint(
                "Предупреждение: часть файлов не удалена."@,
            )
            &&& report.failed@.len() > 0 && restart ==> q.skip(3) == shown
            &&& report.failed@.len() == 0 && restart ==> q.skip(2) == shown
            &&& !restart && name.len() > 0 ==> q.last() == LineView::Out(
                "Spooler оставлен остановленным. Запуск: spoolctl --host "@ + name + " start"@,
            )
            &&& !restart && name.len() == 0 ==> q.last() == LineView::Out(
                "Spooler оставлен остановленным. Запуск: spoolctl --host "@ + "<этот ПК>"@
                    + " start"@,
            )
            &&& !restart && report.failed@.len() > 0 ==> q.subrange(3, q.len() - 1) == shown
            &&& !restart && report.failed@.len() == 0 ==> q.subrange(2, q.len() - 1) == shown
            &&& control_begins(name, goal)[0] == LineView::Out(
                what + " службы печати (Spooler) на "@ + at + "..."@,
            )
            &&& clear_begins(name, restart)[0] == LineView::Out(
                clearing + " на "@ + at + "..."@,
            )
        }),
{
    let shown = status_lines(name, status, snap);
    let q = clear_report(name, restart, Ok((report, status, snap))).0;
    if restart {
        if report.failed@.len() > 0 {
            assert(q.skip(3) =~= shown);
        } else {
            assert(q.skip(2) =~= shown);
        }
    } else {
        if report.failed@.len() > 0 {
            assert(q.subrange(3, q.len() - 1) =~= shown);
        } else {
            assert(q.subrange(2, q.len() - 1) =~= shown);
        }
    }
}

/// The participle follows the noun: a stop is feminine, a start and a restart are
/// masculine, and all else is neuter.
pub proof fn law_participle_follows_the_noun(label: Seq<char>)
    ensures
        done_words("Остановка"@) == "Остановка"@ + " "@ + "выполнена"@ + "."@,
        done_words("Запуск"@) == "Запуск"@ + " "@ + "выполнен"@ + "."@,
        done_words("Перезапуск"@) == "Перезапуск"@ + " "@ + "выполнен"@ + "."@,
        label != "Остановка"@ && label != "Запуск"@ && label != "Перезапуск"@ ==> done_words(label)
            == label + " "@ + "выполнено"@ + "."@,
{
    reveal_strlit("Остановка");
    reveal_strlit("Запуск");
    reveal_strlit("Перезапуск");
    assert("Остановка"@.len() == 9 && "Запуск"@.len() == 6 && "Перезапуск"@.len() == 10);
}

/// The version in words.
pub fn print_version() -> (r: String)
    ensures
        r@ == "SpoolCtl "@ + APP_VERSION@,
{
    let mut s = "SpoolCtl ".to_owned();
    s.append(APP_VERSION);
    s
}

/// The help, line by line.
pub open spec fn help_lines() -> Seq<Seq<char>> {
    seq![
        "SpoolCtl "@ + APP_VERSION@ + " — управление службой печати Windows"@,
        ""@,
        "Использование:"@,
        "  spoolctl              открыть графический интерфейс"@,
        "  spoolctl --tray       GUI сразу в системный трей"@,
        "  spoolctl status       показать статус Spooler"@,
        "  spoolctl --host ПК status   статус на удалённом ПК (без агента)"@,
        "  spoolctl stop         остановить Spooler (нужен администратор)"@,
        "  spoolctl start        запустить Spooler (нужен администратор)"@,
        "  spoolctl restart      перезапустить Spooler (нужен администратор)"@,
        "  spoolctl clear-queue  остановить и очистить очередь (без запуска)"@,
        "  spoolctl fix          очистить очередь и перезапустить Spooler"@,
        "  spoolctl version      показать версию"@,
        "  spoolctl help         эта справка"@,
        ""@,
        "Удалёнка: docs\\REMOTE.md — SCM + ADMIN$, агент на том ПК не нужен."@,
        ""@,
        "Журнал: рядом с EXE в logs\\spoolctl.log (или %LOCALAPPDATA%\\SpoolCtl\\logs)."@,
    ]
}

/// The help, line by line.
pub fn print_help() -> (r: Vec<String>)
    ensures
        text::texts(r@) == help_lines(),
{
    let mut v: Vec<String> = Vec::new();
    let mut s = "SpoolCtl ".to_owned();
    s.append(APP_VERSION);
    s.append(" — управление службой печати Windows");
    v.push(s);
    v.push("".to_owned());
    v.push("Использование:".to_owned());
    v.push("  spoolctl              открыть графический интерфейс".to_owned());
    v.push("  spoolctl --tray       GUI сразу в системный трей".to_owned());
    v.push("  spoolctl status       показать статус Spooler".to_owned());
    v.push("  spoolctl --host ПК status   статус на удалённом ПК (без агента)".to_owned());
    v.push("  spoolctl stop         остановить Spooler (нужен администратор)".to_owned());
    v.push("  spoolctl start        запустить Spooler (нужен администратор)".to_owned());
    v.push("  spoolctl restart      перезапустить Spooler (нужен администратор)".to_owned());
    v.push("  spoolctl clear-queue  остановить и очистить очередь (без запуска)".to_owned());
    v.push("  spoolctl fix          очистить очередь и перезапустить Spooler".to_owned());
    v.push("  spoolctl version      показать версию".to_owned());
    v.push("  spoolctl help         эта справка".to_owned());
    v.push("".to_owned());
    v.push("Удалёнка: docs\\REMOTE.md — SCM + ADMIN$, агент на том ПК не нужен.".to_owned());
    v.push("".to_owned());
    v.push("Журнал: рядом с EXE в logs\\spoolctl.log (или %LOCALAPPDATA%\\SpoolCtl\\logs).".to_owned());
    assert(text::texts(v@) =~= help_lines());
    v
}

// ---------------------------------------------------------------------------
// Values as they are seen

/// What is said is seen as what it is: printed, complained of, or put in the log; and
/// all of it in order.
pub proof fn law_lines_are_seen_as_they_are(
    s: String,
    level: Level,
    all: Lines,
    i: int,
    h: Host,
    rest: Vec<String>,
)
    ensures
        Line::Out(s)@ == LineView::Out(s@),
        Line::Complaint(s)@ == LineView::Complaint(s@),
        Line::Log(level, s)@ == LineView::Log(level, s@),
        all@.len() == all.list@.len(),
        0 <= i < all@.len() ==> all@[i] == all.list@[i]@,
        host_args_result(Ok((h, rest))) == Ok::<(Seq<char>, Seq<Seq<char>>), Seq<char>>(
            (h@, text::texts(rest@)),
        ),
        host_args_result(Err(s)) == Err::<(Seq<char>, Seq<Seq<char>>), Seq<char>>(s@),
{
}

/// A version that is known is said by its three numbers.
pub proof fn law_version_is_said_by_its_numbers(v: OsVersion)
    ensures
        version_words(Some(v)) == number::decimal(v.major as nat) + "."@ + number::decimal(
            v.minor as nat,
        ) + "."@ + number::decimal(v.build as nat),
        version_words(None) == "неизвестна"@,
{
}

} // verus!
