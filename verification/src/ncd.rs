//! Automatic setup of devices in the network, which finds printers over WSD and IPP:
//! whether it is on, and how it is switched off.

use vstd::prelude::*;
use crate::lines;
use crate::lines::join_texts;
use crate::number;
use crate::number::push_decimal;
use crate::text;
use crate::win32;
use crate::win32::{is_win32, probe_answered, WinError, ERROR_SERVICE_DOES_NOT_EXIST};

verus! {

/// The service that sets devices up.
pub const SERVICE_NAME: &'static str = "NcdAutoSetup";

/// The registry key of the service.
pub const REG_ROOT: &'static str = "SOFTWARE\\Microsoft\\Windows\\CurrentVersion\\NcdAutoSetup";

/// The registry key for private networks.
pub const REG_PRIVATE: &'static str =
    "SOFTWARE\\Microsoft\\Windows\\CurrentVersion\\NcdAutoSetup\\Private";

/// The value that switches setup in private networks.
pub const PRIVATE_VALUE: &'static str = "AutoSetup";

/// The value that switches setup altogether.
pub const GLOBAL_VALUE: &'static str = "GlobalAutoSetup";

/// The rights to stop a service, to query it and to change how it starts.
pub const SERVICE_DISABLE_ACCESS: u32 = 39;

/// The code of a service that runs.
pub const RUNNING: u32 = 4;

/// The code of a service that is stopped.
pub const STOPPED: u32 = 1;

/// The way of starting of a service that is switched off.
pub const DISABLED: u32 = 4;

/// What is known about automatic setup.
#[derive(Debug, Clone, Copy, PartialEq, Eq, Structural)]
pub struct NcdStatus {
    /// The switch for private networks, if it is set.
    pub private_autosetup: Option<u32>,
    /// The switch for all, if it is set.
    pub global_autosetup: Option<u32>,
    /// Whether the service is switched off, if that is known.
    pub service_disabled: Option<bool>,
    /// Whether the service runs, if that is known.
    pub service_running: Option<bool>,
}

/// What is known, in words.
pub open spec fn status_summary(s: NcdStatus) -> Seq<char> {
    "Автонастройка устройств: "@ + match s.private_autosetup {
        Some(v) => if v == 0 {
            "выкл."@
        } else {
            "вкл."@
        },
        None => "не задано (обычно вкл.)"@,
    } + "; "@ + match (s.service_disabled, s.service_running) {
        (Some(true), _) => "служба отключена"@,
        (Some(false), Some(true)) => "служба работает"@,
        (Some(false), Some(false)) => "служба остановлена"@,
        _ => "служба неизвестна"@,
    }
}

impl NcdStatus {
    /// What is known, in words.
    pub fn summary_ru(&self) -> (r: String)
        ensures
            r@ == status_summary(*self),
    {
        let private = match self.private_autosetup {
            Some(0) => "выкл.",
            Some(_) => "вкл.",
            None => "не задано (обычно вкл.)",
        };
        let service = match (self.service_disabled, self.service_running) {
            (Some(true), _) => "служба отключена",
            (Some(false), Some(true)) => "служба работает",
            (Some(false), Some(false)) => "служба остановлена",
            _ => "служба неизвестна",
        };
        let mut s = "Автонастройка устройств: ".to_owned();
        s.append(private);
        s.append("; ");
        s.append(service);
        s
    }
}

/// Puts together what the registry and the service have said.
pub fn query_status(
    private_autosetup: Option<u32>,
    global_autosetup: Option<u32>,
    disabled: Result<bool, String>,
    running: Result<bool, String>,
) -> (r: NcdStatus)
    ensures
        r == (NcdStatus {
            private_autosetup,
            global_autosetup,
            service_disabled: match disabled {
                Ok(b) => Some(b),
                Err(_) => None,
            },
            service_running: match running {
                Ok(b) => Some(b),
                Err(_) => None,
            },
        }),
{
    NcdStatus {
        private_autosetup,
        global_autosetup,
        service_disabled: match disabled {
            Ok(b) => Some(b),
            Err(_) => None,
        },
        service_running: match running {
            Ok(b) => Some(b),
            Err(_) => None,
        },
    }
}

// ---------------------------------------------------------------------------
// The registry

/// The number whose bytes these are, the lowest one first.
pub open spec fn le_value(b: Seq<u8>) -> int {
    b[0] + b[1] * 0x100 + b[2] * 0x1_0000 + b[3] * 0x100_0000
}

/// The bytes of a number, the lowest one first.
pub open spec fn le_bytes(value: u32) -> Seq<u8> {
    seq![
        (value % 0x100) as u8,
        (value / 0x100 % 0x100) as u8,
        (value / 0x1_0000 % 0x100) as u8,
        (value / 0x100_0000) as u8,
    ]
}

/// A number of the registry, by the codes of opening the key and of reading the
/// value, and by what was read.
pub open spec fn dword_read(open: u32, query: u32, size: u32, data: Seq<u8>) -> Option<int> {
    if open != 0 || query != 0 || size < 4 {
        None
    } else {
        Some(le_value(data))
    }
}

/// A number of the registry, if opening the key and reading the value both
/// succeeded and brought enough bytes.
pub fn read_dword(open: u32, query: u32, size: u32, data: [u8; 4]) -> (r: Option<u32>)
    ensures
        dword_read(open, query, size, data@) == match r {
            Some(v) => Some(v as int),
            None => None,
        },
{
    if open != 0 || query != 0 || size < 4 {
        return None;
    }
    Some(
        data[0] as u32 + data[1] as u32 * 0x100 + data[2] as u32 * 0x1_0000 + data[3] as u32
            * 0x100_0000,
    )
}

/// The bytes of a number, the lowest one first.
pub fn dword_bytes(value: u32) -> (r: [u8; 4])
    ensures
        r@ == le_bytes(value),
{
    let a: u8 = (value % 0x100) as u8;
    let b: u8 = (value / 0x100 % 0x100) as u8;
    let c: u8 = (value / 0x1_0000 % 0x100) as u8;
    let d: u8 = (value / 0x100_0000) as u8;
    let r = [a, b, c, d];
    assert(r@ =~= le_bytes(value));
    r
}

/// Why a number could not be written, in words.
pub open spec fn write_error(what: Seq<char>, code: u32) -> Seq<char> {
    what + " (код "@ + number::decimal(code as nat) + "). Нужны права администратора."@
}

/// What came of writing the value `name` below `subkey`: the codes of opening the
/// key and of setting the value.
pub open spec fn write_outcome(subkey: Seq<char>, name: Seq<char>, create: u32, set: u32) -> Result<
    (),
    Seq<char>,
> {
    if create != 0 {
        Err(write_error("Не удалось открыть реестр "@ + subkey, create))
    } else if set != 0 {
        Err(write_error("Не удалось записать "@ + name, set))
    } else {
        Ok(())
    }
}

/// What came of writing a number: the codes of opening the key and of setting the
/// value.
pub fn set_dword(subkey: &str, name: &str, create: u32, set: u32) -> (r: Result<(), String>)
    ensures
        text::unit_result_text(r) == write_outcome(subkey@, name@, create, set),
{
    if create == 0 && set == 0 {
        return Ok(());
    }
    let mut s = if create != 0 {
        "Не удалось открыть реестр ".to_owned()
    } else {
        "Не удалось записать ".to_owned()
    };
    if create != 0 {
        s.append(subkey);
    } else {
        s.append(name);
    }
    s.append(" (код ");
    if create != 0 {
        push_decimal(&mut s, create as u128);
    } else {
        push_decimal(&mut s, set as u128);
    }
    s.append("). Нужны права администратора.");
    Err(s)
}

// ---------------------------------------------------------------------------
// The service

/// Why the service could not be opened, in words.
pub open spec fn open_error(manager: Option<WinError>, service: Option<WinError>) -> Option<
    Seq<char>,
> {
    match (manager, service) {
        (Some(e), _) => Some("OpenSCManager: "@ + e.text@),
        (None, Some(e)) => if e.code == win32::win32_hresult(ERROR_SERVICE_DOES_NOT_EXIST) {
            Some("служба NcdAutoSetup не найдена на этой системе."@)
        } else {
            Some("OpenService(NcdAutoSetup): "@ + e.text@)
        },
        (None, None) => None,
    }
}

/// What came of opening the service: the failures of opening the manager and of
/// opening the service, if there were any.
pub fn open_service(manager: &Option<WinError>, service: &Option<WinError>) -> (r: Result<
    (),
    String,
>)
    ensures
        text::unit_result_text(r) == match open_error(*manager, *service) {
            Some(e) => Err(e),
            None => Ok(()),
        },
{
    if let Some(e) = manager {
        let mut s = "OpenSCManager: ".to_owned();
        s.append(e.text.as_str());
        return Err(s);
    }
    if let Some(e) = service {
        if is_win32(e.code, ERROR_SERVICE_DOES_NOT_EXIST) {
            return Err("служба NcdAutoSetup не найдена на этой системе.".to_owned());
        }
        let mut s = "OpenService(NcdAutoSetup): ".to_owned();
        s.append(e.text.as_str());
        return Err(s);
    }
    Ok(())
}

/// A yes or no, or why there is none.
pub open spec fn bool_result(r: Result<bool, String>) -> Result<bool, Seq<char>> {
    match r {
        Ok(b) => Ok(b),
        Err(e) => Err(e@),
    }
}

/// Whether the service runs, once it was opened and asked for its state.
pub fn service_is_running(open: Result<(), String>, state: Result<u32, WinError>) -> (r: Result<
    bool,
    String,
>)
    ensures
        bool_result(r) == match (open, state) {
            (Err(e), _) => Err(e@),
            (Ok(()), Err(e)) => Err("QueryServiceStatus: "@ + e.text@),
            (Ok(()), Ok(code)) => Ok(code == 4),
        },
{
    match open {
        Err(e) => Err(e),
        Ok(()) => match state {
            Err(e) => {
                let mut s = "QueryServiceStatus: ".to_owned();
                s.append(e.text.as_str());
                Err(s)
            },
            Ok(code) => Ok(code == RUNNING),
        },
    }
}

/// How large a buffer the configuration of the service needs.
pub fn config_buffer(probe: &Option<WinError>, needed: u32) -> (r: Result<u32, String>)
    ensures
        match r {
            Ok(n) => n == needed && needed != 0 && (probe is None || probe->0.code
                == win32::win32_hresult(122)),
            Err(e) => if probe is Some && probe->0.code != win32::win32_hresult(122) {
                e@ == "QueryServiceConfig: "@ + probe->0.text@
            } else {
                needed == 0 && e@ == "QueryServiceConfig: пустой буфер"@
            },
        },
{
    if let Some(e) = probe {
        if !probe_answered(Some(e.code)) {
            let mut s = "QueryServiceConfig: ".to_owned();
            s.append(e.text.as_str());
            return Err(s);
        }
    }
    if needed == 0 {
        return Err("QueryServiceConfig: пустой буфер".to_owned());
    }
    Ok(needed)
}

/// Whether the service is switched off, once it was opened, the buffer was measured
/// and the way of starting was fetched.
pub fn service_is_disabled(
    open: Result<(), String>,
    buffer: Result<u32, String>,
    start_type: Result<u32, WinError>,
) -> (r: Result<bool, String>)
    ensures
        bool_result(r) == match (open, buffer, start_type) {
            (Err(e), _, _) => Err(e@),
            (Ok(()), Err(e), _) => Err(e@),
            (Ok(()), Ok(_), Err(e)) => Err("QueryServiceConfig: "@ + e.text@),
            (Ok(()), Ok(_), Ok(code)) => Ok(code == 4),
        },
{
    match open {
        Err(e) => {
            return Err(e);
        },
        Ok(()) => {},
    }
    match buffer {
        Err(e) => {
            return Err(e);
        },
        Ok(_) => {},
    }
    match start_type {
        Err(e) => {
            let mut s = "QueryServiceConfig: ".to_owned();
            s.append(e.text.as_str());
            Err(s)
        },
        Ok(code) => Ok(code == DISABLED),
    }
}

// ---------------------------------------------------------------------------
// Switching setup off

/// What is being waited for.
#[derive(Debug, Clone, Copy, PartialEq, Eq, Structural)]
pub enum Phase {
    /// The switch for private networks is being turned.
    Private,
    /// The switch for all is being turned.
    Global,
    /// The switch for all is being read.
    Reading,
    /// The service is being opened.
    Opening,
    /// The state of the service is being read.
    Checking,
    /// The service is being told to stop.
    Stopping,
    /// The service is being told to start no more.
    Changing,
    /// Nothing: the work is done or has failed.
    Over,
}

/// The state of the work: [`disable_autosetup`] begins it.
#[derive(Debug, Clone, Copy, PartialEq, Eq, Structural)]
pub struct TurningOff {
    pub phase: Phase,
    /// The switch for all, as it reads after an attempt to turn it.
    pub global_autosetup: Option<u32>,
}

/// The next call.
#[derive(Debug, PartialEq, Eq)]
pub enum Act {
    /// Set the value under the key of the machine to this number.
    SetDword(&'static str, &'static str, u32),
    /// Read the value under the key of the machine.
    ReadDword(&'static str, &'static str),
    /// Open [`SERVICE_NAME`] with these rights.
    OpenService(u32),
    QueryState,
    /// Tell the service to stop.
    StopService,
    /// Tell the service to start no more.
    DisableService,
    /// No call: the work is done, and this is said of it.
    Done(String),
    /// No call: the work has failed.
    Failed(String),
}

/// How a call went.
#[derive(Debug)]
pub enum Event {
    /// What came of setting a value.
    Written(Result<(), String>),
    /// The value, if it could be read.
    Read(Option<u32>),
    /// What came of opening the service.
    Opened(Result<(), String>),
    /// The state of the service, if it could be read.
    State(Option<u32>),
    /// What came of telling the service to stop.
    Stopped(Option<WinError>),
    /// What came of telling the service to start no more.
    Changed(Option<WinError>),
}

/// An [`Act`] as a value of its own.
pub enum ActView {
    SetDword(Seq<char>, Seq<char>, u32),
    ReadDword(Seq<char>, Seq<char>),
    OpenService(u32),
    QueryState,
    StopService,
    DisableService,
    Done(Seq<char>),
    Failed(Seq<char>),
}

impl View for Act {
    type V = ActView;

    open spec fn view(&self) -> ActView {
        match self {
            Act::SetDword(key, name, n) => ActView::SetDword(key@, name@, *n),
            Act::ReadDword(key, name) => ActView::ReadDword(key@, name@),
            Act::OpenService(access) => ActView::OpenService(*access),
            Act::QueryState => ActView::QueryState,
            Act::StopService => ActView::StopService,
            Act::DisableService => ActView::DisableService,
            Act::Done(s) => ActView::Done(s@),
            Act::Failed(e) => ActView::Failed(e@),
        }
    }
}

/// What came of switching the open service off.
pub open spec fn service_changed(change: Option<WinError>) -> Result<Seq<char>, Seq<char>> {
    match change {
        Some(e) => Err("ChangeServiceConfig: "@ + e.text@),
        None => Ok("служба NcdAutoSetup остановлена и отключена."@),
    }
}

/// What is said about the work, part by part: once the switch for private networks is
/// turned, by the switch for all as it reads and by what came of switching the service
/// off.
pub open spec fn disabling_notes(
    global_autosetup: Option<u32>,
    service: Result<Seq<char>, Seq<char>>,
) -> Seq<Seq<char>> {
    let first = seq!["Реестр: AutoSetup=0 (Private)"@];
    let second = if global_autosetup == Some(0u32) {
        first.push("Реестр: GlobalAutoSetup=0"@)
    } else {
        first
    };
    second.push(
        match service {
            Ok(note) => note,
            Err(e) => "Служба NcdAutoSetup: "@ + e,
        },
    ).push("Рекомендуется перезагрузка Windows."@)
}

/// What is said about the work.
pub open spec fn disabling_text(
    global_autosetup: Option<u32>,
    service: Result<Seq<char>, Seq<char>>,
) -> Seq<char> {
    lines::join(disabling_notes(global_autosetup, service), " "@)
}

/// The work at its very beginning.
pub open spec fn off_begun() -> (TurningOff, ActView) {
    (
        TurningOff { phase: Phase::Private, global_autosetup: None },
        ActView::SetDword(REG_PRIVATE@, PRIVATE_VALUE@, 0),
    )
}

/// The work goes on with the call `act`.
pub open spec fn goes_on(t: TurningOff, phase: Phase, act: ActView) -> (TurningOff, ActView) {
    (TurningOff { phase, ..t }, act)
}

/// The work is done, with what came of switching the service off.
pub open spec fn done(t: TurningOff, service: Result<Seq<char>, Seq<char>>) -> (
    TurningOff,
    ActView,
) {
    goes_on(t, Phase::Over, ActView::Done(disabling_text(t.global_autosetup, service)))
}

/// The event tells how the call went that is being waited for.
pub open spec fn answers(t: TurningOff, e: Event) -> bool {
    match e {
        Event::Written(_) => t.phase is Private || t.phase is Global,
        Event::Read(_) => t.phase is Reading,
        Event::Opened(_) => t.phase is Opening,
        Event::State(_) => t.phase is Checking,
        Event::Stopped(_) => t.phase is Stopping,
        Event::Changed(_) => t.phase is Changing,
    }
}

/// What follows an event. Without the switch for private networks nothing else is
/// tried; with it the rest is as it may be.
pub open spec fn next(t: TurningOff, e: Event) -> (TurningOff, ActView) {
    match e {
        Event::Written(r) => if t.phase is Private {
            match r {
                Err(e) => goes_on(t, Phase::Over, ActView::Failed(e@)),
                Ok(()) => goes_on(
                    t,
                    Phase::Global,
                    ActView::SetDword(REG_ROOT@, GLOBAL_VALUE@, 0),
                ),
            }
        } else {
            goes_on(t, Phase::Reading, ActView::ReadDword(REG_ROOT@, GLOBAL_VALUE@))
        },
        Event::Read(v) => goes_on(
            TurningOff { global_autosetup: v, ..t },
            Phase::Opening,
            ActView::OpenService(SERVICE_DISABLE_ACCESS),
        ),
        Event::Opened(r) => match r {
            Err(e) => done(t, Err(e@)),
            Ok(()) => goes_on(t, Phase::Checking, ActView::QueryState),
        },
        Event::State(s) => if s == Some(STOPPED) {
            goes_on(t, Phase::Changing, ActView::DisableService)
        } else {
            goes_on(t, Phase::Stopping, ActView::StopService)
        },
        Event::Stopped(_) => goes_on(t, Phase::Changing, ActView::DisableService),
        Event::Changed(c) => done(t, service_changed(c)),
    }
}

/// Begins to switch setup off.
pub fn disable_autosetup() -> (r: (TurningOff, Act))
    ensures
        (r.0, r.1@) == off_begun(),
{
    (
        TurningOff { phase: Phase::Private, global_autosetup: None },
        Act::SetDword(REG_PRIVATE, PRIVATE_VALUE, 0),
    )
}

fn stop_and_disable_service(change: Option<WinError>) -> (r: Result<String, String>)
    ensures
        text::result_text(r) == service_changed(change),
{
    match change {
        Some(e) => {
            let mut s = "ChangeServiceConfig: ".to_owned();
            s.append(e.text.as_str());
            Err(s)
        },
        None => Ok("служба NcdAutoSetup остановлена и отключена.".to_owned()),
    }
}

impl TurningOff {
    /// Whether the event tells how the call went that is being waited for.
    pub fn awaits(&self, event: &Event) -> (r: bool)
        ensures
            r == answers(*self, *event),
    {
        match event {
            Event::Written(_) => self.phase == Phase::Private || self.phase == Phase::Global,
            Event::Read(_) => self.phase == Phase::Reading,
            Event::Opened(_) => self.phase == Phase::Opening,
            Event::State(_) => self.phase == Phase::Checking,
            Event::Stopped(_) => self.phase == Phase::Stopping,
            Event::Changed(_) => self.phase == Phase::Changing,
        }
    }

    fn finish(&mut self, service: Result<String, String>) -> (r: Act)
        ensures
            (*final(self), r@) == done(*old(self), text::result_text(service)),
    {
        self.phase = Phase::Over;
        let mut notes: Vec<String> = Vec::new();
        notes.push("Реестр: AutoSetup=0 (Private)".to_owned());
        if let Some(0) = self.global_autosetup {
            notes.push("Реестр: GlobalAutoSetup=0".to_owned());
        }
        let ghost told = text::result_text(service);
        let note = match service {
            Ok(note) => note,
            Err(e) => {
                let mut s = "Служба NcdAutoSetup: ".to_owned();
                s.append(e.as_str());
                s
            },
        };
        notes.push(note);
        notes.push("Рекомендуется перезагрузка Windows.".to_owned());
        assert(text::texts(notes@) =~= disabling_notes(self.global_autosetup, told));
        Act::Done(join_texts(notes.as_slice(), " "))
    }

    /// What follows an event.
    pub fn step(&mut self, event: Event) -> (r: Act)
        requires
            answers(*old(self), event),
        ensures
            (*final(self), r@) == next(*old(self), event),
    {
        match event {
            Event::Written(r) => {
                if self.phase == Phase::Global {
                    self.phase = Phase::Reading;
                    return Act::ReadDword(REG_ROOT, GLOBAL_VALUE);
                }
                match r {
                    Err(e) => {
                        self.phase = Phase::Over;
                        Act::Failed(e)
                    },
                    Ok(()) => {
                        self.phase = Phase::Global;
                        Act::SetDword(REG_ROOT, GLOBAL_VALUE, 0)
                    },
                }
            },
            Event::Read(v) => {
                self.global_autosetup = v;
                self.phase = Phase::Opening;
                Act::OpenService(SERVICE_DISABLE_ACCESS)
            },
            Event::Opened(r) => match r {
                Err(e) => self.finish(Err(e)),
                Ok(()) => {
                    self.phase = Phase::Checking;
                    Act::QueryState
                },
            },
            Event::State(s) => match s {
                Some(STOPPED) => {
                    self.phase = Phase::Changing;
                    Act::DisableService
                },
                _ => {
                    self.phase = Phase::Stopping;
                    Act::StopService
                },
            },
            Event::Stopped(_) => {
                self.phase = Phase::Changing;
                Act::DisableService
            },
            Event::Changed(c) => self.finish(stop_and_disable_service(c)),
        }
    }
}

/// The calls that follow these events, up to one that answers no call.
pub open spec fn run(t: TurningOff, events: Seq<Event>) -> Seq<ActView>
    decreases events.len(),
{
    if events.len() == 0 || !answers(t, events[0]) {
        seq![]
    } else {
        seq![next(t, events[0]).1] + run(next(t, events[0]).0, events.skip(1))
    }
}

proof fn lemma_run(t: TurningOff, e: Event, more: Seq<Event>)
    requires
        answers(t, e),
    ensures
        run(t, seq![e] + more) == seq![next(t, e).1] + run(next(t, e).0, more),
{
    assert((seq![e] + more).skip(1) =~= more);
}

/// No call follows a failed first one: neither the switch for all nor the service is
/// touched, and the work fails with the same words.
pub proof fn law_failed_first_write_touches_nothing(error: String, events: Seq<Event>)
    ensures
        run(off_begun().0, seq![Event::Written(Err(error))] + events) == seq![
            ActView::Failed(error@),
        ],
{
    let e = Event::Written(Err(error));
    lemma_run(off_begun().0, e, events);
    assert(run(off_begun().0, seq![e] + events) =~= seq![ActView::Failed(error@)]);
}

/// Nothing but the first call can fail the work.
pub proof fn law_only_the_first_write_fails(t: TurningOff, e: Event)
    requires
        answers(t, e),
    ensures
        next(t, e).1 is Failed <==> t.phase is Private && e is Written && e->Written_0 is Err,
{
}

/// The calls up to the opening of the service.
pub open spec fn switches_turned() -> Seq<ActView> {
    seq![
        ActView::SetDword(REG_ROOT@, GLOBAL_VALUE@, 0),
        ActView::ReadDword(REG_ROOT@, GLOBAL_VALUE@),
        ActView::OpenService(SERVICE_DISABLE_ACCESS),
    ]
}

/// Once the first switch is turned the work gets done, whatever comes of the other
/// switch and of the service, and the words name what went wrong with the service.
pub proof fn law_the_rest_is_as_it_may_be(
    global: Result<(), String>,
    value: Option<u32>,
    opened: Result<(), String>,
    state: Option<u32>,
    stopped: Option<WinError>,
    changed: Option<WinError>,
    events: Seq<Event>,
)
    ensures
        opened is Err ==> run(
            off_begun().0,
            seq![Event::Written(Ok(())), Event::Written(global), Event::Read(value), Event::Opened(opened)]
                + events,
        ) == switches_turned() + seq![
            ActView::Done(disabling_text(value, Err(opened->Err_0@))),
        ],
        opened is Ok && state == Some(STOPPED) ==> run(
            off_begun().0,
            seq![
                Event::Written(Ok(())),
                Event::Written(global),
                Event::Read(value),
                Event::Opened(opened),
                Event::State(state),
                Event::Changed(changed),
            ] + events,
        ) == switches_turned() + seq![
            ActView::QueryState,
            ActView::DisableService,
            ActView::Done(disabling_text(value, service_changed(changed))),
        ],
        opened is Ok && state != Some(STOPPED) ==> run(
            off_begun().0,
            seq![
                Event::Written(Ok(())),
                Event::Written(global),
                Event::Read(value),
                Event::Opened(opened),
                Event::State(state),
                Event::Stopped(stopped),
                Event::Changed(changed),
            ] + events,
        ) == switches_turned() + seq![
            ActView::QueryState,
            ActView::StopService,
            ActView::DisableService,
            ActView::Done(disabling_text(value, service_changed(changed))),
        ],
{
    let t0 = off_begun().0;
    let (e0, e1, e2, e3) = (
        Event::Written(Ok(())),
        Event::Written(global),
        Event::Read(value),
        Event::Opened(opened),
    );
    let (e4, e5, e6) = (Event::State(state), Event::Stopped(stopped), Event::Changed(changed));
    let rest = if opened is Err {
        events
    } else if state == Some(STOPPED) {
        seq![e4] + (seq![e6] + events)
    } else {
        seq![e4] + (seq![e5] + (seq![e6] + events))
    };
    let t1 = next(t0, e0).0;
    let t2 = next(t1, e1).0;
    let t3 = next(t2, e2).0;
    let t4 = next(t3, e3).0;
    let all = seq![e0] + (seq![e1] + (seq![e2] + (seq![e3] + rest)));
    lemma_run(t0, e0, seq![e1] + (seq![e2] + (seq![e3] + rest)));
    lemma_run(t1, e1, seq![e2] + (seq![e3] + rest));
    lemma_run(t2, e2, seq![e3] + rest);
    lemma_run(t3, e3, rest);
    if opened is Err {
        assert(all =~= seq![e0, e1, e2, e3] + events);
        assert(run(t0, all) =~= switches_turned() + seq![
            ActView::Done(disabling_text(value, Err(opened->Err_0@))),
        ]);
    } else {
        let t5 = next(t4, e4).0;
        if state == Some(STOPPED) {
            lemma_run(t4, e4, seq![e6] + events);
            lemma_run(t5, e6, events);
            assert(all =~= seq![e0, e1, e2, e3, e4, e6] + events);
            assert(run(t0, all) =~= switches_turned() + seq![
                ActView::QueryState,
                ActView::DisableService,
                ActView::Done(disabling_text(value, service_changed(changed))),
            ]);
        } else {
            lemma_run(t4, e4, seq![e5] + (seq![e6] + events));
            lemma_run(t5, e5, seq![e6] + events);
            lemma_run(next(t5, e5).0, e6, events);
            assert(all =~= seq![e0, e1, e2, e3, e4, e5, e6] + events);
            assert(run(t0, all) =~= switches_turned() + seq![
                ActView::QueryState,
                ActView::StopService,
                ActView::DisableService,
                ActView::Done(disabling_text(value, service_changed(changed))),
            ]);
        }
    }
}

/// A number that was written reads back.
pub proof fn law_dword_reads_back(value: u32)
    ensures
        dword_read(0, 0, 4, le_bytes(value)) == Some(value as int),
{
}

/// What is known of automatic setup is said: whether it is on in private networks, and
/// whether the service is switched off, runs, or is stopped.
pub proof fn law_summary_says_both_switches(s: NcdStatus)
    ensures
        ({
            let setup = if s.private_autosetup is None {
                "не задано (обычно вкл.)"@
            } else if s.private_autosetup == Some(0u32) {
                "выкл."@
            } else {
                "вкл."@
            };
            let service = if s.service_disabled == Some(true) {
                "служба отключена"@
            } else if s.service_disabled == Some(false) && s.service_running == Some(true) {
                "служба работает"@
            } else if s.service_disabled == Some(false) && s.service_running == Some(false) {
                "служба остановлена"@
            } else {
                "служба неизвестна"@
            };
            status_summary(s) == "Автонастройка устройств: "@ + setup + "; "@ + service
        }),
{
}

/// A number is read where the key was opened and four bytes came, the lowest first; it
/// is written where the key was opened and the value set, and any failure is named with
/// its code.
pub proof fn law_registry_calls_decide(
    open: u32,
    query: u32,
    size: u32,
    data: Seq<u8>,
    subkey: Seq<char>,
    name: Seq<char>,
)
    ensures
        open == 0 && query == 0 && size >= 4 ==> dword_read(open, query, size, data) == Some(
            data[0] + 256 * data[1] + 65_536 * data[2] + 16_777_216 * data[3],
        ),
        open != 0 || query != 0 || size < 4 ==> dword_read(open, query, size, data) is None,
        open == 0 && query == 0 ==> write_outcome(subkey, name, open, query) == Ok::<
            (),
            Seq<char>,
        >(()),
        open != 0 ==> write_outcome(subkey, name, open, query) == Err::<(), Seq<char>>(
            "Не удалось открыть реестр "@ + subkey + " (код "@ + number::decimal(open as nat)
                + "). Нужны права администратора."@,
        ),
        open == 0 && query != 0 ==> write_outcome(subkey, name, open, query) == Err::<
            (),
            Seq<char>,
        >(
            "Не удалось записать "@ + name + " (код "@ + number::decimal(query as nat)
                + "). Нужны права администратора."@,
        ),
{
}

/// The service opens where the manager and the service did; a service that is not
/// there is said to be missing, and any other failure is named.
pub proof fn law_service_opens_with_its_manager(
    manager: Option<WinError>,
    service: Option<WinError>,
)
    ensures
        manager is None && service is None <==> open_error(manager, service) is None,
        manager is Some ==> open_error(manager, service) == Some(
            "OpenSCManager: "@ + manager->0.text@,
        ),
        manager is None && service is Some && service->0.code == win32::win32_hresult(1060)
            ==> open_error(manager, service) == Some(
            "служба NcdAutoSetup не найдена на этой системе."@,
        ),
        manager is None && service is Some && service->0.code != win32::win32_hresult(1060)
            ==> open_error(manager, service) == Some(
            "OpenService(NcdAutoSetup): "@ + service->0.text@,
        ),
{
}

/// What is said once the first switch is turned: that it is, that the other one is too
/// where it reads zero, what came of the service, and that a restart of Windows is
/// advised.
pub proof fn law_text_tells_what_was_done(value: Option<u32>, changed: Option<WinError>, e: Seq<char>)
    ensures
        changed is None ==> service_changed(changed) == Ok::<Seq<char>, Seq<char>>(
            "служба NcdAutoSetup остановлена и отключена."@,
        ),
        changed is Some ==> service_changed(changed) == Err::<Seq<char>, Seq<char>>(
            "ChangeServiceConfig: "@ + changed->0.text@,
        ),
        value == Some(0u32) ==> disabling_text(value, Ok(e)) == "Реестр: AutoSetup=0 (Private)"@
            + " "@ + "Реестр: GlobalAutoSetup=0"@ + " "@ + e + " "@
            + "Рекомендуется перезагрузка Windows."@,
        value != Some(0u32) ==> disabling_text(value, Ok(e)) == "Реестр: AutoSetup=0 (Private)"@
            + " "@ + e + " "@ + "Рекомендуется перезагрузка Windows."@,
        disabling_text(value, Err(e)) == disabling_text(
            value,
            Ok("Служба NcdAutoSetup: "@ + e),
        ),
{
    let first = seq!["Реестр: AutoSetup=0 (Private)"@];
    let two = first.push("Реестр: GlobalAutoSetup=0"@);
    let last = "Рекомендуется перезагрузка Windows."@;
    lines::law_join_puts_separators_between(Seq::empty(), first[0], " "@);
    lines::law_join_puts_separators_between(first, two[1], " "@);
    lines::law_join_puts_separators_between(first, e, " "@);
    lines::law_join_puts_separators_between(two, e, " "@);
    lines::law_join_puts_separators_between(first.push(e), last, " "@);
    lines::law_join_puts_separators_between(two.push(e), last, " "@);
}

/// A call is seen as what it is, with what it is made with.
pub proof fn law_acts_are_seen_as_they_are(
    key: &'static str,
    name: &'static str,
    n: u32,
    s: String,
    b: bool,
)
    ensures
        Act::SetDword(key, name, n)@ == ActView::SetDword(key@, name@, n),
        Act::ReadDword(key, name)@ == ActView::ReadDword(key@, name@),
        Act::OpenService(n)@ == ActView::OpenService(n),
        Act::QueryState@ == ActView::QueryState,
        Act::StopService@ == ActView::StopService,
        Act::DisableService@ == ActView::DisableService,
        Act::Done(s)@ == ActView::Done(s@),
        Act::Failed(s)@ == ActView::Failed(s@),
        bool_result(Ok(b)) == Ok::<bool, Seq<char>>(b),
        bool_result(Err(s)) == Err::<bool, Seq<char>>(s@),
{
}

} // verus!
