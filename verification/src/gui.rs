//! What the window shows, and what its buttons, its clock and its tray icon do.
//!
//! [`SpoolCtlApp`] is the state of the window. Whatever happens is told to one of its
//! methods, which changes the state and adds to the [`Effects`] what is to be done
//! outside, in order.

use vstd::prelude::*;
use crate::cli::APP_VERSION;
use crate::clock;
use crate::clock::{time_between, Nanos};
use crate::control::Goal;
use crate::host;
use crate::host::Host;
use crate::log::Level;
use crate::ncd;
use crate::ncd::NcdStatus;
use crate::number;
use crate::number::signed_text;
use crate::print_notify;
use crate::print_notify::{message_ru, PrintNotify, Turn};
use crate::queue;
use crate::queue::{jobs_phrase, ClearReport, PrinterEntry, QueueSnapshot};
use crate::spooler;
use crate::spooler::{ServiceState, SpoolerStatus};
use crate::text;
use crate::text::{chars_of, part, string_of};
use crate::theme::Role;
use crate::tray::TrayCmd;
use crate::watchdog;
use crate::watchdog::{Action, Watchdog};

verus! {

/// How often the status is looked at when nothing else happens.
pub const AUTO_STATUS_REFRESH: u128 = 5_000_000_000;

/// How long to wait before looking again whether a job is done.
pub const JOB_POLL: u128 = 100_000_000;

/// How many lines of the log are shown.
pub const LOG_LINES: usize = 12;

// ---------------------------------------------------------------------------
// What there is to do

/// A job for the service.
#[derive(Debug, Clone, Copy, PartialEq, Eq, Structural)]
pub enum Job {
    Refresh,
    Stop,
    Start,
    Restart,
    ClearOnly,
    FixClear,
}

/// A question to the user.
#[derive(Debug, Clone, Copy, PartialEq, Eq, Structural)]
pub enum Confirm {
    /// Do this job?
    Job(Job),
    /// Switch automatic setup of devices off?
    DisableNcd,
    /// Let the service be restarted when it hangs?
    EnableAutoRestart,
    /// Start with Windows?
    EnableAutostart,
    /// To the tray, or to the end?
    CloseOrTray,
}

/// A folder that can be opened.
#[derive(Debug, Clone, Copy, PartialEq, Eq, Structural)]
pub enum Place {
    Log,
    Queue,
    Printers,
}

/// Something to do outside.
#[derive(Debug, PartialEq, Eq)]
pub enum Effect {
    Log(Level, String),
    /// Read the last lines of the log.
    RefreshLog,
    /// Read the switches of automatic setup.
    RefreshNcd,
    /// Ask for the status and the queue of this computer.
    QueryStatus,
    /// Do this job for the target, in the background.
    StartJob(Job),
    /// What the tray icon says when the mouse rests on it.
    Tooltip(String),
    /// A message at the tray icon.
    Balloon(String, String),
    ShowWindow,
    HideWindow,
    FocusWindow,
    CloseWindow,
    CancelClose,
    Repaint,
    RepaintAfter(Nanos),
    SaveWatchdog,
    Notify(Turn),
    InstallTray,
    DropTray,
    ReleaseSlot,
    AcquireSlot,
    /// Start the program again with more rights, at this place.
    Relaunch(Option<(i32, i32)>),
    /// End the program.
    Exit,
    Open(Place),
    DisableNcd,
    EnableAutostart,
    DisableAutostart,
}

/// Something to do outside, as a value of its own.
pub enum EffectView {
    Log(Level, Seq<char>),
    RefreshLog,
    RefreshNcd,
    QueryStatus,
    StartJob(Job),
    Tooltip(Seq<char>),
    Balloon(Seq<char>, Seq<char>),
    ShowWindow,
    HideWindow,
    FocusWindow,
    CloseWindow,
    CancelClose,
    Repaint,
    RepaintAfter(Nanos),
    SaveWatchdog,
    Notify(Turn),
    InstallTray,
    DropTray,
    ReleaseSlot,
    AcquireSlot,
    Relaunch(Option<(i32, i32)>),
    Exit,
    Open(Place),
    DisableNcd,
    EnableAutostart,
    DisableAutostart,
}

impl View for Effect {
    type V = EffectView;

    open spec fn view(&self) -> EffectView {
        match self {
            Effect::Log(l, s) => EffectView::Log(*l, s@),
            Effect::RefreshLog => EffectView::RefreshLog,
            Effect::RefreshNcd => EffectView::RefreshNcd,
            Effect::QueryStatus => EffectView::QueryStatus,
            Effect::StartJob(j) => EffectView::StartJob(*j),
            Effect::Tooltip(s) => EffectView::Tooltip(s@),
            Effect::Balloon(a, b) => EffectView::Balloon(a@, b@),
            Effect::ShowWindow => EffectView::ShowWindow,
            Effect::HideWindow => EffectView::HideWindow,
            Effect::FocusWindow => EffectView::FocusWindow,
            Effect::CloseWindow => EffectView::CloseWindow,
            Effect::CancelClose => EffectView::CancelClose,
            Effect::Repaint => EffectView::Repaint,
            Effect::RepaintAfter(d) => EffectView::RepaintAfter(*d),
            Effect::SaveWatchdog => EffectView::SaveWatchdog,
            Effect::Notify(t) => EffectView::Notify(*t),
            Effect::InstallTray => EffectView::InstallTray,
            Effect::DropTray => EffectView::DropTray,
            Effect::ReleaseSlot => EffectView::ReleaseSlot,
            Effect::AcquireSlot => EffectView::AcquireSlot,
            Effect::Relaunch(p) => EffectView::Relaunch(*p),
            Effect::Exit => EffectView::Exit,
            Effect::Open(p) => EffectView::Open(*p),
            Effect::DisableNcd => EffectView::DisableNcd,
            Effect::EnableAutostart => EffectView::EnableAutostart,
            Effect::DisableAutostart => EffectView::DisableAutostart,
        }
    }
}

/// What is to be done outside, in order.
#[derive(Debug)]
pub struct Effects {
    pub list: Vec<Effect>,
}

impl View for Effects {
    type V = Seq<EffectView>;

    open spec fn view(&self) -> Seq<EffectView> {
        Seq::new(self.list@.len(), |i: int| self.list@[i]@)
    }
}

impl Effects {
    /// Nothing is to be done.
    pub fn none() -> (r: Self)
        ensures
            r@ == Seq::<EffectView>::empty(),
    {
        let r = Effects { list: Vec::new() };
        assert(r@ =~= Seq::<EffectView>::empty());
        r
    }

    /// This is to be done, after all else.
    pub fn add(&mut self, e: Effect)
        ensures
            final(self)@ == old(self)@.push(e@),
    {
        self.list.push(e);
        assert(self@ =~= old(self)@.push(e@));
    }

    fn log(&mut self, level: Level, s: &str)
        ensures
            final(self)@ == old(self)@.push(EffectView::Log(level, s@)),
    {
        self.add(Effect::Log(level, s.to_owned()));
    }

    fn tip(&mut self, has_tray: bool, s: &str)
        ensures
            final(self)@ == tipped(old(self)@, has_tray, s@),
    {
        if has_tray {
            self.add(Effect::Tooltip(s.to_owned()));
        }
    }

    fn turns(&mut self, turns: &Vec<Turn>)
        ensures
            final(self)@ == notified(old(self)@, turns@),
    {
        let ghost start = self@;
        assert(turns@.take(0) =~= Seq::empty());
        for i in 0..turns.len()
            invariant
                self@ == notified(start, turns@.take(i as int)),
        {
            assert(turns@.take(i + 1).drop_last() =~= turns@.take(i as int));
            self.add(Effect::Notify(turns[i]));
        }
        assert(turns@.take(turns.len() as int) =~= turns@);
    }
}

/// The tray icon, if there is one, gets a new text.
pub open spec fn tipped(fx: Seq<EffectView>, has_tray: bool, s: Seq<char>) -> Seq<EffectView> {
    if has_tray {
        fx.push(EffectView::Tooltip(s))
    } else {
        fx
    }
}

/// The watcher of printers is told these things.
pub open spec fn notified(fx: Seq<EffectView>, turns: Seq<Turn>) -> Seq<EffectView>
    decreases turns.len(),
{
    if turns.len() == 0 {
        fx
    } else {
        notified(fx, turns.drop_last()).push(EffectView::Notify(turns.last()))
    }
}

// ---------------------------------------------------------------------------
// The state

/// The state of the window.
#[derive(Debug)]
pub struct SpoolCtlApp {
    pub status_line: String,
    pub queue_line: String,
    pub printers: Vec<PrinterEntry>,
    pub message: String,
    pub message_is_error: bool,
    /// A job is under way.
    pub busy: bool,
    /// The outcome of a job is waited for.
    pub waiting: bool,
    /// The program has the rights of an administrator.
    pub elevated: bool,
    /// The service is stopped, and the button that starts it stands out.
    pub prompt_start: bool,
    /// The question that the user is asked.
    pub confirm: Option<Confirm>,
    pub log_lines: Vec<String>,
    /// When the status was last looked at.
    pub last_auto_status: Nanos,
    pub ncd_summary: String,
    pub watchdog: Watchdog,
    pub print_notify: PrintNotify,
    pub last_service_state: Option<ServiceState>,
    pub has_tray: bool,
    /// Closing the window ends the program.
    pub allow_exit: bool,
    pub window_in_tray: bool,
    /// Hide in the tray at the first opportunity.
    pub start_in_tray: bool,
    /// Come to the front at the first opportunity.
    pub force_show_window: bool,
    pub autostart_enabled: bool,
    /// What the user has typed for a target.
    pub host_input: String,
    /// The target.
    pub host: Host,
    /// When the mouse came to rest on the button for more rights.
    pub admin_tip_started: Option<Nanos>,
}

/// The state of the window, as a value of its own.
pub struct AppView {
    pub status_line: Seq<char>,
    pub queue_line: Seq<char>,
    pub printers: Seq<queue::PrinterView>,
    pub message: Seq<char>,
    pub message_is_error: bool,
    pub busy: bool,
    pub waiting: bool,
    pub elevated: bool,
    pub prompt_start: bool,
    pub confirm: Option<Confirm>,
    pub log_lines: Seq<Seq<char>>,
    pub last_auto_status: Nanos,
    pub ncd_summary: Seq<char>,
    pub watchdog: watchdog::WatchView,
    pub print_notify: PrintNotify,
    pub last_service_state: Option<ServiceState>,
    pub has_tray: bool,
    pub allow_exit: bool,
    pub window_in_tray: bool,
    pub start_in_tray: bool,
    pub force_show_window: bool,
    pub autostart_enabled: bool,
    pub host_input: Seq<char>,
    pub host: Seq<char>,
    pub admin_tip_started: Option<Nanos>,
}

impl View for SpoolCtlApp {
    type V = AppView;

    open spec fn view(&self) -> AppView {
        AppView {
            status_line: self.status_line@,
            queue_line: self.queue_line@,
            printers: queue::views(self.printers@),
            message: self.message@,
            message_is_error: self.message_is_error,
            busy: self.busy,
            waiting: self.waiting,
            elevated: self.elevated,
            prompt_start: self.prompt_start,
            confirm: self.confirm,
            log_lines: text::texts(self.log_lines@),
            last_auto_status: self.last_auto_status,
            ncd_summary: self.ncd_summary@,
            watchdog: self.watchdog@,
            print_notify: self.print_notify,
            last_service_state: self.last_service_state,
            has_tray: self.has_tray,
            allow_exit: self.allow_exit,
            window_in_tray: self.window_in_tray,
            start_in_tray: self.start_in_tray,
            force_show_window: self.force_show_window,
            autostart_enabled: self.autostart_enabled,
            host_input: self.host_input@,
            host: self.host@,
            admin_tip_started: self.admin_tip_started,
        }
    }
}

/// A job about which the user is asked first.
pub open spec fn asked_first(job: Job) -> bool {
    job is Stop || job is Restart || job is ClearOnly || job is FixClear
}

/// The jobs of all printers fit in one number, and no question is asked about a job
/// that does no harm.
pub open spec fn sound(v: AppView) -> bool {
    &&& queue::total_jobs(v.printers) <= usize::MAX
    &&& v.confirm matches Some(Confirm::Job(job)) ==> asked_first(job)
}

/// The jobs of the snapshot fit in one number.
pub open spec fn snap_fits(snap: QueueSnapshot) -> bool {
    queue::total_jobs(queue::views(snap.printers@)) <= usize::MAX
}

/// The state with a new message.
pub open spec fn said(v: AppView, message: Seq<char>, is_error: bool) -> AppView {
    AppView { message, message_is_error: is_error, ..v }
}

impl SpoolCtlApp {
    fn say(&mut self, message: String, is_error: bool)
        ensures
            final(self)@ == said(old(self)@, message@, is_error),
    {
        self.message = message;
        self.message_is_error = is_error;
    }
}

// ---------------------------------------------------------------------------
// Status and queue

/// What is shown of a snapshot.
pub open spec fn queue_shown(v: AppView, snap: QueueSnapshot) -> AppView {
    AppView {
        queue_line: queue::snapshot_line(snap.jobs, snap.files, text::opt_str(snap.files_note)),
        printers: queue::views(snap.printers@),
        ..v
    }
}

/// What is shown of a status.
pub open spec fn status_shown(v: AppView, status: SpoolerStatus) -> AppView {
    AppView {
        status_line: spooler::service_phrase_ru(status.state) + " — "@ + host::host_label(v.host),
        prompt_start: status.state is Stopped,
        last_service_state: Some(status.state),
        ..v
    }
}

/// What is shown of a snapshot of this computer; the queue of another one is not
/// looked at in between, because that can take minutes.
pub open spec fn local_queue_shown(v: AppView, snap: QueueSnapshot) -> AppView {
    if v.host.len() == 0 {
        queue_shown(v, snap)
    } else {
        v
    }
}

/// What is shown when the status was asked for.
pub open spec fn query_shown(
    v: AppView,
    status: Result<SpoolerStatus, String>,
    snap: QueueSnapshot,
) -> AppView {
    match status {
        Ok(s) => said(
            local_queue_shown(status_shown(v, s), snap),
            "Статус обновлён ("@ + host::host_label(v.host) + ")."@,
            false,
        ),
        Err(e) => said(
            AppView {
                status_line: "служба печати недоступна — "@ + host::host_label(v.host),
                ..v
            },
            e@,
            true,
        ),
    }
}

impl SpoolCtlApp {
    /// Shows the last lines of the log.
    pub fn refresh_log_view(&mut self, log_lines: Vec<String>)
        ensures
            final(self)@ == (AppView { log_lines: text::texts(log_lines@), ..old(self)@ }),
    {
        self.log_lines = log_lines;
    }

    /// Shows what is known about automatic setup.
    pub fn refresh_ncd_summary(&mut self, status: &NcdStatus)
        ensures
            final(self)@ == (AppView { ncd_summary: ncd::status_summary(*status), ..old(self)@ }),
    {
        self.ncd_summary = status.summary_ru();
    }

    /// Shows a snapshot.
    pub fn apply_queue_snap(&mut self, snap: QueueSnapshot)
        ensures
            final(self)@ == queue_shown(old(self)@, snap),
    {
        self.queue_line = snap.line_ru();
        self.printers = snap.printers;
    }

    /// Shows a status.
    pub fn apply_status_fields(&mut self, status: &SpoolerStatus)
        ensures
            final(self)@ == status_shown(old(self)@, *status),
    {
        let mut s = format_status(status);
        s.append(" — ");
        s.append(self.host.label_ru().as_str());
        self.status_line = s;
        self.prompt_start = status.state == ServiceState::Stopped;
        self.last_service_state = Some(status.state);
    }

    /// Shows a snapshot of this computer.
    pub fn refresh_queue_line(&mut self, snap: QueueSnapshot)
        ensures
            final(self)@ == local_queue_shown(old(self)@, snap),
    {
        if self.host.is_local() {
            self.apply_queue_snap(snap);
        }
    }

    /// Shows the status that was asked for, and the snapshot that came with it.
    pub fn apply_status_query_local(
        &mut self,
        status: Result<SpoolerStatus, String>,
        snap: QueueSnapshot,
    )
        requires
            sound(old(self)@),
            snap_fits(snap),
        ensures
            sound(final(self)@),
            final(self)@ == query_shown(old(self)@, status, snap),
    {
        match status {
            Ok(s) => {
                self.apply_status_fields(&s);
                self.refresh_queue_line(snap);
                let mut m = "Статус обновлён (".to_owned();
                m.append(self.host.label_ru().as_str());
                m.append(").");
                self.say(m, false);
            },
            Err(e) => {
                let mut s = "служба печати недоступна — ".to_owned();
                s.append(self.host.label_ru().as_str());
                self.status_line = s;
                self.say(e, true);
            },
        }
    }
}

/// A status in words.
pub fn format_status(status: &SpoolerStatus) -> (r: String)
    ensures
        r@ == spooler::service_phrase_ru(status.state),
{
    status.state.as_ru_service_phrase().to_owned()
}

/// A number of jobs in words.
pub fn jobs_phrase_ui(n: usize) -> (r: String)
    ensures
        r@ == queue::jobs_words(n as nat),
{
    jobs_phrase(n)
}

// ---------------------------------------------------------------------------
// Jobs

/// What a job is called while it is under way.
pub open spec fn job_title(job: Job, label: Seq<char>) -> Seq<char> {
    let verb = match job {
        Job::Refresh => "Обновление статуса ("@,
        Job::Stop => "Остановка Spooler ("@,
        Job::Start => "Запуск Spooler ("@,
        Job::Restart => "Перезапуск Spooler ("@,
        Job::ClearOnly => "Очистка очереди ("@,
        Job::FixClear => "Очистка очереди и перезапуск ("@,
    };
    verb + label + ")"@
}

/// What a job is called when it is done.
pub open spec fn job_label(job: Job) -> Seq<char> {
    match job {
        Job::Refresh => "Обновление"@,
        Job::Stop => "Остановка"@,
        Job::Start => "Запуск"@,
        Job::Restart => "Перезапуск"@,
        Job::ClearOnly => "Очистка очереди"@,
        Job::FixClear => "Очистка и перезапуск"@,
    }
}

/// What a job asks of the service.
pub open spec fn job_goal(job: Job) -> Goal {
    match job {
        Job::Refresh => Goal::Query,
        Job::Stop => Goal::Stop,
        Job::Start => Goal::Start,
        Job::Restart => Goal::Restart,
        Job::ClearOnly => Goal::Clear,
        Job::FixClear => Goal::Fix,
    }
}

impl Job {
    /// What the job is called when it is done.
    pub fn label(self) -> (r: &'static str)
        ensures
            r@ == job_label(self),
    {
        match self {
            Job::Refresh => "Обновление",
            Job::Stop => "Остановка",
            Job::Start => "Запуск",
            Job::Restart => "Перезапуск",
            Job::ClearOnly => "Очистка очереди",
            Job::FixClear => "Очистка и перезапуск",
        }
    }

    /// What the job asks of the service.
    pub fn goal(self) -> (r: Goal)
        ensures
            r == job_goal(self),
    {
        match self {
            Job::Refresh => Goal::Query,
            Job::Stop => Goal::Stop,
            Job::Start => Goal::Start,
            Job::Restart => Goal::Restart,
            Job::ClearOnly => Goal::Clear,
            Job::FixClear => Goal::Fix,
        }
    }

    fn title(self, label: &str) -> (r: String)
        ensures
            r@ == job_title(self, label@),
    {
        let mut s = match self {
            Job::Refresh => "Обновление статуса (".to_owned(),
            Job::Stop => "Остановка Spooler (".to_owned(),
            Job::Start => "Запуск Spooler (".to_owned(),
            Job::Restart => "Перезапуск Spooler (".to_owned(),
            Job::ClearOnly => "Очистка очереди (".to_owned(),
            Job::FixClear => "Очистка очереди и перезапуск (".to_owned(),
        };
        s.append(label);
        s.append(")");
        s
    }
}

/// What is said when a job is done: the participle follows the noun.
pub open spec fn done_words(label: Seq<char>) -> Seq<char> {
    label + " "@ + if label == "Обновление"@ {
        "выполнено"@
    } else if label == "Остановка"@ || label == "Очистка очереди"@ || label
        == "Очистка и перезапуск"@ {
        "выполнена"@
    } else {
        "выполнен"@
    } + "."@
}

/// What is said when a job is done.
pub fn done_message(label: &str) -> (r: String)
    ensures
        r@ == done_words(label@),
{
    let participle = if text::same(label, "Обновление") {
        "выполнено"
    } else if text::same(label, "Остановка") || text::same(label, "Очистка очереди") || text::same(
        label,
        "Очистка и перезапуск",
    ) {
        "выполнена"
    } else {
        "выполнен"
    };
    let mut s = label.to_owned();
    s.append(" ");
    s.append(participle);
    s.append(".");
    s
}

/// A job is asked for.
pub open spec fn job_started(v: AppView, fx: Seq<EffectView>, job: Job) -> (
    AppView,
    Seq<EffectView>,
) {
    if v.busy {
        (
            v,
            fx.push(
                EffectView::Log(
                    Level::Warn,
                    "Повторный запуск операции проигнорирован: уже выполняется"@,
                ),
            ),
        )
    } else {
        match host::parse_host(v.host_input) {
            Err(e) => (said(v, e, true), fx),
            Ok(name) => {
                let title = job_title(job, host::host_label(name));
                (
                    said(
                        AppView { host: name, busy: true, waiting: true, ..v },
                        title + "…"@,
                        false,
                    ),
                    fx.push(EffectView::Log(Level::Info, title + ": начало"@)).push(
                        EffectView::StartJob(job),
                    ),
                )
            },
        }
    }
}

impl SpoolCtlApp {
    /// Takes the target from what the user has typed, and says whether it is another
    /// one.
    pub fn sync_host_from_input(&mut self) -> (r: Result<bool, String>)
        ensures
            match host::parse_host(old(self)@.host_input) {
                Ok(name) => r == Ok::<bool, String>(name != old(self)@.host) && final(self)@ == (
                AppView { host: name, ..old(self)@ }),
                Err(e) => r is Err && r->Err_0@ == e && final(self)@ == old(self)@,
            },
    {
        match Host::parse(self.host_input.as_str()) {
            Err(e) => Err(e),
            Ok(target) => {
                let changed = !target.same_host(&self.host);
                self.host = target;
                Ok(changed)
            },
        }
    }

    /// Starts a job, unless one is under way.
    pub fn start_job(&mut self, job: Job, fx: &mut Effects)
        ensures
            sound(old(self)@) ==> sound(final(self)@),
            (final(self)@, final(fx)@) == job_started(old(self)@, old(fx)@, job),
    {
        if self.busy {
            fx.log(Level::Warn, "Повторный запуск операции проигнорирован: уже выполняется");
            return;
        }
        match self.sync_host_from_input() {
            Err(e) => {
                self.say(e, true);
                return;
            },
            Ok(_) => {},
        }
        let title = job.title(self.host.label_ru().as_str());
        let mut message = title.as_str().to_owned();
        message.append("…");
        self.busy = true;
        self.waiting = true;
        self.say(message, false);
        let mut s = title;
        s.append(": начало");
        fx.log(Level::Info, s.as_str());
        fx.add(Effect::StartJob(job));
    }
}

/// What is known about a job that is waited for.
#[derive(Debug)]
pub enum JobEvent {
    Done {
        job: Job,
        status: SpoolerStatus,
        report: Option<ClearReport>,
        /// The queue after the job, looked at in the background.
        snap: QueueSnapshot,
    },
    Failed { job: Job, error: String },
    /// Nothing yet.
    Pending,
    /// The job broke off.
    Lost,
}

/// The report with the names of the deleted files.
pub open spec fn detail_of(report: ClearReport) -> Seq<char> {
    queue::report_summary(report.directory@, report.deleted as nat, text::texts(report.failed@))
        + queue::report_names(report.deleted as nat, text::texts(report.deleted_names@))
}

/// The service was left stopped by a job that clears the queue.
pub open spec fn left_stopped(job: Job, status: SpoolerStatus) -> bool {
    job is ClearOnly && status.state is Stopped
}

/// What is put in the log when a job is done.
pub open spec fn job_log(
    job: Job,
    status: SpoolerStatus,
    report: Option<ClearReport>,
) -> EffectView {
    match report {
        Some(r) => EffectView::Log(
            if r.failed@.len() > 0 {
                Level::Warn
            } else {
                Level::Info
            },
            job_label(job) + ": "@ + detail_of(r) + "; «"@ + spooler::state_ru(status.state)
                + "»"@,
        ),
        None => EffectView::Log(
            Level::Info,
            job_label(job) + ": ок («"@ + spooler::state_ru(status.state) + "»)"@,
        ),
    }
}

/// What is said when a job is done.
pub open spec fn job_message(
    job: Job,
    status: SpoolerStatus,
    report: Option<ClearReport>,
) -> Seq<char> {
    match report {
        Some(r) => if left_stopped(job, status) {
            job_label(job) + ": "@ + detail_of(r)
                + " Служба оставлена остановленной — нажмите «Запустить службу»."@
        } else {
            job_label(job) + ": "@ + detail_of(r)
        },
        None => done_words(job_label(job)),
    }
}

/// The job restarts the service.
pub open spec fn restarts(job: Job) -> bool {
    job is Restart || job is FixClear
}

/// No job is under way.
pub open spec fn idle_again(v: AppView) -> AppView {
    AppView { busy: false, waiting: false, ..v }
}

/// The watchdog knows of a restart.
pub open spec fn restart_noted(v: AppView, now: Nanos) -> AppView {
    AppView {
        watchdog: watchdog::unseen(
            (watchdog::WatchView { last_auto_restart: Some(now), ..v.watchdog }),
        ),
        ..v
    }
}

/// A job is done.
pub open spec fn job_done(
    v: AppView,
    fx: Seq<EffectView>,
    now: Nanos,
    job: Job,
    status: SpoolerStatus,
    report: Option<ClearReport>,
    snap: QueueSnapshot,
) -> (AppView, Seq<EffectView>) {
    let shown = queue_shown(status_shown(v, status), snap);
    let told = idle_again(
        said(
            AppView {
                prompt_start: shown.prompt_start || left_stopped(job, status),
                last_auto_status: now,
                ..shown
            },
            job_message(job, status, report),
            report is Some && report->0.failed@.len() > 0,
        ),
    );
    let logged = fx.push(job_log(job, status, report));
    if restarts(job) {
        (
            restart_noted(told, now),
            tipped(
                logged,
                v.has_tray,
                "SpoolCtl "@ + APP_VERSION@ + "\nСторож работает, пока иконка в трее"@,
            ).push(EffectView::RefreshLog),
        )
    } else {
        (told, logged.push(EffectView::RefreshLog))
    }
}

/// A job has failed.
pub open spec fn job_failed(
    v: AppView,
    fx: Seq<EffectView>,
    now: Nanos,
    job: Job,
    error: Seq<char>,
) -> (AppView, Seq<EffectView>) {
    (
        idle_again(
            said(
                AppView {
                    status_line: "служба печати недоступна — "@ + host::host_label(v.host),
                    last_auto_status: now,
                    ..v
                },
                job_label(job) + ": "@ + error,
                true,
            ),
        ),
        fx.push(EffectView::Log(Level::Error, job_label(job) + ": "@ + error)).push(
            EffectView::RefreshLog,
        ),
    )
}

/// Something is known about a job.
pub open spec fn job_polled(v: AppView, fx: Seq<EffectView>, now: Nanos, event: JobEvent) -> (
    AppView,
    Seq<EffectView>,
) {
    if !v.waiting {
        (v, fx)
    } else {
        match event {
            JobEvent::Done { job, status, report, snap } => job_done(
                v,
                fx,
                now,
                job,
                status,
                report,
                snap,
            ),
            JobEvent::Failed { job, error } => job_failed(v, fx, now, job, error@),
            JobEvent::Pending => (v, fx.push(EffectView::RepaintAfter(JOB_POLL))),
            JobEvent::Lost => (
                idle_again(said(v, "Фоновая операция оборвалась."@, true)),
                fx.push(EffectView::Log(Level::Error, "Фоновая операция оборвалась"@)).push(
                    EffectView::RefreshLog,
                ),
            ),
        }
    }
}

fn was_left_stopped(job: Job, status: &SpoolerStatus) -> (r: bool)
    ensures
        r == left_stopped(job, *status),
{
    match job {
        Job::ClearOnly => status.state == ServiceState::Stopped,
        _ => false,
    }
}

/// Puts in the log that a job is done, and returns what is said about it and whether
/// that is an error.
fn tell_of_job(
    job: Job,
    status: &SpoolerStatus,
    report: &Option<ClearReport>,
    fx: &mut Effects,
) -> (r: (String, bool))
    ensures
        final(fx)@ == old(fx)@.push(job_log(job, *status, *report)),
        r.0@ == job_message(job, *status, *report),
        r.1 == (report is Some && report->0.failed@.len() > 0),
{
    match report {
        Some(r) => {
            let failures = r.failed.len() > 0;
            let mut m = job.label().to_owned();
            m.append(": ");
            m.append(r.detail_ru().as_str());
            let mut s = m.as_str().to_owned();
            s.append("; «");
            s.append(status.state.as_ru_str());
            s.append("»");
            let level = if failures {
                Level::Warn
            } else {
                Level::Info
            };
            fx.log(level, s.as_str());
            if was_left_stopped(job, status) {
                m.append(" Служба оставлена остановленной — нажмите «Запустить службу».");
            }
            (m, failures)
        },
        None => {
            let mut s = job.label().to_owned();
            s.append(": ок («");
            s.append(status.state.as_ru_str());
            s.append("»)");
            fx.log(Level::Info, s.as_str());
            (done_message(job.label()), false)
        },
    }
}

impl SpoolCtlApp {
    fn finish_job(
        &mut self,
        now: Nanos,
        job: Job,
        status: &SpoolerStatus,
        report: &Option<ClearReport>,
        snap: QueueSnapshot,
        fx: &mut Effects,
    )
        ensures
            (final(self)@, final(fx)@) == job_done(
                old(self)@,
                old(fx)@,
                now,
                job,
                *status,
                *report,
                snap,
            ),
    {
        self.apply_status_fields(status);
        self.apply_queue_snap(snap);
        if was_left_stopped(job, status) {
            self.prompt_start = true;
        }
        let (message, failures) = tell_of_job(job, status, report, fx);
        self.last_auto_status = now;
        self.say(message, failures);
        self.be_idle();
        match job {
            Job::Restart | Job::FixClear => {
                self.restarted(now, fx);
            },
            _ => {},
        }
        fx.add(Effect::RefreshLog);
    }

    fn be_idle(&mut self)
        ensures
            final(self)@ == idle_again(old(self)@),
    {
        self.busy = false;
        self.waiting = false;
    }

    fn restarted(&mut self, now: Nanos, fx: &mut Effects)
        ensures
            final(self)@ == restart_noted(old(self)@, now),
            final(fx)@ == tipped(
                old(fx)@,
                old(self)@.has_tray,
                "SpoolCtl "@ + APP_VERSION@ + "\nСторож работает, пока иконка в трее"@,
            ),
    {
        self.watchdog.note_restart_done(now);
        let mut s = "SpoolCtl ".to_owned();
        s.append(APP_VERSION);
        s.append("\nСторож работает, пока иконка в трее");
        fx.tip(self.has_tray, s.as_str());
    }

    /// Takes in what is known about the job that is waited for, if any is.
    pub fn poll_job(&mut self, now: Nanos, event: JobEvent, fx: &mut Effects)
        requires
            sound(old(self)@),
            event matches JobEvent::Done { snap, .. } ==> snap_fits(snap),
        ensures
            sound(final(self)@),
            (final(self)@, final(fx)@) == job_polled(old(self)@, old(fx)@, now, event),
    {
        if !self.waiting {
            return;
        }
        match event {
            JobEvent::Done { job, status, report, snap } => {
                self.finish_job(now, job, &status, &report, snap, fx);
            },
            JobEvent::Failed { job, error } => {
                let mut m = job.label().to_owned();
                m.append(": ");
                m.append(error.as_str());
                fx.log(Level::Error, m.as_str());
                let mut s = "служба печати недоступна — ".to_owned();
                s.append(self.host.label_ru().as_str());
                self.status_line = s;
                self.say(m, true);
                self.busy = false;
                self.waiting = false;
                self.last_auto_status = now;
                fx.add(Effect::RefreshLog);
            },
            JobEvent::Pending => {
                fx.add(Effect::RepaintAfter(JOB_POLL));
            },
            JobEvent::Lost => {
                fx.log(Level::Error, "Фоновая операция оборвалась");
                self.say("Фоновая операция оборвалась.".to_owned(), true);
                self.busy = false;
                self.waiting = false;
                fx.add(Effect::RefreshLog);
            },
        }
    }
}

// ---------------------------------------------------------------------------
// Beginning

/// The rights in words.
pub open spec fn rights_words(elevated: bool) -> Seq<char> {
    if elevated {
        "администратор"@
    } else {
        "обычный пользователь"@
    }
}

/// The rights in words.
pub fn rights_ru(elevated: bool) -> (r: &'static str)
    ensures
        r@ == rights_words(elevated),
{
    if elevated {
        "администратор"
    } else {
        "обычный пользователь"
    }
}

/// The window before anything has happened.
pub open spec fn new_window(
    elevated: bool,
    file: Option<Seq<char>>,
    ncd_status: NcdStatus,
    autostart: bool,
    start_in_tray: bool,
    force_show_window: bool,
    now: Nanos,
) -> AppView {
    let notify = print_notify::settings_in(file);
    AppView {
        status_line: "статус службы печати ещё не запрошен"@,
        queue_line: "очередь: ещё не проверена"@,
        printers: Seq::empty(),
        message: "Нажмите «Обновить» или выполните действие."@,
        message_is_error: false,
        busy: false,
        waiting: false,
        elevated,
        prompt_start: false,
        confirm: None,
        log_lines: Seq::empty(),
        last_auto_status: now,
        ncd_summary: ncd::status_summary(ncd_status),
        watchdog: watchdog::WatchView {
            settings: watchdog::settings_in(file),
            queue_fp: None,
            queue_unchanged_since: None,
            pending_since: None,
            last_auto_restart: None,
            warned_fp: None,
        },
        print_notify: PrintNotify { settings: notify, watching: notify.notify_print_jobs },
        last_service_state: None,
        has_tray: false,
        allow_exit: false,
        window_in_tray: false,
        start_in_tray,
        force_show_window: force_show_window && !start_in_tray,
        autostart_enabled: autostart,
        host_input: Seq::empty(),
        host: Seq::empty(),
        admin_tip_started: None,
    }
}

/// What is to be done when the window begins.
pub open spec fn beginnings(elevated: bool, notify: bool) -> Seq<EffectView> {
    let first = seq![
        EffectView::Log(Level::Info, "GUI готов (права: "@ + rights_words(elevated) + ")"@),
    ];
    notified(
        first,
        if notify {
            print_notify::turns_on(false)
        } else {
            seq![]
        },
    ).push(EffectView::InstallTray)
}

/// What is put in the log about what is switched on, and what follows.
pub open spec fn welcomed(v: AppView, fx: Seq<EffectView>) -> Seq<EffectView> {
    let a = if v.watchdog.settings.watch_enabled {
        fx.push(EffectView::Log(Level::Info, "Сторож зависания: включён"@))
    } else {
        fx
    };
    let b = if v.watchdog.settings.auto_restart {
        a.push(EffectView::Log(Level::Info, "Сторож зависания: автоперезапуск включён"@))
    } else {
        a
    };
    let c = if v.print_notify.settings.notify_print_jobs {
        b.push(EffectView::Log(Level::Info, "Уведомления о печати: включены"@))
    } else {
        b
    };
    c.push(EffectView::RefreshLog).push(EffectView::QueryStatus)
}

/// The tray icon was asked for.
pub open spec fn tray_answered(v: AppView, fx: Seq<EffectView>, result: Result<(), String>) -> (
    AppView,
    Seq<EffectView>,
) {
    match result {
        Ok(()) => {
            let w = AppView { has_tray: true, ..v };
            (
                w,
                welcomed(
                    w,
                    fx.push(
                        EffectView::Log(
                            Level::Info,
                            "Иконка в трее: окно можно закрыть — сторож продолжит работу"@,
                        ),
                    ),
                ),
            )
        },
        Err(e) => {
            let w = said(v, "Трей недоступен: "@ + e@, true);
            (w, welcomed(w, fx.push(EffectView::Log(Level::Warn, "Трей недоступен: "@ + e@))))
        },
    }
}

impl SpoolCtlApp {
    /// The window before anything has happened, and what is to be done first.
    pub fn new(
        elevated: bool,
        settings_file: Option<&str>,
        ncd_status: &NcdStatus,
        autostart: bool,
        start_in_tray: bool,
        force_show_window: bool,
        now: Nanos,
    ) -> (r: (Self, Effects))
        ensures
            sound(r.0@),
            r.0@ == new_window(
                elevated,
                text::opt_str(settings_file),
                *ncd_status,
                autostart,
                start_in_tray,
                force_show_window,
                now,
            ),
            r.1@ == beginnings(elevated, r.0@.print_notify.settings.notify_print_jobs),
    {
        let mut fx = Effects::none();
        let mut s = "GUI готов (права: ".to_owned();
        s.append(rights_ru(elevated));
        s.append(")");
        fx.log(Level::Info, s.as_str());
        let (print_notify, turns) = PrintNotify::load(settings_file);
        fx.turns(&turns);
        fx.add(Effect::InstallTray);
        let app = SpoolCtlApp {
            status_line: "статус службы печати ещё не запрошен".to_owned(),
            queue_line: "очередь: ещё не проверена".to_owned(),
            printers: Vec::new(),
            message: "Нажмите «Обновить» или выполните действие.".to_owned(),
            message_is_error: false,
            busy: false,
            waiting: false,
            elevated,
            prompt_start: false,
            confirm: None,
            log_lines: Vec::new(),
            last_auto_status: now,
            ncd_summary: ncd_status.summary_ru(),
            watchdog: Watchdog::load(settings_file),
            print_notify,
            last_service_state: None,
            has_tray: false,
            allow_exit: false,
            window_in_tray: false,
            start_in_tray,
            force_show_window: force_show_window && !start_in_tray,
            autostart_enabled: autostart,
            host_input: String::new(),
            host: Host::local(),
            admin_tip_started: None,
        };
        proof {
            assert(queue::views(app.printers@) =~= Seq::empty());
            assert(text::texts(app.log_lines@) =~= Seq::empty());
            assert(app.host_input@ =~= Seq::empty());
            assert(app.host@ =~= Seq::empty());
            assert(queue::total_jobs(Seq::empty()) == 0);
        }
        (app, fx)
    }

    /// Takes in whether the tray icon is there.
    pub fn tray_installed(&mut self, result: Result<(), String>, fx: &mut Effects)
        ensures
            sound(old(self)@) ==> sound(final(self)@),
            (final(self)@, final(fx)@) == tray_answered(old(self)@, old(fx)@, result),
    {
        match result {
            Ok(()) => {
                fx.log(
                    Level::Info,
                    "Иконка в трее: окно можно закрыть — сторож продолжит работу",
                );
                self.has_tray = true;
            },
            Err(e) => {
                let mut s = "Трей недоступен: ".to_owned();
                s.append(e.as_str());
                fx.log(Level::Warn, s.as_str());
                self.say(s, true);
            },
        }
        self.welcome(fx);
    }

    fn welcome(&self, fx: &mut Effects)
        ensures
            final(fx)@ == welcomed(self@, old(fx)@),
    {
        if self.watchdog.settings.watch_enabled {
            fx.log(Level::Info, "Сторож зависания: включён");
        }
        if self.watchdog.settings.auto_restart {
            fx.log(Level::Info, "Сторож зависания: автоперезапуск включён");
        }
        if self.print_notify.settings.notify_print_jobs {
            fx.log(Level::Info, "Уведомления о печати: включены");
        }
        fx.add(Effect::RefreshLog);
        fx.add(Effect::QueryStatus);
    }
}

/// The title of the window.
pub fn window_title(elevated: bool) -> (r: String)
    ensures
        r@ == if elevated {
            "SpoolCtl "@ + APP_VERSION@ + " (администратор)"@
        } else {
            "SpoolCtl "@ + APP_VERSION@
        },
{
    let mut s = "SpoolCtl ".to_owned();
    s.append(APP_VERSION);
    if elevated {
        s.append(" (администратор)");
    }
    s
}

// ---------------------------------------------------------------------------
// The target

/// The user has named a target.
pub open spec fn target_named(v: AppView, fx: Seq<EffectView>) -> (AppView, Seq<EffectView>) {
    match host::parse_host(v.host_input) {
        Err(e) => (said(v, e, true), fx),
        Ok(name) => {
            let w = AppView { host: name, ..v };
            let logged = if name != v.host {
                fx.push(EffectView::Log(Level::Info, "Цель: "@ + host::host_label(name)))
            } else {
                fx
            };
            if name.len() == 0 {
                (w, logged.push(EffectView::QueryStatus).push(EffectView::RefreshLog))
            } else if !v.busy {
                job_started(w, logged, Job::Refresh)
            } else {
                (w, logged)
            }
        },
    }
}

impl SpoolCtlApp {
    /// Takes the target that the user has named. The status of this computer is asked
    /// for at once, that of another one in the background.
    pub fn apply_host_input(&mut self, fx: &mut Effects)
        ensures
            sound(old(self)@) ==> sound(final(self)@),
            (final(self)@, final(fx)@) == target_named(old(self)@, old(fx)@),
    {
        match self.sync_host_from_input() {
            Err(e) => {
                self.say(e, true);
            },
            Ok(changed) => {
                if changed {
                    let mut s = "Цель: ".to_owned();
                    s.append(self.host.label_ru().as_str());
                    fx.log(Level::Info, s.as_str());
                }
                if self.host.is_local() {
                    fx.add(Effect::QueryStatus);
                    fx.add(Effect::RefreshLog);
                } else if !self.busy {
                    self.start_job(Job::Refresh, fx);
                }
            },
        }
    }
}

// ---------------------------------------------------------------------------
// Hangs and prints

/// The window comes out of the tray, if it is there.
pub open spec fn surfaced(v: AppView, fx: Seq<EffectView>) -> (AppView, Seq<EffectView>) {
    if v.window_in_tray {
        (AppView { window_in_tray: false, ..v }, fx.push(EffectView::ShowWindow))
    } else {
        (v, fx)
    }
}

/// The user is told of a hang: what is put in the log, said, and shown at the tray
/// icon.
pub open spec fn alarmed(
    v: AppView,
    fx: Seq<EffectView>,
    log: Seq<char>,
    message: Seq<char>,
    tip: Seq<char>,
) -> (AppView, Seq<EffectView>) {
    let (w, out) = surfaced(
        said(v, message, true),
        tipped(fx.push(EffectView::Log(Level::Warn, log)), v.has_tray, tip),
    );
    (w, out.push(EffectView::RefreshLog))
}

/// What is done about a hang.
pub open spec fn hang_handled(
    v: AppView,
    fx: Seq<EffectView>,
    now: Nanos,
    summary: Seq<char>,
    action: Action,
) -> (AppView, Seq<EffectView>) {
    match action {
        Action::Warn => alarmed(
            v,
            fx,
            summary,
            summary + " Включите «Автоперезапуск» или нажмите «Перезапустить»."@,
            "SpoolCtl: "@ + summary,
        ),
        Action::AutoRestart => if !v.elevated {
            alarmed(
                v,
                fx,
                summary + " Автоперезапуск пропущен: нет прав администратора."@,
                summary + " Автоперезапуск нужен от имени администратора."@,
                "SpoolCtl: нужен администратор — "@ + summary,
            )
        } else {
            job_started(
                restart_noted(
                    said(v, summary + " Выполняется автоперезапуск…"@, false),
                    now,
                ),
                tipped(
                    fx.push(
                        EffectView::Log(Level::Warn, summary + " Автоперезапуск Spooler…"@),
                    ),
                    v.has_tray,
                    "SpoolCtl: автоперезапуск Spooler…"@,
                ).push(EffectView::RefreshLog),
                Job::Restart,
            )
        },
    }
}

/// The watchdog looks at the service and its queue.
pub open spec fn watched(v: AppView, fx: Seq<EffectView>, now: Nanos) -> (
    AppView,
    Seq<EffectView>,
) {
    if v.busy || v.confirm is Some || v.last_service_state is None {
        (v, fx)
    } else {
        let (w, found) = watchdog::observed(
            v.watchdog,
            now,
            v.last_service_state->0,
            v.printers,
        );
        let seen = AppView { watchdog: w, ..v };
        match found {
            None => (seen, fx),
            Some((hang, action)) => hang_handled(
                seen,
                fx,
                now,
                watchdog::hang_summary(hang),
                action,
            ),
        }
    }
}

/// The watcher has told of printers.
pub open spec fn printed(v: AppView, fx: Seq<EffectView>, names: Seq<Seq<char>>) -> (
    AppView,
    Seq<EffectView>,
) {
    if names.len() == 0 {
        (v, fx)
    } else {
        let m = print_notify::message(names);
        (
            said(v, m, false),
            tipped(fx, v.has_tray, "SpoolCtl: "@ + m).push(EffectView::RefreshLog),
        )
    }
}

/// The status and the queue are looked at in passing. Those of another computer are
/// not, because that can take minutes.
pub open spec fn quietly_looked(
    v: AppView,
    now: Nanos,
    status: Result<SpoolerStatus, String>,
    snap: QueueSnapshot,
) -> AppView {
    let w = AppView { last_auto_status: now, ..v };
    if v.host.len() > 0 {
        w
    } else {
        all_shown(w, status, snap)
    }
}

/// What happens when nothing else does: the status and the queue are looked at, then
/// the watchdog looks, and then the watcher is listened to. With another computer as
/// the target there is neither watchdog nor watcher.
pub open spec fn looked_around(
    v: AppView,
    fx: Seq<EffectView>,
    now: Nanos,
    status: Result<SpoolerStatus, String>,
    snap: QueueSnapshot,
    names: Seq<Seq<char>>,
) -> (AppView, Seq<EffectView>) {
    let w = quietly_looked(v, now, status, snap);
    if v.host.len() > 0 {
        (w, fx)
    } else {
        ticked(w, fx, now, names)
    }
}

/// What is shown of the status, if it could be read, and of the queue.
pub open spec fn all_shown(
    v: AppView,
    status: Result<SpoolerStatus, String>,
    snap: QueueSnapshot,
) -> AppView {
    match status {
        Ok(s) => queue_shown(status_shown(v, s), snap),
        Err(_) => queue_shown(v, snap),
    }
}

/// The watchdog looks, and then the watcher is listened to.
pub open spec fn ticked(v: AppView, fx: Seq<EffectView>, now: Nanos, names: Seq<Seq<char>>) -> (
    AppView,
    Seq<EffectView>,
) {
    printed(watched(v, fx, now).0, watched(v, fx, now).1, names)
}

impl SpoolCtlApp {
    fn surface(&mut self, fx: &mut Effects)
        ensures
            (final(self)@, final(fx)@) == surfaced(old(self)@, old(fx)@),
    {
        if self.window_in_tray {
            fx.add(Effect::ShowWindow);
            self.window_in_tray = false;
        }
    }

    fn alarm(&mut self, log: &str, message: String, tip: &str, fx: &mut Effects)
        ensures
            (final(self)@, final(fx)@) == alarmed(old(self)@, old(fx)@, log@, message@, tip@),
    {
        fx.log(Level::Warn, log);
        self.say(message, true);
        fx.tip(self.has_tray, tip);
        self.surface(fx);
        fx.add(Effect::RefreshLog);
    }

    fn note_restart(&mut self, now: Nanos)
        ensures
            final(self)@ == restart_noted(old(self)@, now),
    {
        self.watchdog.note_restart_done(now);
    }

    fn handle_hang(&mut self, now: Nanos, summary: &str, action: Action, fx: &mut Effects)
        ensures
            (final(self)@, final(fx)@) == hang_handled(
                old(self)@,
                old(fx)@,
                now,
                summary@,
                action,
            ),
    {
        match action {
            Action::Warn => {
                let mut m = summary.to_owned();
                m.append(" Включите «Автоперезапуск» или нажмите «Перезапустить».");
                let mut tip = "SpoolCtl: ".to_owned();
                tip.append(summary);
                self.alarm(summary, m, tip.as_str(), fx);
            },
            Action::AutoRestart => {
                if !self.elevated {
                    let mut log = summary.to_owned();
                    log.append(" Автоперезапуск пропущен: нет прав администратора.");
                    let mut m = summary.to_owned();
                    m.append(" Автоперезапуск нужен от имени администратора.");
                    let mut tip = "SpoolCtl: нужен администратор — ".to_owned();
                    tip.append(summary);
                    self.alarm(log.as_str(), m, tip.as_str(), fx);
                    return;
                }
                let mut log = summary.to_owned();
                log.append(" Автоперезапуск Spooler…");
                fx.log(Level::Warn, log.as_str());
                let mut m = summary.to_owned();
                m.append(" Выполняется автоперезапуск…");
                self.say(m, false);
                fx.tip(self.has_tray, "SpoolCtl: автоперезапуск Spooler…");
                self.note_restart(now);
                fx.add(Effect::RefreshLog);
                self.start_job(Job::Restart, fx);
            },
        }
    }

    /// Lets the watchdog look at the service and its queue, unless a job is under way
    /// or the user is asked something.
    pub fn run_watchdog_tick(&mut self, now: Nanos, fx: &mut Effects)
        requires
            sound(old(self)@),
        ensures
            sound(final(self)@),
            (final(self)@, final(fx)@) == watched(old(self)@, old(fx)@, now),
    {
        if self.busy || self.confirm.is_some() {
            return;
        }
        let state = match self.last_service_state {
            None => {
                return;
            },
            Some(s) => s,
        };
        match self.watchdog.observe(now, state, self.printers.as_slice()) {
            None => {},
            Some((hang, action)) => {
                let summary = hang.summary_ru();
                self.handle_hang(now, summary.as_str(), action, fx);
            },
        }
    }

    /// Shows the printers that the watcher has told of.
    pub fn run_print_notify_tick(&mut self, names: &[String], fx: &mut Effects)
        ensures
            sound(old(self)@) ==> sound(final(self)@),
            (final(self)@, final(fx)@) == printed(old(self)@, old(fx)@, text::texts(names@)),
    {
        if names.len() == 0 {
            return;
        }
        let m = message_ru(names);
        let mut tip = "SpoolCtl: ".to_owned();
        tip.append(m.as_str());
        fx.tip(self.has_tray, tip.as_str());
        self.say(m, false);
        fx.add(Effect::RefreshLog);
    }

    /// Takes in the status and the queue of this computer. The message stays as it is.
    pub fn quiet_status_refresh(
        &mut self,
        now: Nanos,
        status: Result<SpoolerStatus, String>,
        snap: QueueSnapshot,
    )
        requires
            sound(old(self)@),
            snap_fits(snap),
        ensures
            sound(final(self)@),
            final(self)@ == quietly_looked(old(self)@, now, status, snap),
    {
        self.last_auto_status = now;
        if self.host.is_local() {
            self.show_all(status, snap);
        }
    }

    /// Does what is to be done when nothing else happens: takes in the status and the
    /// queue of this computer, lets the watchdog look at them, and shows the printers
    /// that the watcher has told of.
    pub fn look_around(
        &mut self,
        now: Nanos,
        status: Result<SpoolerStatus, String>,
        snap: QueueSnapshot,
        names: &[String],
        fx: &mut Effects,
    )
        requires
            sound(old(self)@),
            snap_fits(snap),
        ensures
            sound(final(self)@),
            (final(self)@, final(fx)@) == looked_around(
                old(self)@,
                old(fx)@,
                now,
                status,
                snap,
                text::texts(names@),
            ),
    {
        self.quiet_status_refresh(now, status, snap);
        if self.host.is_local() {
            self.tick(now, names, fx);
        }
    }

    fn show_all(&mut self, status: Result<SpoolerStatus, String>, snap: QueueSnapshot)
        requires
            sound(old(self)@),
            snap_fits(snap),
        ensures
            sound(final(self)@),
            final(self)@ == all_shown(old(self)@, status, snap),
    {
        if let Ok(s) = &status {
            self.apply_status_fields(s);
        }
        self.apply_queue_snap(snap);
    }

    fn tick(&mut self, now: Nanos, names: &[String], fx: &mut Effects)
        requires
            sound(old(self)@),
        ensures
            sound(final(self)@),
            (final(self)@, final(fx)@) == ticked(
                old(self)@,
                old(fx)@,
                now,
                text::texts(names@),
            ),
    {
        self.run_watchdog_tick(now, fx);
        self.run_print_notify_tick(names, fx);
    }

    /// Whether the status is to be looked at in between: only that of this computer.
    pub fn polls_quietly(&self) -> (r: bool)
        ensures
            r == (self@.host.len() == 0),
    {
        self.host.is_local()
    }
}

// ---------------------------------------------------------------------------
// More rights

/// What is put in the log about a place.
pub open spec fn place_log(x: i32, y: i32) -> Seq<char> {
    "UAC relaunch: сохраняем позицию окна ("@ + number::signed_decimal(x as int) + ","@
        + number::signed_decimal(y as int) + ")"@
}

/// The user wants more rights. The tray icon goes, and the leave to have a window,
/// so that the program with more rights finds neither.
pub open spec fn rights_wanted(v: AppView, fx: Seq<EffectView>, pos: Option<(i32, i32)>) -> (
    AppView,
    Seq<EffectView>,
) {
    let first = fx.push(
        EffectView::Log(Level::Info, "Запрос запуска от имени администратора"@),
    );
    let second = match pos {
        Some((x, y)) => first.push(EffectView::Log(Level::Info, place_log(x, y))),
        None => first,
    };
    (
        AppView { has_tray: false, ..v },
        second.push(EffectView::DropTray).push(EffectView::ReleaseSlot).push(
            EffectView::Relaunch(pos),
        ),
    )
}

/// The user has answered: the program with more rights takes over, or all is as it
/// was before.
pub open spec fn rights_answered(v: AppView, fx: Seq<EffectView>, result: Result<(), String>) -> (
    AppView,
    Seq<EffectView>,
) {
    match result {
        Ok(()) => (
            v,
            fx.push(
                EffectView::Log(Level::Info, "UAC принят, закрытие текущего окна"@),
            ).push(EffectView::Exit),
        ),
        Err(e) => (
            said(v, e@, true),
            fx.push(EffectView::Log(Level::Error, e@)).push(EffectView::AcquireSlot).push(
                EffectView::InstallTray,
            ),
        ),
    }
}

/// The tray icon was asked for again.
pub open spec fn tray_back(v: AppView, fx: Seq<EffectView>, result: Result<(), String>) -> (
    AppView,
    Seq<EffectView>,
) {
    match result {
        Ok(()) => (AppView { has_tray: true, ..v }, fx.push(EffectView::RefreshLog)),
        Err(e) => (
            v,
            fx.push(EffectView::Log(Level::Warn, "Трей после отмены UAC: "@ + e@)).push(
                EffectView::RefreshLog,
            ),
        ),
    }
}

impl SpoolCtlApp {
    /// Asks for more rights.
    pub fn request_admin_relaunch(&mut self, pos: Option<(i32, i32)>, fx: &mut Effects)
        ensures
            sound(old(self)@) ==> sound(final(self)@),
            (final(self)@, final(fx)@) == rights_wanted(old(self)@, old(fx)@, pos),
    {
        fx.log(Level::Info, "Запрос запуска от имени администратора");
        if let Some((x, y)) = pos {
            let mut s = "UAC relaunch: сохраняем позицию окна (".to_owned();
            s.append(signed_text(x as i64).as_str());
            s.append(",");
            s.append(signed_text(y as i64).as_str());
            s.append(")");
            fx.log(Level::Info, s.as_str());
        }
        self.has_tray = false;
        fx.add(Effect::DropTray);
        fx.add(Effect::ReleaseSlot);
        fx.add(Effect::Relaunch(pos));
    }

    /// Takes in what came of asking for more rights.
    pub fn relaunch_answered(&mut self, result: Result<(), String>, fx: &mut Effects)
        ensures
            sound(old(self)@) ==> sound(final(self)@),
            (final(self)@, final(fx)@) == rights_answered(old(self)@, old(fx)@, result),
    {
        match result {
            Ok(()) => {
                fx.log(Level::Info, "UAC принят, закрытие текущего окна");
                fx.add(Effect::Exit);
            },
            Err(e) => {
                fx.log(Level::Error, e.as_str());
                fx.add(Effect::AcquireSlot);
                fx.add(Effect::InstallTray);
                self.say(e, true);
            },
        }
    }

    /// Takes in whether the tray icon is there again.
    pub fn tray_reinstalled(&mut self, result: Result<(), String>, fx: &mut Effects)
        ensures
            sound(old(self)@) ==> sound(final(self)@),
            (final(self)@, final(fx)@) == tray_back(old(self)@, old(fx)@, result),
    {
        match result {
            Ok(()) => {
                self.has_tray = true;
            },
            Err(e) => {
                let mut s = "Трей после отмены UAC: ".to_owned();
                s.append(e.as_str());
                fx.log(Level::Warn, s.as_str());
            },
        }
        fx.add(Effect::RefreshLog);
    }
}

/// The first characters of a text, at most `n` of them.
pub fn typewriter_prefix(s: &str, n_chars: usize) -> (r: String)
    ensures
        r@ == if n_chars < s@.len() {
            s@.take(n_chars as int)
        } else {
            s@
        },
{
    let chars = chars_of(s);
    if n_chars < chars.len() {
        let head = part(&chars, 0, n_chars);
        assert(head@ =~= s@.take(n_chars as int));
        string_of(&head)
    } else {
        s.to_owned()
    }
}

/// The tip of the button for more rights.
pub const ADMIN_TIP: &'static str =
    "Откроет окно UAC и перезапустит SpoolCtl с правами администратора. Нужно для остановки и перезапуска службы.";

impl SpoolCtlApp {
    /// Since when the mouse has rested on the button for more rights.
    pub fn hover_admin(&mut self, hovered: bool, now: Nanos) -> (r: Option<Nanos>)
        ensures
            sound(old(self)@) ==> sound(final(self)@),
            r == final(self)@.admin_tip_started,
            final(self)@ == (AppView {
                admin_tip_started: if !hovered {
                    None
                } else if old(self)@.admin_tip_started is Some {
                    old(self)@.admin_tip_started
                } else {
                    Some(now)
                },
                ..old(self)@
            }),
    {
        if !hovered {
            self.admin_tip_started = None;
        } else if self.admin_tip_started.is_none() {
            self.admin_tip_started = Some(now);
        }
        self.admin_tip_started
    }
}

// ---------------------------------------------------------------------------
// Switches

/// On and off in words.
pub open spec fn on_off(on: bool) -> Seq<char> {
    if on {
        "вкл"@
    } else {
        "выкл"@
    }
}

fn on_off_ru(on: bool) -> (r: &'static str)
    ensures
        r@ == on_off(on),
{
    if on {
        "вкл"
    } else {
        "выкл"
    }
}

/// The watchdog with these settings.
pub open spec fn with_settings(
    w: watchdog::WatchView,
    settings: watchdog::Settings,
) -> watchdog::WatchView {
    watchdog::WatchView { settings, ..w }
}

/// Watching is switched. Whoever does not watch does not restart either.
pub open spec fn watch_switched(v: AppView, fx: Seq<EffectView>, on: bool) -> (
    AppView,
    Seq<EffectView>,
) {
    let settings = watchdog::Settings {
        watch_enabled: on,
        auto_restart: on && v.watchdog.settings.auto_restart,
    };
    let w = with_settings(v.watchdog, settings);
    (
        AppView {
            watchdog: if on {
                w
            } else {
                watchdog::unseen(w)
            },
            ..v
        },
        fx.push(EffectView::SaveWatchdog).push(
            EffectView::Log(Level::Info, "Сторож зависания: слежение "@ + on_off(on)),
        ).push(EffectView::RefreshLog),
    )
}

/// The service is not restarted when it hangs.
pub open spec fn never_restarting(v: AppView) -> AppView {
    AppView {
        watchdog: with_settings(
            v.watchdog,
            (watchdog::Settings { auto_restart: false, ..v.watchdog.settings }),
        ),
        ..v
    }
}

/// Restarting is switched: off at once, on only after the user was asked.
pub open spec fn auto_switched(v: AppView, fx: Seq<EffectView>, on: bool) -> (
    AppView,
    Seq<EffectView>,
) {
    let off = never_restarting(v);
    if on {
        (AppView { confirm: Some(Confirm::EnableAutoRestart), ..off }, fx)
    } else {
        (
            said(off, "Автоперезапуск выключен."@, false),
            fx.push(EffectView::SaveWatchdog).push(
                EffectView::Log(Level::Info, "Сторож зависания: автоперезапуск выкл"@),
            ).push(EffectView::RefreshLog),
        )
    }
}

/// The start with Windows is switched: on only after the user was asked.
pub open spec fn autostart_switched(v: AppView, fx: Seq<EffectView>, on: bool) -> (
    AppView,
    Seq<EffectView>,
) {
    if on {
        (
            AppView {
                autostart_enabled: false,
                confirm: Some(Confirm::EnableAutostart),
                ..v
            },
            fx,
        )
    } else {
        (v, fx.push(EffectView::DisableAutostart))
    }
}

/// What came of switching the start with Windows off; `still` says whether it is on
/// after a failure.
pub open spec fn autostart_off(
    v: AppView,
    fx: Seq<EffectView>,
    result: Result<(), String>,
    still: bool,
) -> (AppView, Seq<EffectView>) {
    match result {
        Ok(()) => (
            said(
                AppView { autostart_enabled: false, ..v },
                "Автозапуск при входе выключен."@,
                false,
            ),
            fx.push(EffectView::Log(Level::Info, "Автозапуск с Windows: выкл"@)).push(
                EffectView::RefreshLog,
            ),
        ),
        Err(e) => (
            said(AppView { autostart_enabled: still, ..v }, e@, true),
            fx.push(EffectView::Log(Level::Error, "Автозапуск: "@ + e@)).push(
                EffectView::RefreshLog,
            ),
        ),
    }
}

/// What came of switching the start with Windows on.
pub open spec fn autostart_on(v: AppView, fx: Seq<EffectView>, result: Result<(), String>) -> (
    AppView,
    Seq<EffectView>,
) {
    match result {
        Ok(()) => (
            said(
                AppView { autostart_enabled: true, ..v },
                "Автозапуск включён: после входа — в трее с правами администратора."@,
                false,
            ),
            fx.push(
                EffectView::Log(
                    Level::Info,
                    "Автозапуск: задача Планировщика /RL HIGHEST (явное согласие)"@,
                ),
            ).push(EffectView::RefreshLog),
        ),
        Err(e) => (
            said(AppView { autostart_enabled: false, ..v }, e@, true),
            fx.push(EffectView::Log(Level::Error, "Автозапуск: "@ + e@)).push(
                EffectView::RefreshLog,
            ),
        ),
    }
}

/// Messages about prints are switched.
pub open spec fn notify_switched(v: AppView, fx: Seq<EffectView>, on: bool) -> (
    AppView,
    Seq<EffectView>,
) {
    let turns = seq![Turn::Save] + if on {
        print_notify::turns_on(v.print_notify.watching)
    } else {
        print_notify::turns_off(v.print_notify.watching)
    };
    (
        said(
            AppView {
                print_notify: PrintNotify {
                    settings: print_notify::Settings { notify_print_jobs: on },
                    watching: on,
                },
                ..v
            },
            if on {
                "Уведомления о печати включены (все локальные принтеры, слежение в фоне)."@
            } else {
                "Уведомления о печати выключены."@
            },
            false,
        ),
        notified(fx, turns).push(
            EffectView::Log(Level::Info, "Уведомления о печати: "@ + on_off(on)),
        ).push(EffectView::RefreshLog),
    )
}

impl SpoolCtlApp {
    /// Switches watching.
    pub fn set_watch(&mut self, on: bool, fx: &mut Effects)
        ensures
            sound(old(self)@) ==> sound(final(self)@),
            (final(self)@, final(fx)@) == watch_switched(old(self)@, old(fx)@, on),
    {
        self.watchdog.settings.watch_enabled = on;
        if !on {
            self.watchdog.settings.auto_restart = false;
            self.watchdog.reset_tracking();
        }
        fx.add(Effect::SaveWatchdog);
        let mut s = "Сторож зависания: слежение ".to_owned();
        s.append(on_off_ru(on));
        fx.log(Level::Info, s.as_str());
        fx.add(Effect::RefreshLog);
    }

    /// Switches restarting; to switch it on, the user is asked first.
    pub fn set_auto_restart(&mut self, on: bool, fx: &mut Effects)
        ensures
            sound(old(self)@) ==> sound(final(self)@),
            (final(self)@, final(fx)@) == auto_switched(old(self)@, old(fx)@, on),
    {
        self.stop_restarting();
        if on {
            self.confirm = Some(Confirm::EnableAutoRestart);
        } else {
            fx.add(Effect::SaveWatchdog);
            fx.log(Level::Info, "Сторож зависания: автоперезапуск выкл");
            self.say("Автоперезапуск выключен.".to_owned(), false);
            fx.add(Effect::RefreshLog);
        }
    }

    fn stop_restarting(&mut self)
        ensures
            final(self)@ == never_restarting(old(self)@),
    {
        self.watchdog.settings.auto_restart = false;
    }

    /// Switches the start with Windows; to switch it on, the user is asked first.
    pub fn set_autostart(&mut self, on: bool, fx: &mut Effects)
        ensures
            sound(old(self)@) ==> sound(final(self)@),
            (final(self)@, final(fx)@) == autostart_switched(old(self)@, old(fx)@, on),
    {
        if on {
            self.autostart_enabled = false;
            self.confirm = Some(Confirm::EnableAutostart);
        } else {
            fx.add(Effect::DisableAutostart);
        }
    }

    /// Takes in what came of switching the start with Windows off.
    pub fn autostart_disabled(&mut self, result: Result<(), String>, still: bool, fx: &mut Effects)
        ensures
            sound(old(self)@) ==> sound(final(self)@),
            (final(self)@, final(fx)@) == autostart_off(old(self)@, old(fx)@, result, still),
    {
        match result {
            Ok(()) => {
                self.autostart_enabled = false;
                fx.log(Level::Info, "Автозапуск с Windows: выкл");
                self.say("Автозапуск при входе выключен.".to_owned(), false);
            },
            Err(e) => {
                let mut s = "Автозапуск: ".to_owned();
                s.append(e.as_str());
                fx.log(Level::Error, s.as_str());
                self.say(e, true);
                self.autostart_enabled = still;
            },
        }
        fx.add(Effect::RefreshLog);
    }

    /// Takes in what came of switching the start with Windows on.
    pub fn autostart_enabled(&mut self, result: Result<(), String>, fx: &mut Effects)
        ensures
            sound(old(self)@) ==> sound(final(self)@),
            (final(self)@, final(fx)@) == autostart_on(old(self)@, old(fx)@, result),
    {
        match result {
            Ok(()) => {
                self.autostart_enabled = true;
                fx.log(
                    Level::Info,
                    "Автозапуск: задача Планировщика /RL HIGHEST (явное согласие)",
                );
                self.say(
                    "Автозапуск включён: после входа — в трее с правами администратора.".to_owned(),
                    false,
                );
            },
            Err(e) => {
                self.autostart_enabled = false;
                let mut s = "Автозапуск: ".to_owned();
                s.append(e.as_str());
                fx.log(Level::Error, s.as_str());
                self.say(e, true);
            },
        }
        fx.add(Effect::RefreshLog);
    }

    /// Switches messages about prints.
    pub fn set_notify(&mut self, on: bool, fx: &mut Effects)
        ensures
            sound(old(self)@) ==> sound(final(self)@),
            (final(self)@, final(fx)@) == notify_switched(old(self)@, old(fx)@, on),
    {
        let turns = self.print_notify.set_enabled(on);
        fx.turns(&turns);
        let mut s = "Уведомления о печати: ".to_owned();
        s.append(on_off_ru(on));
        fx.log(Level::Info, s.as_str());
        if on {
            self.say(
                "Уведомления о печати включены (все локальные принтеры, слежение в фоне).".to_owned(),
                false,
            );
        } else {
            self.say("Уведомления о печати выключены.".to_owned(), false);
        }
        fx.add(Effect::RefreshLog);
    }
}

/// A line of text in a colour.
pub struct Caption {
    pub text: &'static str,
    pub role: Role,
}

/// A line of text in a colour, as a value of its own.
pub open spec fn caption_view(o: Option<Caption>) -> Option<(Seq<char>, Role)> {
    match o {
        Some(c) => Some((c.text@, c.role)),
        None => None,
    }
}

impl SpoolCtlApp {
    /// What is said below the switches for hangs.
    pub fn watch_caption(&self) -> (r: Option<Caption>)
        ensures
            caption_view(r) == if self@.watchdog.settings.auto_restart {
                Some(
                    (
                        "Автоперезапуск активен: при зависании служба печати будет перезапущена."@,
                        Role::Error,
                    ),
                )
            } else if self@.watchdog.settings.watch_enabled {
                Some(("Только предупреждение — перезапуск вручную."@, Role::Accent))
            } else {
                None
            },
    {
        if self.watchdog.settings.auto_restart {
            Some(
                Caption {
                    text: "Автоперезапуск активен: при зависании служба печати будет перезапущена.",
                    role: Role::Error,
                },
            )
        } else if self.watchdog.settings.watch_enabled {
            Some(
                Caption { text: "Только предупреждение — перезапуск вручную.", role: Role::Accent },
            )
        } else {
            None
        }
    }

    /// What is said about closing the window.
    pub fn tray_caption(&self) -> (r: Option<Caption>)
        ensures
            caption_view(r) == if self@.has_tray {
                Some(
                    (
                        "Закрытие окна → в трей (сторож продолжает работу). Выход — из меню иконки."@,
                        Role::Accent,
                    ),
                )
            } else {
                None
            },
    {
        if self.has_tray {
            Some(
                Caption {
                    text: "Закрытие окна → в трей (сторож продолжает работу). Выход — из меню иконки.",
                    role: Role::Accent,
                },
            )
        } else {
            None
        }
    }

    /// What is said below the switch for the start with Windows.
    pub fn autostart_caption(&self) -> (r: Option<Caption>)
        ensures
            caption_view(r) == if self@.autostart_enabled {
                Some(
                    (
                        "При входе: старт в трее с правами администратора (Планировщик)."@,
                        Role::Good,
                    ),
                )
            } else if !self@.elevated {
                Some(
                    (
                        "Чтобы включить elevated-автозапуск — откройте программу от имени администратора."@,
                        Role::Accent,
                    ),
                )
            } else {
                None
            },
    {
        if self.autostart_enabled {
            Some(
                Caption {
                    text: "При входе: старт в трее с правами администратора (Планировщик).",
                    role: Role::Good,
                },
            )
        } else if !self.elevated {
            Some(
                Caption {
                    text: "Чтобы включить elevated-автозапуск — откройте программу от имени администратора.",
                    role: Role::Accent,
                },
            )
        } else {
            None
        }
    }

    /// What is said below the switch for messages about prints.
    pub fn notify_caption(&self) -> (r: Option<Caption>)
        ensures
            caption_view(r) == if self@.print_notify.settings.notify_print_jobs {
                Some(
                    (
                        "Слежение в фоне: все локальные принтеры (работает и из трея)."@,
                        Role::Accent,
                    ),
                )
            } else {
                None
            },
    {
        if self.print_notify.settings.notify_print_jobs {
            Some(
                Caption {
                    text: "Слежение в фоне: все локальные принтеры (работает и из трея).",
                    role: Role::Accent,
                },
            )
        } else {
            None
        }
    }

    /// The colour of the message.
    pub fn message_role(&self) -> (r: Role)
        ensures
            r == (if self@.message_is_error {
                Role::Error
            } else if self@.busy {
                Role::Accent
            } else {
                Role::Text
            }),
    {
        if self.message_is_error {
            Role::Error
        } else if self.busy {
            Role::Accent
        } else {
            Role::Text
        }
    }
}

// ---------------------------------------------------------------------------
// The tray

/// The window goes to the tray.
pub open spec fn hidden(v: AppView, fx: Seq<EffectView>) -> (AppView, Seq<EffectView>) {
    let logged = fx.push(EffectView::HideWindow).push(
        EffectView::Log(
            Level::Info,
            "Окно скрыто в трей — процесс и сторож продолжают работу"@,
        ),
    );
    let told = if v.has_tray {
        logged.push(
            EffectView::Balloon(
                "SpoolCtl в трее"@,
                "Программа продолжает работать. Иконка у часов — откройте «^», если её не видно."@,
            ),
        ).push(
            EffectView::Tooltip("SpoolCtl "@ + APP_VERSION@ + "\nВ трее — сторож работает"@),
        )
    } else {
        logged
    };
    (
        said(
            AppView { window_in_tray: true, ..v },
            "Окно в трее. Сторож работает. Иконка у часов (смотрите «^»). Выход — ПКМ → «Выход»."@,
            false,
        ),
        told.push(EffectView::RefreshLog),
    )
}

/// The tray asks something of the window.
pub open spec fn tray_asked(v: AppView, fx: Seq<EffectView>, cmd: TrayCmd) -> (
    AppView,
    Seq<EffectView>,
) {
    match cmd {
        TrayCmd::Show => (
            AppView { window_in_tray: false, ..v },
            fx.push(EffectView::ShowWindow).push(
                EffectView::Log(Level::Info, "Окно восстановлено из трея"@),
            ).push(EffectView::RefreshLog).push(EffectView::Repaint),
        ),
        TrayCmd::Hide => (hidden(v, fx).0, hidden(v, fx).1.push(EffectView::Repaint)),
        TrayCmd::Quit => (
            AppView { allow_exit: true, window_in_tray: false, ..v },
            fx.push(EffectView::Log(Level::Info, "Выход из трея"@)).push(
                EffectView::ShowWindow,
            ).push(EffectView::CloseWindow),
        ),
    }
}

/// The tray asks these things of the window, one after the other.
pub open spec fn tray_asked_all(v: AppView, fx: Seq<EffectView>, cmds: Seq<TrayCmd>) -> (
    AppView,
    Seq<EffectView>,
)
    decreases cmds.len(),
{
    if cmds.len() == 0 {
        (v, fx)
    } else {
        let before = tray_asked_all(v, fx, cmds.drop_last());
        tray_asked(before.0, before.1, cmds.last())
    }
}

/// The window is painted for the first time.
pub open spec fn first_painted(v: AppView, fx: Seq<EffectView>) -> (AppView, Seq<EffectView>) {
    if v.start_in_tray && v.has_tray {
        hidden(
            AppView { start_in_tray: false, ..v },
            fx.push(EffectView::Log(Level::Info, "Старт в трее (--tray)"@)),
        )
    } else if v.force_show_window {
        (
            AppView { force_show_window: false, window_in_tray: false, ..v },
            fx.push(EffectView::ShowWindow).push(EffectView::FocusWindow).push(
                EffectView::Log(Level::Info, "Окно показано после запуска от администратора"@),
            ),
        )
    } else {
        (v, fx)
    }
}

/// Someone wants to close the window: that ends the program where leave was given,
/// by the window or by the tray, or where there is no tray; else the user is asked.
pub open spec fn closing(v: AppView, fx: Seq<EffectView>, tray_allows: bool) -> (
    AppView,
    Seq<EffectView>,
) {
    let w = AppView { allow_exit: v.allow_exit || tray_allows, ..v };
    if w.allow_exit || !v.has_tray {
        (w, fx)
    } else {
        (
            AppView { confirm: Some(Confirm::CloseOrTray), ..w },
            fx.push(EffectView::CancelClose),
        )
    }
}

/// What the window does when nothing happens.
#[derive(Debug, Clone, Copy, PartialEq, Eq, Structural)]
pub enum Idle {
    /// Nothing: a job is under way, or the user is asked something.
    Occupied,
    /// Look at the status.
    Look,
    /// Wait for this long.
    Wait(Nanos),
}

impl SpoolCtlApp {
    /// Hides the window in the tray.
    pub fn hide_to_tray(&mut self, fx: &mut Effects)
        ensures
            sound(old(self)@) ==> sound(final(self)@),
            (final(self)@, final(fx)@) == hidden(old(self)@, old(fx)@),
    {
        fx.add(Effect::HideWindow);
        self.window_in_tray = true;
        fx.log(Level::Info, "Окно скрыто в трей — процесс и сторож продолжают работу");
        self.say(
            "Окно в трее. Сторож работает. Иконка у часов (смотрите «^»). Выход — ПКМ → «Выход».".to_owned(),
            false,
        );
        if self.has_tray {
            fx.add(
                Effect::Balloon(
                    "SpoolCtl в трее".to_owned(),
                    "Программа продолжает работать. Иконка у часов — откройте «^», если её не видно.".to_owned(),
                ),
            );
            let mut s = "SpoolCtl ".to_owned();
            s.append(APP_VERSION);
            s.append("\nВ трее — сторож работает");
            fx.add(Effect::Tooltip(s));
        }
        fx.add(Effect::RefreshLog);
    }

    fn obey_tray(&mut self, cmd: TrayCmd, fx: &mut Effects)
        ensures
            sound(old(self)@) ==> sound(final(self)@),
            (final(self)@, final(fx)@) == tray_asked(old(self)@, old(fx)@, cmd),
    {
        match cmd {
            TrayCmd::Show => {
                fx.add(Effect::ShowWindow);
                self.window_in_tray = false;
                fx.log(Level::Info, "Окно восстановлено из трея");
                fx.add(Effect::RefreshLog);
                fx.add(Effect::Repaint);
            },
            TrayCmd::Hide => {
                self.hide_to_tray(fx);
                fx.add(Effect::Repaint);
            },
            TrayCmd::Quit => {
                fx.log(Level::Info, "Выход из трея");
                self.allow_exit = true;
                fx.add(Effect::ShowWindow);
                self.window_in_tray = false;
                fx.add(Effect::CloseWindow);
            },
        }
    }

    /// Does what the tray asks, if there is one.
    pub fn poll_tray(&mut self, cmds: &Vec<TrayCmd>, fx: &mut Effects)
        ensures
            sound(old(self)@) ==> sound(final(self)@),
            (final(self)@, final(fx)@) == if old(self)@.has_tray {
                tray_asked_all(old(self)@, old(fx)@, cmds@)
            } else {
                (old(self)@, old(fx)@)
            },
    {
        if !self.has_tray {
            return;
        }
        let ghost v = self@;
        let ghost out = fx@;
        assert(cmds@.take(0).len() == 0);
        for i in 0..cmds.len()
            invariant
                sound(v) ==> sound(self@),
                (self@, fx@) == tray_asked_all(v, out, cmds@.take(i as int)),
        {
            assert(cmds@.take(i + 1).drop_last() =~= cmds@.take(i as int));
            assert(cmds@.take(i + 1).last() == cmds@[i as int]);
            self.obey_tray(cmds[i], fx);
        }
        assert(cmds@.take(cmds.len() as int) =~= cmds@);
    }

    /// Does what the program was started for, at the first opportunity.
    pub fn first_frame(&mut self, fx: &mut Effects)
        ensures
            sound(old(self)@) ==> sound(final(self)@),
            (final(self)@, final(fx)@) == first_painted(old(self)@, old(fx)@),
    {
        if self.start_in_tray && self.has_tray {
            self.start_in_tray = false;
            fx.log(Level::Info, "Старт в трее (--tray)");
            self.hide_to_tray(fx);
        } else if self.force_show_window {
            self.force_show_window = false;
            fx.add(Effect::ShowWindow);
            self.window_in_tray = false;
            fx.add(Effect::FocusWindow);
            fx.log(Level::Info, "Окно показано после запуска от администратора");
        }
    }

    /// Decides whether the window may be closed.
    pub fn close_requested(&mut self, tray_allows: bool, fx: &mut Effects)
        ensures
            sound(old(self)@) ==> sound(final(self)@),
            (final(self)@, final(fx)@) == closing(old(self)@, old(fx)@, tray_allows),
    {
        if tray_allows {
            self.allow_exit = true;
        }
        if !(self.allow_exit || !self.has_tray) {
            fx.add(Effect::CancelClose);
            self.confirm = Some(Confirm::CloseOrTray);
        }
    }

    /// What the window does when nothing happens.
    pub fn idle(&self, now: Nanos) -> (r: Idle)
        ensures
            r == (if self@.busy || self@.confirm is Some {
                Idle::Occupied
            } else if clock::elapsed(now, self@.last_auto_status) >= 5_000_000_000 {
                Idle::Look
            } else {
                Idle::Wait(
                    (5_000_000_000 - clock::elapsed(now, self@.last_auto_status)) as Nanos,
                )
            }),
    {
        if self.busy || self.confirm.is_some() {
            return Idle::Occupied;
        }
        let since: u128 = time_between(now, self.last_auto_status);
        if since >= AUTO_STATUS_REFRESH {
            Idle::Look
        } else {
            Idle::Wait(AUTO_STATUS_REFRESH - since)
        }
    }
}

// ---------------------------------------------------------------------------
// Questions

/// A question: its title and its text.
pub open spec fn question(c: Confirm) -> (Seq<char>, Seq<char>) {
    match c {
        Confirm::Job(Job::Stop) => (
            "Остановить службу?"@,
            "Печать на этом ПК будет недоступна, пока службу не запустят снова."@,
        ),
        Confirm::Job(Job::Restart) => (
            "Перезапустить службу?"@,
            "Текущие задания печати могут прерваться."@,
        ),
        Confirm::Job(Job::ClearOnly) => (
            "Очистить очередь печати?"@,
            "Spooler будет остановлен, файлы заданий удалены. Служба останется остановленной — запустите её кнопкой «Запустить службу»."@,
        ),
        Confirm::Job(_) => (
            "Очистить очередь и перезапустить?"@,
            "Будут удалены файлы заданий в папке очереди, затем Spooler перезапустится. Отменить удаление будет нельзя."@,
        ),
        Confirm::DisableNcd => (
            "Отключить автонастройку устройств?"@,
            "Будет выключена автоматическая установка сетевых устройств (WSD): реестр AutoSetup=0 и служба NcdAutoSetup. Уже установленные принтеры не удаляются. Рекомендуется перезагрузка Windows."@,
        ),
        Confirm::EnableAutoRestart => (
            "Включить автоперезапуск при зависании?"@,
            "ВНИМАНИЕ: при подозрении на зависание очереди (задания без прогресса ~90 с) или застревании службы Spooler будет перезапущен автоматически. Текущая печать может прерваться. Ложные срабатывания возможны на медленных принтерах. Нужны права администратора. Можно отключить галочкой в любой момент."@,
        ),
        Confirm::EnableAutostart => (
            "Автозапуск с правами администратора?"@,
            "Будет создана задача Планировщика Windows: при вашем входе SpoolCtl стартует в трее уже с повышенными правами (без повторного UAC), чтобы автоперезапуск Spooler работал после reboot. Нужна учётка из группы «Администраторы». Включение — один раз из окна администратора. Старая запись HKCU\\Run будет убрана."@,
        ),
        Confirm::CloseOrTray => (
            "Закрыть окно?"@,
            "Свернуть в трей (сторож продолжит работу) или полностью закрыть программу?"@,
        ),
    }
}

/// A question: its title and its text.
pub fn confirm_text(c: Confirm) -> (r: (&'static str, &'static str))
    requires
        c matches Confirm::Job(job) ==> asked_first(job),
    ensures
        (r.0@, r.1@) == question(c),
{
    match c {
        Confirm::Job(Job::Stop) => (
            "Остановить службу?",
            "Печать на этом ПК будет недоступна, пока службу не запустят снова.",
        ),
        Confirm::Job(Job::Restart) => (
            "Перезапустить службу?",
            "Текущие задания печати могут прерваться.",
        ),
        Confirm::Job(Job::ClearOnly) => (
            "Очистить очередь печати?",
            "Spooler будет остановлен, файлы заданий удалены. Служба останется остановленной — запустите её кнопкой «Запустить службу».",
        ),
        Confirm::Job(_) => (
            "Очистить очередь и перезапустить?",
            "Будут удалены файлы заданий в папке очереди, затем Spooler перезапустится. Отменить удаление будет нельзя.",
        ),
        Confirm::DisableNcd => (
            "Отключить автонастройку устройств?",
            "Будет выключена автоматическая установка сетевых устройств (WSD): реестр AutoSetup=0 и служба NcdAutoSetup. Уже установленные принтеры не удаляются. Рекомендуется перезагрузка Windows.",
        ),
        Confirm::EnableAutoRestart => (
            "Включить автоперезапуск при зависании?",
            "ВНИМАНИЕ: при подозрении на зависание очереди (задания без прогресса ~90 с) или застревании службы Spooler будет перезапущен автоматически. Текущая печать может прерваться. Ложные срабатывания возможны на медленных принтерах. Нужны права администратора. Можно отключить галочкой в любой момент.",
        ),
        Confirm::EnableAutostart => (
            "Автозапуск с правами администратора?",
            "Будет создана задача Планировщика Windows: при вашем входе SpoolCtl стартует в трее уже с повышенными правами (без повторного UAC), чтобы автоперезапуск Spooler работал после reboot. Нужна учётка из группы «Администраторы». Включение — один раз из окна администратора. Старая запись HKCU\\Run будет убрана.",
        ),
        Confirm::CloseOrTray => (
            "Закрыть окно?",
            "Свернуть в трей (сторож продолжит работу) или полностью закрыть программу?",
        ),
    }
}

/// The user has agreed to restarts: the watchdog watches and restarts.
pub open spec fn restarts_agreed(v: AppView, fx: Seq<EffectView>) -> (AppView, Seq<EffectView>) {
    (
        said(
            AppView {
                watchdog: with_settings(
                    v.watchdog,
                    (watchdog::Settings { watch_enabled: true, auto_restart: true }),
                ),
                ..v
            },
            "Автоперезапуск при зависании включён. Слежение тоже включено."@,
            false,
        ),
        fx.push(EffectView::SaveWatchdog).push(
            EffectView::Log(
                Level::Info,
                "Сторож зависания: автоперезапуск включён (явное согласие)"@,
            ),
        ).push(EffectView::RefreshLog),
    )
}

/// The user has said yes.
pub open spec fn agreed(v: AppView, fx: Seq<EffectView>) -> (AppView, Seq<EffectView>) {
    let w = AppView { confirm: None, ..v };
    match v.confirm {
        Some(Confirm::Job(job)) => job_started(w, fx, job),
        Some(Confirm::DisableNcd) => (w, fx.push(EffectView::DisableNcd)),
        Some(Confirm::EnableAutoRestart) => restarts_agreed(w, fx),
        Some(Confirm::EnableAutostart) => (w, fx.push(EffectView::EnableAutostart)),
        _ => (w, fx),
    }
}

/// What came of switching automatic setup off.
pub open spec fn ncd_off(v: AppView, fx: Seq<EffectView>, result: Result<String, String>) -> (
    AppView,
    Seq<EffectView>,
) {
    match result {
        Ok(detail) => (
            said(v, detail@, false),
            fx.push(EffectView::Log(Level::Info, "NcdAutoSetup: "@ + detail@)).push(
                EffectView::RefreshNcd,
            ).push(EffectView::RefreshLog),
        ),
        Err(e) => (
            said(v, e@, true),
            fx.push(EffectView::Log(Level::Error, "NcdAutoSetup: "@ + e@)).push(
                EffectView::RefreshNcd,
            ).push(EffectView::RefreshLog),
        ),
    }
}

/// The user wants the window in the tray.
pub open spec fn tray_chosen(v: AppView, fx: Seq<EffectView>) -> (AppView, Seq<EffectView>) {
    hidden(AppView { confirm: None, ..v }, fx)
}

/// The user wants the program to end.
pub open spec fn exit_chosen(v: AppView, fx: Seq<EffectView>) -> (AppView, Seq<EffectView>) {
    (
        AppView { confirm: None, allow_exit: true, ..v },
        fx.push(
            EffectView::Log(
                Level::Info,
                "Выход по выбору пользователя (закрыть программу)"@,
            ),
        ).push(EffectView::CloseWindow),
    )
}

impl SpoolCtlApp {
    /// The user says no.
    pub fn answer_no(&mut self)
        ensures
            sound(old(self)@) ==> sound(final(self)@),
            final(self)@ == (AppView { confirm: None, ..old(self)@ }),
    {
        self.confirm = None;
    }

    /// The user says yes to what was asked.
    pub fn answer_yes(&mut self, fx: &mut Effects)
        requires
            old(self)@.confirm != Some(Confirm::CloseOrTray),
        ensures
            sound(old(self)@) ==> sound(final(self)@),
            (final(self)@, final(fx)@) == agreed(old(self)@, old(fx)@),
    {
        let asked = self.confirm;
        self.answer_no();
        match asked {
            Some(Confirm::Job(job)) => {
                self.start_job(job, fx);
            },
            Some(Confirm::DisableNcd) => {
                fx.add(Effect::DisableNcd);
            },
            Some(Confirm::EnableAutoRestart) => {
                self.agree_to_restarts(fx);
            },
            Some(Confirm::EnableAutostart) => {
                fx.add(Effect::EnableAutostart);
            },
            _ => {},
        }
    }

    fn agree_to_restarts(&mut self, fx: &mut Effects)
        ensures
            sound(old(self)@) ==> sound(final(self)@),
            (final(self)@, final(fx)@) == restarts_agreed(old(self)@, old(fx)@),
    {
        self.watchdog.settings = watchdog::Settings { watch_enabled: true, auto_restart: true };
        fx.add(Effect::SaveWatchdog);
        fx.log(Level::Info, "Сторож зависания: автоперезапуск включён (явное согласие)");
        self.say(
            "Автоперезапуск при зависании включён. Слежение тоже включено.".to_owned(),
            false,
        );
        fx.add(Effect::RefreshLog);
    }

    /// Takes in what came of switching automatic setup off.
    pub fn ncd_disabled(&mut self, result: Result<String, String>, fx: &mut Effects)
        ensures
            sound(old(self)@) ==> sound(final(self)@),
            (final(self)@, final(fx)@) == ncd_off(old(self)@, old(fx)@, result),
    {
        match result {
            Ok(detail) => {
                let mut s = "NcdAutoSetup: ".to_owned();
                s.append(detail.as_str());
                fx.log(Level::Info, s.as_str());
                self.say(detail, false);
            },
            Err(e) => {
                let mut s = "NcdAutoSetup: ".to_owned();
                s.append(e.as_str());
                fx.log(Level::Error, s.as_str());
                self.say(e, true);
            },
        }
        fx.add(Effect::RefreshNcd);
        fx.add(Effect::RefreshLog);
    }

    /// The user wants the window in the tray.
    pub fn choose_tray(&mut self, fx: &mut Effects)
        ensures
            sound(old(self)@) ==> sound(final(self)@),
            (final(self)@, final(fx)@) == tray_chosen(old(self)@, old(fx)@),
    {
        self.confirm = None;
        self.hide_to_tray(fx);
    }

    /// The user wants the program to end.
    pub fn choose_exit(&mut self, fx: &mut Effects)
        ensures
            sound(old(self)@) ==> sound(final(self)@),
            (final(self)@, final(fx)@) == exit_chosen(old(self)@, old(fx)@),
    {
        self.confirm = None;
        self.allow_exit = true;
        fx.log(Level::Info, "Выход по выбору пользователя (закрыть программу)");
        fx.add(Effect::CloseWindow);
    }
}

// ---------------------------------------------------------------------------
// Buttons

/// The picture on a tile.
#[derive(Debug, Clone, Copy, PartialEq, Eq, Structural)]
pub enum ServiceIcon {
    Refresh,
    Start,
    Stop,
    Restart,
    Clear,
    ClearRestart,
}

/// How a tile is coloured.
#[derive(Debug, Clone, Copy, PartialEq, Eq, Structural)]
pub enum TileFill {
    Soft,
    Accent,
    Strong,
}

/// What a tile does: a job, or a question about one.
#[derive(Debug, Clone, Copy, PartialEq, Eq, Structural)]
pub enum ActionClick {
    Job(Job),
    Confirm(Job),
}

/// A button for the service.
#[derive(Debug, Clone, Copy, PartialEq, Eq)]
pub struct Tile {
    pub icon: ServiceIcon,
    pub label: &'static str,
    pub tip: &'static str,
    pub fill: TileFill,
    pub click: ActionClick,
}

/// A button for the service, as a value of its own.
pub struct TileView {
    pub icon: ServiceIcon,
    pub label: Seq<char>,
    pub tip: Seq<char>,
    pub fill: TileFill,
    pub click: ActionClick,
}

impl View for Tile {
    type V = TileView;

    open spec fn view(&self) -> TileView {
        TileView {
            icon: self.icon,
            label: self.label@,
            tip: self.tip@,
            fill: self.fill,
            click: self.click,
        }
    }
}

/// The buttons for the service: three that control it, and three for its status and
/// its queue. The one that starts it stands out where it is stopped.
pub open spec fn tiles(prompt_start: bool) -> Seq<TileView> {
    seq![
        TileView {
            icon: ServiceIcon::Start,
            label: "Старт"@,
            tip: if prompt_start {
                "Spooler остановлен. Нажмите, чтобы снова запустить службу печати."@
            } else {
                "Запускает службу Spooler, если она остановлена. Обычно нужны права администратора."@
            },
            fill: if prompt_start {
                TileFill::Accent
            } else {
                TileFill::Soft
            },
            click: ActionClick::Job(Job::Start),
        },
        TileView {
            icon: ServiceIcon::Stop,
            label: "Стоп"@,
            tip: "Останавливает службу Spooler. Печать станет недоступна, пока службу не запустят снова."@,
            fill: TileFill::Soft,
            click: ActionClick::Confirm(Job::Stop),
        },
        TileView {
            icon: ServiceIcon::Restart,
            label: "Перезапуск"@,
            tip: "Останавливает и снова запускает службу печати. Помогает при зависании очереди. Нужны права администратора."@,
            fill: TileFill::Strong,
            click: ActionClick::Confirm(Job::Restart),
        },
        TileView {
            icon: ServiceIcon::Refresh,
            label: "Обновить"@,
            tip: "Запрашивает текущее состояние службы печати Spooler без изменений."@,
            fill: TileFill::Soft,
            click: ActionClick::Job(Job::Refresh),
        },
        TileView {
            icon: ServiceIcon::Clear,
            label: "Очистить"@,
            tip: "Останавливает Spooler и удаляет файлы заданий в spool\\PRINTERS. Службу нужно запустить отдельно."@,
            fill: TileFill::Soft,
            click: ActionClick::Confirm(Job::ClearOnly),
        },
        TileView {
            icon: ServiceIcon::ClearRestart,
            label: "Очист.+старт"@,
            tip: "Останавливает Spooler, удаляет файлы заданий в spool\\PRINTERS, затем запускает службу снова. Удалит текущие задания печати."@,
            fill: TileFill::Accent,
            click: ActionClick::Confirm(Job::FixClear),
        },
    ]
}

/// The buttons for the service, in rows of three.
pub fn service_tiles(prompt_start: bool) -> (r: Vec<Tile>)
    ensures
        r.len() == 6,
        forall|i: int| 0 <= i < 6 ==> (#[trigger] r@[i])@ == tiles(prompt_start)[i],
{
    let mut v: Vec<Tile> = Vec::new();
    v.push(
        Tile {
            icon: ServiceIcon::Start,
            label: "Старт",
            tip: if prompt_start {
                "Spooler остановлен. Нажмите, чтобы снова запустить службу печати."
            } else {
                "Запускает службу Spooler, если она остановлена. Обычно нужны права администратора."
            },
            fill: if prompt_start {
                TileFill::Accent
            } else {
                TileFill::Soft
            },
            click: ActionClick::Job(Job::Start),
        },
    );
    v.push(
        Tile {
            icon: ServiceIcon::Stop,
            label: "Стоп",
            tip: "Останавливает службу Spooler. Печать станет недоступна, пока службу не запустят снова.",
            fill: TileFill::Soft,
            click: ActionClick::Confirm(Job::Stop),
        },
    );
    v.push(
        Tile {
            icon: ServiceIcon::Restart,
            label: "Перезапуск",
            tip: "Останавливает и снова запускает службу печати. Помогает при зависании очереди. Нужны права администратора.",
            fill: TileFill::Strong,
            click: ActionClick::Confirm(Job::Restart),
        },
    );
    v.push(
        Tile {
            icon: ServiceIcon::Refresh,
            label: "Обновить",
            tip: "Запрашивает текущее состояние службы печати Spooler без изменений.",
            fill: TileFill::Soft,
            click: ActionClick::Job(Job::Refresh),
        },
    );
    v.push(
        Tile {
            icon: ServiceIcon::Clear,
            label: "Очистить",
            tip: "Останавливает Spooler и удаляет файлы заданий в spool\\PRINTERS. Службу нужно запустить отдельно.",
            fill: TileFill::Soft,
            click: ActionClick::Confirm(Job::ClearOnly),
        },
    );
    v.push(
        Tile {
            icon: ServiceIcon::ClearRestart,
            label: "Очист.+старт",
            tip: "Останавливает Spooler, удаляет файлы заданий в spool\\PRINTERS, затем запускает службу снова. Удалит текущие задания печати.",
            fill: TileFill::Accent,
            click: ActionClick::Confirm(Job::FixClear),
        },
    );
    v
}

/// A tile was clicked.
pub open spec fn tile_pressed(v: AppView, fx: Seq<EffectView>, click: ActionClick) -> (
    AppView,
    Seq<EffectView>,
) {
    match click {
        ActionClick::Job(job) => job_started(v, fx, job),
        ActionClick::Confirm(job) => (AppView { confirm: Some(Confirm::Job(job)), ..v }, fx),
    }
}

/// A folder was opened, or not.
pub open spec fn place_opened(v: AppView, place: Place, result: Result<(), String>) -> AppView {
    match result {
        Ok(()) => said(
            v,
            match place {
                Place::Log => "Папка журнала открыта."@,
                Place::Queue => "Папка очереди открыта."@,
                Place::Printers => "Папка принтеров открыта."@,
            },
            false,
        ),
        Err(e) => said(v, e@, true),
    }
}

/// The button that switches automatic setup off was clicked.
pub open spec fn ncd_pressed(v: AppView) -> AppView {
    if v.elevated {
        AppView { confirm: Some(Confirm::DisableNcd), ..v }
    } else {
        said(v, "Для отключения автонастройки нужны права администратора."@, true)
    }
}

/// The buttons at the foot of the window, each with its tip: the log, and the folders
/// of the log, of the queue and of the printers.
pub fn util_buttons() -> (r: Vec<(&'static str, &'static str)>)
    ensures
        r.len() == 4,
        r[0].0@ == "Обновить журнал"@,
        r[0].1@ == "Перечитать последние строки из файла журнала."@,
        r[1].0@ == "Папка журнала"@,
        r[1].1@ == "Открыть проводник с файлом spoolctl.log."@,
        r[2].0@ == "Папка очереди"@,
        r[2].1@ == "Открыть spool\\PRINTERS в проводнике (файлы заданий печати)."@,
        r[3].0@ == "Папка принтеров"@,
        r[3].1@
            == "Открыть список принтеров Windows (Devices and Printers / Printers folder)."@,
{
    let mut v: Vec<(&'static str, &'static str)> = Vec::new();
    v.push(("Обновить журнал", "Перечитать последние строки из файла журнала."));
    v.push(("Папка журнала", "Открыть проводник с файлом spoolctl.log."));
    v.push(
        ("Папка очереди", "Открыть spool\\PRINTERS в проводнике (файлы заданий печати)."),
    );
    v.push(
        (
            "Папка принтеров",
            "Открыть список принтеров Windows (Devices and Printers / Printers folder).",
        ),
    );
    v
}

impl SpoolCtlApp {
    /// Does what a tile is for.
    pub fn tile_clicked(&mut self, click: ActionClick, fx: &mut Effects)
        requires
            sound(old(self)@),
            click matches ActionClick::Confirm(job) ==> asked_first(job),
        ensures
            sound(final(self)@),
            (final(self)@, final(fx)@) == tile_pressed(old(self)@, old(fx)@, click),
    {
        match click {
            ActionClick::Job(job) => {
                self.start_job(job, fx);
            },
            ActionClick::Confirm(job) => {
                self.confirm = Some(Confirm::Job(job));
            },
        }
    }

    /// Does what a button at the foot of the window is for.
    pub fn util_clicked(&self, index: usize, fx: &mut Effects)
        ensures
            final(fx)@ == if index == 0 {
                old(fx)@.push(EffectView::RefreshLog)
            } else if index == 1 {
                old(fx)@.push(EffectView::Open(Place::Log))
            } else if index == 2 {
                old(fx)@.push(EffectView::Open(Place::Queue))
            } else if index == 3 {
                old(fx)@.push(EffectView::Open(Place::Printers))
            } else {
                old(fx)@
            },
    {
        if index == 0 {
            fx.add(Effect::RefreshLog);
        } else if index == 1 {
            fx.add(Effect::Open(Place::Log));
        } else if index == 2 {
            fx.add(Effect::Open(Place::Queue));
        } else if index == 3 {
            fx.add(Effect::Open(Place::Printers));
        }
    }

    /// Takes in what came of opening a folder.
    pub fn folder_opened(&mut self, place: Place, result: Result<(), String>)
        ensures
            sound(old(self)@) ==> sound(final(self)@),
            final(self)@ == place_opened(old(self)@, place, result),
    {
        match result {
            Ok(()) => {
                let m = match place {
                    Place::Log => "Папка журнала открыта.",
                    Place::Queue => "Папка очереди открыта.",
                    Place::Printers => "Папка принтеров открыта.",
                };
                self.say(m.to_owned(), false);
            },
            Err(e) => {
                self.say(e, true);
            },
        }
    }

    /// The tip of the button that switches automatic setup off.
    pub fn ncd_tip(&self) -> (r: String)
        ensures
            r@ == self@.ncd_summary
                + "\nОтключает автоустановку сетевых устройств (WSD) через реестр AutoSetup=0 и службу NcdAutoSetup. Нужен администратор. Рекомендуется перезагрузка."@,
    {
        let mut s = self.ncd_summary.as_str().to_owned();
        s.append(
            "\nОтключает автоустановку сетевых устройств (WSD) через реестр AutoSetup=0 и службу NcdAutoSetup. Нужен администратор. Рекомендуется перезагрузка.",
        );
        s
    }

    /// Asks whether automatic setup is to be switched off, if that can be done.
    pub fn ncd_clicked(&mut self)
        ensures
            sound(old(self)@) ==> sound(final(self)@),
            final(self)@ == ncd_pressed(old(self)@),
    {
        if !self.elevated {
            self.say(
                "Для отключения автонастройки нужны права администратора.".to_owned(),
                true,
            );
        } else {
            self.confirm = Some(Confirm::DisableNcd);
        }
    }
}

// ---------------------------------------------------------------------------
// What holds of all that happens

/// While a job is under way no other one is started, and nothing changes.
pub proof fn law_one_job_at_a_time(v: AppView, fx: Seq<EffectView>, job: Job, any: Job)
    requires
        v.busy,
    ensures
        job_started(v, fx, job).0 == v,
        job_started(v, fx, job).1.contains(EffectView::StartJob(any)) <==> fx.contains(
            EffectView::StartJob(any),
        ),
{
    let out = job_started(v, fx, job).1;
    let e = EffectView::StartJob(any);
    if out.contains(e) {
        let i = choose|i: int| 0 <= i < out.len() && out[i] == e;
        assert(fx[i] == e);
    }
    if fx.contains(e) {
        let i = choose|i: int| 0 <= i < fx.len() && fx[i] == e;
        assert(out[i] == e);
    }
}

/// A job that is started ends: whatever becomes of it, the window is free again, or
/// it waits on.
pub proof fn law_jobs_end(v: AppView, fx: Seq<EffectView>, now: Nanos, event: JobEvent)
    requires
        v.waiting,
        !(event is Pending),
    ensures
        !job_polled(v, fx, now, event).0.busy,
        !job_polled(v, fx, now, event).0.waiting,
{
}

/// Nobody starts a job by clicking a tile that stops the service or deletes files,
/// without having been asked first.
pub proof fn law_tiles_ask_before_harm(v: AppView, fx: Seq<EffectView>, prompt: bool, i: int)
    requires
        0 <= i < 6,
    ensures
        match tiles(prompt)[i].click {
            ActionClick::Job(job) => !asked_first(job),
            ActionClick::Confirm(job) => asked_first(job) && tile_pressed(
                v,
                fx,
                tiles(prompt)[i].click,
            ).1 == fx,
        },
{
}

/// The service is restarted without being asked only by a program that has the
/// rights, whose user has switched that on, and only while nothing else is going on.
pub proof fn law_restart_needs_rights_and_consent(v: AppView, fx: Seq<EffectView>, now: Nanos)
    requires
        watched(v, fx, now).0.busy != v.busy || watched(v, fx, now).1.len() > fx.len()
            && watched(v, fx, now).1.last() is StartJob,
    ensures
        v.elevated,
        v.watchdog.settings.watch_enabled,
        v.watchdog.settings.auto_restart,
        v.confirm is None,
        !v.busy,
{
}

/// Restarts are switched on by nothing but the user's yes to the question about them.
pub proof fn law_auto_restart_needs_a_yes(v: AppView, fx: Seq<EffectView>, on: bool)
    ensures
        !auto_switched(v, fx, on).0.watchdog.settings.auto_restart,
        watch_switched(v, fx, on).0.watchdog.settings.auto_restart
            ==> v.watchdog.settings.auto_restart,
        agreed(v, fx).0.watchdog.settings.auto_restart && !v.watchdog.settings.auto_restart
            ==> v.confirm == Some(Confirm::EnableAutoRestart),
{
}

/// Another computer is never asked for anything in between: only the time of the last
/// look changes.
pub proof fn law_remote_is_left_alone(
    v: AppView,
    fx: Seq<EffectView>,
    now: Nanos,
    status: Result<SpoolerStatus, String>,
    snap: QueueSnapshot,
    names: Seq<Seq<char>>,
)
    requires
        v.host.len() > 0,
    ensures
        quietly_looked(v, now, status, snap) == (AppView { last_auto_status: now, ..v }),
        looked_around(v, fx, now, status, snap, names) == (
            AppView { last_auto_status: now, ..v },
            fx,
        ),
{
}

/// Looking at the status in passing never touches the message, whatever the target and
/// whatever is seen.
pub proof fn law_quiet_look_keeps_the_message(
    v: AppView,
    now: Nanos,
    status: Result<SpoolerStatus, String>,
    snap: QueueSnapshot,
)
    ensures
        quietly_looked(v, now, status, snap).message == v.message,
        quietly_looked(v, now, status, snap).message_is_error == v.message_is_error,
{
}

/// A restart by the watchdog is one of this computer, as long as no other one stands in
/// the field for the target: a job takes its target from there.
pub proof fn law_watchdog_restarts_this_computer(v: AppView, fx: Seq<EffectView>, now: Nanos)
    requires
        v.host.len() == 0,
        host::parse_host(v.host_input) matches Ok(name) ==> name.len() == 0,
    ensures
        watched(v, fx, now).0.host.len() == 0,
        host::host_label(watched(v, fx, now).0.host) == "этот ПК"@,
{
}

/// The window closes without a question only where leave was given or where there is
/// no tray to go to.
pub proof fn law_closing_is_asked_about(v: AppView, fx: Seq<EffectView>, tray_allows: bool)
    ensures
        closing(v, fx, tray_allows).1 == fx <==> (v.allow_exit || tray_allows || !v.has_tray),
        !v.allow_exit && !tray_allows && v.has_tray ==> closing(v, fx, tray_allows).0.confirm
            == Some(Confirm::CloseOrTray),
{
    assert(fx.push(EffectView::CancelClose).len() == fx.len() + 1);
}

/// A job that is asked for while none is under way is started for the target in the
/// field, and the window is busy with it; where the field names no target nothing is
/// started, and the user is told why.
pub proof fn law_jobs_are_started(v: AppView, fx: Seq<EffectView>, job: Job)
    requires
        !v.busy,
    ensures
        host::parse_host(v.host_input) is Ok ==> {
            let (w, out) = job_started(v, fx, job);
            let title = (match job {
                Job::Refresh => "Обновление статуса ("@,
                Job::Stop => "Остановка Spooler ("@,
                Job::Start => "Запуск Spooler ("@,
                Job::Restart => "Перезапуск Spooler ("@,
                Job::ClearOnly => "Очистка очереди ("@,
                Job::FixClear => "Очистка очереди и перезапуск ("@,
            }) + host::host_label(host::parse_host(v.host_input)->Ok_0) + ")"@;
            &&& w == (AppView {
                busy: true,
                waiting: true,
                host: host::parse_host(v.host_input)->Ok_0,
                message: title + "…"@,
                message_is_error: false,
                ..v
            })
            &&& out == fx + seq![
                EffectView::Log(Level::Info, title + ": начало"@),
                EffectView::StartJob(job),
            ]
        },
        host::parse_host(v.host_input) is Err ==> job_started(v, fx, job) == (
            AppView {
                message: host::parse_host(v.host_input)->Err_0,
                message_is_error: true,
                ..v
            },
            fx,
        ),
        job_goal(Job::Refresh) is Query && job_goal(Job::Stop) is Stop && job_goal(
            Job::Start,
        ) is Start && job_goal(Job::Restart) is Restart && job_goal(Job::ClearOnly) is Clear
            && job_goal(Job::FixClear) is Fix,
{
    if host::parse_host(v.host_input) is Ok {
        let name = host::parse_host(v.host_input)->Ok_0;
        let title = job_title(job, host::host_label(name));
        assert(job_started(v, fx, job).1 =~= fx + seq![
            EffectView::Log(Level::Info, title + ": начало"@),
            EffectView::StartJob(job),
        ]);
    }
}

/// A job that is done leaves the window free and shows what it has come to: the state
/// of the service, the queue and the printers, and what was deleted. It is an error
/// where files could not be deleted. A restart, alone or with clearing, is noted for
/// the watchdog; no other job is.
#[verifier::rlimit(30)]
pub proof fn law_done_jobs_are_shown(
    v: AppView,
    fx: Seq<EffectView>,
    now: Nanos,
    job: Job,
    status: SpoolerStatus,
    report: Option<ClearReport>,
    snap: QueueSnapshot,
)
    requires
        v.waiting,
    ensures
        ({
            let (w, out) = job_polled(v, fx, now, JobEvent::Done { job, status, report, snap });
            let label = match job {
                Job::Refresh => "Обновление"@,
                Job::Stop => "Остановка"@,
                Job::Start => "Запуск"@,
                Job::Restart => "Перезапуск"@,
                Job::ClearOnly => "Очистка очереди"@,
                Job::FixClear => "Очистка и перезапуск"@,
            };
            let failures = report is Some && report->0.failed@.len() > 0;
            let state = spooler::state_ru(status.state);
            &&& !w.busy && !w.waiting
            &&& w.status_line == spooler::service_phrase_ru(status.state) + " — "@
                + host::host_label(v.host)
            &&& w.queue_line == queue::snapshot_line(
                snap.jobs,
                snap.files,
                text::opt_str(snap.files_note),
            )
            &&& w.printers == queue::views(snap.printers@)
            &&& w.last_service_state == Some(status.state)
            &&& w.prompt_start == (status.state == ServiceState::Stopped)
            &&& w.last_auto_status == now
            &&& w.message_is_error == failures
            &&& report is None ==> w.message == done_words(label)
            &&& report is Some ==> {
                let detail = queue::report_summary(
                    report->0.directory@,
                    report->0.deleted as nat,
                    text::texts(report->0.failed@),
                ) + queue::report_names(
                    report->0.deleted as nat,
                    text::texts(report->0.deleted_names@),
                );
                &&& job is ClearOnly && status.state == ServiceState::Stopped ==> w.message == label
                    + ": "@ + detail
                    + " Служба оставлена остановленной — нажмите «Запустить службу»."@
                &&& !(job is ClearOnly && status.state == ServiceState::Stopped) ==> w.message
                    == label + ": "@ + detail
                &&& out[fx.len() as int] == EffectView::Log(
                    if failures {
                        Level::Warn
                    } else {
                        Level::Info
                    },
                    label + ": "@ + detail + "; «"@ + state + "»"@,
                )
            }
            &&& report is None ==> out[fx.len() as int] == EffectView::Log(
                Level::Info,
                label + ": ок («"@ + state + "»)"@,
            )
            &&& out.last() == EffectView::RefreshLog
            &&& out.len() == fx.len() + 2 + if (job is Restart || job is FixClear) && v.has_tray {
                1int
            } else {
                0int
            }
            &&& job is Restart || job is FixClear ==> w.watchdog.last_auto_restart == Some(now)
                && w.watchdog.pending_since is None && w.watchdog.queue_fp is None
                && w.watchdog.settings == v.watchdog.settings
            &&& !(job is Restart || job is FixClear) ==> w.watchdog == v.watchdog
            &&& w.confirm == v.confirm && w.host == v.host && w.elevated == v.elevated
        }),
{
}

/// A job that has failed, or broken off, leaves the window free and says so; while it
/// is under way the window only looks again, ten times in a second; and nothing comes
/// of a job that nobody waits for.
pub proof fn law_failed_jobs_are_told(
    v: AppView,
    fx: Seq<EffectView>,
    now: Nanos,
    job: Job,
    error: String,
    event: JobEvent,
)
    ensures
        !v.waiting ==> job_polled(v, fx, now, event) == (v, fx),
        v.waiting ==> job_polled(v, fx, now, JobEvent::Pending) == (
            v,
            fx.push(EffectView::RepaintAfter(100_000_000)),
        ),
        v.waiting ==> job_polled(v, fx, now, JobEvent::Lost) == (
            AppView {
                busy: false,
                waiting: false,
                message: "Фоновая операция оборвалась."@,
                message_is_error: true,
                ..v
            },
            fx.push(EffectView::Log(Level::Error, "Фоновая операция оборвалась"@)).push(
                EffectView::RefreshLog,
            ),
        ),
        v.waiting ==> {
            let label = match job {
                Job::Refresh => "Обновление"@,
                Job::Stop => "Остановка"@,
                Job::Start => "Запуск"@,
                Job::Restart => "Перезапуск"@,
                Job::ClearOnly => "Очистка очереди"@,
                Job::FixClear => "Очистка и перезапуск"@,
            };
            job_polled(v, fx, now, JobEvent::Failed { job, error }) == (
                AppView {
                    busy: false,
                    waiting: false,
                    status_line: "служба печати недоступна — "@ + host::host_label(v.host),
                    last_auto_status: now,
                    message: label + ": "@ + error@,
                    message_is_error: true,
                    ..v
                },
                fx.push(EffectView::Log(Level::Error, label + ": "@ + error@)).push(
                    EffectView::RefreshLog,
                ),
            )
        },
{
}

/// What is said of a job that is done agrees with its noun: a refresh is neuter, a
/// stop and a clearing are feminine, a start and a restart are masculine.
pub proof fn law_participle_follows_the_noun()
    ensures
        done_words("Обновление"@) == "Обновление"@ + " "@ + "выполнено"@ + "."@,
        done_words("Остановка"@) == "Остановка"@ + " "@ + "выполнена"@ + "."@,
        done_words("Очистка очереди"@) == "Очистка очереди"@ + " "@ + "выполнена"@ + "."@,
        done_words("Очистка и перезапуск"@) == "Очистка и перезапуск"@ + " "@ + "выполнена"@
            + "."@,
        done_words("Запуск"@) == "Запуск"@ + " "@ + "выполнен"@ + "."@,
        done_words("Перезапуск"@) == "Перезапуск"@ + " "@ + "выполнен"@ + "."@,
{
    reveal_strlit("Обновление");
    reveal_strlit("Остановка");
    reveal_strlit("Очистка очереди");
    reveal_strlit("Очистка и перезапуск");
    reveal_strlit("Запуск");
    reveal_strlit("Перезапуск");
    assert("Обновление"@.len() == 10 && "Остановка"@.len() == 9 && "Очистка очереди"@.len() == 15
        && "Очистка и перезапуск"@.len() == 20 && "Запуск"@.len() == 6 && "Перезапуск"@.len()
        == 10);
    assert("Обновление"@[0] == 'О' && "Перезапуск"@[0] == 'П');
}

/// A status that was asked for is shown, with the queue of this computer; one that
/// could not be read is an error, and the rest stays as it was.
pub proof fn law_status_is_shown(
    v: AppView,
    s: SpoolerStatus,
    error: String,
    snap: QueueSnapshot,
)
    ensures
        ({
            let w = query_shown(v, Ok(s), snap);
            &&& w.status_line == spooler::service_phrase_ru(s.state) + " — "@ + host::host_label(
                v.host,
            )
            &&& w.prompt_start == (s.state == ServiceState::Stopped)
            &&& w.last_service_state == Some(s.state)
            &&& w.message == "Статус обновлён ("@ + host::host_label(v.host) + ")."@
            &&& !w.message_is_error
            &&& v.host.len() == 0 ==> w.queue_line == queue::snapshot_line(
                snap.jobs,
                snap.files,
                text::opt_str(snap.files_note),
            ) && w.printers == queue::views(snap.printers@)
            &&& v.host.len() > 0 ==> w.queue_line == v.queue_line && w.printers == v.printers
            &&& w == (AppView {
                status_line: w.status_line,
                queue_line: w.queue_line,
                printers: w.printers,
                message: w.message,
                message_is_error: w.message_is_error,
                prompt_start: w.prompt_start,
                last_service_state: w.last_service_state,
                ..v
            })
        }),
        query_shown(v, Err(error), snap) == (AppView {
            status_line: "служба печати недоступна — "@ + host::host_label(v.host),
            message: error@,
            message_is_error: true,
            ..v
        }),
{
}

/// A look in passing at this computer shows its queue, and its state where that could
/// be read.
pub proof fn law_quiet_look_shows_this_computer(
    v: AppView,
    now: Nanos,
    s: SpoolerStatus,
    error: String,
    snap: QueueSnapshot,
)
    requires
        v.host.len() == 0,
    ensures
        quietly_looked(v, now, Ok(s), snap) == (AppView {
            last_auto_status: now,
            status_line: spooler::service_phrase_ru(s.state) + " — "@ + host::host_label(v.host),
            prompt_start: s.state == ServiceState::Stopped,
            last_service_state: Some(s.state),
            queue_line: queue::snapshot_line(
                snap.jobs,
                snap.files,
                text::opt_str(snap.files_note),
            ),
            printers: queue::views(snap.printers@),
            ..v
        }),
        quietly_looked(v, now, Err(error), snap) == (AppView {
            last_auto_status: now,
            queue_line: queue::snapshot_line(
                snap.jobs,
                snap.files,
                text::opt_str(snap.files_note),
            ),
            printers: queue::views(snap.printers@),
            ..v
        }),
{
}

/// When nothing else happens, this computer is looked at, the watchdog judges what was
/// seen, and the printers that something was sent to are told of, in this order.
pub proof fn law_looking_around_feeds_the_watchdog(
    v: AppView,
    fx: Seq<EffectView>,
    now: Nanos,
    status: Result<SpoolerStatus, String>,
    snap: QueueSnapshot,
    names: Seq<Seq<char>>,
)
    requires
        v.host.len() == 0,
    ensures
        ({
            let seen = quietly_looked(v, now, status, snap);
            let (w, out) = watched(seen, fx, now);
            let r = looked_around(v, fx, now, status, snap, names);
            &&& names.len() == 0 ==> r == (w, out)
            &&& names.len() > 0 ==> r.0 == (AppView {
                message: print_notify::message(names),
                message_is_error: false,
                ..w
            })
            &&& names.len() > 0 && w.has_tray ==> r.1 == out.push(
                EffectView::Tooltip("SpoolCtl: "@ + print_notify::message(names)),
            ).push(EffectView::RefreshLog)
            &&& names.len() > 0 && !w.has_tray ==> r.1 == out.push(EffectView::RefreshLog)
        }),
{
}

/// The watchdog is asked whenever no job is under way, no question is open and a state
/// was seen; what it finds is remembered. A restart that it calls for is started where
/// the program has the rights, and noted; without the rights, and for a warning, the
/// user is told, and the window comes out of the tray.
#[verifier::rlimit(30)]
pub proof fn law_hangs_are_answered(v: AppView, fx: Seq<EffectView>, now: Nanos)
    ensures
        v.busy || v.confirm is Some || v.last_service_state is None ==> watched(v, fx, now) == (
            v,
            fx,
        ),
        !v.busy && v.confirm is None && v.last_service_state is Some ==> {
            let (d, found) = watchdog::observed(
                v.watchdog,
                now,
                v.last_service_state->0,
                v.printers,
            );
            let (w, out) = watched(v, fx, now);
            &&& found is None ==> w == (AppView { watchdog: d, ..v }) && out == fx
            &&& found is Some && (found->0).1 is Warn ==> {
                &&& w.watchdog == d
                &&& w.message == watchdog::hang_summary((found->0).0)
                    + " Включите «Автоперезапуск» или нажмите «Перезапустить»."@
                &&& w.message_is_error
                &&& !w.window_in_tray
                &&& !w.busy
                &&& out[fx.len() as int] == EffectView::Log(
                    Level::Warn,
                    watchdog::hang_summary((found->0).0),
                )
                &&& v.window_in_tray ==> out[out.len() - 2] == EffectView::ShowWindow
                &&& out.last() == EffectView::RefreshLog
            }
            &&& found is Some && (found->0).1 is AutoRestart && !v.elevated ==> {
                &&& w.watchdog == d
                &&& w.message == watchdog::hang_summary((found->0).0)
                    + " Автоперезапуск нужен от имени администратора."@
                &&& w.message_is_error
                &&& !w.window_in_tray
                &&& !w.busy
                &&& out[fx.len() as int] == EffectView::Log(
                    Level::Warn,
                    watchdog::hang_summary((found->0).0)
                        + " Автоперезапуск пропущен: нет прав администратора."@,
                )
                &&& v.window_in_tray ==> out[out.len() - 2] == EffectView::ShowWindow
                &&& out.last() == EffectView::RefreshLog
            }
            &&& found is Some && (found->0).1 is AutoRestart && v.elevated ==> {
                &&& w.watchdog.last_auto_restart == Some(now)
                &&& w.watchdog.settings == v.watchdog.settings
                &&& out[fx.len() as int] == EffectView::Log(
                    Level::Warn,
                    watchdog::hang_summary((found->0).0) + " Автоперезапуск Spooler…"@,
                )
                &&& host::parse_host(v.host_input) is Ok ==> w.busy && w.waiting && out.last()
                    == EffectView::StartJob(Job::Restart)
            }
        },
{
}

/// The target that the user names becomes the target: this computer is looked at at
/// once, another one in the background unless a job is under way; what names no target
/// is an error, and changes nothing.
pub proof fn law_target_is_taken(v: AppView, fx: Seq<EffectView>)
    ensures
        host::parse_host(v.host_input) is Err ==> target_named(v, fx) == (
            AppView {
                message: host::parse_host(v.host_input)->Err_0,
                message_is_error: true,
                ..v
            },
            fx,
        ),
        host::parse_host(v.host_input) is Ok ==> {
            let name = host::parse_host(v.host_input)->Ok_0;
            let (w, out) = target_named(v, fx);
            &&& w.host == name
            &&& name != v.host ==> out[fx.len() as int] == EffectView::Log(
                Level::Info,
                "Цель: "@ + host::host_label(name),
            )
            &&& name.len() == 0 ==> w == (AppView { host: name, ..v }) && out.last()
                == EffectView::RefreshLog && out[out.len() - 2] == EffectView::QueryStatus
            &&& name.len() > 0 && !v.busy ==> w.busy && w.waiting && out.last()
                == EffectView::StartJob(Job::Refresh)
            &&& name.len() > 0 && v.busy ==> w == (AppView { host: name, ..v })
            &&& name == v.host && name.len() > 0 && v.busy ==> out == fx
        },
{
}

/// Watching is switched on and off as the user says; without watching there are no
/// restarts, and what was seen is forgotten. The choice is saved.
pub proof fn law_watching_is_switched(v: AppView, fx: Seq<EffectView>, on: bool)
    ensures
        ({
            let (w, out) = watch_switched(v, fx, on);
            let a = w.watchdog;
            &&& a.settings.watch_enabled == on
            &&& a.settings.auto_restart == (on && v.watchdog.settings.auto_restart)
            &&& a.last_auto_restart == v.watchdog.last_auto_restart
            &&& on ==> a == (watchdog::WatchView { settings: a.settings, ..v.watchdog })
            &&& !on ==> a.queue_fp is None && a.queue_unchanged_since is None
                && a.pending_since is None && a.warned_fp is None
            &&& w == (AppView { watchdog: a, ..v })
            &&& out == fx + seq![
                EffectView::SaveWatchdog,
                EffectView::Log(
                    Level::Info,
                    "Сторож зависания: слежение "@ + if on {
                        "вкл"@
                    } else {
                        "выкл"@
                    },
                ),
                EffectView::RefreshLog,
            ]
        }),
{
    assert(watch_switched(v, fx, on).1 =~= fx + seq![
        EffectView::SaveWatchdog,
        EffectView::Log(Level::Info, "Сторож зависания: слежение "@ + on_off(on)),
        EffectView::RefreshLog,
    ]);
}

/// Restarts are switched off at once and saved so; to switch them on the user is asked.
pub proof fn law_restarts_are_switched(v: AppView, fx: Seq<EffectView>)
    ensures
        auto_switched(v, fx, true) == (
            AppView {
                confirm: Some(Confirm::EnableAutoRestart),
                watchdog: watchdog::WatchView {
                    settings: watchdog::Settings {
                        watch_enabled: v.watchdog.settings.watch_enabled,
                        auto_restart: false,
                    },
                    ..v.watchdog
                },
                ..v
            },
            fx,
        ),
        auto_switched(v, fx, false).0 == (AppView {
            watchdog: watchdog::WatchView {
                settings: watchdog::Settings {
                    watch_enabled: v.watchdog.settings.watch_enabled,
                    auto_restart: false,
                },
                ..v.watchdog
            },
            message: "Автоперезапуск выключен."@,
            message_is_error: false,
            ..v
        }),
        auto_switched(v, fx, false).1 == fx + seq![
            EffectView::SaveWatchdog,
            EffectView::Log(Level::Info, "Сторож зависания: автоперезапуск выкл"@),
            EffectView::RefreshLog,
        ],
{
    assert(auto_switched(v, fx, false).1 =~= fx + seq![
        EffectView::SaveWatchdog,
        EffectView::Log(Level::Info, "Сторож зависания: автоперезапуск выкл"@),
        EffectView::RefreshLog,
    ]);
}

/// A yes does what was asked, once: the job, switching automatic setup off, restarts
/// together with watching, or the start with Windows. The question is gone in any case.
#[verifier::rlimit(30)]
pub proof fn law_yes_does_what_was_asked(v: AppView, fx: Seq<EffectView>, job: Job)
    ensures
        agreed(v, fx).0.confirm is None,
        v.confirm == Some(Confirm::Job(job)) ==> agreed(v, fx) == job_started(
            AppView { confirm: None, ..v },
            fx,
            job,
        ),
        v.confirm == Some(Confirm::DisableNcd) ==> agreed(v, fx) == (
            AppView { confirm: None, ..v },
            fx.push(EffectView::DisableNcd),
        ),
        v.confirm == Some(Confirm::EnableAutostart) ==> agreed(v, fx) == (
            AppView { confirm: None, ..v },
            fx.push(EffectView::EnableAutostart),
        ),
        v.confirm == Some(Confirm::EnableAutoRestart) ==> {
            let (w, out) = agreed(v, fx);
            &&& w == (AppView {
                confirm: None,
                watchdog: watchdog::WatchView {
                    settings: watchdog::Settings { watch_enabled: true, auto_restart: true },
                    ..v.watchdog
                },
                message: "Автоперезапуск при зависании включён. Слежение тоже включено."@,
                message_is_error: false,
                ..v
            })
            &&& out[fx.len() as int] == EffectView::SaveWatchdog
            &&& out.len() == fx.len() + 3
        },
        v.confirm is None ==> agreed(v, fx) == (v, fx),
{
}

/// The start with Windows is switched off at once and on only after a question; the
/// window shows what came of it.
pub proof fn law_autostart_is_switched(
    v: AppView,
    fx: Seq<EffectView>,
    error: String,
    still: bool,
)
    ensures
        autostart_switched(v, fx, true) == (
            AppView {
                autostart_enabled: false,
                confirm: Some(Confirm::EnableAutostart),
                ..v
            },
            fx,
        ),
        autostart_switched(v, fx, false) == (v, fx.push(EffectView::DisableAutostart)),
        autostart_off(v, fx, Ok(()), still).0 == (AppView {
            autostart_enabled: false,
            message: "Автозапуск при входе выключен."@,
            message_is_error: false,
            ..v
        }),
        autostart_off(v, fx, Err(error), still).0 == (AppView {
            autostart_enabled: still,
            message: error@,
            message_is_error: true,
            ..v
        }),
        autostart_on(v, fx, Ok(())).0 == (AppView {
            autostart_enabled: true,
            message: "Автозапуск включён: после входа — в трее с правами администратора."@,
            message_is_error: false,
            ..v
        }),
        autostart_on(v, fx, Err(error)).0 == (AppView {
            autostart_enabled: false,
            message: error@,
            message_is_error: true,
            ..v
        }),
        autostart_off(v, fx, Ok(()), still).1 == fx.push(
            EffectView::Log(Level::Info, "Автозапуск с Windows: выкл"@),
        ).push(EffectView::RefreshLog),
        autostart_off(v, fx, Err(error), still).1 == fx.push(
            EffectView::Log(Level::Error, "Автозапуск: "@ + error@),
        ).push(EffectView::RefreshLog),
        autostart_on(v, fx, Err(error)).1 == autostart_off(v, fx, Err(error), still).1,
{
}

/// Messages about prints are switched as the user says: the choice is saved, and a
/// watcher is started or stopped.
#[verifier::rlimit(30)]
pub proof fn law_print_messages_are_switched(v: AppView, fx: Seq<EffectView>, on: bool)
    ensures
        ({
            let (w, out) = notify_switched(v, fx, on);
            let n = fx.len() as int;
            &&& w.print_notify.settings.notify_print_jobs == on
            &&& w.print_notify.watching == on
            &&& !w.message_is_error
            &&& w == (AppView {
                print_notify: w.print_notify,
                message: w.message,
                message_is_error: false,
                ..v
            })
            &&& out[n] == EffectView::Notify(Turn::Save)
            &&& on && !v.print_notify.watching ==> out[n + 1] == EffectView::Notify(Turn::Start)
                && out.len() == n + 4
            &&& on && v.print_notify.watching ==> out[n + 1] == EffectView::Notify(Turn::Stop)
                && out[n + 2] == EffectView::Notify(Turn::Start) && out.len() == n + 5
            &&& !on && v.print_notify.watching ==> out[n + 1] == EffectView::Notify(Turn::Stop)
                && out.len() == n + 4
            &&& !on && !v.print_notify.watching ==> out.len() == n + 3
            &&& out.last() == EffectView::RefreshLog
        }),
{
    let none = Seq::<Turn>::empty();
    let one = none.push(Turn::Save);
    let saved = fx.push(EffectView::Notify(Turn::Save));
    lemma_notified(fx, none, Turn::Save);
    assert(notified(fx, one) == saved);
    let turns = seq![Turn::Save] + if on {
        print_notify::turns_on(v.print_notify.watching)
    } else {
        print_notify::turns_off(v.print_notify.watching)
    };
    if on && v.print_notify.watching {
        lemma_notified(fx, one, Turn::Stop);
        lemma_notified(fx, one.push(Turn::Stop), Turn::Start);
        assert(turns =~= one.push(Turn::Stop).push(Turn::Start));
    } else if on {
        lemma_notified(fx, one, Turn::Start);
        assert(turns =~= one.push(Turn::Start));
    } else if v.print_notify.watching {
        lemma_notified(fx, one, Turn::Stop);
        assert(turns =~= one.push(Turn::Stop));
    } else {
        assert(turns =~= one);
    }
}

proof fn lemma_notified(fx: Seq<EffectView>, turns: Seq<Turn>, t: Turn)
    ensures
        notified(fx, turns.push(t)) == notified(fx, turns).push(EffectView::Notify(t)),
        notified(fx, Seq::empty()) == fx,
{
    assert(turns.push(t).drop_last() =~= turns);
}

/// The window that goes to the tray is hidden, and the tray icon tells of it; the tray
/// brings it back, sends it away, or ends the program.
#[verifier::rlimit(30)]
pub proof fn law_tray_moves_the_window(v: AppView, fx: Seq<EffectView>)
    ensures
        ({
            let (w, out) = tray_asked(v, fx, TrayCmd::Show);
            &&& w == (AppView { window_in_tray: false, ..v })
            &&& out[fx.len() as int] == EffectView::ShowWindow
            &&& out.last() == EffectView::Repaint
        }),
        ({
            let (w, out) = tray_asked(v, fx, TrayCmd::Hide);
            &&& w == hidden(v, fx).0
            &&& out == hidden(v, fx).1.push(EffectView::Repaint)
        }),
        ({
            let (w, out) = tray_asked(v, fx, TrayCmd::Quit);
            &&& w == (AppView { allow_exit: true, window_in_tray: false, ..v })
            &&& out == fx + seq![
                EffectView::Log(Level::Info, "Выход из трея"@),
                EffectView::ShowWindow,
                EffectView::CloseWindow,
            ]
        }),
        ({
            let (w, out) = hidden(v, fx);
            &&& w.window_in_tray
            &&& w.confirm == v.confirm && w.busy == v.busy && w.watchdog == v.watchdog
            &&& w.allow_exit == v.allow_exit && w.has_tray == v.has_tray
            &&& out[fx.len() as int] == EffectView::HideWindow
            &&& v.has_tray ==> out[fx.len() as int + 2] is Balloon && out[fx.len() as int + 3] is Tooltip
            &&& out.last() == EffectView::RefreshLog
        }),
        tray_chosen(v, fx) == hidden(AppView { confirm: None, ..v }, fx),
        exit_chosen(v, fx).0 == (AppView { confirm: None, allow_exit: true, ..v }),
        exit_chosen(v, fx).1.last() == EffectView::CloseWindow,
{
    assert(tray_asked(v, fx, TrayCmd::Quit).1 =~= fx + seq![
        EffectView::Log(Level::Info, "Выход из трея"@),
        EffectView::ShowWindow,
        EffectView::CloseWindow,
    ]);
}

/// What the tray asks for is done in order, each thing once.
pub proof fn law_tray_is_obeyed_in_order(
    v: AppView,
    fx: Seq<EffectView>,
    cmds: Seq<TrayCmd>,
    cmd: TrayCmd,
)
    ensures
        tray_asked_all(v, fx, Seq::empty()) == (v, fx),
        tray_asked_all(v, fx, cmds.push(cmd)) == tray_asked(
            tray_asked_all(v, fx, cmds).0,
            tray_asked_all(v, fx, cmds).1,
            cmd,
        ),
{
    assert(cmds.push(cmd).drop_last() =~= cmds);
}

/// The window hides at once where it was asked to start in the tray and there is one;
/// it comes to the front where it was started again with more rights; and both happen
/// only once.
pub proof fn law_first_frame_does_its_work_once(v: AppView, fx: Seq<EffectView>)
    ensures
        v.start_in_tray && v.has_tray ==> {
            let (w, out) = first_painted(v, fx);
            &&& w.window_in_tray
            &&& !w.start_in_tray
            &&& out.len() > fx.len() + 1 && out[fx.len() as int + 1] == EffectView::HideWindow
        },
        !(v.start_in_tray && v.has_tray) && v.force_show_window ==> {
            let (w, out) = first_painted(v, fx);
            &&& w == (AppView { force_show_window: false, window_in_tray: false, ..v })
            &&& out[fx.len() as int] == EffectView::ShowWindow
            &&& out[fx.len() as int + 1] == EffectView::FocusWindow
        },
        !(v.start_in_tray && v.has_tray) && !v.force_show_window ==> first_painted(v, fx) == (v, fx),
{
}

/// To get more rights, the tray icon and the leave to have a window are given up before
/// the program is started again, at its place; where the user refuses, both are asked
/// for again and the reason is shown; else this program ends.
pub proof fn law_rights_are_asked_for(
    v: AppView,
    fx: Seq<EffectView>,
    pos: Option<(i32, i32)>,
    error: String,
)
    ensures
        ({
            let (w, out) = rights_wanted(v, fx, pos);
            let n = out.len() as int;
            &&& w == (AppView { has_tray: false, ..v })
            &&& out[n - 3] == EffectView::DropTray
            &&& out[n - 2] == EffectView::ReleaseSlot
            &&& out[n - 1] == EffectView::Relaunch(pos)
            &&& n == fx.len() + 4 + if pos is Some {
                1int
            } else {
                0int
            }
        }),
        rights_answered(v, fx, Ok(())).0 == v,
        rights_answered(v, fx, Ok(())).1.last() == EffectView::Exit,
        rights_answered(v, fx, Err(error)) == (
            AppView { message: error@, message_is_error: true, ..v },
            fx.push(EffectView::Log(Level::Error, error@)).push(EffectView::AcquireSlot).push(
                EffectView::InstallTray,
            ),
        ),
        tray_back(v, fx, Ok(())).0 == (AppView { has_tray: true, ..v }),
        tray_back(v, fx, Err(error)).0 == v,
        tray_back(v, fx, Ok(())).1.last() == EffectView::RefreshLog,
{
}

/// A new window shows nothing yet, is not busy, means this computer, has the settings
/// of the file and no memory of any hang; the tray icon is asked for, and a watcher of
/// prints where it is chosen.
pub proof fn law_window_begins_clean(
    elevated: bool,
    file: Option<Seq<char>>,
    ncd_status: NcdStatus,
    autostart: bool,
    in_tray: bool,
    in_front: bool,
    now: Nanos,
)
    ensures
        ({
            let v = new_window(elevated, file, ncd_status, autostart, in_tray, in_front, now);
            let notify = print_notify::settings_in(file).notify_print_jobs;
            let fx = beginnings(elevated, notify);
            &&& !v.busy && !v.waiting && v.confirm is None && !v.allow_exit && !v.has_tray
            &&& v.host.len() == 0 && v.host_input.len() == 0 && v.printers.len() == 0
            &&& v.elevated == elevated && v.autostart_enabled == autostart
            &&& v.last_service_state is None && v.last_auto_status == now
            &&& v.watchdog.settings == watchdog::settings_in(file)
            &&& v.watchdog.pending_since is None && v.watchdog.queue_fp is None
            &&& v.watchdog.last_auto_restart is None && v.watchdog.warned_fp is None
            &&& v.print_notify.settings.notify_print_jobs == notify
            &&& v.print_notify.watching == notify
            &&& v.start_in_tray == in_tray
            &&& v.force_show_window == (in_front && !in_tray)
            &&& fx.last() == EffectView::InstallTray
            &&& notify ==> fx.len() == 3 && fx[1] == EffectView::Notify(Turn::Start)
            &&& !notify ==> fx.len() == 2
        }),
{
    reveal_with_fuel(notified, 2);
    assert(seq![Turn::Start].drop_last() =~= Seq::<Turn>::empty());
}

/// Once it is known whether there is a tray icon, the log is read and the status is
/// asked for, in any case; where there is none the user is told.
pub proof fn law_window_begins_with_a_look(v: AppView, fx: Seq<EffectView>, error: String)
    ensures
        tray_answered(v, fx, Ok(())).0 == (AppView { has_tray: true, ..v }),
        tray_answered(v, fx, Err(error)).0 == (AppView {
            message: "Трей недоступен: "@ + error@,
            message_is_error: true,
            ..v
        }),
        ({
            let out = tray_answered(v, fx, Ok(())).1;
            out.last() == EffectView::QueryStatus && out[out.len() - 2] == EffectView::RefreshLog
        }),
        ({
            let out = tray_answered(v, fx, Err(error)).1;
            out.last() == EffectView::QueryStatus && out[out.len() - 2] == EffectView::RefreshLog
        }),
{
}

/// Every tile does what its picture says, and those that do harm ask first.
pub proof fn law_tiles_do_what_they_show(prompt: bool)
    ensures
        tiles(prompt).len() == 6,
        tiles(prompt)[0].icon is Start && tiles(prompt)[0].click == ActionClick::Job(Job::Start),
        tiles(prompt)[1].icon is Stop && tiles(prompt)[1].click == ActionClick::Confirm(Job::Stop),
        tiles(prompt)[2].icon is Restart && tiles(prompt)[2].click == ActionClick::Confirm(
            Job::Restart,
        ),
        tiles(prompt)[3].icon is Refresh && tiles(prompt)[3].click == ActionClick::Job(
            Job::Refresh,
        ),
        tiles(prompt)[4].icon is Clear && tiles(prompt)[4].click == ActionClick::Confirm(
            Job::ClearOnly,
        ),
        tiles(prompt)[5].icon is ClearRestart && tiles(prompt)[5].click == ActionClick::Confirm(
            Job::FixClear,
        ),
        tiles(prompt)[0].fill is Accent <==> prompt,
{
}

/// A tile starts its job, or asks about it and does nothing else. Switching automatic
/// setup off is asked about by whoever has the rights; anybody else is told that they
/// are needed.
pub proof fn law_clicks_start_or_ask(v: AppView, fx: Seq<EffectView>, job: Job)
    ensures
        tile_pressed(v, fx, ActionClick::Job(job)) == job_started(v, fx, job),
        tile_pressed(v, fx, ActionClick::Confirm(job)) == (
            AppView { confirm: Some(Confirm::Job(job)), ..v },
            fx,
        ),
        v.elevated ==> ncd_pressed(v) == (AppView { confirm: Some(Confirm::DisableNcd), ..v }),
        !v.elevated ==> ncd_pressed(v) == (AppView {
            message: "Для отключения автонастройки нужны права администратора."@,
            message_is_error: true,
            ..v
        }),
        asked_first(job) <==> job is Stop || job is Restart || job is ClearOnly || job is FixClear,
{
}

/// What came of switching automatic setup off is shown and put in the log, and what is
/// known about it is read anew, in any case; what came of opening a folder is shown.
pub proof fn law_outcomes_are_shown(
    v: AppView,
    fx: Seq<EffectView>,
    detail: String,
    error: String,
    place: Place,
)
    ensures
        ncd_off(v, fx, Ok(detail)) == (
            AppView { message: detail@, message_is_error: false, ..v },
            fx.push(EffectView::Log(Level::Info, "NcdAutoSetup: "@ + detail@)).push(
                EffectView::RefreshNcd,
            ).push(EffectView::RefreshLog),
        ),
        ncd_off(v, fx, Err(error)) == (
            AppView { message: error@, message_is_error: true, ..v },
            fx.push(EffectView::Log(Level::Error, "NcdAutoSetup: "@ + error@)).push(
                EffectView::RefreshNcd,
            ).push(EffectView::RefreshLog),
        ),
        place_opened(v, place, Err(error)) == (AppView {
            message: error@,
            message_is_error: true,
            ..v
        }),
        place_opened(v, place, Ok(())) == (AppView {
            message: match place {
                Place::Log => "Папка журнала открыта."@,
                Place::Queue => "Папка очереди открыта."@,
                Place::Printers => "Папка принтеров открыта."@,
            },
            message_is_error: false,
            ..v
        }),
{
}

/// Every question has its own title.
pub proof fn law_questions_say_what_they_are_about()
    ensures
        question(Confirm::Job(Job::Stop)).0 == "Остановить службу?"@,
        question(Confirm::Job(Job::Restart)).0 == "Перезапустить службу?"@,
        question(Confirm::Job(Job::ClearOnly)).0 == "Очистить очередь печати?"@,
        question(Confirm::Job(Job::FixClear)).0 == "Очистить очередь и перезапустить?"@,
        question(Confirm::DisableNcd).0 == "Отключить автонастройку устройств?"@,
        question(Confirm::EnableAutoRestart).0 == "Включить автоперезапуск при зависании?"@,
        question(Confirm::EnableAutostart).0 == "Автозапуск с правами администратора?"@,
        question(Confirm::CloseOrTray).0 == "Закрыть окно?"@,
{
}

// ---------------------------------------------------------------------------
// Values as they are seen

/// What is to be done outside is seen as what it is, in order.
pub proof fn law_effects_are_seen_as_they_are(
    level: Level,
    s: String,
    t: String,
    job: Job,
    d: Nanos,
    turn: Turn,
    pos: Option<(i32, i32)>,
    place: Place,
    fx: Effects,
    i: int,
)
    ensures
        Effect::Log(level, s)@ == EffectView::Log(level, s@),
        Effect::RefreshLog@ == EffectView::RefreshLog,
        Effect::RefreshNcd@ == EffectView::RefreshNcd,
        Effect::QueryStatus@ == EffectView::QueryStatus,
        Effect::StartJob(job)@ == EffectView::StartJob(job),
        Effect::Tooltip(s)@ == EffectView::Tooltip(s@),
        Effect::Balloon(s, t)@ == EffectView::Balloon(s@, t@),
        Effect::ShowWindow@ == EffectView::ShowWindow,
        Effect::HideWindow@ == EffectView::HideWindow,
        Effect::FocusWindow@ == EffectView::FocusWindow,
        Effect::CloseWindow@ == EffectView::CloseWindow,
        Effect::CancelClose@ == EffectView::CancelClose,
        Effect::Repaint@ == EffectView::Repaint,
        Effect::RepaintAfter(d)@ == EffectView::RepaintAfter(d),
        Effect::SaveWatchdog@ == EffectView::SaveWatchdog,
        Effect::Notify(turn)@ == EffectView::Notify(turn),
        Effect::InstallTray@ == EffectView::InstallTray,
        Effect::DropTray@ == EffectView::DropTray,
        Effect::ReleaseSlot@ == EffectView::ReleaseSlot,
        Effect::AcquireSlot@ == EffectView::AcquireSlot,
        Effect::Relaunch(pos)@ == EffectView::Relaunch(pos),
        Effect::Exit@ == EffectView::Exit,
        Effect::Open(place)@ == EffectView::Open(place),
        Effect::DisableNcd@ == EffectView::DisableNcd,
        Effect::EnableAutostart@ == EffectView::EnableAutostart,
        Effect::DisableAutostart@ == EffectView::DisableAutostart,
        fx@.len() == fx.list@.len(),
        0 <= i < fx@.len() ==> fx@[i] == fx.list@[i]@,
{
}

/// The state of the window is what it holds.
pub proof fn law_window_is_seen_as_it_is(a: SpoolCtlApp)
    ensures
        a@.status_line == a.status_line@ && a@.queue_line == a.queue_line@,
        a@.printers == queue::views(a.printers@),
        a@.message == a.message@ && a@.message_is_error == a.message_is_error,
        a@.busy == a.busy && a@.waiting == a.waiting && a@.elevated == a.elevated,
        a@.prompt_start == a.prompt_start && a@.confirm == a.confirm,
        a@.log_lines == text::texts(a.log_lines@),
        a@.last_auto_status == a.last_auto_status && a@.ncd_summary == a.ncd_summary@,
        a@.watchdog == a.watchdog@ && a@.print_notify == a.print_notify,
        a@.last_service_state == a.last_service_state && a@.has_tray == a.has_tray,
        a@.allow_exit == a.allow_exit && a@.window_in_tray == a.window_in_tray,
        a@.start_in_tray == a.start_in_tray && a@.force_show_window == a.force_show_window,
        a@.autostart_enabled == a.autostart_enabled && a@.host_input == a.host_input@,
        a@.host == a.host@ && a@.admin_tip_started == a.admin_tip_started,
{
}

} // verus!
