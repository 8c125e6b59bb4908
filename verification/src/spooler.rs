//! The print spooler service: its states and its status, how long to wait for it,
//! and its failures in words.

use vstd::prelude::*;
use crate::clock::{from_millis, Nanos, SECOND};
use crate::win32::{WinError, ERROR_ACCESS_DENIED, ERROR_SERVICE_DOES_NOT_EXIST};

verus! {

/// How long a service may take to stop, to start or to restart, by default.
pub const DEFAULT_CONTROL_TIMEOUT: u128 = 60_000_000_000;

/// The states of the service.
#[derive(Debug, Clone, Copy, PartialEq, Eq, Structural)]
pub enum ServiceState {
    Stopped,
    StartPending,
    StopPending,
    Running,
    ContinuePending,
    PausePending,
    Paused,
    Other(u32),
}

/// The state that the code of a `SERVICE_STATUS` stands for.
pub open spec fn state_of(code: u32) -> ServiceState {
    if code == 1 {
        ServiceState::Stopped
    } else if code == 2 {
        ServiceState::StartPending
    } else if code == 3 {
        ServiceState::StopPending
    } else if code == 4 {
        ServiceState::Running
    } else if code == 5 {
        ServiceState::ContinuePending
    } else if code == 6 {
        ServiceState::PausePending
    } else if code == 7 {
        ServiceState::Paused
    } else {
        ServiceState::Other(code)
    }
}

/// A state in words.
pub open spec fn state_ru(s: ServiceState) -> Seq<char> {
    match s {
        ServiceState::Stopped => "остановлена"@,
        ServiceState::StartPending => "запускается"@,
        ServiceState::StopPending => "останавливается"@,
        ServiceState::Running => "работает"@,
        ServiceState::ContinuePending => "возобновляется"@,
        ServiceState::PausePending => "приостанавливается"@,
        ServiceState::Paused => "приостановлена"@,
        ServiceState::Other(_) => "неизвестное состояние"@,
    }
}

/// A state as a phrase about the service.
pub open spec fn service_phrase_ru(s: ServiceState) -> Seq<char> {
    match s {
        ServiceState::Stopped => "служба печати остановлена"@,
        ServiceState::StartPending => "служба печати запускается"@,
        ServiceState::StopPending => "служба печати останавливается"@,
        ServiceState::Running => "служба печати работает"@,
        ServiceState::ContinuePending => "служба печати возобновляется"@,
        ServiceState::PausePending => "служба печати приостанавливается"@,
        ServiceState::Paused => "служба печати приостановлена"@,
        ServiceState::Other(_) => "служба печати в неизвестном состоянии"@,
    }
}

/// The service is on its way from one state to another.
pub open spec fn pending(s: ServiceState) -> bool {
    s is StartPending || s is StopPending || s is ContinuePending || s is PausePending
}

impl ServiceState {
    /// The state that the code `value` stands for.
    pub fn from_raw(value: u32) -> (r: Self)
        ensures
            r == state_of(value),
    {
        match value {
            1 => Self::Stopped,
            2 => Self::StartPending,
            3 => Self::StopPending,
            4 => Self::Running,
            5 => Self::ContinuePending,
            6 => Self::PausePending,
            7 => Self::Paused,
            other => Self::Other(other),
        }
    }

    /// The state in words.
    pub fn as_ru_str(self) -> (r: &'static str)
        ensures
            r@ == state_ru(self),
    {
        match self {
            Self::Stopped => "остановлена",
            Self::StartPending => "запускается",
            Self::StopPending => "останавливается",
            Self::Running => "работает",
            Self::ContinuePending => "возобновляется",
            Self::PausePending => "приостанавливается",
            Self::Paused => "приостановлена",
            Self::Other(_) => "неизвестное состояние",
        }
    }

    /// The state as a phrase about the service.
    pub fn as_ru_service_phrase(self) -> (r: &'static str)
        ensures
            r@ == service_phrase_ru(self),
    {
        match self {
            Self::Stopped => "служба печати остановлена",
            Self::StartPending => "служба печати запускается",
            Self::StopPending => "служба печати останавливается",
            Self::Running => "служба печати работает",
            Self::ContinuePending => "служба печати возобновляется",
            Self::PausePending => "служба печати приостанавливается",
            Self::Paused => "служба печати приостановлена",
            Self::Other(_) => "служба печати в неизвестном состоянии",
        }
    }

    /// Whether the service is on its way from one state to another.
    pub fn is_pending(self) -> (r: bool)
        ensures
            r == pending(self),
    {
        match self {
            Self::StartPending | Self::StopPending | Self::ContinuePending | Self::PausePending => true,
            _ => false,
        }
    }
}

/// What the Service Control Manager says about the service.
#[derive(Debug, Clone, Copy, PartialEq, Eq, Structural)]
pub struct SpoolerStatus {
    pub state: ServiceState,
    pub win32_exit_code: u32,
    pub service_exit_code: u32,
    pub check_point: u32,
    /// How long the service asks to be waited for.
    pub wait_hint: Nanos,
}

/// Reads the fields of a `SERVICE_STATUS`: the code of the state, the two exit
/// codes, the check point, and the wait hint in milliseconds.
pub fn read_status(
    state: u32,
    win32_exit_code: u32,
    service_exit_code: u32,
    check_point: u32,
    wait_hint_ms: u32,
) -> (r: SpoolerStatus)
    ensures
        r.state == state_of(state),
        r.win32_exit_code == win32_exit_code,
        r.service_exit_code == service_exit_code,
        r.check_point == check_point,
        r.wait_hint == wait_hint_ms * 1_000_000,
{
    SpoolerStatus {
        state: ServiceState::from_raw(state),
        win32_exit_code,
        service_exit_code,
        check_point,
        wait_hint: from_millis(wait_hint_ms),
    }
}

/// A failed call in words.
pub open spec fn scm_error(prefix: Seq<char>, code: i32, detail: Seq<char>) -> Seq<char> {
    if code == ERROR_ACCESS_DENIED {
        prefix + ": отказано в доступе. Запустите от имени администратора."@
    } else {
        prefix + ": "@ + detail
    }
}

/// A failure to open the service in words.
pub open spec fn open_error(code: i32, detail: Seq<char>) -> Seq<char> {
    if code == ERROR_SERVICE_DOES_NOT_EXIST {
        "Служба печати Spooler не найдена на этой системе."@
    } else {
        scm_error("Не удалось открыть службу Spooler"@, code, detail)
    }
}

/// A failed call in words: `prefix` says which one.
pub fn map_scm_error(prefix: &str, err: &WinError) -> (r: String)
    ensures
        r@ == scm_error(prefix@, err.code, err.text@),
{
    let mut s = prefix.to_owned();
    if err.code == ERROR_ACCESS_DENIED as i32 {
        s.append(": отказано в доступе. Запустите от имени администратора.");
    } else {
        s.append(": ");
        s.append(err.text.as_str());
    }
    s
}

/// A failure to open the service in words.
pub fn map_open_error(err: &WinError) -> (r: String)
    ensures
        r@ == open_error(err.code, err.text@),
{
    if err.code == ERROR_SERVICE_DOES_NOT_EXIST as i32 {
        "Служба печати Spooler не найдена на этой системе.".to_owned()
    } else {
        map_scm_error("Не удалось открыть службу Spooler", err)
    }
}

// ---------------------------------------------------------------------------
// Waiting

/// The pause between two looks at a service that asks for `hint`: a tenth of it,
/// but at least one second and at most ten.
pub open spec fn pause_for(hint: Nanos) -> int {
    let tenth = hint as int / 10;
    if tenth < 1_000_000_000 {
        1_000_000_000
    } else if tenth > 10_000_000_000 {
        10_000_000_000
    } else {
        tenth
    }
}

/// How long the service may go without a new check point: its hint, but at least
/// one second.
pub open spec fn window_for(hint: Nanos) -> int {
    if hint < 1_000_000_000 {
        1_000_000_000
    } else {
        hint as int
    }
}

/// The pause between two looks at the service.
pub fn poll_interval(wait_hint: Nanos) -> (r: Nanos)
    ensures
        r == pause_for(wait_hint),
{
    let tenth: u128 = wait_hint / 10;
    if tenth < SECOND {
        SECOND
    } else if tenth > 10 * SECOND {
        10 * SECOND
    } else {
        tenth
    }
}

/// How long the service may go without a new check point.
pub fn progress_window(wait_hint: Nanos) -> (r: Nanos)
    ensures
        r == window_for(wait_hint),
{
    if wait_hint < SECOND {
        SECOND
    } else {
        wait_hint
    }
}

/// The part of a restart's time that stopping may take: half of it, if half of it
/// is anything.
pub open spec fn stop_share(timeout: Nanos) -> int {
    if timeout as int / 2 == 0 {
        timeout as int
    } else {
        timeout as int / 2
    }
}

/// The part of a restart's time that starting may take: the rest, but at least one
/// second.
pub open spec fn start_share(timeout: Nanos) -> int {
    let rest = timeout - stop_share(timeout);
    if rest < 1_000_000_000 {
        1_000_000_000
    } else {
        rest
    }
}

/// Shares out the time of a restart between stopping and starting.
pub fn restart_shares(timeout: Nanos) -> (r: (Nanos, Nanos))
    ensures
        r.0 == stop_share(timeout),
        r.1 == start_share(timeout),
{
    let half: u128 = timeout / 2;
    let stop_timeout: u128 = if half == 0 {
        timeout
    } else {
        half
    };
    let rest: u128 = timeout - stop_timeout;
    let start_timeout: u128 = if rest < SECOND {
        SECOND
    } else {
        rest
    };
    (stop_timeout, start_timeout)
}

/// A restart takes no longer than it was given, once it was given two seconds or
/// more.
pub proof fn law_restart_keeps_to_its_time(timeout: Nanos)
    requires
        timeout >= 2_000_000_000,
    ensures
        stop_share(timeout) + start_share(timeout) == timeout,
        stop_share(timeout) > 0,
{
}

/// No two states are taken for each other: each code has a state of its own, the
/// service is stopped at one and runs at four, and it is on its way at two, three,
/// five and six and at no other.
pub proof fn law_states_are_told_apart(a: u32, b: u32)
    ensures
        state_of(a) == state_of(b) ==> a == b,
        state_of(a) == ServiceState::Stopped <==> a == 1,
        state_of(a) == ServiceState::StartPending <==> a == 2,
        state_of(a) == ServiceState::StopPending <==> a == 3,
        state_of(a) == ServiceState::Running <==> a == 4,
        state_of(a) == ServiceState::ContinuePending <==> a == 5,
        state_of(a) == ServiceState::PausePending <==> a == 6,
        state_of(a) == ServiceState::Paused <==> a == 7,
        pending(state_of(a)) <==> a == 2 || a == 3 || a == 5 || a == 6,
{
}

/// States that are said in the same words are the same, or both unknown.
#[verifier::rlimit(30)]
pub proof fn law_states_are_said_apart(a: ServiceState, b: ServiceState)
    ensures
        state_ru(a) == state_ru(b) ==> a == b || (a is Other && b is Other),
        service_phrase_ru(a) == service_phrase_ru(b) ==> a == b || (a is Other && b is Other),
        !(a is Other) ==> service_phrase_ru(a) == "служба печати "@ + state_ru(a),
{
    reveal_strlit("служба печати ");
    reveal_strlit("остановлена");
    reveal_strlit("запускается");
    reveal_strlit("останавливается");
    reveal_strlit("работает");
    reveal_strlit("возобновляется");
    reveal_strlit("приостанавливается");
    reveal_strlit("приостановлена");
    reveal_strlit("неизвестное состояние");
    reveal_strlit("служба печати остановлена");
    reveal_strlit("служба печати запускается");
    reveal_strlit("служба печати останавливается");
    reveal_strlit("служба печати работает");
    reveal_strlit("служба печати возобновляется");
    reveal_strlit("служба печати приостанавливается");
    reveal_strlit("служба печати приостановлена");
    reveal_strlit("служба печати в неизвестном состоянии");
    assert(!(a is Other) ==> service_phrase_ru(a) =~= "служба печати "@ + state_ru(a));
    assert("остановлена"@.len() == 11);
    assert("запускается"@.len() == 11);
    assert("останавливается"@.len() == 15);
    assert("работает"@.len() == 8);
    assert("возобновляется"@.len() == 14);
    assert("приостанавливается"@.len() == 18);
    assert("приостановлена"@.len() == 14);
    assert("неизвестное состояние"@.len() == 21);
    assert("служба печати остановлена"@.len() == 25);
    assert("служба печати запускается"@.len() == 25);
    assert("служба печати останавливается"@.len() == 29);
    assert("служба печати работает"@.len() == 22);
    assert("служба печати возобновляется"@.len() == 28);
    assert("служба печати приостанавливается"@.len() == 32);
    assert("служба печати приостановлена"@.len() == 28);
    assert("служба печати в неизвестном состоянии"@.len() == 37);
    // Where two states have names of one length, the names differ in a letter.
    assert("остановлена"@[0] == 'о' && "запускается"@[0] == 'з');
    assert("возобновляется"@[0] == 'в' && "приостановлена"@[0] == 'п');
    assert("служба печати остановлена"@[14] == 'о' && "служба печати запускается"@[14] == 'з');
    assert("служба печати возобновляется"@[14] == 'в');
    assert("служба печати приостановлена"@[14] == 'п');
}

/// The time of a restart is shared out: half for the stop, where half is anything,
/// and for the start what is left, but one second at least.
pub proof fn law_restart_time_is_halved(timeout: Nanos)
    ensures
        timeout >= 2 ==> stop_share(timeout) <= timeout - stop_share(timeout) <= stop_share(timeout)
            + 1,
        timeout < 2 ==> stop_share(timeout) == timeout,
        start_share(timeout) >= 1_000_000_000,
        start_share(timeout) > 1_000_000_000 ==> stop_share(timeout) + start_share(timeout)
            == timeout,
        stop_share(timeout) + start_share(timeout) >= timeout,
{
}

/// The pause between two looks is a tenth of what the service asks for, but at least
/// one second and at most ten; and it may go without progress for as long as it asks
/// for, but at least one second.
pub proof fn law_waiting_follows_the_hint(hint: Nanos)
    ensures
        10_000_000_000 <= hint <= 100_000_000_000 ==> pause_for(hint) == hint as int / 10,
        hint < 10_000_000_000 ==> pause_for(hint) == 1_000_000_000,
        hint > 100_000_000_000 ==> pause_for(hint) == 10_000_000_000,
        hint >= 1_000_000_000 ==> window_for(hint) == hint,
        hint < 1_000_000_000 ==> window_for(hint) == 1_000_000_000,
{
}

} // verus!
