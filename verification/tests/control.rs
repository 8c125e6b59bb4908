use spoolctl::clock::{Nanos, SECOND};
use spoolctl::control::{
    query_spooler_status, restart_spooler, start_spooler, stop_spooler, Act, Control, Event,
    SERVICE_QUERY_STATUS, SERVICE_START_QUERY, SERVICE_STOP_QUERY,
};
use spoolctl::host::Host;
use spoolctl::queue::{clear_queue, clear_queue_on, fix_queue, fix_queue_on, ClearReport};
use spoolctl::spooler::{read_status, ServiceState, SpoolerStatus};
use spoolctl::win32::WinError;

const STOPPED: u32 = 1;
const START_PENDING: u32 = 2;
const STOP_PENDING: u32 = 3;
const RUNNING: u32 = 4;
const PAUSED: u32 = 7;

fn status(state: u32, check_point: u32) -> SpoolerStatus {
    read_status(state, 0, 0, check_point, 0)
}

fn seen(state: u32) -> Event {
    Event::Status(status(state, 0))
}

fn report() -> ClearReport {
    ClearReport {
        directory: "dir".to_owned(),
        deleted: 1,
        deleted_names: vec!["a".to_owned()],
        failed: vec![],
    }
}

fn step(c: &mut Control, now: Nanos, e: Event) -> Act {
    assert!(c.awaits(&e));
    c.step(now, e)
}

fn opened(c: &mut Control, access: u32) {
    assert_eq!(step(c, 0, Event::Ready), Act::OpenService(access));
    assert_eq!(step(c, 0, Event::Ready), Act::Query);
}

#[test]
fn query_reads_the_status_once() {
    let (mut c, act) = query_spooler_status("этот ПК");
    assert_eq!(act, Act::OpenManager);
    opened(&mut c, SERVICE_QUERY_STATUS);
    assert_eq!(step(&mut c, 0, seen(PAUSED)), Act::Done(status(PAUSED, 0)));
    assert!(!c.awaits(&Event::Ready));
}

#[test]
fn spooler_status_query_runs_on_this_machine() {
    for code in [RUNNING, STOPPED, START_PENDING, STOP_PENDING, PAUSED, 9] {
        let (mut c, _) = query_spooler_status("этот ПК");
        opened(&mut c, SERVICE_QUERY_STATUS);
        let Act::Done(status) = step(&mut c, 0, seen(code)) else {
            panic!("Spooler should exist on a desktop Windows");
        };
        assert!(matches!(
            status.state,
            ServiceState::Running
                | ServiceState::Stopped
                | ServiceState::StartPending
                | ServiceState::StopPending
                | ServiceState::Paused
                | ServiceState::Other(_)
        ));
    }
}

#[test]
fn stop_of_a_stopped_service_does_nothing() {
    let (mut c, _) = stop_spooler("x", 60 * SECOND);
    opened(&mut c, SERVICE_STOP_QUERY);
    assert_eq!(step(&mut c, 0, seen(STOPPED)), Act::Done(status(STOPPED, 0)));
}

#[test]
fn stop_waits_until_the_service_is_stopped() {
    let (mut c, _) = stop_spooler("x", 60 * SECOND);
    opened(&mut c, SERVICE_STOP_QUERY);
    assert_eq!(step(&mut c, 0, seen(RUNNING)), Act::SendStop);
    assert_eq!(step(&mut c, SECOND, Event::Ready), Act::Query);
    assert_eq!(step(&mut c, SECOND, seen(STOP_PENDING)), Act::Sleep(SECOND));
    assert_eq!(step(&mut c, 2 * SECOND, Event::Ready), Act::Query);
    assert_eq!(
        step(&mut c, 2 * SECOND, seen(STOPPED)),
        Act::Done(status(STOPPED, 0))
    );
}

#[test]
fn stop_gives_up_without_progress() {
    let (mut c, _) = stop_spooler("x", 60 * SECOND);
    opened(&mut c, SERVICE_STOP_QUERY);
    step(&mut c, 0, seen(RUNNING));
    step(&mut c, 0, Event::Ready);
    assert_eq!(step(&mut c, 0, seen(STOP_PENDING)), Act::Sleep(SECOND));
    step(&mut c, SECOND, Event::Ready);
    assert_eq!(
        step(&mut c, SECOND, seen(STOP_PENDING)),
        Act::Failed(
            "Spooler не продвигается к состоянию «остановлена» (сейчас: «останавливается»)."
                .to_owned()
        )
    );
}

#[test]
fn a_new_check_point_is_progress() {
    let (mut c, _) = stop_spooler("x", 60 * SECOND);
    opened(&mut c, SERVICE_STOP_QUERY);
    step(&mut c, 0, seen(RUNNING));
    step(&mut c, 0, Event::Ready);
    step(&mut c, 0, seen(STOP_PENDING));
    step(&mut c, 5 * SECOND, Event::Ready);
    assert_eq!(
        step(&mut c, 5 * SECOND, Event::Status(status(STOP_PENDING, 1))),
        Act::Sleep(SECOND)
    );
}

#[test]
fn stop_gives_up_when_its_time_is_over() {
    let (mut c, _) = stop_spooler("x", 2 * SECOND);
    opened(&mut c, SERVICE_STOP_QUERY);
    step(&mut c, 0, seen(RUNNING));
    step(&mut c, 0, Event::Ready);
    step(&mut c, 0, seen(STOP_PENDING));
    step(&mut c, 2 * SECOND, Event::Ready);
    assert_eq!(
        step(&mut c, 2 * SECOND, Event::Status(status(STOP_PENDING, 1))),
        Act::Failed(
            "Таймаут ожидания состояния «остановлена» (сейчас: «останавливается»).".to_owned()
        )
    );
}

#[test]
fn start_from_each_state() {
    let (mut c, _) = start_spooler("x", 60 * SECOND);
    opened(&mut c, SERVICE_START_QUERY);
    assert_eq!(step(&mut c, 0, seen(RUNNING)), Act::Done(status(RUNNING, 0)));

    let (mut c, _) = start_spooler("x", 60 * SECOND);
    opened(&mut c, SERVICE_START_QUERY);
    assert_eq!(step(&mut c, 0, seen(PAUSED)), Act::SendStart);

    let (mut c, _) = start_spooler("x", 60 * SECOND);
    opened(&mut c, SERVICE_START_QUERY);
    assert_eq!(step(&mut c, 0, seen(START_PENDING)), Act::Query);
    assert_eq!(step(&mut c, 0, seen(RUNNING)), Act::Done(status(RUNNING, 0)));

    let (mut c, _) = start_spooler("x", 60 * SECOND);
    opened(&mut c, SERVICE_START_QUERY);
    assert_eq!(
        step(&mut c, 0, seen(STOP_PENDING)),
        Act::Failed("Нельзя запустить Spooler из состояния «останавливается».".to_owned())
    );
}

#[test]
fn restart_stops_and_then_starts() {
    let (mut c, _) = restart_spooler("x", 60 * SECOND);
    opened(&mut c, SERVICE_STOP_QUERY);
    assert_eq!(step(&mut c, 0, seen(RUNNING)), Act::SendStop);
    step(&mut c, 0, Event::Ready);
    assert_eq!(step(&mut c, 0, seen(STOPPED)), Act::OpenManager);
    opened(&mut c, SERVICE_START_QUERY);
    assert_eq!(step(&mut c, 0, seen(STOPPED)), Act::SendStart);
    step(&mut c, 0, Event::Ready);
    assert_eq!(step(&mut c, 0, seen(RUNNING)), Act::Done(status(RUNNING, 0)));
}

#[test]
fn clearing_leaves_the_service_stopped() {
    let (mut c, _) = clear_queue(60 * SECOND);
    opened(&mut c, SERVICE_STOP_QUERY);
    assert_eq!(step(&mut c, 0, seen(STOPPED)), Act::ClearQueue);
    assert!(!c.awaits(&seen(STOPPED)));
    assert_eq!(step(&mut c, 0, Event::Cleared(report())), Act::OpenManager);
    opened(&mut c, SERVICE_QUERY_STATUS);
    assert_eq!(step(&mut c, 0, seen(STOPPED)), Act::Done(status(STOPPED, 0)));
    assert_eq!(c.into_report(), Some(report()));
}

#[test]
fn fixing_starts_the_service_again() {
    let (mut c, _) = fix_queue(60 * SECOND);
    opened(&mut c, SERVICE_STOP_QUERY);
    assert_eq!(step(&mut c, 0, seen(STOPPED)), Act::ClearQueue);
    assert_eq!(step(&mut c, 0, Event::Cleared(report())), Act::OpenManager);
    opened(&mut c, SERVICE_QUERY_STATUS);
    assert_eq!(step(&mut c, 0, seen(STOPPED)), Act::OpenManager);
    opened(&mut c, SERVICE_START_QUERY);
    assert_eq!(step(&mut c, 0, seen(STOPPED)), Act::SendStart);
    step(&mut c, 0, Event::Ready);
    assert_eq!(step(&mut c, 0, seen(RUNNING)), Act::Done(status(RUNNING, 0)));
    assert_eq!(c.into_report(), Some(report()));
}

#[test]
fn clearing_that_fails_ends_the_work() {
    let (mut c, act) = clear_queue_on(&Host::parse("PC01").unwrap(), 60 * SECOND);
    assert_eq!(act, Act::OpenManager);
    opened(&mut c, SERVICE_STOP_QUERY);
    step(&mut c, 0, seen(STOPPED));
    assert_eq!(
        step(&mut c, 0, Event::ClearFailed("нет папки".to_owned())),
        Act::Failed("нет папки".to_owned())
    );
    assert_eq!(c.into_report(), None);
}

#[test]
fn failed_calls_end_the_work() {
    let error = || Event::Failed(WinError { code: 9, text: "сбой".to_owned() });

    let (mut c, _) = fix_queue_on(&Host::local(), 60 * SECOND);
    assert_eq!(
        step(&mut c, 0, error()),
        Act::Failed("Не удалось открыть Service Control Manager: сбой".to_owned())
    );

    let (mut c, _) = stop_spooler("x", 60 * SECOND);
    step(&mut c, 0, Event::Ready);
    assert_eq!(
        step(&mut c, 0, error()),
        Act::Failed("Не удалось открыть службу Spooler: сбой".to_owned())
    );

    let (mut c, _) = stop_spooler("x", 60 * SECOND);
    opened(&mut c, SERVICE_STOP_QUERY);
    assert_eq!(
        step(&mut c, 0, error()),
        Act::Failed("Не удалось прочитать статус Spooler: сбой".to_owned())
    );

    let (mut c, _) = stop_spooler("x", 60 * SECOND);
    opened(&mut c, SERVICE_STOP_QUERY);
    step(&mut c, 0, seen(RUNNING));
    assert_eq!(
        step(&mut c, 0, error()),
        Act::Failed("Не удалось остановить Spooler: сбой".to_owned())
    );

    let (mut c, _) = start_spooler("x", 60 * SECOND);
    opened(&mut c, SERVICE_START_QUERY);
    step(&mut c, 0, seen(STOPPED));
    assert_eq!(
        step(&mut c, 0, error()),
        Act::Failed("Не удалось запустить Spooler: сбой".to_owned())
    );
}
