use spoolctl::clock::SECOND;
use spoolctl::spooler::{
    map_open_error, map_scm_error, poll_interval, progress_window, read_status, restart_shares,
    ServiceState, DEFAULT_CONTROL_TIMEOUT,
};
use spoolctl::win32::{
    is_win32, probe_answered, WinError, ERROR_ACCESS_DENIED, ERROR_INSUFFICIENT_BUFFER,
    ERROR_SERVICE_DOES_NOT_EXIST,
};

fn failure(code: i32) -> WinError {
    WinError { code, text: "подробности".to_owned() }
}

#[test]
fn service_state_maps_known_codes() {
    assert_eq!(ServiceState::from_raw(4).as_ru_str(), "работает");
    assert_eq!(ServiceState::from_raw(1).as_ru_str(), "остановлена");
    assert_eq!(
        ServiceState::from_raw(4).as_ru_service_phrase(),
        "служба печати работает"
    );
}

#[test]
fn poll_interval_clamps_to_one_ten_seconds() {
    assert_eq!(poll_interval(0), SECOND);
    assert_eq!(poll_interval(30 * SECOND), 3 * SECOND);
    assert_eq!(poll_interval(200 * SECOND), 10 * SECOND);
}

#[test]
fn every_state_has_words() {
    let words = [
        (1, "остановлена", "служба печати остановлена"),
        (2, "запускается", "служба печати запускается"),
        (3, "останавливается", "служба печати останавливается"),
        (4, "работает", "служба печати работает"),
        (5, "возобновляется", "служба печати возобновляется"),
        (6, "приостанавливается", "служба печати приостанавливается"),
        (7, "приостановлена", "служба печати приостановлена"),
        (99, "неизвестное состояние", "служба печати в неизвестном состоянии"),
    ];
    for (code, state, phrase) in words {
        assert_eq!(ServiceState::from_raw(code).as_ru_str(), state);
        assert_eq!(ServiceState::from_raw(code).as_ru_service_phrase(), phrase);
        assert_eq!(
            ServiceState::from_raw(code).is_pending(),
            matches!(code, 2 | 3 | 5 | 6)
        );
    }
    assert_eq!(ServiceState::from_raw(99), ServiceState::Other(99));
}

#[test]
fn status_is_read_field_by_field() {
    let s = read_status(3, 11, 12, 13, 1500);
    assert_eq!(s.state, ServiceState::StopPending);
    assert_eq!(s.win32_exit_code, 11);
    assert_eq!(s.service_exit_code, 12);
    assert_eq!(s.check_point, 13);
    assert_eq!(s.wait_hint, 1_500_000_000);
}

#[test]
fn progress_window_is_at_least_a_second() {
    assert_eq!(progress_window(0), SECOND);
    assert_eq!(progress_window(7 * SECOND), 7 * SECOND);
}

#[test]
fn restart_shares_out_its_time() {
    assert_eq!(restart_shares(DEFAULT_CONTROL_TIMEOUT), (30 * SECOND, 30 * SECOND));
    assert_eq!(restart_shares(3 * SECOND), (3 * SECOND / 2, 3 * SECOND / 2));
    assert_eq!(restart_shares(1), (1, SECOND));
    assert_eq!(restart_shares(0), (0, SECOND));
}

#[test]
fn failures_in_words() {
    assert_eq!(
        map_scm_error("Не удалось", &failure(5)),
        "Не удалось: отказано в доступе. Запустите от имени администратора."
    );
    assert_eq!(map_scm_error("Не удалось", &failure(6)), "Не удалось: подробности");
    assert_eq!(
        map_open_error(&failure(1060)),
        "Служба печати Spooler не найдена на этой системе."
    );
    assert_eq!(
        map_open_error(&failure(7)),
        "Не удалось открыть службу Spooler: подробности"
    );
}

#[test]
fn win32_codes_become_results() {
    assert!(is_win32(-2147024891, ERROR_ACCESS_DENIED));
    assert!(is_win32(-2147024774, ERROR_INSUFFICIENT_BUFFER));
    assert!(is_win32(-2147023836, ERROR_SERVICE_DOES_NOT_EXIST));
    assert!(!is_win32(5, ERROR_ACCESS_DENIED));
    assert!(is_win32(0, 0));
    assert!(is_win32(-2147467259, 0x8000_4005));
}

#[test]
fn probes_are_answered_for_want_of_a_buffer() {
    assert!(probe_answered(None));
    assert!(probe_answered(Some(-2147024774)));
    assert!(!probe_answered(Some(-2147024891)));
}
