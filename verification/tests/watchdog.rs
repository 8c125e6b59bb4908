use spoolctl::clock::{Nanos, SECOND};
use spoolctl::queue::PrinterEntry;
use spoolctl::spooler::ServiceState;
use spoolctl::watchdog::{
    fingerprint, hang_key, load_settings, render_settings, Action, HangKind, Settings, Watchdog,
    AUTO_RESTART_COOLDOWN, PENDING_STUCK_AFTER, QUEUE_STUCK_AFTER,
};

fn printer(name: &str, jobs: usize) -> PrinterEntry {
    PrinterEntry {
        name: name.to_owned(),
        jobs,
        network: false,
        ip: None,
        port_hint: None,
    }
}

const NOW: Nanos = 1_000 * SECOND;

fn watching(auto_restart: bool) -> Watchdog {
    Watchdog {
        settings: Settings { watch_enabled: true, auto_restart },
        queue_fp: None,
        queue_unchanged_since: None,
        pending_since: None,
        last_auto_restart: None,
        warned_fp: None,
    }
}

#[test]
fn no_watch_no_action() {
    let mut w = Watchdog::load(None);
    w.settings = Settings::default();
    w.reset_tracking();
    let printers = vec![printer("A", 2)];
    assert!(w.observe(NOW, ServiceState::Running, &printers).is_none());
}

#[test]
fn stuck_queue_warns_once() {
    let mut w = watching(false);
    let printers = vec![printer("A", 1)];
    assert!(w.observe(NOW, ServiceState::Running, &printers).is_none());
    w.queue_unchanged_since = Some(NOW - QUEUE_STUCK_AFTER - SECOND);
    let first = w.observe(NOW, ServiceState::Running, &printers);
    assert!(matches!(
        first,
        Some((HangKind::StuckQueue { jobs: 1 }, Action::Warn))
    ));
    assert!(w.observe(NOW, ServiceState::Running, &printers).is_none());
}

#[test]
fn one_warning_for_one_hang() {
    let mut w = watching(false);
    let printers = vec![printer("A", 1), printer("B", 2)];
    assert!(w.observe(NOW, ServiceState::Running, &printers).is_none());
    let late = NOW + QUEUE_STUCK_AFTER;
    assert!(w.observe(late, ServiceState::Running, &printers).is_some());
    let turned = vec![printer("B", 2), printer("A", 1)];
    for i in 1..20 {
        assert!(w.observe(late + i * SECOND, ServiceState::Running, &turned).is_none());
    }
}

#[test]
fn auto_restart_action() {
    let mut w = Watchdog {
        settings: Settings {
            watch_enabled: true,
            auto_restart: true,
        },
        queue_fp: Some("A:1".into()),
        queue_unchanged_since: Some(NOW - QUEUE_STUCK_AFTER - SECOND),
        pending_since: None,
        last_auto_restart: None,
        warned_fp: None,
    };
    let printers = vec![printer("A", 1)];
    assert!(matches!(
        w.observe(NOW, ServiceState::Running, &printers),
        Some((_, Action::AutoRestart))
    ));
}

#[test]
fn fingerprint_stable() {
    let a = vec![printer("B", 1), printer("A", 2)];
    let b = vec![printer("A", 2), printer("B", 1)];
    assert_eq!(fingerprint(&a), fingerprint(&b));
}

#[test]
fn fingerprint_names_every_printer() {
    assert_eq!(fingerprint(&[printer("B", 10), printer("A", 2)]), "A:2|B:10");
    assert_eq!(fingerprint(&[]), "");
}

#[test]
fn hang_is_noticed_at_its_time_and_not_before() {
    let mut w = watching(false);
    let printers = vec![printer("A", 1)];
    assert_eq!(w.observe(NOW, ServiceState::Running, &printers), None);
    let before = NOW + QUEUE_STUCK_AFTER - 1;
    assert_eq!(w.observe(before, ServiceState::Running, &printers), None);
    let at = NOW + QUEUE_STUCK_AFTER;
    assert_eq!(
        w.observe(at, ServiceState::Running, &printers),
        Some((HangKind::StuckQueue { jobs: 1 }, Action::Warn))
    );
}

#[test]
fn progress_begins_anew() {
    let mut w = watching(false);
    assert_eq!(w.observe(NOW, ServiceState::Running, &[printer("A", 2)]), None);
    let later = NOW + QUEUE_STUCK_AFTER;
    assert_eq!(w.observe(later, ServiceState::Running, &[printer("A", 1)]), None);
    assert_eq!(w.queue_unchanged_since, Some(later));
    assert_eq!(w.observe(later, ServiceState::Running, &[]), None);
    assert_eq!(w.queue_unchanged_since, None);
}

#[test]
fn pending_service_hangs_after_a_minute() {
    let mut w = watching(false);
    let none: [PrinterEntry; 0] = [];
    assert_eq!(w.observe(NOW, ServiceState::StopPending, &none), None);
    assert_eq!(w.pending_since, Some(NOW));
    let later = NOW + PENDING_STUCK_AFTER;
    assert_eq!(
        w.observe(later, ServiceState::StopPending, &none),
        Some((
            HangKind::PendingTooLong { state: ServiceState::StopPending },
            Action::Warn
        ))
    );
    assert_eq!(w.observe(later, ServiceState::StopPending, &none), None);
    assert_eq!(w.observe(later, ServiceState::Running, &none), None);
    assert_eq!(w.pending_since, None);
}

#[test]
fn restarts_keep_their_distance() {
    let mut w = watching(true);
    let printers = vec![printer("A", 1)];
    w.note_restart_done(NOW);
    assert_eq!(w.last_auto_restart, Some(NOW));
    assert_eq!(w.observe(NOW, ServiceState::Running, &printers), None);
    let hung = NOW + QUEUE_STUCK_AFTER;
    assert_eq!(w.observe(hung, ServiceState::Running, &printers), None);
    let cooled = NOW + AUTO_RESTART_COOLDOWN;
    assert_eq!(
        w.observe(cooled, ServiceState::Running, &printers),
        Some((HangKind::StuckQueue { jobs: 1 }, Action::AutoRestart))
    );
}

#[test]
fn hangs_in_words() {
    assert_eq!(
        HangKind::StuckQueue { jobs: 3 }.summary_ru(),
        "Похоже на зависание очереди: 3 заданий без прогресса дольше 90 с."
    );
    assert_eq!(
        HangKind::PendingTooLong { state: ServiceState::StartPending }.summary_ru(),
        "Служба печати слишком долго в состоянии «запускается» (60 с)."
    );
    assert_eq!(
        hang_key(&HangKind::StuckQueue { jobs: 3 }, &[printer("A", 3)]),
        "q:A:3"
    );
    assert_eq!(
        hang_key(&HangKind::PendingTooLong { state: ServiceState::Paused }, &[]),
        "p:приостановлена"
    );
}

#[test]
fn settings_are_read() {
    assert_eq!(load_settings(None), Settings::default());
    let s = load_settings(Some("# x\nwatch = yes\n auto_restart=0\nother=1\nwatch_enabled\n"));
    assert_eq!(s, Settings { watch_enabled: true, auto_restart: false });
    let s = load_settings(Some("watch_enabled=1\r\nwatch_enabled=off\r\n"));
    assert_eq!(s, Settings::default());
    let s = load_settings(Some("auto_restart=on"));
    assert_eq!(s, Settings { watch_enabled: true, auto_restart: true });
}

#[test]
fn settings_are_written_and_read_back() {
    let s = Settings { watch_enabled: true, auto_restart: false };
    let old = "# old\n  notify_print_jobs=1  \nwatch=0\nnonsense\n\nauto_restart=1\nx = y\n";
    let body = render_settings(old, &s);
    assert_eq!(
        body,
        "# SpoolCtl settings\nwatch_enabled=1\nauto_restart=0\nnotify_print_jobs=1\nx = y\n"
    );
    assert_eq!(load_settings(Some(&body)), s);
    assert_eq!(render_settings(&body, &s), body);
    let w = Watchdog::load(Some(&body));
    assert_eq!(w.settings, s);
    assert_eq!(w.save_settings(&body), body);
}

#[test]
fn restarts_bring_watching_with_them() {
    let s = Settings { watch_enabled: false, auto_restart: true };
    let back = load_settings(Some(&render_settings("", &s)));
    assert_eq!(back, Settings { watch_enabled: true, auto_restart: true });
}
