use spoolctl::clock::{Nanos, SECOND};
use spoolctl::control::Goal;
use spoolctl::gui::{
    confirm_text, done_message, format_status, jobs_phrase_ui, rights_ru, service_tiles,
    typewriter_prefix, util_buttons, window_title, ActionClick, Confirm, Effect, Effects, Idle,
    Job, JobEvent, Place, SpoolCtlApp, TileFill, AUTO_STATUS_REFRESH, JOB_POLL,
};
use spoolctl::log::Level;
use spoolctl::ncd::{query_status, NcdStatus};
use spoolctl::print_notify::Turn;
use spoolctl::queue::{ClearReport, PrinterEntry, QueueSnapshot};
use spoolctl::spooler::{read_status, ServiceState, SpoolerStatus};
use spoolctl::theme::Role;
use spoolctl::tray::TrayCmd;
use spoolctl::watchdog::{QUEUE_STUCK_AFTER, Settings};

const NOW: Nanos = 1_000 * SECOND;

fn unknown_ncd() -> NcdStatus {
    query_status(None, None, Err(String::new()), Err(String::new()))
}

fn app(elevated: bool) -> SpoolCtlApp {
    let (mut a, _) =
        SpoolCtlApp::new(elevated, None, &unknown_ncd(), false, false, false, NOW);
    a.has_tray = true;
    a
}

fn snap(jobs: usize) -> QueueSnapshot {
    QueueSnapshot {
        jobs: Some(jobs),
        files: None,
        files_note: None,
        printers: vec![PrinterEntry {
            name: "HP".to_owned(),
            jobs,
            network: false,
            ip: None,
            port_hint: None,
        }],
    }
}

fn status(code: u32) -> SpoolerStatus {
    read_status(code, 0, 0, 0, 0)
}

fn log(level: Level, s: &str) -> Effect {
    Effect::Log(level, s.to_owned())
}

fn remote(a: &mut SpoolCtlApp) {
    a.host_input = "PC01".to_owned();
    a.sync_host_from_input().unwrap();
}

#[test]
fn a_new_window() {
    let (a, fx) = SpoolCtlApp::new(
        false,
        Some("auto_restart=1\nnotify_print=1\n"),
        &unknown_ncd(),
        true,
        true,
        true,
        NOW,
    );
    assert_eq!(
        fx.list,
        vec![
            log(Level::Info, "GUI готов (права: обычный пользователь)"),
            Effect::Notify(Turn::Start),
            Effect::InstallTray,
        ]
    );
    assert_eq!(a.watchdog.settings, Settings { watch_enabled: true, auto_restart: true });
    assert!(a.autostart_enabled);
    assert!(a.start_in_tray);
    assert!(!a.force_show_window);
    assert!(!a.has_tray);
    assert_eq!(a.message, "Нажмите «Обновить» или выполните действие.");
    assert_eq!(rights_ru(true), "администратор");
    assert_eq!(window_title(true), "SpoolCtl 0.2.0 (администратор)");
    assert_eq!(window_title(false), "SpoolCtl 0.2.0");
}

#[test]
fn the_tray_icon_is_there_or_not() {
    let (mut a, _) = SpoolCtlApp::new(
        true,
        Some("auto_restart=1\nnotify_print=1\n"),
        &unknown_ncd(),
        false,
        false,
        false,
        NOW,
    );
    let mut fx = Effects::none();
    a.tray_installed(Ok(()), &mut fx);
    assert!(a.has_tray);
    assert_eq!(
        fx.list,
        vec![
            log(
                Level::Info,
                "Иконка в трее: окно можно закрыть — сторож продолжит работу"
            ),
            log(Level::Info, "Сторож зависания: включён"),
            log(Level::Info, "Сторож зависания: автоперезапуск включён"),
            log(Level::Info, "Уведомления о печати: включены"),
            Effect::RefreshLog,
            Effect::QueryStatus,
        ]
    );
    let (mut b, _) = SpoolCtlApp::new(true, None, &unknown_ncd(), false, false, false, NOW);
    let mut fx = Effects::none();
    b.tray_installed(Err("нет".to_owned()), &mut fx);
    assert!(!b.has_tray);
    assert!(b.message_is_error);
    assert_eq!(b.message, "Трей недоступен: нет");
    assert_eq!(fx.list[0], log(Level::Warn, "Трей недоступен: нет"));
}

#[test]
fn status_and_queue_are_shown() {
    let mut a = app(true);
    a.apply_status_query_local(Ok(status(1)), snap(2));
    assert_eq!(a.status_line, "служба печати остановлена — этот ПК");
    assert!(a.prompt_start);
    assert_eq!(a.last_service_state, Some(ServiceState::Stopped));
    assert_eq!(a.queue_line, "Очередь: заданий 2");
    assert_eq!(a.message, "Статус обновлён (этот ПК).");
    a.apply_status_query_local(Err("сбой".to_owned()), snap(3));
    assert_eq!(a.status_line, "служба печати недоступна — этот ПК");
    assert_eq!(a.queue_line, "Очередь: заданий 2");
    assert!(a.message_is_error);
    assert_eq!(format_status(&status(4)), "служба печати работает");
    assert_eq!(jobs_phrase_ui(3), "3 задания");
}

#[test]
fn one_job_at_a_time() {
    let mut a = app(true);
    let mut fx = Effects::none();
    a.start_job(Job::Stop, &mut fx);
    assert!(a.busy && a.waiting);
    assert_eq!(a.message, "Остановка Spooler (этот ПК)…");
    assert_eq!(
        fx.list,
        vec![
            log(Level::Info, "Остановка Spooler (этот ПК): начало"),
            Effect::StartJob(Job::Stop)
        ]
    );
    let mut fx = Effects::none();
    a.start_job(Job::Start, &mut fx);
    assert_eq!(
        fx.list,
        vec![log(
            Level::Warn,
            "Повторный запуск операции проигнорирован: уже выполняется"
        )]
    );
    assert_eq!(a.message, "Остановка Spooler (этот ПК)…");
}

#[test]
fn jobs_need_a_proper_target() {
    let mut a = app(true);
    a.host_input = "a/b".to_owned();
    let mut fx = Effects::none();
    a.start_job(Job::Refresh, &mut fx);
    assert!(!a.busy);
    assert!(a.message_is_error);
    assert!(fx.list.is_empty());
}

#[test]
fn goals_and_labels_of_jobs() {
    let all = [
        (Job::Refresh, Goal::Query, "Обновление", "Обновление выполнено."),
        (Job::Stop, Goal::Stop, "Остановка", "Остановка выполнена."),
        (Job::Start, Goal::Start, "Запуск", "Запуск выполнен."),
        (Job::Restart, Goal::Restart, "Перезапуск", "Перезапуск выполнен."),
        (Job::ClearOnly, Goal::Clear, "Очистка очереди", "Очистка очереди выполнена."),
        (
            Job::FixClear,
            Goal::Fix,
            "Очистка и перезапуск",
            "Очистка и перезапуск выполнена.",
        ),
    ];
    for (job, goal, label, done) in all {
        assert_eq!(job.goal(), goal);
        assert_eq!(job.label(), label);
        assert_eq!(done_message(label), done);
    }
}

#[test]
fn a_job_that_is_done() {
    let mut a = app(true);
    let mut fx = Effects::none();
    a.start_job(Job::Restart, &mut fx);
    let mut fx = Effects::none();
    a.poll_job(
        NOW + SECOND,
        JobEvent::Done { job: Job::Restart, status: status(4), report: None, snap: snap(0) },
        &mut fx,
    );
    assert!(!a.busy && !a.waiting);
    assert_eq!(a.message, "Перезапуск выполнен.");
    assert_eq!(a.watchdog.last_auto_restart, Some(NOW + SECOND));
    assert_eq!(a.last_auto_status, NOW + SECOND);
    assert_eq!(
        fx.list,
        vec![
            log(Level::Info, "Перезапуск: ок («работает»)"),
            Effect::Tooltip(
                "SpoolCtl 0.2.0\nСторож работает, пока иконка в трее".to_owned()
            ),
            Effect::RefreshLog,
        ]
    );
}

#[test]
fn a_queue_that_was_cleared() {
    let mut a = app(true);
    a.start_job(Job::ClearOnly, &mut Effects::none());
    let report = ClearReport {
        directory: "d".to_owned(),
        deleted: 1,
        deleted_names: vec!["a".to_owned()],
        failed: vec!["b: e".to_owned()],
    };
    let mut fx = Effects::none();
    a.poll_job(
        NOW,
        JobEvent::Done {
            job: Job::ClearOnly,
            status: status(1),
            report: Some(report),
            snap: snap(0),
        },
        &mut fx,
    );
    assert_eq!(
        a.message,
        "Очистка очереди: Удалено: 1, ошибок: 1 (b: e). Файлы: a Служба оставлена остановленной — нажмите «Запустить службу»."
    );
    assert!(a.message_is_error);
    assert!(a.prompt_start);
    assert_eq!(
        fx.list[0],
        log(
            Level::Warn,
            "Очистка очереди: Удалено: 1, ошибок: 1 (b: e). Файлы: a; «остановлена»"
        )
    );
}

#[test]
fn jobs_end_however_they_go() {
    for event in [
        JobEvent::Failed { job: Job::Stop, error: "сбой".to_owned() },
        JobEvent::Lost,
    ] {
        let mut a = app(true);
        a.start_job(Job::Stop, &mut Effects::none());
        a.poll_job(NOW, event, &mut Effects::none());
        assert!(!a.busy && !a.waiting);
        assert!(a.message_is_error);
    }
    let mut a = app(true);
    a.start_job(Job::Stop, &mut Effects::none());
    let mut fx = Effects::none();
    a.poll_job(NOW, JobEvent::Pending, &mut fx);
    assert!(a.busy);
    assert_eq!(fx.list, vec![Effect::RepaintAfter(JOB_POLL)]);
    let mut b = app(true);
    let mut fx = Effects::none();
    b.poll_job(NOW, JobEvent::Lost, &mut fx);
    assert!(fx.list.is_empty());
}

#[test]
fn a_target_is_named() {
    let mut a = app(true);
    a.host_input = "PC01".to_owned();
    let mut fx = Effects::none();
    a.apply_host_input(&mut fx);
    assert_eq!(
        fx.list,
        vec![
            log(Level::Info, "Цель: PC01"),
            log(Level::Info, "Обновление статуса (PC01): начало"),
            Effect::StartJob(Job::Refresh),
        ]
    );
    a.host_input = String::new();
    let mut fx = Effects::none();
    a.apply_host_input(&mut fx);
    assert_eq!(
        fx.list,
        vec![
            log(Level::Info, "Цель: этот ПК"),
            Effect::QueryStatus,
            Effect::RefreshLog
        ]
    );
    a.host_input = "a|b".to_owned();
    a.apply_host_input(&mut Effects::none());
    assert!(a.message_is_error);
}

fn hung(elevated: bool, auto_restart: bool) -> (SpoolCtlApp, Effects) {
    let mut a = app(elevated);
    a.watchdog.settings = Settings { watch_enabled: true, auto_restart };
    a.apply_status_query_local(Ok(status(4)), snap(1));
    let mut fx = Effects::none();
    a.run_watchdog_tick(NOW, &mut fx);
    assert!(fx.list.is_empty());
    a.window_in_tray = true;
    a.run_watchdog_tick(NOW + QUEUE_STUCK_AFTER, &mut fx);
    (a, fx)
}

#[test]
fn a_hang_is_warned_of() {
    let (a, fx) = hung(false, false);
    let summary = "Похоже на зависание очереди: 1 заданий без прогресса дольше 90 с.";
    assert_eq!(
        fx.list,
        vec![
            log(Level::Warn, summary),
            Effect::Tooltip(format!("SpoolCtl: {summary}")),
            Effect::ShowWindow,
            Effect::RefreshLog,
        ]
    );
    assert!(!a.window_in_tray);
    assert!(a.message_is_error);
}

#[test]
fn a_restart_needs_rights() {
    let (a, fx) = hung(false, true);
    assert!(!a.busy);
    assert!(a.message.ends_with("Автоперезапуск нужен от имени администратора."));
    assert!(!fx.list.contains(&Effect::StartJob(Job::Restart)));
}

#[test]
fn a_hang_is_restarted_where_agreed() {
    let (a, fx) = hung(true, true);
    assert!(a.busy);
    assert!(a.host.is_local());
    assert_eq!(fx.list.last(), Some(&Effect::StartJob(Job::Restart)));
    assert_eq!(a.watchdog.last_auto_restart, Some(NOW + QUEUE_STUCK_AFTER));
}

#[test]
fn the_watchdog_waits_for_answers() {
    let mut a = app(true);
    a.watchdog.settings = Settings { watch_enabled: true, auto_restart: true };
    a.apply_status_query_local(Ok(status(4)), snap(1));
    a.confirm = Some(Confirm::DisableNcd);
    let mut fx = Effects::none();
    a.run_watchdog_tick(NOW, &mut fx);
    a.run_watchdog_tick(NOW + QUEUE_STUCK_AFTER, &mut fx);
    assert!(fx.list.is_empty());
}

#[test]
fn another_computer_is_left_alone() {
    let mut a = app(true);
    remote(&mut a);
    assert!(!a.polls_quietly());
    let before = a.status_line.clone();
    let mut fx = Effects::none();
    a.look_around(NOW + SECOND, Ok(status(4)), snap(1), &["HP".to_owned()], &mut fx);
    assert!(fx.list.is_empty());
    assert_eq!(a.status_line, before);
    assert_eq!(a.last_auto_status, NOW + SECOND);
    a.quiet_status_refresh(NOW + 2 * SECOND, Ok(status(4)), snap(1));
    assert_eq!(a.status_line, before);
    assert!(a.printers.is_empty());
    assert_eq!(a.last_auto_status, NOW + 2 * SECOND);
}

#[test]
fn this_computer_is_looked_at() {
    let mut a = app(true);
    assert!(a.polls_quietly());
    let message = a.message.clone();
    a.quiet_status_refresh(NOW, Err("сбой".to_owned()), snap(1));
    assert_eq!(a.queue_line, "Очередь: заданий 1");
    a.quiet_status_refresh(NOW, Ok(status(4)), snap(2));
    assert_eq!(a.status_line, "служба печати работает — этот ПК");
    assert_eq!(a.queue_line, "Очередь: заданий 2");
    assert_eq!(a.message, message);
    assert!(!a.message_is_error);
}

#[test]
fn a_hang_does_not_get_into_a_quiet_look() {
    let mut a = app(false);
    a.watchdog.settings = Settings { watch_enabled: true, auto_restart: false };
    let mut fx = Effects::none();
    a.look_around(NOW, Ok(status(4)), snap(1), &[], &mut fx);
    assert!(fx.list.is_empty());
    let message = a.message.clone();
    a.quiet_status_refresh(NOW + QUEUE_STUCK_AFTER, Ok(status(4)), snap(1));
    assert_eq!(a.message, message);
    a.look_around(NOW + QUEUE_STUCK_AFTER, Ok(status(4)), snap(1), &[], &mut fx);
    assert!(a.message_is_error);
    assert_eq!(fx.list.last(), Some(&Effect::RefreshLog));
}

#[test]
fn news_come_after_the_look() {
    let mut a = app(true);
    let mut fx = Effects::none();
    a.look_around(NOW, Ok(status(4)), snap(0), &["HP".to_owned()], &mut fx);
    assert_eq!(a.status_line, "служба печати работает — этот ПК");
    assert_eq!(a.message, "На принтер «HP» отправлено на печать.");
    assert_eq!(
        fx.list,
        vec![
            Effect::Tooltip("SpoolCtl: На принтер «HP» отправлено на печать.".to_owned()),
            Effect::RefreshLog
        ]
    );
}

#[test]
fn more_rights_are_asked_for() {
    let mut a = app(false);
    let mut fx = Effects::none();
    a.request_admin_relaunch(Some((-5, 7)), &mut fx);
    assert!(!a.has_tray);
    assert_eq!(
        fx.list,
        vec![
            log(Level::Info, "Запрос запуска от имени администратора"),
            log(Level::Info, "UAC relaunch: сохраняем позицию окна (-5,7)"),
            Effect::DropTray,
            Effect::ReleaseSlot,
            Effect::Relaunch(Some((-5, 7))),
        ]
    );
    let mut fx = Effects::none();
    a.relaunch_answered(Ok(()), &mut fx);
    assert_eq!(fx.list.last(), Some(&Effect::Exit));
    let mut fx = Effects::none();
    a.relaunch_answered(Err("отмена".to_owned()), &mut fx);
    assert_eq!(
        fx.list,
        vec![
            log(Level::Error, "отмена"),
            Effect::AcquireSlot,
            Effect::InstallTray
        ]
    );
    a.tray_reinstalled(Ok(()), &mut fx);
    assert!(a.has_tray);
    let mut fx = Effects::none();
    a.tray_reinstalled(Err("e".to_owned()), &mut fx);
    assert_eq!(
        fx.list,
        vec![
            log(Level::Warn, "Трей после отмены UAC: e"),
            Effect::RefreshLog
        ]
    );
}

#[test]
fn the_tip_is_typed_out() {
    assert_eq!(typewriter_prefix("абв", 0), "");
    assert_eq!(typewriter_prefix("абв", 2), "аб");
    assert_eq!(typewriter_prefix("абв", 9), "абв");
    let mut a = app(false);
    assert_eq!(a.hover_admin(true, NOW), Some(NOW));
    assert_eq!(a.hover_admin(true, NOW + SECOND), Some(NOW));
    assert_eq!(a.hover_admin(false, NOW), None);
}

#[test]
fn watching_is_switched() {
    let mut a = app(true);
    a.watchdog.settings = Settings { watch_enabled: true, auto_restart: true };
    a.watchdog.warned_fp = Some("x".to_owned());
    let mut fx = Effects::none();
    a.set_watch(false, &mut fx);
    assert_eq!(a.watchdog.settings, Settings::default());
    assert_eq!(a.watchdog.warned_fp, None);
    assert_eq!(
        fx.list,
        vec![
            Effect::SaveWatchdog,
            log(Level::Info, "Сторож зависания: слежение выкл"),
            Effect::RefreshLog
        ]
    );
    assert!(a.watch_caption().is_none());
    a.set_watch(true, &mut fx);
    assert!(a.watchdog.settings.watch_enabled);
    assert_eq!(
        a.watch_caption().unwrap().text,
        "Только предупреждение — перезапуск вручную."
    );
}

#[test]
fn restarts_need_a_yes() {
    let mut a = app(true);
    let mut fx = Effects::none();
    a.set_auto_restart(true, &mut fx);
    assert!(!a.watchdog.settings.auto_restart);
    assert_eq!(a.confirm, Some(Confirm::EnableAutoRestart));
    assert!(fx.list.is_empty());
    a.answer_yes(&mut fx);
    assert_eq!(a.confirm, None);
    assert_eq!(a.watchdog.settings, Settings { watch_enabled: true, auto_restart: true });
    assert_eq!(fx.list[0], Effect::SaveWatchdog);
    assert_eq!(a.watch_caption().unwrap().role, Role::Error);
    a.set_auto_restart(false, &mut fx);
    assert!(!a.watchdog.settings.auto_restart);
    assert_eq!(a.message, "Автоперезапуск выключен.");
}

#[test]
fn the_start_with_windows_is_switched() {
    let mut a = app(true);
    let mut fx = Effects::none();
    a.set_autostart(true, &mut fx);
    assert_eq!(a.confirm, Some(Confirm::EnableAutostart));
    a.answer_yes(&mut fx);
    assert_eq!(fx.list, vec![Effect::EnableAutostart]);
    a.autostart_enabled(Ok(()), &mut fx);
    assert!(a.autostart_enabled);
    assert_eq!(a.autostart_caption().unwrap().role, Role::Good);
    let mut fx = Effects::none();
    a.set_autostart(false, &mut fx);
    assert_eq!(fx.list, vec![Effect::DisableAutostart]);
    a.autostart_disabled(Err("нет".to_owned()), true, &mut fx);
    assert!(a.autostart_enabled);
    assert!(a.message_is_error);
    a.autostart_disabled(Ok(()), true, &mut fx);
    assert!(!a.autostart_enabled);
    assert!(a.autostart_caption().is_none());
    a.autostart_enabled(Err("нет".to_owned()), &mut fx);
    assert!(!a.autostart_enabled);
    assert!(app(false).autostart_caption().is_some());
}

#[test]
fn messages_about_prints_are_switched() {
    let mut a = app(true);
    let mut fx = Effects::none();
    a.set_notify(true, &mut fx);
    assert_eq!(
        fx.list,
        vec![
            Effect::Notify(Turn::Save),
            Effect::Notify(Turn::Start),
            log(Level::Info, "Уведомления о печати: вкл"),
            Effect::RefreshLog
        ]
    );
    assert!(a.notify_caption().is_some());
    let mut fx = Effects::none();
    a.set_notify(false, &mut fx);
    assert_eq!(fx.list[1], Effect::Notify(Turn::Stop));
    assert_eq!(a.message, "Уведомления о печати выключены.");
    assert!(a.notify_caption().is_none());
}

#[test]
fn the_window_goes_to_the_tray_and_back() {
    let mut a = app(true);
    let mut fx = Effects::none();
    a.poll_tray(&vec![TrayCmd::Hide, TrayCmd::Show], &mut fx);
    assert!(!a.window_in_tray);
    assert_eq!(fx.list[0], Effect::HideWindow);
    assert!(matches!(fx.list[2], Effect::Balloon(_, _)));
    assert_eq!(fx.list.last(), Some(&Effect::Repaint));
    let mut fx = Effects::none();
    a.poll_tray(&vec![TrayCmd::Quit], &mut fx);
    assert!(a.allow_exit);
    assert_eq!(
        fx.list,
        vec![
            log(Level::Info, "Выход из трея"),
            Effect::ShowWindow,
            Effect::CloseWindow
        ]
    );
    let mut b = app(true);
    b.has_tray = false;
    let mut fx = Effects::none();
    b.poll_tray(&vec![TrayCmd::Quit], &mut fx);
    assert!(fx.list.is_empty());
    assert!(b.tray_caption().is_none());
    b.hide_to_tray(&mut fx);
    assert_eq!(fx.list.len(), 3);
}

#[test]
fn the_first_frame() {
    let mut a = app(true);
    a.start_in_tray = true;
    let mut fx = Effects::none();
    a.first_frame(&mut fx);
    assert!(a.window_in_tray && !a.start_in_tray);
    assert_eq!(fx.list[0], log(Level::Info, "Старт в трее (--tray)"));
    let mut b = app(true);
    b.force_show_window = true;
    let mut fx = Effects::none();
    b.first_frame(&mut fx);
    assert_eq!(
        fx.list,
        vec![
            Effect::ShowWindow,
            Effect::FocusWindow,
            log(Level::Info, "Окно показано после запуска от администратора")
        ]
    );
    let mut fx = Effects::none();
    b.first_frame(&mut fx);
    assert!(fx.list.is_empty());
}

#[test]
fn closing_is_asked_about() {
    let mut a = app(true);
    let mut fx = Effects::none();
    a.close_requested(false, &mut fx);
    assert_eq!(fx.list, vec![Effect::CancelClose]);
    assert_eq!(a.confirm, Some(Confirm::CloseOrTray));
    a.choose_tray(&mut fx);
    assert!(a.window_in_tray);
    assert_eq!(a.confirm, None);
    let mut fx = Effects::none();
    a.choose_exit(&mut fx);
    assert!(a.allow_exit);
    assert_eq!(fx.list.last(), Some(&Effect::CloseWindow));
    let mut fx = Effects::none();
    a.close_requested(false, &mut fx);
    assert!(fx.list.is_empty());
    let mut b = app(true);
    b.close_requested(true, &mut fx);
    assert!(b.allow_exit);
    assert!(fx.list.is_empty());
    let mut c = app(true);
    c.has_tray = false;
    c.close_requested(false, &mut fx);
    assert!(fx.list.is_empty());
}

#[test]
fn the_clock_of_the_window() {
    let mut a = app(true);
    assert_eq!(a.idle(NOW), Idle::Wait(AUTO_STATUS_REFRESH));
    assert_eq!(a.idle(NOW + SECOND), Idle::Wait(AUTO_STATUS_REFRESH - SECOND));
    assert_eq!(a.idle(NOW + AUTO_STATUS_REFRESH), Idle::Look);
    a.confirm = Some(Confirm::DisableNcd);
    assert_eq!(a.idle(NOW + AUTO_STATUS_REFRESH), Idle::Occupied);
    a.answer_no();
    a.busy = true;
    assert_eq!(a.idle(NOW + AUTO_STATUS_REFRESH), Idle::Occupied);
}

#[test]
fn tiles_ask_before_harm() {
    for tile in service_tiles(true) {
        match tile.click {
            ActionClick::Job(job) => assert!(matches!(job, Job::Start | Job::Refresh)),
            ActionClick::Confirm(job) => {
                let mut a = app(true);
                let mut fx = Effects::none();
                a.tile_clicked(tile.click, &mut fx);
                assert!(fx.list.is_empty());
                assert_eq!(a.confirm, Some(Confirm::Job(job)));
                let (title, _) = confirm_text(Confirm::Job(job));
                assert!(title.ends_with('?'));
                a.answer_yes(&mut fx);
                assert_eq!(fx.list.last(), Some(&Effect::StartJob(job)));
            }
        }
    }
    assert_eq!(service_tiles(true)[0].fill, TileFill::Accent);
    assert_eq!(service_tiles(false)[0].fill, TileFill::Soft);
    assert_eq!(confirm_text(Confirm::CloseOrTray).0, "Закрыть окно?");
    assert_eq!(
        confirm_text(Confirm::Job(Job::Stop)).1,
        "Печать на этом ПК будет недоступна, пока службу не запустят снова."
    );
}

#[test]
fn buttons_at_the_foot() {
    let mut a = app(false);
    let buttons = util_buttons();
    assert_eq!(buttons[3].0, "Папка принтеров");
    let mut fx = Effects::none();
    for i in 0..5 {
        a.util_clicked(i, &mut fx);
    }
    assert_eq!(
        fx.list,
        vec![
            Effect::RefreshLog,
            Effect::Open(Place::Log),
            Effect::Open(Place::Queue),
            Effect::Open(Place::Printers)
        ]
    );
    a.folder_opened(Place::Queue, Ok(()));
    assert_eq!(a.message, "Папка очереди открыта.");
    a.folder_opened(Place::Queue, Err("нет".to_owned()));
    assert!(a.message_is_error);
    assert_eq!(a.message_role(), Role::Error);
    assert!(a.ncd_tip().starts_with("Автонастройка устройств: "));
    a.ncd_clicked();
    assert_eq!(a.confirm, None);
    let mut b = app(true);
    b.ncd_clicked();
    assert_eq!(b.confirm, Some(Confirm::DisableNcd));
    let mut fx = Effects::none();
    b.answer_yes(&mut fx);
    assert_eq!(fx.list, vec![Effect::DisableNcd]);
    b.ncd_disabled(Ok("готово".to_owned()), &mut fx);
    assert_eq!(b.message, "готово");
    assert_eq!(b.message_role(), Role::Text);
    b.ncd_disabled(Err("нет".to_owned()), &mut fx);
    assert!(b.message_is_error);
    assert_eq!(fx.list.last(), Some(&Effect::RefreshLog));
}

#[test]
fn the_log_and_setup_are_shown() {
    let mut a = app(true);
    a.refresh_log_view(vec!["x".to_owned()]);
    assert_eq!(a.log_lines, vec!["x"]);
    a.refresh_ncd_summary(&query_status(Some(0), None, Ok(true), Ok(false)));
    assert_eq!(a.ncd_summary, "Автонастройка устройств: выкл.; служба отключена");
    a.message_is_error = false;
    a.busy = true;
    assert_eq!(a.message_role(), Role::Accent);
}
