use spoolctl::cli::{
    begin_clear, begin_control, command_line_log_ru, done_message_cli, find_command,
    graphics_failed_ru, gui_supported, is_gui_flag, is_show_launch, is_tray_launch, launch,
    parse_host_args, print_help, print_version, run_clear, run_cli, run_control, run_status,
    unsupported_log_ru, unsupported_ru, Command, Launch, Line,
};
use spoolctl::control::Goal;
use spoolctl::host::Host;
use spoolctl::log::Level;
use spoolctl::os::OsVersion;
use spoolctl::queue::{ClearReport, PrinterEntry, QueueSnapshot};
use spoolctl::spooler::{read_status, SpoolerStatus};

fn args(list: &[&str]) -> Vec<String> {
    list.iter().map(|s| s.to_string()).collect()
}

fn out(s: &str) -> Line {
    Line::Out(s.to_owned())
}

fn complaint(s: &str) -> Line {
    Line::Complaint(s.to_owned())
}

fn snap() -> QueueSnapshot {
    QueueSnapshot {
        jobs: Some(1),
        files: None,
        files_note: None,
        printers: vec![PrinterEntry {
            name: "HP".to_owned(),
            jobs: 1,
            network: false,
            ip: None,
            port_hint: None,
        }],
    }
}

fn empty_snap() -> QueueSnapshot {
    QueueSnapshot { jobs: Some(0), files: Some(0), files_note: None, printers: vec![] }
}

fn running() -> SpoolerStatus {
    read_status(4, 0, 0, 0, 0)
}

#[test]
fn the_window_or_a_command() {
    assert_eq!(launch(&[]), Launch::Window);
    assert_eq!(launch(&args(&["--tray"])), Launch::InTray);
    assert_eq!(launch(&args(&["/show", "--pos=1,2"])), Launch::InFront);
    assert_eq!(launch(&args(&["status", "--tray"])), Launch::Command);
    assert!(is_tray_launch(&args(&["tray"])));
    assert!(is_show_launch(&args(&["show"])));
    assert!(is_gui_flag(&args(&["/tray"])));
    assert!(!is_gui_flag(&args(&["stop"])));
    assert_eq!(Launch::InTray.log_ru(), "Запуск GUI в трее");
    assert_eq!(Launch::Window.log_ru(), "Запуск GUI");
    assert_eq!(
        Launch::InFront.log_ru(),
        "Запуск GUI после UAC (окно на передний план)"
    );
}

#[test]
fn windows_that_can_show_the_window() {
    let seven = OsVersion { major: 6, minor: 1, build: 7601 };
    let ten = OsVersion { major: 10, minor: 0, build: 19045 };
    assert!(gui_supported(None));
    assert!(gui_supported(Some(ten)));
    assert!(!gui_supported(Some(seven)));
    assert_eq!(
        unsupported_log_ru(Some(seven)),
        "GUI недоступен на этой ОС (6.1.7601); используйте CLI"
    );
    assert!(unsupported_ru(None).contains("Обнаружена ОС: неизвестна\n\n"));
    assert!(graphics_failed_ru("нет OpenGL").contains("\n\nнет OpenGL\n\n"));
}

#[test]
fn the_target_can_stand_anywhere() {
    let (h, rest) = parse_host_args(&args(&["status", "--host", "PC01", "x"])).unwrap();
    assert_eq!(h.name(), "PC01");
    assert_eq!(rest, args(&["status", "x"]));
    let (h, rest) = parse_host_args(&args(&["--host=PC01", "status"])).unwrap();
    assert_eq!(h.name(), "PC01");
    assert_eq!(rest, args(&["status"]));
    let (h, _) = parse_host_args(&args(&["-H", "A", "/host", "B"])).unwrap();
    assert_eq!(h.name(), "B");
}

#[test]
fn no_option_means_this_computer() {
    let (h, rest) = parse_host_args(&args(&["status", "--hostx"])).unwrap();
    assert!(h.is_local());
    assert_eq!(rest, args(&["status", "--hostx"]));
}

#[test]
fn options_that_are_wrong() {
    assert_eq!(
        parse_host_args(&args(&["status", "--host"])).unwrap_err(),
        "После --host нужно имя ПК или IP."
    );
    assert!(parse_host_args(&args(&["--host", "a/b"])).is_err());
    assert!(parse_host_args(&args(&["--host=a/b"])).is_err());
}

#[test]
fn commands_by_name() {
    let names = [
        ("status", Command::Status),
        ("--status", Command::Status),
        ("stop", Command::Stop),
        ("start", Command::Start),
        ("restart", Command::Restart),
        ("clear-queue", Command::ClearQueue),
        ("fix", Command::Fix),
        ("version", Command::Version),
        ("-V", Command::Version),
        ("help", Command::Help),
        ("-h", Command::Help),
    ];
    for (name, command) in names {
        assert_eq!(find_command(name), Some(command));
        let (c, h) = run_cli(&args(&["--host", "PC01", name])).unwrap();
        assert_eq!(c, command);
        assert_eq!(h.name(), "PC01");
    }
    assert_eq!(
        run_cli(&args(&["dance"])).unwrap_err(),
        args(&["Неизвестная команда: dance", "Используйте: spoolctl help"])
    );
    assert_eq!(
        run_cli(&args(&["--host", "PC01"])).unwrap_err(),
        args(&[
            "Укажите команду после --host (например: status).",
            "Используйте: spoolctl help"
        ])
    );
    assert_eq!(
        run_cli(&args(&["--host"])).unwrap_err(),
        args(&["После --host нужно имя ПК или IP."])
    );
}

#[test]
fn what_status_says() {
    let (lines, code) = run_status(&Host::local(), &Ok((running(), snap())));
    assert_eq!(code, 0);
    assert_eq!(
        lines.list,
        vec![
            Line::Log(Level::Info, "Статус (этот ПК): работает".to_owned()),
            out("ПК: этот ПК | Служба печати (Spooler): работает"),
            out("Очередь: заданий 1"),
            out("Принтеры:"),
            out("  - HP — локальный — 1 задание"),
        ]
    );
    let (lines, code) = run_status(&Host::local(), &Err("сбой".to_owned()));
    assert_eq!(code, 1);
    assert_eq!(
        lines.list,
        vec![
            Line::Log(Level::Error, "сбой".to_owned()),
            complaint("Ошибка: сбой")
        ]
    );
}

#[test]
fn what_control_says() {
    let host = Host::parse("PC01").unwrap();
    assert_eq!(
        begin_control(&host, Goal::Stop).list,
        vec![
            out("Остановка службы печати (Spooler) на PC01..."),
            Line::Log(Level::Info, "Остановка (PC01): начало".to_owned()),
        ]
    );
    let pending = read_status(2, 0, 0, 7, 1500);
    let (lines, code) = run_control(&host, Goal::Restart, &Ok((pending, empty_snap())));
    assert_eq!(code, 0);
    assert_eq!(
        lines.list,
        vec![
            Line::Log(Level::Info, "Перезапуск (PC01): ок (запускается)".to_owned()),
            out("Перезапуск выполнен."),
            out("ПК: PC01 | Служба печати (Spooler): запускается"),
            out("Очередь: заданий нет"),
            out("Принтеры: нет или список недоступен"),
            out("Ожидание: ~1500 мс (checkpoint 7)"),
        ]
    );
    let (lines, code) = run_control(&host, Goal::Start, &Err("сбой".to_owned()));
    assert_eq!(code, 1);
    assert_eq!(
        lines.list,
        vec![
            Line::Log(Level::Error, "Запуск: сбой".to_owned()),
            complaint("Ошибка: сбой")
        ]
    );
}

#[test]
fn what_clearing_says() {
    let host = Host::local();
    assert_eq!(
        begin_clear(&host, true).list,
        vec![
            out("Очистка очереди и перезапуск на этот ПК..."),
            Line::Log(
                Level::Info,
                "Очистка очереди и перезапуск (этот ПК): начало".to_owned()
            ),
        ]
    );
    let report = ClearReport {
        directory: "d".to_owned(),
        deleted: 1,
        deleted_names: args(&["a"]),
        failed: args(&["b: e"]),
    };
    let stopped = read_status(1, 0, 0, 0, 0);
    let (lines, code) = run_clear(&host, false, &Ok((report, stopped, empty_snap())));
    assert_eq!(code, 0);
    assert_eq!(
        lines.list,
        vec![
            Line::Log(
                Level::Warn,
                "Очистка очереди (этот ПК): Удалено: 1, ошибок: 1 (b: e); служба «остановлена»"
                    .to_owned()
            ),
            out("Удалено: 1, ошибок: 1 (b: e)"),
            complaint("Предупреждение: часть файлов не удалена."),
            out("ПК: этот ПК | Служба печати (Spooler): остановлена"),
            out("Очередь: заданий нет"),
            out("Принтеры: нет или список недоступен"),
            out("Spooler оставлен остановленным. Запуск: spoolctl --host <этот ПК> start"),
        ]
    );
    let report = ClearReport {
        directory: "d".to_owned(),
        deleted: 2,
        deleted_names: vec![],
        failed: vec![],
    };
    let (lines, _) = run_clear(&host, true, &Ok((report, running(), empty_snap())));
    assert_eq!(
        lines.list[0],
        Line::Log(
            Level::Info,
            "Очистка очереди и перезапуск (этот ПК): Удалено файлов: 2; служба «работает»"
                .to_owned()
        )
    );
    assert_eq!(lines.list.len(), 5);
}

#[test]
fn exit_code_tells_failure() {
    let (lines, code) = run_clear(&Host::local(), true, &Err("сбой".to_owned()));
    assert_eq!(code, 1);
    assert_eq!(lines.list.last(), Some(&complaint("Ошибка: сбой")));
}

#[test]
fn words_for_done() {
    assert_eq!(done_message_cli("Остановка"), "Остановка выполнена.");
    assert_eq!(done_message_cli("Запуск"), "Запуск выполнен.");
    assert_eq!(done_message_cli("Дело"), "Дело выполнено.");
    assert_eq!(command_line_log_ru(&args(&["a", "b"])), "CLI: a b");
}

#[test]
fn version_and_help() {
    assert_eq!(print_version(), "SpoolCtl 0.2.0");
    let help = print_help();
    assert_eq!(help.len(), 18);
    assert_eq!(help[0], "SpoolCtl 0.2.0 — управление службой печати Windows");
    assert_eq!(help[1], "");
    assert!(help[17].starts_with("Журнал:"));
}
