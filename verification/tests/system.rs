use spoolctl::autostart;
use spoolctl::autostart::{
    delete_legacy_run, disable, enable, exe_path_clean, is_enabled, names_program, query_args,
    read_run_value, run_value_size, schtasks_failed, task_exists, task_tr, Switch, TaskOutput,
};
use spoolctl::elevate::{
    current_window_pos, is_elevated, parse_pos_arg, query_elevated, relaunch_elevated, relaunched,
};
use spoolctl::ncd;
use spoolctl::ncd::{
    config_buffer, disable_autosetup, dword_bytes, open_service, query_status, read_dword,
    service_is_disabled, service_is_running, set_dword, NcdStatus, GLOBAL_VALUE, PRIVATE_VALUE,
    REG_PRIVATE, REG_ROOT,
};
use spoolctl::os::{current, OsVersion};
use spoolctl::single_instance::{
    activate_running_instance, is_main_window, is_tray_host, release_gui, try_acquire_gui,
    Activation, Slot,
};
use spoolctl::win32::WinError;

fn fault(code: i32) -> WinError {
    WinError { code, text: "сбой".to_owned() }
}

fn units(s: &str) -> Vec<u16> {
    s.encode_utf16().collect()
}

fn output(success: bool) -> Result<TaskOutput, String> {
    Ok(TaskOutput {
        success,
        stderr: " err \r\n".to_owned(),
        stdout: "out\n".to_owned(),
    })
}

#[test]
fn summary_mentions_autosetup() {
    let status = NcdStatus {
        private_autosetup: Some(0),
        global_autosetup: Some(0),
        service_disabled: Some(true),
        service_running: Some(false),
    };
    let text = status.summary_ru();
    assert!(text.contains("выкл."));
    assert!(text.contains("отключена"));
}

#[test]
fn query_status_runs() {
    let _ = query_status(None, None, Err("нет".to_owned()), Err("нет".to_owned()));
}

#[test]
fn summaries_of_automatic_setup() {
    let s = query_status(Some(1), None, Ok(false), Ok(true));
    assert_eq!(s.summary_ru(), "Автонастройка устройств: вкл.; служба работает");
    let s = query_status(None, None, Ok(false), Ok(false));
    assert_eq!(
        s.summary_ru(),
        "Автонастройка устройств: не задано (обычно вкл.); служба остановлена"
    );
    let s = query_status(Some(0), None, Ok(false), Err("e".to_owned()));
    assert_eq!(s.summary_ru(), "Автонастройка устройств: выкл.; служба неизвестна");
}

#[test]
fn registry_numbers_read_back() {
    for value in [0, 1, 255, 256, 0x0102_0304, u32::MAX] {
        assert_eq!(dword_bytes(value), value.to_le_bytes());
        assert_eq!(read_dword(0, 0, 4, dword_bytes(value)), Some(value));
    }
    assert_eq!(read_dword(2, 0, 4, [0; 4]), None);
    assert_eq!(read_dword(0, 2, 4, [0; 4]), None);
    assert_eq!(read_dword(0, 0, 3, [0; 4]), None);
}

#[test]
fn registry_writes_can_fail() {
    assert_eq!(set_dword(REG_PRIVATE, "AutoSetup", 0, 0), Ok(()));
    assert_eq!(
        set_dword("K", "V", 5, 0),
        Err("Не удалось открыть реестр K (код 5). Нужны права администратора.".to_owned())
    );
    assert_eq!(
        set_dword("K", "V", 0, 6),
        Err("Не удалось записать V (код 6). Нужны права администратора.".to_owned())
    );
}

#[test]
fn the_service_of_automatic_setup() {
    assert_eq!(open_service(&None, &None), Ok(()));
    assert_eq!(
        open_service(&Some(fault(1)), &None),
        Err("OpenSCManager: сбой".to_owned())
    );
    assert_eq!(
        open_service(&None, &Some(fault(-2147023836))),
        Err("служба NcdAutoSetup не найдена на этой системе.".to_owned())
    );
    assert_eq!(
        open_service(&None, &Some(fault(1060))),
        Err("OpenService(NcdAutoSetup): сбой".to_owned())
    );
    assert_eq!(service_is_running(Ok(()), Ok(4)), Ok(true));
    assert_eq!(service_is_running(Ok(()), Ok(1)), Ok(false));
    assert_eq!(
        service_is_running(Ok(()), Err(fault(1))),
        Err("QueryServiceStatus: сбой".to_owned())
    );
    assert_eq!(service_is_running(Err("e".to_owned()), Ok(4)), Err("e".to_owned()));
    assert_eq!(config_buffer(&None, 8), Ok(8));
    assert_eq!(config_buffer(&Some(fault(-2147024774)), 8), Ok(8));
    assert_eq!(
        config_buffer(&Some(fault(1)), 8),
        Err("QueryServiceConfig: сбой".to_owned())
    );
    assert_eq!(
        config_buffer(&None, 0),
        Err("QueryServiceConfig: пустой буфер".to_owned())
    );
    assert_eq!(service_is_disabled(Ok(()), Ok(8), Ok(4)), Ok(true));
    assert_eq!(service_is_disabled(Ok(()), Ok(8), Ok(3)), Ok(false));
    assert_eq!(
        service_is_disabled(Ok(()), Ok(8), Err(fault(1))),
        Err("QueryServiceConfig: сбой".to_owned())
    );
    assert_eq!(
        service_is_disabled(Ok(()), Err("b".to_owned()), Ok(4)),
        Err("b".to_owned())
    );
}

/// The calls that follow these events, in order.
fn turned_off(events: Vec<ncd::Event>) -> Vec<ncd::Act> {
    let (mut work, _) = disable_autosetup();
    let mut acts = Vec::new();
    for event in events {
        assert!(work.awaits(&event));
        acts.push(work.step(event));
    }
    acts
}

#[test]
fn switching_automatic_setup_off() {
    let (_, first) = disable_autosetup();
    assert_eq!(first, ncd::Act::SetDword(REG_PRIVATE, PRIVATE_VALUE, 0));
    assert_eq!(
        turned_off(vec![
            ncd::Event::Written(Ok(())),
            ncd::Event::Written(Ok(())),
            ncd::Event::Read(Some(0)),
            ncd::Event::Opened(Ok(())),
            ncd::Event::State(Some(4)),
            ncd::Event::Stopped(None),
            ncd::Event::Changed(None),
        ]),
        vec![
            ncd::Act::SetDword(REG_ROOT, GLOBAL_VALUE, 0),
            ncd::Act::ReadDword(REG_ROOT, GLOBAL_VALUE),
            ncd::Act::OpenService(39),
            ncd::Act::QueryState,
            ncd::Act::StopService,
            ncd::Act::DisableService,
            ncd::Act::Done("Реестр: AutoSetup=0 (Private) Реестр: GlobalAutoSetup=0 служба NcdAutoSetup остановлена и отключена. Рекомендуется перезагрузка Windows.".to_owned()),
        ]
    );
}

#[test]
fn a_failed_first_write_leaves_the_rest_alone() {
    let (mut work, _) = disable_autosetup();
    let act = work.step(ncd::Event::Written(Err("нет прав".to_owned())));
    assert_eq!(act, ncd::Act::Failed("нет прав".to_owned()));
    assert!(!work.awaits(&ncd::Event::Written(Ok(()))));
    assert!(!work.awaits(&ncd::Event::Read(Some(0))));
    assert!(!work.awaits(&ncd::Event::Opened(Ok(()))));
    assert!(!work.awaits(&ncd::Event::State(None)));
    assert!(!work.awaits(&ncd::Event::Stopped(None)));
    assert!(!work.awaits(&ncd::Event::Changed(None)));
}

#[test]
fn later_failures_are_only_told() {
    let closed = turned_off(vec![
        ncd::Event::Written(Ok(())),
        ncd::Event::Written(Err("e".to_owned())),
        ncd::Event::Read(None),
        ncd::Event::Opened(Err("сбой".to_owned())),
    ]);
    assert_eq!(
        closed[3],
        ncd::Act::Done("Реестр: AutoSetup=0 (Private) Служба NcdAutoSetup: сбой Рекомендуется перезагрузка Windows.".to_owned())
    );
    let stuck = turned_off(vec![
        ncd::Event::Written(Ok(())),
        ncd::Event::Written(Ok(())),
        ncd::Event::Read(Some(1)),
        ncd::Event::Opened(Ok(())),
        ncd::Event::State(None),
        ncd::Event::Stopped(Some(fault(2))),
        ncd::Event::Changed(Some(fault(1))),
    ]);
    assert_eq!(stuck[4], ncd::Act::StopService);
    assert_eq!(
        stuck[6],
        ncd::Act::Done("Реестр: AutoSetup=0 (Private) Служба NcdAutoSetup: ChangeServiceConfig: сбой Рекомендуется перезагрузка Windows.".to_owned())
    );
    let resting = turned_off(vec![
        ncd::Event::Written(Ok(())),
        ncd::Event::Written(Ok(())),
        ncd::Event::Read(Some(0)),
        ncd::Event::Opened(Ok(())),
        ncd::Event::State(Some(1)),
    ]);
    assert_eq!(resting[4], ncd::Act::DisableService);
}

#[test]
fn current_machine_reports_a_version() {
    let ver = current(0, 10, 0, 19045).expect("RtlGetVersion");
    assert!(ver.major >= 6);
    assert!(ver.major > 6 || (ver.major == 6 && ver.minor >= 1) || ver.major >= 10);
    assert_eq!(current(-1, 10, 0, 19045), None);
}

#[test]
fn versions_of_windows() {
    let ten = OsVersion { major: 10, minor: 0, build: 22631 };
    assert!(ten.is_windows_10_or_newer());
    assert_eq!(ten.display(), "10.0.22631");
    let seven = OsVersion { major: 6, minor: 1, build: 7601 };
    assert!(!seven.is_windows_10_or_newer());
}

#[test]
fn task_tr_includes_tray() {
    let tr = task_tr(Ok(r"C:\Tools\spoolctl.exe".to_owned())).expect("exe");
    assert!(tr.contains("--tray"), "{tr}");
    assert_eq!(tr, r"C:\Tools\spoolctl.exe --tray");
}

#[test]
fn task_command_quotes_spaces() {
    assert_eq!(
        task_tr(Ok(r"\\?\C:\Program Files\s.exe".to_owned())).unwrap(),
        "\"C:\\Program Files\\s.exe\" --tray"
    );
    assert_eq!(
        exe_path_clean(Ok(r"\\?\\\?\C:\s.exe".to_owned())).unwrap(),
        r"C:\s.exe"
    );
    assert_eq!(
        exe_path_clean(Err("нет".to_owned())),
        Err("current_exe: нет".to_owned())
    );
}

/// The calls that follow these events, in order.
fn switched(mut work: Switch, events: Vec<autostart::Event>) -> Vec<autostart::Act> {
    let mut acts = Vec::new();
    for event in events {
        assert!(work.awaits(&event));
        acts.push(work.step(event));
    }
    acts
}

fn command(args: &[&str]) -> autostart::Act {
    autostart::Act::Schtasks(args.iter().map(|a| a.to_string()).collect())
}

fn asked(success: bool) -> autostart::Event {
    autostart::Event::Output(output(success))
}

fn old_entry() -> autostart::Event {
    autostart::Event::OldEntry(Err("нет прав".to_owned()))
}

#[test]
fn autostart_is_switched_on() {
    let exe = || Ok(r"C:\s.exe".to_owned());
    let (work, act) = enable(true, exe());
    assert_eq!(
        act,
        command(&[
            "/Create",
            "/TN",
            "SpoolCtl",
            "/TR",
            r"C:\s.exe --tray",
            "/SC",
            "ONLOGON",
            "/RL",
            "HIGHEST",
            "/F"
        ])
    );
    assert_eq!(
        switched(work, vec![asked(true), old_entry(), autostart::Event::Logged]),
        vec![
            autostart::Act::DeleteOldEntry,
            autostart::Act::Log(
                "Автозапуск: задача планировщика «SpoolCtl» (/RL HIGHEST, --tray)".to_owned()
            ),
            autostart::Act::Done,
        ]
    );
}

#[test]
fn autostart_that_cannot_be_switched_on() {
    let exe = || Ok(r"C:\s.exe".to_owned());
    let (work, act) = enable(false, exe());
    assert_eq!(
        act,
        autostart::Act::Failed("Автозапуск с правами администратора: откройте SpoolCtl «от имени администратора» и снова включите галочку (один раз).".to_owned())
    );
    assert!(!work.awaits(&asked(true)));
    assert!(!work.awaits(&old_entry()));
    let (work, act) = enable(true, Err("нет".to_owned()));
    assert_eq!(act, autostart::Act::Failed("current_exe: нет".to_owned()));
    assert!(!work.awaits(&asked(true)));
    let (mut work, _) = enable(true, exe());
    assert_eq!(
        work.step(asked(false)),
        autostart::Act::Failed("Не удалось создать задачу автозапуска: err out".to_owned())
    );
    assert!(!work.awaits(&old_entry()));
    let (work, _) = enable(true, exe());
    assert_eq!(
        switched(work, vec![autostart::Event::Output(Err("e".to_owned()))]),
        vec![autostart::Act::Failed("e".to_owned())]
    );
}

#[test]
fn autostart_is_switched_off() {
    let (work, act) = disable(true);
    assert_eq!(act, command(&["/Query", "/TN", "SpoolCtl"]));
    assert_eq!(
        switched(work, vec![asked(true), asked(true), autostart::Event::Logged, old_entry()]),
        vec![
            command(&["/Delete", "/TN", "SpoolCtl", "/F"]),
            autostart::Act::Log("Автозапуск: задача планировщика удалена".to_owned()),
            autostart::Act::DeleteOldEntry,
            autostart::Act::Done,
        ]
    );
    let (mut work, _) = disable(true);
    work.step(asked(true));
    assert_eq!(
        work.step(asked(false)),
        autostart::Act::Failed("Не удалось удалить задачу автозапуска: err out".to_owned())
    );
    assert!(!work.awaits(&old_entry()));
}

#[test]
fn without_a_task_only_the_old_entry_goes() {
    let missing = || autostart::Event::Output(Err("e".to_owned()));
    let gone = || vec![autostart::Act::DeleteOldEntry, autostart::Act::Done];
    assert_eq!(switched(disable(false).0, vec![asked(false), old_entry()]), gone());
    assert_eq!(switched(disable(true).0, vec![missing(), old_entry()]), gone());
}

#[test]
fn without_rights_task_and_old_entry_stay() {
    let (mut work, _) = disable(false);
    assert_eq!(
        work.step(asked(true)),
        autostart::Act::Failed("Чтобы выключить автозапуск с правами администратора, откройте SpoolCtl «от имени администратора».".to_owned())
    );
    assert!(!work.awaits(&asked(true)));
    assert!(!work.awaits(&old_entry()));
    assert!(!work.awaits(&autostart::Event::Logged));
}

#[test]
fn autostart_by_task_or_by_entry() {
    assert_eq!(query_args(), vec!["/Query", "/TN", "SpoolCtl"]);
    assert!(task_exists(&output(true)));
    assert!(!task_exists(&output(false)));
    assert!(!task_exists(&Err("e".to_owned())));
    assert!(is_enabled(true, &None));
    assert!(!is_enabled(false, &None));
    assert!(is_enabled(false, &Some(r"C:\SPOOLCTL.EXE --tray".to_owned())));
    assert!(!is_enabled(false, &Some("other.exe".to_owned())));
    assert!(names_program("spoolctl"));
    assert!(!names_program("SPOOLCTL"));
    assert_eq!(schtasks_failed("e"), "schtasks: e");
}

#[test]
fn the_old_entry_reads_back() {
    let mut bytes = Vec::new();
    for u in units("C:\\я.exe\0мусор") {
        bytes.extend_from_slice(&u.to_le_bytes());
    }
    bytes.push(7);
    assert_eq!(read_run_value(0, 0, 9, 0, &bytes).as_deref(), Some("C:\\я.exe"));
    assert_eq!(read_run_value(2, 0, 9, 0, &bytes), None);
    assert_eq!(read_run_value(0, 2, 9, 0, &bytes), None);
    assert_eq!(read_run_value(0, 0, 0, 0, &bytes), None);
    assert_eq!(read_run_value(0, 0, 9, 5, &bytes), None);
    assert_eq!(run_value_size(0, 0, 9), Some(9));
    assert_eq!(run_value_size(0, 0, 0), None);
    assert_eq!(delete_legacy_run(2, 9), Ok(()));
    assert_eq!(delete_legacy_run(0, 0), Ok(()));
    assert_eq!(delete_legacy_run(0, 2), Ok(()));
    assert_eq!(delete_legacy_run(0, 5), Err("RegDeleteValue: код 5".to_owned()));
}

#[test]
fn rights_of_the_program() {
    assert!(is_elevated(&None, &Ok(1)));
    assert!(!is_elevated(&None, &Ok(0)));
    assert!(!is_elevated(&Some(fault(1)), &Ok(1)));
    assert!(!is_elevated(&None, &Err(fault(1))));
    assert_eq!(
        query_elevated(&Some(fault(1)), &Ok(1)),
        Err("OpenProcessToken: сбой".to_owned())
    );
    assert_eq!(
        query_elevated(&None, &Err(fault(1))),
        Err("GetTokenInformation: сбой".to_owned())
    );
}

#[test]
fn starting_again_with_more_rights() {
    let exe = || Ok("s.exe".to_owned());
    assert_eq!(
        relaunch_elevated(true, exe(), None).unwrap_err(),
        "Уже запущено с правами администратора."
    );
    assert_eq!(
        relaunch_elevated(false, Err("нет".to_owned()), None).unwrap_err(),
        "Не удалось найти путь к EXE: нет"
    );
    let r = relaunch_elevated(false, exe(), None).unwrap();
    assert_eq!((r.exe.as_str(), r.options.as_str()), ("s.exe", "--show"));
    let r = relaunch_elevated(false, exe(), Some((-8, 1200))).unwrap();
    assert_eq!(r.options, "--show --pos=-8,1200");
    assert_eq!(relaunched(33), Ok(()));
    assert_eq!(
        relaunched(5),
        Err("Не удалось запросить права администратора (код 5). Отмена UAC?".to_owned())
    );
}

#[test]
fn the_place_reads_back() {
    let r = relaunch_elevated(false, Ok("s.exe".to_owned()), Some((-8, 1200))).unwrap();
    let args: Vec<String> = r.options.split(' ').map(|s| s.to_owned()).collect();
    assert_eq!(
        parse_pos_arg(&args),
        Some(("-8".to_owned(), "1200".to_owned()))
    );
    assert_eq!(parse_pos_arg(&["--show".to_owned()]), None);
    assert_eq!(parse_pos_arg(&["--pos=5".to_owned()]), None);
    assert_eq!(
        parse_pos_arg(&["--pos= 1 , 2 ,3".to_owned(), "--pos=7,8".to_owned()]),
        Some(("1".to_owned(), "2".to_owned()))
    );
}

#[test]
fn the_place_of_the_window() {
    assert_eq!(current_window_pos(Some((1, 2)), Some((3, 4)), None), Some((1, 2)));
    assert_eq!(current_window_pos(None, Some((3, 4)), Some((5, 6))), Some((3, 4)));
    assert_eq!(current_window_pos(None, None, Some((5, 6))), Some((5, 6)));
    assert_eq!(current_window_pos(None, None, None), None);
}

#[test]
fn one_window_for_each_user() {
    assert_eq!(try_acquire_gui(Some(false)), Slot::Ours);
    assert_eq!(try_acquire_gui(Some(true)), Slot::Taken);
    assert_eq!(try_acquire_gui(None), Slot::Unguarded);
    assert!(Slot::Ours.granted());
    assert!(Slot::Unguarded.granted());
    assert!(!Slot::Taken.granted());
    let mut held = 17;
    assert_eq!(release_gui(&mut held), Some(17));
    assert_eq!(release_gui(&mut held), None);
}

#[test]
fn windows_are_told_apart() {
    assert!(is_tray_host(&units("SpoolCtlTrayHidden")));
    assert!(!is_tray_host(&units("")));
    assert!(is_main_window(&units("eframe"), &units("SpoolCtl 0.2.0")));
    assert!(is_main_window(&units(""), &units("SpoolCtl")));
    assert!(!is_main_window(&units("SpoolCtlTrayHidden"), &units("SpoolCtl_TrayHost")));
    assert!(!is_main_window(&units("x"), &units("")));
    assert!(!is_main_window(&units("x"), &units("Notepad")));
    assert_eq!(activate_running_instance(true, true), Activation::AskTray);
    assert_eq!(activate_running_instance(false, true), Activation::ShowWindow);
    assert_eq!(activate_running_instance(false, false), Activation::Nothing);
}
