use spoolctl::host::Host;
use spoolctl::queue::{
    classify_printer, clear_queue_files, count_files_in, count_jobs, count_jobs_for_printer,
    deletion, extract_ipv4, file_label, is_access_denied, is_valid_ipv4, jobs_phrase, jobs_probe,
    judge, list_printers, list_printers_on, looks_like_virtual_printer, open_printers_folder,
    open_queue_dir, port_buffer, port_hint_from, printer_name, printer_port_name,
    printers_buffer, printers_folder_opened, printers_queue_dir, printers_queue_dir_on,
    queue_dir_opened, queue_file_count, queue_file_count_on, queue_snapshot, queue_snapshot_on,
    ClearReport, Folder, Found, JobsProbe, Opened, Outcome, PrinterEntry, QueueSnapshot,
    RawPrinter, Verdict,
};
use spoolctl::win32::WinError;

fn printer(name: &str, jobs: usize) -> PrinterEntry {
    PrinterEntry {
        name: name.to_owned(),
        jobs,
        network: false,
        ip: None,
        port_hint: None,
    }
}

fn units(s: &str) -> Option<Vec<u16>> {
    Some(s.encode_utf16().collect())
}

fn raw(name: &str, jobs: usize, port: Option<&str>) -> RawPrinter {
    RawPrinter {
        name: units(name),
        attributes: 0,
        opened: Some(Opened { jobs: Some(jobs), port: port.map(|p| p.to_owned()) }),
    }
}

const SMALL_BUFFER: i32 = -2147024774;

fn small_buffer() -> Option<WinError> {
    Some(WinError { code: SMALL_BUFFER, text: "мало места".to_owned() })
}

fn other_error() -> Option<WinError> {
    Some(WinError { code: 1, text: "сбой".to_owned() })
}

fn clear(found: Vec<(Found, Result<(), String>)>) -> ClearReport {
    let mut outcomes = Vec::new();
    for (f, result) in found {
        outcomes.push(match judge(f) {
            Verdict::Settled(outcome) => outcome,
            Verdict::Delete { name } => deletion(name, result),
        });
    }
    clear_queue_files("dir", &Folder::Readable, &outcomes).expect("clear")
}

fn file(name: &str) -> Found {
    Found::File { name: name.to_owned() }
}

#[test]
fn clear_queue_files_deletes_only_files() {
    let report = clear(vec![
        (Found::Folder, Ok(())),
        (file("00001.SPL"), Ok(())),
        (file("00001.SHD"), Ok(())),
    ]);
    assert_eq!(report.deleted, 2);
    assert!(report.failed.is_empty());
    assert_eq!(report.deleted_names.len(), 2);
    assert_eq!(report.deleted_names, vec!["00001.SPL", "00001.SHD"]);
    assert_eq!(judge(Found::Folder), Verdict::Settled(Outcome::Left));
    assert_eq!(
        judge(file("00001.SPL")),
        Verdict::Delete { name: "00001.SPL".to_owned() }
    );
}

#[test]
fn clear_queue_files_notes_failures() {
    let report = clear(vec![
        (Found::Unread { error: "e1".to_owned() }, Ok(())),
        (
            Found::Unknown { name: "a".to_owned(), error: "e2".to_owned() },
            Ok(()),
        ),
        (file("b"), Err("e3".to_owned())),
    ]);
    assert_eq!(report.deleted, 0);
    assert_eq!(report.failed, vec!["чтение записи: e1", "a: e2", "b: e3"]);
    assert_eq!(
        report.summary_ru(),
        "Удалено: 0, ошибок: 3 (чтение записи: e1; a: e2; b: e3)"
    );
    assert_eq!(report.detail_ru(), report.summary_ru());
}

#[test]
fn clear_report_names_the_first_files_only() {
    let found = (0..15).map(|i| (file(&format!("f{i}")), Ok(()))).collect();
    let report = clear(found);
    assert_eq!(report.deleted, 15);
    assert_eq!(report.deleted_names.len(), 12);
    assert_eq!(report.deleted_names[11], "f11");
    assert_eq!(
        report.detail_ru(),
        "Удалено файлов: 15. Файлы: f0, f1, f2, f3, f4, f5, f6, f7, f8, f9, f10, f11 … ещё 3"
    );
}

#[test]
fn clearing_nothing_or_nowhere() {
    let none = Vec::new();
    let missing = clear_queue_files("dir", &Folder::Missing, &none).unwrap();
    assert_eq!(missing.summary_ru(), "Очередь пуста (dir)");
    assert_eq!(
        clear_queue_files("dir", &Folder::NotFolder, &none),
        Err("Путь очереди не является папкой: dir".to_owned())
    );
    assert_eq!(
        clear_queue_files("dir", &Folder::Unreadable("e".to_owned()), &none),
        Err("Не удалось прочитать dir: e".to_owned())
    );
    let one = clear(vec![(file("a"), Ok(()))]);
    assert_eq!(one.detail_ru(), "Удалено файлов: 1. Файлы: a");
}

#[test]
fn printers_queue_dir_ends_with_printers() {
    let path = printers_queue_dir(Some(r"C:\Windows"), None).expect("SystemRoot");
    assert!(path.ends_with("System32\\spool\\PRINTERS"));
    let host = Host::parse("PC01").unwrap();
    assert_eq!(
        printers_queue_dir_on(&host, None, None).unwrap(),
        r"\\PC01\ADMIN$\System32\spool\PRINTERS"
    );
}

#[test]
fn queue_file_count_counts_files_only() {
    let entries = vec![Some(false), Some(true), Some(true), None];
    assert_eq!(count_files_in("dir", &Folder::Readable, &entries).expect("count"), 2);
    assert_eq!(count_files_in("dir", &Folder::Missing, &entries), Ok(0));
    assert_eq!(
        count_files_in("dir", &Folder::NotFolder, &entries),
        Err("Путь очереди не является папкой: dir".to_owned())
    );
    assert_eq!(
        queue_file_count(Some("C:\\W"), None, &Folder::Readable, &entries),
        Ok(2)
    );
    assert_eq!(
        queue_file_count(None, None, &Folder::Readable, &entries),
        Err("Не задана переменная SystemRoot.".to_owned())
    );
    let host = Host::parse("PC01").unwrap();
    assert_eq!(
        queue_file_count_on(&host, None, None, &Folder::Unreadable("e".to_owned()), &entries),
        Err("Не удалось прочитать \\\\PC01\\ADMIN$\\System32\\spool\\PRINTERS: e".to_owned())
    );
}

#[test]
fn snapshot_line_for_empty_jobs() {
    let line = QueueSnapshot {
        jobs: Some(0),
        files: None,
        files_note: Some("папка spool\\PRINTERS недоступна без прав администратора"),
        printers: Vec::new(),
    }
    .line_ru();
    assert!(line.contains("заданий нет"));
    assert!(line.contains("администратора"));
}

#[test]
fn snapshot_lines() {
    let line = |jobs, files, files_note| {
        QueueSnapshot { jobs, files, files_note, printers: Vec::new() }.line_ru()
    };
    assert_eq!(line(Some(0), Some(0), None), "Очередь: заданий нет");
    assert_eq!(line(Some(0), None, None), "Очередь: заданий нет");
    assert_eq!(
        line(Some(0), Some(3), None),
        "Очередь: заданий 0, файлов в spool\\PRINTERS — 3"
    );
    assert_eq!(line(Some(2), None, None), "Очередь: заданий 2");
    assert_eq!(line(None, Some(0), None), "Очередь: файлов в spool\\PRINTERS нет");
    assert_eq!(line(None, Some(4), None), "Очередь: файлов в spool\\PRINTERS — 4");
    assert_eq!(line(None, None, Some("нет")), "нет");
    assert_eq!(line(None, None, None), "Очередь: сведения недоступны");
}

#[test]
fn jobs_phrase_russian_plural() {
    assert_eq!(jobs_phrase(0), "0 заданий");
    assert_eq!(jobs_phrase(1), "1 задание");
    assert_eq!(jobs_phrase(2), "2 задания");
    assert_eq!(jobs_phrase(5), "5 заданий");
    assert_eq!(jobs_phrase(21), "21 задание");
}

#[test]
fn jobs_noun_follows_the_last_digits() {
    assert_eq!(jobs_phrase(11), "11 заданий");
    assert_eq!(jobs_phrase(111), "111 заданий");
    assert_eq!(jobs_phrase(112), "112 заданий");
    assert_eq!(jobs_phrase(123), "123 задания");
    assert_eq!(jobs_phrase(1001), "1001 задание");
}

#[test]
fn printer_entry_line_includes_kind() {
    let line = PrinterEntry {
        name: "HP".to_owned(),
        jobs: 1,
        network: false,
        ip: None,
        port_hint: None,
    }
    .line_ru();
    assert!(line.contains("локальный"));
    assert!(line.contains("1 задание"));
    assert_eq!(line, "HP — локальный — 1 задание");
}

#[test]
fn classify_tcp_port_as_network_with_ip() {
    let (network, ip, hint) = classify_printer("HP Laser", Some("IP_192.168.1.50"), false);
    assert!(network);
    assert_eq!(ip.as_deref(), Some("192.168.1.50"));
    assert_eq!(hint.as_deref(), Some("TCP/IP"));
}

#[test]
fn classify_wsd_as_network_without_ip() {
    let (network, ip, hint) = classify_printer("HP Laser", Some("WSD-cf123456-abcd-…"), false);
    assert!(network);
    assert!(ip.is_none());
    assert_eq!(hint.as_deref(), Some("WSD"));
    let meta = PrinterEntry {
        name: "HP".into(),
        jobs: 0,
        network,
        ip,
        port_hint: hint,
    }
    .meta_ru();
    assert!(meta.contains("WSD"));
    assert!(meta.contains("IP в порте нет"));
}

#[test]
fn classify_usb_as_local() {
    let (network, ip, _) = classify_printer("DeskJet", Some("USB001"), false);
    assert!(!network);
    assert!(ip.is_none());
}

#[test]
fn classify_virtual_as_local() {
    let (network, _, _) = classify_printer("RustDesk Printer", Some("PORTPROMPT"), false);
    assert!(!network);
    let (network, _, _) = classify_printer("AnyDesk Printer", Some(""), false);
    assert!(!network);
}

#[test]
fn access_denied_detects_os_error_5() {
    assert!(is_access_denied(
        "Не удалось прочитать C:\\Windows\\System32\\spool\\PRINTERS: Отказано в доступе. (os error 5)"
    ));
}

#[test]
fn access_denied_by_its_words() {
    assert!(is_access_denied("Access Is Denied."));
    assert!(is_access_denied("отказано в доступе"));
    assert!(!is_access_denied("нет такого файла"));
}

#[test]
fn addresses_are_found() {
    assert_eq!(extract_ipv4("IP_10.0.0.1_2").as_deref(), Some("10.0.0.1"));
    assert_eq!(extract_ipv4("1.2.3 300.1.1.1 9.8.7.6x").as_deref(), Some("9.8.7.6"));
    assert_eq!(extract_ipv4("нет адреса"), None);
    assert_eq!(extract_ipv4(""), None);
    assert!(is_valid_ipv4("255.255.255.255"));
    assert!(is_valid_ipv4("001.02.3.+4"));
    assert!(!is_valid_ipv4("256.1.1.1"));
    assert!(!is_valid_ipv4("1.1.1"));
    assert!(!is_valid_ipv4("1.1.1.1."));
    assert!(!is_valid_ipv4("1..1.1"));
    assert!(!is_valid_ipv4("1.1.1.0001"));
    assert!(!is_valid_ipv4("1.1.1.+"));
}

#[test]
fn an_address_means_the_network() {
    let (network, ip, hint) = classify_printer("Printer 10.1.1.1", Some("USB001"), false);
    assert!(network);
    assert_eq!(ip.as_deref(), Some("10.1.1.1"));
    assert_eq!(hint.as_deref(), Some("USB"));
    let (network, _, _) = classify_printer("P", Some(r"\\server\printer"), false);
    assert!(network);
    let (network, _, _) = classify_printer("P", Some("XYZ"), true);
    assert!(network);
    let (network, _, _) = classify_printer("P", Some("XYZ"), false);
    assert!(!network);
    let (network, _, _) = classify_printer("P", Some("LPT1:"), true);
    assert!(!network);
    let (network, _, hint) = classify_printer("P", None, false);
    assert!(!network);
    assert_eq!(hint, None);
}

#[test]
fn hints_for_ports() {
    assert_eq!(port_hint_from(""), None);
    assert_eq!(port_hint_from("wsd-1").as_deref(), Some("WSD"));
    assert_eq!(port_hint_from("http ipp").as_deref(), Some("IPP"));
    assert_eq!(port_hint_from("IP_10.0.0.1").as_deref(), Some("TCP/IP"));
    assert_eq!(port_hint_from("Ip_10.0.0.1").as_deref(), Some("Ip_10.0.0.1"));
    assert_eq!(port_hint_from("usb002").as_deref(), Some("USB"));
    assert_eq!(port_hint_from("LPT1:").as_deref(), Some("LPT1:"));
    assert_eq!(
        port_hint_from("123456789012345678901234").as_deref(),
        Some("123456789012345678901234")
    );
    assert_eq!(
        port_hint_from("1234567890123456789012345").as_deref(),
        Some("12345678901234567890…")
    );
    assert!(looks_like_virtual_printer("Microsoft Print To PDF"));
    assert!(!looks_like_virtual_printer("HP LaserJet"));
}

#[test]
fn printers_are_listed_and_sorted() {
    let raws = vec![
        raw("Яблоко", 1, None),
        raw("hp", 2, Some("USB001")),
        RawPrinter { name: None, attributes: 0, opened: None },
        raw("Brother", 0, None),
        RawPrinter { name: Some(vec![0xD800]), attributes: 0, opened: None },
        RawPrinter { name: units(""), attributes: 0, opened: None },
        raw("HP", 3, None),
        RawPrinter { name: units("абв"), attributes: 16, opened: None },
    ];
    let list = list_printers(&small_buffer(), 10, &None, &raws).unwrap();
    let names: Vec<&str> = list.iter().map(|p| p.name.as_str()).collect();
    assert_eq!(names, vec!["Brother", "hp", "HP", "абв", "Яблоко"]);
    assert_eq!(list[1].jobs, 2);
    assert_eq!(list[1].port_hint.as_deref(), Some("USB"));
    assert_eq!(list[2].jobs, 3);
    assert!(list[3].network);
    assert_eq!(list[3].jobs, 0);
}

#[test]
fn lists_that_fail() {
    let host = Host::parse("PC01").unwrap();
    let raws = Vec::new();
    assert_eq!(
        list_printers_on(&host, &other_error(), 5, &None, &raws),
        Err("EnumPrinters (PC01): сбой".to_owned())
    );
    assert_eq!(list_printers(&None, 0, &other_error(), &raws), Ok(Vec::new()));
    assert_eq!(
        list_printers(&small_buffer(), 5, &other_error(), &raws),
        Err("EnumPrinters (этот ПК): сбой".to_owned())
    );
    assert_eq!(printers_buffer(Some(SMALL_BUFFER), 7), Some(7));
    assert_eq!(printers_buffer(Some(1), 7), None);
    assert_eq!(printers_buffer(None, 0), None);
    assert_eq!(printers_buffer(None, 7), Some(7));
}

#[test]
fn ports_and_jobs_are_fetched_in_two_calls() {
    assert_eq!(port_buffer(Some(SMALL_BUFFER), 8), Some(8));
    assert_eq!(port_buffer(None, 8), Some(8));
    assert_eq!(port_buffer(None, 0), None);
    assert_eq!(port_buffer(Some(1), 8), None);
    assert_eq!(printer_port_name(true, &units("LPT1:")).as_deref(), Some("LPT1:"));
    assert_eq!(printer_port_name(false, &units("LPT1:")), None);
    assert_eq!(printer_name(&units("")), None);

    assert_eq!(jobs_probe(&None, 0, 4), JobsProbe::Counted(4));
    assert_eq!(jobs_probe(&small_buffer(), 0, 4), JobsProbe::Counted(0));
    assert_eq!(jobs_probe(&small_buffer(), 9, 0), JobsProbe::Fetch(9));
    assert_eq!(
        jobs_probe(&other_error(), 9, 0),
        JobsProbe::Failed("EnumJobs: сбой".to_owned())
    );
    assert_eq!(count_jobs_for_printer(JobsProbe::Counted(4), Ok(9)), Ok(4));
    assert_eq!(count_jobs_for_printer(JobsProbe::Fetch(9), Ok(6)), Ok(6));
    assert_eq!(
        count_jobs_for_printer(JobsProbe::Fetch(9), Err(other_error().unwrap())),
        Err("EnumJobs: сбой".to_owned())
    );
    assert_eq!(
        count_jobs_for_printer(JobsProbe::Failed("e".to_owned()), Ok(1)),
        Err("e".to_owned())
    );
}

#[test]
fn snapshots_sum_up_the_queue() {
    let list = Ok(vec![printer("A", 2), printer("B", 3)]);
    let snap = queue_snapshot(list, Ok(4));
    assert_eq!(snap.jobs, Some(5));
    assert_eq!(snap.files, Some(4));
    assert_eq!(snap.files_note, None);
    assert_eq!(snap.printers.len(), 2);

    let snap = queue_snapshot_on(Err("e".to_owned()), Err("os error 5".to_owned()));
    assert_eq!(snap.jobs, None);
    assert_eq!(snap.files, None);
    assert_eq!(
        snap.files_note,
        Some("папка spool\\PRINTERS недоступна без прав администратора")
    );
    assert!(snap.printers.is_empty());

    let snap = queue_snapshot(Ok(Vec::new()), Err("e".to_owned()));
    assert_eq!(snap.jobs, Some(0));
    assert_eq!(snap.files_note, Some("не удалось прочитать папку очереди"));
}

#[test]
fn too_many_jobs_are_not_counted() {
    assert_eq!(count_jobs(&[printer("A", usize::MAX), printer("B", 1)]), None);
    assert_eq!(count_jobs(&[printer("A", usize::MAX)]), Some(usize::MAX));
}

#[test]
fn printer_lines_and_copies() {
    let p = PrinterEntry {
        name: "HP".to_owned(),
        jobs: 3,
        network: true,
        ip: Some("10.0.0.1".to_owned()),
        port_hint: Some("TCP/IP".to_owned()),
    };
    assert_eq!(p.kind_ru(), "сеть");
    assert_eq!(p.meta_ru(), "сеть · 10.0.0.1");
    assert_eq!(p.line_ru(), "HP — сеть · 10.0.0.1 — 3 задания");
    assert_eq!(p.clone(), p);
    let q = PrinterEntry { ip: None, network: false, ..p.clone() };
    assert_eq!(q.meta_ru(), "локальный · TCP/IP");
    let r = PrinterEntry { port_hint: None, ..q };
    assert_eq!(r.meta_ru(), "локальный");
}

#[test]
fn folders_in_explorer() {
    assert_eq!(open_queue_dir("d", true).unwrap(), vec![100, 0]);
    assert_eq!(
        open_queue_dir("d", false),
        Err("Папка очереди не найдена: d".to_owned())
    );
    assert_eq!(queue_dir_opened(33), Ok(()));
    assert_eq!(
        queue_dir_opened(2),
        Err("Не удалось открыть папку очереди (код 2).".to_owned())
    );
    assert_eq!(
        printers_folder_opened(-1),
        Err("Не удалось открыть папку принтеров (код -1).".to_owned())
    );
    assert_eq!(open_printers_folder().len(), "shell:PrintersFolder".len() + 1);
    assert_eq!(file_label(Some("a.SPL"), "C:\\a.SPL"), "a.SPL");
    assert_eq!(file_label(None, "C:\\"), "C:\\");
}
