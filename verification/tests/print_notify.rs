use spoolctl::print_notify::{
    after_look, attempts, begin_round, detect_new_jobs, load_settings, message_ru,
    save_failed_ru, watcher_log_ru, PrintNotify, Round, Settings, Turn,
};
use spoolctl::queue::PrinterEntry;
use spoolctl::watchdog;

fn printer(name: &str, jobs: usize) -> PrinterEntry {
    PrinterEntry {
        name: name.to_owned(),
        jobs,
        network: false,
        ip: None,
        port_hint: None,
    }
}

fn names(list: &[&str]) -> Vec<String> {
    list.iter().map(|n| n.to_string()).collect()
}

#[test]
fn first_sample_no_notify() {
    let mut baseline = None;
    assert!(detect_new_jobs(&mut baseline, &[printer("P", 1)]).is_none());
}

#[test]
fn job_increase_notifies() {
    let mut baseline = None;
    assert!(detect_new_jobs(&mut baseline, &[printer("Panasonic KX-MB2110RU", 0)]).is_none());
    let hit = detect_new_jobs(&mut baseline, &[printer("Panasonic KX-MB2110RU", 1)]);
    assert_eq!(hit, Some(vec!["Panasonic KX-MB2110RU".to_owned()]));
}

#[test]
fn message_one_printer() {
    let m = message_ru(&["Panasonic KX-MB2110RU".to_owned()]);
    assert!(m.contains("Panasonic KX-MB2110RU"));
}

#[test]
fn messages_for_any_number_of_printers() {
    assert_eq!(message_ru(&[]), "");
    assert_eq!(message_ru(&names(&["A"])), "На принтер «A» отправлено на печать.");
    assert_eq!(message_ru(&names(&["A", "B"])), "Отправлено на печать: A, B.");
}

#[test]
fn unchanged_printers_are_silent() {
    let list = [printer("A", 2), printer("B", 0)];
    let mut baseline = None;
    assert!(detect_new_jobs(&mut baseline, &list).is_none());
    assert!(detect_new_jobs(&mut baseline, &list).is_none());
    assert_eq!(
        detect_new_jobs(&mut baseline, &[printer("B", 1), printer("A", 1), printer("C", 1)]),
        Some(names(&["B", "C"]))
    );
}

#[test]
fn of_two_printers_with_one_name_the_last_counts() {
    let mut baseline = None;
    let list = [printer("A", 2), printer("A", 1)];
    assert!(detect_new_jobs(&mut baseline, &list).is_none());
    assert_eq!(detect_new_jobs(&mut baseline, &list), Some(names(&["A"])));
}

#[test]
fn choice_is_read_under_each_key() {
    for key in ["notify_print_jobs", "notify_print", "print_notify"] {
        let text = format!("{key}=true\n");
        assert!(load_settings(Some(&text)).notify_print_jobs);
    }
    assert!(!load_settings(Some("notify=1")).notify_print_jobs);
    assert!(!load_settings(None).notify_print_jobs);
    assert_eq!(Settings::default(), Settings { notify_print_jobs: false });
}

#[test]
fn choice_is_saved_and_reads_back() {
    let (mut n, turns) = PrintNotify::load(None);
    assert!(turns.is_empty());
    n.set_enabled(true);
    let fresh = n.save_settings(None);
    assert_eq!(fresh, "# SpoolCtl settings\nnotify_print_jobs=1\n");
    assert!(load_settings(Some(&fresh)).notify_print_jobs);

    let old = "a=1\n notify_print_jobs = 0 \nb=2";
    let body = n.save_settings(Some(old));
    assert_eq!(body, "a=1\nnotify_print_jobs=1\nb=2\n");
    assert!(load_settings(Some(&body)).notify_print_jobs);
}

#[test]
fn a_later_line_has_the_last_word() {
    let (mut n, _) = PrintNotify::load(None);
    n.set_enabled(true);
    let body = n.save_settings(Some("notify_print_jobs=0\nprint_notify=0\n"));
    assert_eq!(body, "notify_print_jobs=1\nprint_notify=0\n");
    assert!(!load_settings(Some(&body)).notify_print_jobs);
}

#[test]
fn settings_do_not_touch_each_other() {
    let (mut n, _) = PrintNotify::load(None);
    n.set_enabled(true);
    let both = watchdog::Settings { watch_enabled: true, auto_restart: true };
    let first = watchdog::render_settings("", &both);
    let second = n.save_settings(Some(&first));
    assert_eq!(watchdog::load_settings(Some(&second)), both);
    let third = watchdog::render_settings(&second, &watchdog::Settings::default());
    assert!(load_settings(Some(&third)).notify_print_jobs);
}

#[test]
fn the_switch_stops_and_starts_the_watcher() {
    let (mut n, turns) = PrintNotify::load(Some("notify_print_jobs=1"));
    assert_eq!(turns, vec![Turn::Start]);
    assert_eq!(n.set_enabled(true), vec![Turn::Save, Turn::Stop, Turn::Start]);
    assert_eq!(n.set_enabled(false), vec![Turn::Save, Turn::Stop]);
    assert_eq!(n.set_enabled(false), vec![Turn::Save]);
    assert_eq!(n.set_enabled(true), vec![Turn::Save, Turn::Start]);
    assert_eq!(n.shut_down(), vec![Turn::Stop]);
    assert!(n.shut_down().is_empty());
    assert_eq!(Turn::Save.log_ru(), None);
    assert_eq!(
        Turn::Start.log_ru(),
        Some("Уведомления о печати: фоновое слежение запущено")
    );
    assert_eq!(
        Turn::Stop.log_ru(),
        Some("Уведомления о печати: фоновое слежение остановлено")
    );
}

#[test]
fn events_are_sorted_and_distinct() {
    let (mut n, _) = PrintNotify::load(None);
    let batches = vec![names(&["b", "a"]), names(&[]), names(&["b", "c", "B"])];
    assert_eq!(n.poll_events(&batches), names(&["B", "a", "b", "c"]));
    assert!(n.poll_events(&Vec::new()).is_empty());
}

#[test]
fn rounds_of_the_watcher() {
    assert_eq!(attempts(true), 5);
    assert_eq!(attempts(false), 1);
    assert_eq!(begin_round(true), Round::Over);
    assert_eq!(begin_round(false), Round::Look);
    let mut baseline = None;
    let list = || Ok(vec![printer("A", 0)]);
    assert_eq!(after_look(&mut baseline, false, 1, list()), Round::Over);
    assert_eq!(after_look(&mut baseline, true, 4, list()), Round::Retry);
    assert_eq!(after_look(&mut baseline, true, 5, list()), Round::Over);
    assert_eq!(
        after_look(&mut baseline, true, 1, Ok(vec![printer("A", 1)])),
        Round::Tell(names(&["A"]))
    );
    assert_eq!(
        after_look(&mut baseline, true, 1, Err("e".to_owned())),
        Round::GiveUp("Уведомления о печати: список принтеров: e".to_owned())
    );
    assert_eq!(
        watcher_log_ru(true),
        "Уведомления о печати: подписка Spooler (ADD_JOB) активна"
    );
    assert_eq!(
        watcher_log_ru(false),
        "Уведомления о печати: только опрос 1 с (подписка Spooler недоступна)"
    );
    assert_eq!(save_failed_ru("e"), "Не удалось сохранить notify_print_jobs: e");
}
