use spoolctl::log::{
    error, info, log_dir, log_dir_opened, log_path, logs_beside, open_log_dir, read_tail,
    rotate_if_needed, rotated_name, sanitize, timestamp, warn, write_line, FileStep, Level,
    LocalTime, MAX_LOG_BYTES, ROTATED_FILES,
};

const MORNING: LocalTime = LocalTime {
    year: 2024,
    month: 3,
    day: 7,
    hour: 8,
    minute: 5,
    second: 59,
};

#[test]
fn sanitize_strips_newlines_and_caps_length() {
    let long = "a\nb\r".repeat(200);
    let out = sanitize(&long);
    assert!(!out.contains('\n'));
    assert!(!out.contains('\r'));
    assert!(out.chars().count() <= 500);
}

#[test]
fn log_path_is_spoolctl_log() {
    let path = log_path(Some(r"C:\SpoolCtl"), None, r"C:\Temp");
    assert_eq!(path.rsplit('\\').next(), Some("spoolctl.log"));
    assert_eq!(path, r"C:\SpoolCtl\logs\spoolctl.log");
}

#[test]
fn rotate_if_needed_shifts_files() {
    let mut files = vec![
        ("spoolctl.log".to_owned(), "current"),
        (rotated_name("spoolctl.log", 1), "one"),
    ];
    for step in rotate_if_needed("spoolctl.log", Some(7), 1, 3) {
        match step {
            FileStep::Remove(name) => files.retain(|f| f.0 != name),
            FileStep::Rename { from, to } => {
                files.retain(|f| f.0 != to);
                if let Some(file) = files.iter_mut().find(|f| f.0 == from) {
                    file.0 = to;
                }
            }
        }
    }
    let at = |name: String| files.iter().find(|f| f.0 == name).map(|f| f.1);
    assert_eq!(at("spoolctl.log".to_owned()), None);
    assert_eq!(at(rotated_name("spoolctl.log", 1)), Some("current"));
    assert_eq!(at(rotated_name("spoolctl.log", 2)), Some("one"));
}

#[test]
fn rotation_steps_in_order() {
    let steps = rotate_if_needed("l", Some(MAX_LOG_BYTES + 1), MAX_LOG_BYTES, ROTATED_FILES);
    let rename = |from: &str, to: &str| FileStep::Rename {
        from: from.to_owned(),
        to: to.to_owned(),
    };
    assert_eq!(
        steps,
        vec![
            FileStep::Remove("l.3".to_owned()),
            rename("l.2", "l.3"),
            rename("l.1", "l.2"),
            rename("l", "l.1"),
        ]
    );
}

#[test]
fn short_logs_stay() {
    assert!(rotate_if_needed("l", Some(MAX_LOG_BYTES - 1), MAX_LOG_BYTES, 3).is_empty());
    assert!(rotate_if_needed("l", Some(MAX_LOG_BYTES), MAX_LOG_BYTES, 3).is_empty());
    assert!(rotate_if_needed("l", None, 0, 3).is_empty());
    assert!(rotate_if_needed("l", Some(10), 1, 0).is_empty());
    assert_eq!(rotated_name("l", 0), "l.0");
}

#[test]
fn records_of_each_level() {
    assert_eq!(info(MORNING, " a\nb "), "2024-03-07 08:05:59 [INFO] a b\n");
    assert_eq!(warn(MORNING, "x"), "2024-03-07 08:05:59 [WARN] x\n");
    assert_eq!(error(MORNING, "x"), "2024-03-07 08:05:59 [ERROR] x\n");
    assert_eq!(write_line(MORNING, Level::Info, "x"), info(MORNING, "x"));
    assert_eq!(write_line(MORNING, Level::Warn, "x"), warn(MORNING, "x"));
    assert_eq!(write_line(MORNING, Level::Error, "x"), error(MORNING, "x"));
    assert_eq!(timestamp(LocalTime { year: 12345, ..MORNING }), "12345-03-07 08:05:59");
}

#[test]
fn long_messages_are_cut() {
    let text = "я".repeat(600);
    assert_eq!(sanitize(&text), "я".repeat(500));
    assert_eq!(sanitize("  \r\n "), "");
}

#[test]
fn the_tail_of_a_log() {
    let all: Vec<String> = ["a", "b", "c"].iter().map(|s| s.to_string()).collect();
    assert_eq!(read_tail(&all, 2), vec!["b", "c"]);
    assert_eq!(read_tail(&all, 3), all);
    assert_eq!(read_tail(&all, 9), all);
    assert!(read_tail(&all, 0).is_empty());
}

#[test]
fn where_the_log_is() {
    assert_eq!(log_dir(None, Some(r"C:\L"), r"C:\T"), r"C:\L\SpoolCtl\logs");
    assert_eq!(log_dir(None, None, r"C:\T\"), r"C:\T\SpoolCtl\logs");
    assert_eq!(logs_beside(r"D:\x"), r"D:\x\logs");
    assert_eq!(open_log_dir("ab"), vec![97, 98, 0]);
    assert_eq!(log_dir_opened(42), Ok(()));
    assert_eq!(
        log_dir_opened(32),
        Err("Не удалось открыть папку журнала (код 32).".to_owned())
    );
}
