use spoolctl::host::Host;

#[test]
fn parse_strips_slashes_and_accepts_ip() {
    assert!(Host::parse("").unwrap().is_local());
    assert_eq!(Host::parse(r"\\PC01").unwrap().name(), "PC01");
    assert_eq!(Host::parse("192.168.0.5").unwrap().name(), "192.168.0.5");
}

#[test]
fn parse_rejects_path_chars() {
    assert!(Host::parse(r"PC01\share").is_err());
    assert!(Host::parse("http://x").is_err());
}

#[test]
fn remote_queue_uses_admin_share() {
    let h = Host::parse("OFFICE-PC").unwrap();
    let p = h.printers_queue_dir(Some(r"C:\Windows"), None).unwrap();
    assert!(p.contains(r"\\OFFICE-PC\ADMIN$"));
    assert_eq!(p, r"\\OFFICE-PC\ADMIN$\System32\spool\PRINTERS");
}

#[test]
fn parsed_name_parses_to_itself() {
    let once = Host::parse("  \\\\PC01\\  ").unwrap();
    let twice = Host::parse(once.name()).unwrap();
    assert_eq!(once.name(), "PC01");
    assert!(once.same_host(&twice));
}

#[test]
fn backslashes_around_a_name_do_not_matter() {
    let bare = Host::parse("PC01").unwrap();
    let dressed = Host::parse(r"\\\PC01\\").unwrap();
    assert!(bare.same_host(&dressed));
}

#[test]
fn white_space_inside_is_kept() {
    assert_eq!(Host::parse(" PC 01 ").unwrap().name(), "PC 01");
    assert!(Host::parse("PC/01").is_err());
    assert!(Host::parse("PC:01").is_err());
}

#[test]
fn long_names_are_refused() {
    let long = "a".repeat(256);
    assert!(Host::parse(&long).is_err());
    let fits = "a".repeat(255);
    assert_eq!(Host::parse(&fits).unwrap().name(), fits);
}

#[test]
fn only_backslashes_mean_this_computer() {
    assert!(Host::parse(r"\\").unwrap().is_local());
    assert!(Host::parse("   ").unwrap().is_local());
}

#[test]
fn labels_of_targets() {
    assert_eq!(Host::local().label_ru(), "этот ПК");
    assert_eq!(Host::parse("PC01").unwrap().label_ru(), "PC01");
}

#[test]
fn machine_names_are_wide_and_terminated() {
    assert!(Host::local().scm_machine_wide().is_none());
    let wide = Host::parse("PC").unwrap().scm_machine_wide().unwrap();
    assert_eq!(wide, vec![92, 92, 80, 67, 0]);
    assert_eq!(Host::parse("PC").unwrap().winspool_server_wide(), Some(wide));
    assert!(Host::local().winspool_server_wide().is_none());
}

#[test]
fn printers_of_another_computer_are_opened_below_it() {
    assert_eq!(Host::local().printer_open_name("HP"), "HP");
    assert_eq!(Host::parse("PC01").unwrap().printer_open_name("HP"), r"\\PC01\HP");
}

#[test]
fn queue_directory_of_this_computer() {
    let h = Host::local();
    assert_eq!(
        h.printers_queue_dir(Some(r"C:\Windows"), Some(r"D:\Win")).unwrap(),
        r"C:\Windows\System32\spool\PRINTERS"
    );
    assert_eq!(
        h.printers_queue_dir(None, Some(r"D:\Win\")).unwrap(),
        r"D:\Win\System32\spool\PRINTERS"
    );
    assert_eq!(
        h.printers_queue_dir(None, None),
        Err("Не задана переменная SystemRoot.".to_owned())
    );
}

#[test]
fn default_and_clone_of_a_host() {
    assert!(Host::default().is_local());
    let h = Host::parse("PC01").unwrap();
    assert!(h.clone().same_host(&h));
    assert!(!h.same_host(&Host::local()));
}
