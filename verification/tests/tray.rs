use spoolctl::tray::{
    first_tip, icon_ready, icon_ready_log_ru, menu_choice, menu_items, not_ready_ru,
    pump_goes_on, setup_failed, shut_down, tray_message, tray_steps, write_wide, AppTray, Cleanup,
    Ready, SetupFailure, TrayAct, TrayCmd, TrayStep, ID_QUIT, READY_TRIES, WM_COMMAND,
    WM_CONTEXTMENU, WM_CREATE, WM_DESTROY, WM_LBUTTONDBLCLK, WM_LBUTTONUP, WM_RBUTTONUP,
    WM_SPOOLCTL_ACTIVATE, WM_TRAYICON,
};

#[test]
fn commands_come_in_order() {
    let mut t = AppTray::empty();
    assert_eq!(t.poll(), None);
    t.send(TrayCmd::Hide);
    t.send(TrayCmd::Show);
    assert_eq!(t.poll(), Some(TrayCmd::Hide));
    assert_eq!(t.poll(), Some(TrayCmd::Show));
    assert_eq!(t.poll(), None);
}

#[test]
fn leave_to_end_is_used_up() {
    let mut t = AppTray::empty();
    assert!(!t.take_allow_exit());
    t.allow_exit();
    assert!(t.take_allow_exit());
    assert!(!t.take_allow_exit());
}

#[test]
fn messages_of_the_icon() {
    assert_eq!(tray_message(WM_CREATE, 0, 0), TrayAct::Attach);
    assert_eq!(tray_message(WM_TRAYICON, 0, WM_LBUTTONUP), TrayAct::Show);
    assert_eq!(tray_message(WM_TRAYICON, 0, 0x5_0000 + WM_LBUTTONDBLCLK), TrayAct::Show);
    assert_eq!(tray_message(WM_TRAYICON, 0, WM_RBUTTONUP), TrayAct::Menu);
    assert_eq!(tray_message(WM_TRAYICON, 0, WM_CONTEXTMENU), TrayAct::Menu);
    assert_eq!(tray_message(WM_TRAYICON, 0, 0x200), TrayAct::Ignore);
    assert_eq!(tray_message(WM_SPOOLCTL_ACTIVATE, 0, 0), TrayAct::Show);
    assert_eq!(tray_message(WM_COMMAND, 0x1_0002, 0), TrayAct::Hide);
    assert_eq!(tray_message(WM_COMMAND, ID_QUIT, 0), TrayAct::Quit);
    assert_eq!(tray_message(WM_COMMAND, 9, 0), TrayAct::Ignore);
    assert_eq!(tray_message(WM_DESTROY, 0, 0), TrayAct::Ignore);
    assert_eq!(tray_message(0x10, 0, 0), TrayAct::Default);
    assert_eq!(menu_choice(1), TrayAct::Show);
    assert_eq!(menu_choice(0), TrayAct::Ignore);
}

#[test]
fn what_the_icon_does() {
    assert_eq!(
        tray_steps(TrayAct::Show),
        vec![TrayStep::ShowMain, TrayStep::Send(TrayCmd::Show)]
    );
    assert_eq!(
        tray_steps(TrayAct::Hide),
        vec![TrayStep::HideMain, TrayStep::Send(TrayCmd::Hide)]
    );
    assert_eq!(
        tray_steps(TrayAct::Quit),
        vec![
            TrayStep::AllowExit,
            TrayStep::ShowMain,
            TrayStep::Send(TrayCmd::Quit),
            TrayStep::CloseMain
        ]
    );
    assert!(tray_steps(TrayAct::Menu).is_empty());
    let items = menu_items();
    assert_eq!(items[0], (1, "Показать окно"));
    assert_eq!(items[1], (2, "Скрыть в трей"));
    assert_eq!(items[2], (3, "Выход"));
}

#[test]
fn texts_in_buffers() {
    assert_eq!(write_wide(4, "ab"), vec![97, 98, 0, 0]);
    assert_eq!(write_wide(3, "abc"), vec![97, 98, 0]);
    assert_eq!(write_wide(1, "abc"), vec![0]);
    assert!(write_wide(0, "abc").is_empty());
    assert_eq!(first_tip("0.2.0"), "SpoolCtl 0.2.0\nЛКМ — окно, ПКМ — меню");
}

#[test]
fn waiting_for_the_icon() {
    assert_eq!(icon_ready(true, 99), Ready::Yes);
    assert_eq!(icon_ready(false, READY_TRIES - 1), Ready::Wait);
    assert_eq!(icon_ready(false, READY_TRIES), Ready::No);
    assert_eq!(not_ready_ru(), "Иконка трея не зарегистрировалась вовремя");
    assert!(icon_ready_log_ru().contains("зарегистрирована"));
    assert!(pump_goes_on(1));
    assert!(!pump_goes_on(0));
    assert!(!pump_goes_on(-1));
}

#[test]
fn nothing_is_left_behind() {
    let (steps, text) = setup_failed(&SetupFailure::Module("e".to_owned()));
    assert!(steps.is_empty());
    assert_eq!(text, "GetModuleHandle: e");
    let (steps, text) = setup_failed(&SetupFailure::Window("e".to_owned()));
    assert_eq!(steps, vec![Cleanup::FreeSender]);
    assert_eq!(text, "CreateWindowEx (tray): e");
    let (steps, text) = setup_failed(&SetupFailure::Icon);
    assert_eq!(steps, vec![Cleanup::DestroyWindow, Cleanup::FreeSender]);
    assert_eq!(text, "Shell_NotifyIcon(NIM_ADD) вернул FALSE");
    assert_eq!(
        shut_down(5, 6),
        vec![
            Cleanup::RemoveIcon,
            Cleanup::FreePicture,
            Cleanup::DestroyWindow,
            Cleanup::FreeSender
        ]
    );
    for own in [6, 0, -1] {
        assert_eq!(
            shut_down(own, 6),
            vec![Cleanup::RemoveIcon, Cleanup::DestroyWindow, Cleanup::FreeSender]
        );
    }
}
