use focus_tasks::tray::TrayAction;

#[test]
fn tray_menu_ids_round_trip() {
    for action in [TrayAction::Show, TrayAction::Hide, TrayAction::Quit] {
        assert_eq!(TrayAction::from_menu_id(action.menu_id()), Some(action));
    }
    assert_eq!(TrayAction::Show.menu_id(), "tray_show");
    assert_eq!(TrayAction::Hide.menu_id(), "tray_hide");
    assert_eq!(TrayAction::Quit.menu_id(), "tray_quit");
}

#[test]
fn tray_unknown_menu_id() {
    assert_eq!(TrayAction::from_menu_id("tray_other"), None);
    assert_eq!(TrayAction::from_menu_id(""), None);
}
