use tray_shell::tray::{
    route_menu_event, tray_menu, MenuAction, MenuEntry, ICON_AS_TEMPLATE, MENU_ON_LEFT_CLICK,
    QUIT_EXIT_CODE, QUIT_ID, QUIT_LABEL, TOGGLE_ID, TOGGLE_LABEL,
};

#[test]
fn menu_holds_toggle_then_quit() {
    assert_eq!(
        tray_menu(),
        vec![
            MenuEntry { id: "toggle", label: "显示/隐藏", enabled: true },
            MenuEntry { id: "quit", label: "退出", enabled: true },
        ]
    );
    assert_eq!((TOGGLE_ID, TOGGLE_LABEL), ("toggle", "显示/隐藏"));
    assert_eq!((QUIT_ID, QUIT_LABEL), ("quit", "退出"));
}

#[test]
fn tray_icon_settings() {
    assert!(ICON_AS_TEMPLATE);
    assert!(MENU_ON_LEFT_CLICK);
}

#[test]
fn quit_ends_the_process_with_code_zero() {
    assert_eq!(route_menu_event("quit"), MenuAction::Quit { code: 0 });
    assert_eq!(QUIT_EXIT_CODE, 0);
}

#[test]
fn toggle_entry_toggles() {
    assert_eq!(route_menu_event("toggle"), MenuAction::Toggle);
}

#[test]
fn unknown_identifiers_are_ignored() {
    for id in ["", "Quit", "QUIT", "toggle ", " toggle", "quit\n", "togglequit", "显示/隐藏", "q"] {
        assert_eq!(route_menu_event(id), MenuAction::Ignore);
    }
}

#[test]
fn every_menu_entry_is_routed() {
    let actions: Vec<MenuAction> = tray_menu().iter().map(|e| route_menu_event(e.id)).collect();
    assert_eq!(actions, vec![MenuAction::Toggle, MenuAction::Quit { code: 0 }]);
}
