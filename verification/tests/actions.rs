use volume_scroller::actions::{
    menu_action, needs_fullscreen_check, raises_volume, scroll_direction,
    should_show_settings_on_launch, startup_command, tray_action, volume_change_direction,
    MenuAction, TrayAction,
};
use volume_scroller::preferences::Preferences;

fn down_increases() -> Preferences {
    let mut p = Preferences::default();
    p.scroll_direction = "downIncreases".to_string();
    p
}

#[test]
fn scroll_direction_follows_the_preference() {
    let p = Preferences::default();
    assert_eq!(scroll_direction(&p, 1), 1);
    assert_eq!(scroll_direction(&p, -1), -1);
    let p = down_increases();
    assert_eq!(scroll_direction(&p, 1), -1);
    assert_eq!(scroll_direction(&p, -1), 1);
    assert_eq!(scroll_direction(&p, scroll_direction(&p, 5)), 5);
}

#[test]
fn disabled_scroller_changes_nothing() {
    let mut p = Preferences::default();
    p.scroller_enabled = false;
    assert_eq!(volume_change_direction(&p, 1, false), None);
    assert!(!needs_fullscreen_check(&p));
}

#[test]
fn fullscreen_pauses_only_when_asked() {
    let p = Preferences::default();
    assert!(needs_fullscreen_check(&p));
    assert_eq!(volume_change_direction(&p, 1, true), None);
    assert_eq!(volume_change_direction(&p, 1, false), Some(1));

    let mut p = Preferences::default();
    p.pause_in_fullscreen_apps = false;
    assert!(!needs_fullscreen_check(&p));
    assert_eq!(volume_change_direction(&p, -1, true), Some(-1));

    let p = down_increases();
    assert_eq!(volume_change_direction(&p, 1, false), Some(-1));
}

#[test]
fn raising_the_volume() {
    assert!(raises_volume(1));
    assert!(!raises_volume(0));
    assert!(!raises_volume(-1));
}

#[test]
fn settings_at_launch() {
    let p = Preferences::default();
    assert!(!should_show_settings_on_launch(&p));
    let mut p = Preferences::default();
    p.start_minimized_to_tray = false;
    assert!(should_show_settings_on_launch(&p));
    let mut p = Preferences::default();
    p.show_tray_icon = false;
    assert!(should_show_settings_on_launch(&p));
}

#[test]
fn tray_icon_follows_the_preference() {
    let p = Preferences::default();
    assert_eq!(tray_action(&p, false), TrayAction::Create);
    assert_eq!(tray_action(&p, true), TrayAction::Keep);
    let mut p = Preferences::default();
    p.show_tray_icon = false;
    assert_eq!(tray_action(&p, true), TrayAction::Remove);
    assert_eq!(tray_action(&p, false), TrayAction::Remove);
}

#[test]
fn startup_command_quotes_the_path() {
    let mut p = Preferences::default();
    assert_eq!(startup_command(&p, "C:\\Apps\\scroller.exe"), None);
    p.launch_at_startup = true;
    assert_eq!(
        startup_command(&p, "C:\\Apps\\scroller.exe").as_deref(),
        Some("\"C:\\Apps\\scroller.exe\" --minimized")
    );
    p.start_minimized_to_tray = false;
    assert_eq!(
        startup_command(&p, "C:\\Program Files\\scroller.exe").as_deref(),
        Some("\"C:\\Program Files\\scroller.exe\"")
    );
}

#[test]
fn menu_items() {
    assert_eq!(menu_action("settings"), Some(MenuAction::ShowSettings));
    assert_eq!(menu_action("check-updates"), Some(MenuAction::CheckForUpdates));
    assert_eq!(menu_action("quit"), Some(MenuAction::Quit));
    assert_eq!(menu_action("Quit"), None);
    assert_eq!(menu_action(""), None);
}
