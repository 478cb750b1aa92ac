use volume_scroller::preferences::{
    default_scroll_direction, default_theme, default_true, normalize_preferences, Preferences,
    MAX_OVERLAY_OFFSET,
};

fn summary(p: &Preferences) -> (String, String, String, String, i32, i32) {
    (
        p.scroll_direction.clone(),
        p.horizontal_position.clone(),
        p.vertical_position.clone(),
        p.theme.clone(),
        p.horizontal_offset,
        p.vertical_offset,
    )
}

fn switches(p: &Preferences) -> [bool; 8] {
    [
        p.scroller_enabled,
        p.launch_at_startup,
        p.start_minimized_to_tray,
        p.pause_while_hovering,
        p.pause_in_fullscreen_apps,
        p.show_tray_icon,
        p.check_for_updates_automatically,
        false,
    ]
}

#[test]
fn defaults() {
    assert_eq!(default_theme(), "monochrome");
    assert_eq!(default_scroll_direction(), "upIncreases");
    assert!(default_true());
    let p = Preferences::default();
    assert_eq!(
        summary(&p),
        (
            "upIncreases".to_string(),
            "center".to_string(),
            "bottom".to_string(),
            "monochrome".to_string(),
            0,
            76
        )
    );
    assert_eq!(switches(&p), [true, false, true, true, true, true, true, false]);
}

#[test]
fn default_is_left_unchanged_by_normalizing() {
    let normal = normalize_preferences(Preferences::default());
    assert_eq!(summary(&normal), summary(&Preferences::default()));
    assert_eq!(switches(&normal), switches(&Preferences::default()));
}

#[test]
fn unknown_choices_fall_back_to_defaults() {
    let mut p = Preferences::default();
    p.scroll_direction = "sideways".to_string();
    p.horizontal_position = "middle".to_string();
    p.vertical_position = "Top".to_string();
    p.theme = "dark".to_string();
    let normal = normalize_preferences(p);
    assert_eq!(normal.scroll_direction, "upIncreases");
    assert_eq!(normal.horizontal_position, "center");
    assert_eq!(normal.vertical_position, "bottom");
    assert_eq!(normal.theme, "monochrome");
}

#[test]
fn known_choices_are_kept() {
    let mut p = Preferences::default();
    p.scroll_direction = "downIncreases".to_string();
    p.horizontal_position = "right".to_string();
    p.vertical_position = "top".to_string();
    p.theme = "solarized".to_string();
    p.launch_at_startup = true;
    p.scroller_enabled = false;
    let normal = normalize_preferences(p);
    assert_eq!(normal.scroll_direction, "downIncreases");
    assert_eq!(normal.horizontal_position, "right");
    assert_eq!(normal.vertical_position, "top");
    assert_eq!(normal.theme, "solarized");
    assert!(normal.launch_at_startup);
    assert!(!normal.scroller_enabled);
    for theme in ["windows11", "ubuntu"] {
        let mut p = Preferences::default();
        p.theme = theme.to_string();
        assert_eq!(normalize_preferences(p).theme, theme);
    }
    let mut p = Preferences::default();
    p.horizontal_position = "left".to_string();
    p.vertical_position = "center".to_string();
    let normal = normalize_preferences(p);
    assert_eq!(normal.horizontal_position, "left");
    assert_eq!(normal.vertical_position, "center");
}

#[test]
fn offsets_are_clamped() {
    assert_eq!(MAX_OVERLAY_OFFSET, 400);
    let mut p = Preferences::default();
    p.horizontal_offset = 500;
    p.vertical_offset = i32::MIN;
    let normal = normalize_preferences(p);
    assert_eq!(normal.horizontal_offset, 400);
    assert_eq!(normal.vertical_offset, -400);
    let mut p = Preferences::default();
    p.horizontal_offset = -400;
    p.vertical_offset = 399;
    let normal = normalize_preferences(p);
    assert_eq!(normal.horizontal_offset, -400);
    assert_eq!(normal.vertical_offset, 399);
}

#[test]
fn normalizing_twice_is_normalizing_once() {
    let mut p = Preferences::default();
    p.scroll_direction = String::new();
    p.theme = "ubuntu".to_string();
    p.horizontal_offset = 1234;
    p.vertical_position = "bottom ".to_string();
    let once = normalize_preferences(p);
    let once_summary = summary(&once);
    let twice = normalize_preferences(once);
    assert_eq!(summary(&twice), once_summary);
}
