//! The decisions the application takes on a wheel step over the taskbar, at
//! launch, for the tray icon, for the start-up entry and for tray menu items.

use vstd::prelude::*;

use crate::preferences::{Preferences, PreferencesView};
use crate::text::text_eq;

verus! {

/// The volume direction of a wheel direction: reversed when the user chose
/// that scrolling down raises the volume.
pub open spec fn oriented_direction(preferences: PreferencesView, raw_direction: int) -> int {
    if preferences.scroll_direction == "downIncreases"@ {
        -raw_direction
    } else {
        raw_direction
    }
}

/// The volume direction of a wheel direction, following the user's choice.
pub fn scroll_direction(preferences: &Preferences, raw_direction: i32) -> (direction: i32)
    requires
        preferences@.scroll_direction == "downIncreases"@ ==> raw_direction != i32::MIN,
    ensures
        direction == oriented_direction(preferences@, raw_direction as int),
{
    if text_eq(preferences.scroll_direction.as_str(), "downIncreases") {
        -raw_direction
    } else {
        raw_direction
    }
}

/// Orienting twice gives back the wheel direction.
pub proof fn lemma_orientation_is_involution(preferences: PreferencesView, raw_direction: int)
    ensures
        oriented_direction(preferences, oriented_direction(preferences, raw_direction))
            == raw_direction,
{
}

/// Whether a wheel step needs to know if a full-screen application is in
/// front: only when the scroller is on and pauses for such applications.
pub fn needs_fullscreen_check(preferences: &Preferences) -> (needed: bool)
    ensures
        needed == (preferences@.scroller_enabled && preferences@.pause_in_fullscreen_apps),
{
    preferences.scroller_enabled && preferences.pause_in_fullscreen_apps
}

/// The volume change of one wheel step over the taskbar: none while the
/// scroller is off, none while a full-screen application is in front and the
/// user asked to pause for it, otherwise one step in the oriented direction.
pub fn volume_change_direction(
    preferences: &Preferences,
    raw_direction: i32,
    fullscreen_active: bool,
) -> (change: Option<i32>)
    requires
        preferences@.scroll_direction == "downIncreases"@ ==> raw_direction != i32::MIN,
    ensures
        change == if !preferences@.scroller_enabled {
            None
        } else if preferences@.pause_in_fullscreen_apps && fullscreen_active {
            None
        } else {
            Some(oriented_direction(preferences@, raw_direction as int) as i32)
        },
{
    if !preferences.scroller_enabled {
        return None;
    }
    if preferences.pause_in_fullscreen_apps && fullscreen_active {
        return None;
    }
    Some(scroll_direction(preferences, raw_direction))
}

/// Whether a volume change raises the volume; raising the volume also
/// unmutes the output.
pub fn raises_volume(direction: i32) -> (raises: bool)
    ensures
        raises == (direction > 0),
{
    direction > 0
}

/// Whether the settings window opens at launch: when the application is not
/// to start hidden in the tray, or when there is no tray icon to reach it by.
pub fn should_show_settings_on_launch(preferences: &Preferences) -> (show: bool)
    ensures
        show == (!preferences@.start_minimized_to_tray || !preferences@.show_tray_icon),
{
    !preferences.start_minimized_to_tray || !preferences.show_tray_icon
}

/// What becomes of the tray icon after the preferences change.
#[derive(Clone, Copy, Debug, PartialEq, Eq, Structural)]
pub enum TrayAction {
    Create,
    Remove,
    Keep,
}

/// The tray icon is created when it is wanted and missing, removed when it is
/// not wanted, and kept otherwise.
pub fn tray_action(preferences: &Preferences, tray_exists: bool) -> (action: TrayAction)
    ensures
        action == if preferences@.show_tray_icon {
            if tray_exists {
                TrayAction::Keep
            } else {
                TrayAction::Create
            }
        } else {
            TrayAction::Remove
        },
{
    if preferences.show_tray_icon {
        if tray_exists {
            TrayAction::Keep
        } else {
            TrayAction::Create
        }
    } else {
        TrayAction::Remove
    }
}

/// The argument that asks the application to start hidden in the tray.
pub open spec fn minimized_argument() -> Seq<char> {
    " --minimized"@
}

/// The command that the start-up entry holds for the executable at
/// `exe_path`: the path in double quotes, followed by the minimized argument
/// when the application is to start hidden. `None` when the application is
/// not to start with the system, in which case the entry is removed.
pub fn startup_command(preferences: &Preferences, exe_path: &str) -> (command: Option<String>)
    ensures
        !preferences@.launch_at_startup ==> command is None,
        preferences@.launch_at_startup ==> command is Some && command.unwrap()@ == "\""@ + exe_path@
            + "\""@ + if preferences@.start_minimized_to_tray {
            minimized_argument()
        } else {
            Seq::<char>::empty()
        },
{
    if !preferences.launch_at_startup {
        return None;
    }
    let mut command: String = "\"".to_owned();
    command.append(exe_path);
    command.append("\"");
    if preferences.start_minimized_to_tray {
        command.append(" --minimized");
    }
    Some(command)
}

/// What a tray menu item asks for.
#[derive(Clone, Copy, Debug, PartialEq, Eq, Structural)]
pub enum MenuAction {
    ShowSettings,
    CheckForUpdates,
    Quit,
}

/// The action of the tray menu item with the given id; `None` for an id the
/// menu does not have.
pub fn menu_action(id: &str) -> (action: Option<MenuAction>)
    ensures
        action == if id@ == "settings"@ {
            Some(MenuAction::ShowSettings)
        } else if id@ == "check-updates"@ {
            Some(MenuAction::CheckForUpdates)
        } else if id@ == "quit"@ {
            Some(MenuAction::Quit)
        } else {
            None
        },
{
    if text_eq(id, "settings") {
        Some(MenuAction::ShowSettings)
    } else if text_eq(id, "check-updates") {
        Some(MenuAction::CheckForUpdates)
    } else if text_eq(id, "quit") {
        Some(MenuAction::Quit)
    } else {
        None
    }
}

/// The orientation depends on the scroll direction choice alone:
/// "downIncreases" reverses the wheel direction, any other choice keeps it,
/// whatever the other preferences are.
pub proof fn lemma_orientation_by_choice(preferences: PreferencesView, raw_direction: int)
    ensures
        preferences.scroll_direction == "downIncreases"@ ==> oriented_direction(
            preferences,
            raw_direction,
        ) == -raw_direction,
        preferences.scroll_direction != "downIncreases"@ ==> oriented_direction(
            preferences,
            raw_direction,
        ) == raw_direction,
{
}

/// Two preferences with the same scroll direction choice orient every wheel
/// direction the same way.
pub proof fn lemma_orientation_ignores_other_preferences(
    p: PreferencesView,
    q: PreferencesView,
    raw_direction: int,
)
    requires
        p.scroll_direction == q.scroll_direction,
    ensures
        oriented_direction(p, raw_direction) == oriented_direction(q, raw_direction),
{
}

} // verus!
