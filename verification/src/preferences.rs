//! The user's preferences, their defaults, and how stored values are brought
//! back to the values the application understands.
//!
//! The overlay's size and the scroll increment are floating-point values;
//! the application keeps and clamps those next to this record.

use vstd::prelude::*;

use crate::arith::{clamp_i32, clamp_int};
use crate::text::text_eq;

verus! {

/// The most an overlay may be moved from its anchor, in either direction.
pub const MAX_OVERLAY_OFFSET: i32 = 400;

/// The preferences that the settings window edits and the application obeys.
pub struct Preferences {
    pub scroller_enabled: bool,
    pub launch_at_startup: bool,
    pub start_minimized_to_tray: bool,
    /// "upIncreases" or "downIncreases".
    pub scroll_direction: String,
    pub pause_while_hovering: bool,
    pub pause_in_fullscreen_apps: bool,
    pub show_tray_icon: bool,
    pub check_for_updates_automatically: bool,
    /// "left", "center" or "right".
    pub horizontal_position: String,
    /// "top", "center" or "bottom".
    pub vertical_position: String,
    pub horizontal_offset: i32,
    pub vertical_offset: i32,
    /// "monochrome", "windows11", "ubuntu" or "solarized".
    pub theme: String,
}

/// The preferences as mathematical values: texts as character sequences.
pub struct PreferencesView {
    pub scroller_enabled: bool,
    pub launch_at_startup: bool,
    pub start_minimized_to_tray: bool,
    pub scroll_direction: Seq<char>,
    pub pause_while_hovering: bool,
    pub pause_in_fullscreen_apps: bool,
    pub show_tray_icon: bool,
    pub check_for_updates_automatically: bool,
    pub horizontal_position: Seq<char>,
    pub vertical_position: Seq<char>,
    pub horizontal_offset: int,
    pub vertical_offset: int,
    pub theme: Seq<char>,
}

impl View for Preferences {
    type V = PreferencesView;

    open spec fn view(&self) -> PreferencesView {
        PreferencesView {
            scroller_enabled: self.scroller_enabled,
            launch_at_startup: self.launch_at_startup,
            start_minimized_to_tray: self.start_minimized_to_tray,
            scroll_direction: self.scroll_direction@,
            pause_while_hovering: self.pause_while_hovering,
            pause_in_fullscreen_apps: self.pause_in_fullscreen_apps,
            show_tray_icon: self.show_tray_icon,
            check_for_updates_automatically: self.check_for_updates_automatically,
            horizontal_position: self.horizontal_position@,
            vertical_position: self.vertical_position@,
            horizontal_offset: self.horizontal_offset as int,
            vertical_offset: self.vertical_offset as int,
            theme: self.theme@,
        }
    }
}

/// A scroll direction that the application knows, or the default one.
pub open spec fn normal_scroll_direction(s: Seq<char>) -> Seq<char> {
    if s == "upIncreases"@ || s == "downIncreases"@ {
        s
    } else {
        "upIncreases"@
    }
}

/// A horizontal anchor that the application knows, or the center.
pub open spec fn normal_horizontal_position(s: Seq<char>) -> Seq<char> {
    if s == "left"@ || s == "center"@ || s == "right"@ {
        s
    } else {
        "center"@
    }
}

/// A vertical anchor that the application knows, or the bottom.
pub open spec fn normal_vertical_position(s: Seq<char>) -> Seq<char> {
    if s == "top"@ || s == "center"@ || s == "bottom"@ {
        s
    } else {
        "bottom"@
    }
}

/// A theme that the application knows, or the default one.
pub open spec fn normal_theme(s: Seq<char>) -> Seq<char> {
    if s == "monochrome"@ || s == "windows11"@ || s == "ubuntu"@ || s == "solarized"@ {
        s
    } else {
        "monochrome"@
    }
}

/// An overlay offset within the allowed range.
pub open spec fn normal_offset(offset: int) -> int {
    clamp_int(offset, -MAX_OVERLAY_OFFSET as int, MAX_OVERLAY_OFFSET as int)
}

impl PreferencesView {
    /// The preferences with every unknown choice replaced by its default and
    /// every offset clamped; the switches are kept as they are.
    pub open spec fn normalized(self) -> PreferencesView {
        PreferencesView {
            scroll_direction: normal_scroll_direction(self.scroll_direction),
            horizontal_position: normal_horizontal_position(self.horizontal_position),
            vertical_position: normal_vertical_position(self.vertical_position),
            horizontal_offset: normal_offset(self.horizontal_offset),
            vertical_offset: normal_offset(self.vertical_offset),
            theme: normal_theme(self.theme),
            ..self
        }
    }

    /// Every choice is one the application knows and every offset is in range.
    pub open spec fn is_normal(self) -> bool {
        &&& normal_scroll_direction(self.scroll_direction) == self.scroll_direction
        &&& normal_horizontal_position(self.horizontal_position) == self.horizontal_position
        &&& normal_vertical_position(self.vertical_position) == self.vertical_position
        &&& normal_theme(self.theme) == self.theme
        &&& -MAX_OVERLAY_OFFSET <= self.horizontal_offset <= MAX_OVERLAY_OFFSET
        &&& -MAX_OVERLAY_OFFSET <= self.vertical_offset <= MAX_OVERLAY_OFFSET
    }
}

/// The preferences of a first start.
pub open spec fn default_preferences() -> PreferencesView {
    PreferencesView {
        scroller_enabled: true,
        launch_at_startup: false,
        start_minimized_to_tray: true,
        scroll_direction: "upIncreases"@,
        pause_while_hovering: true,
        pause_in_fullscreen_apps: true,
        show_tray_icon: true,
        check_for_updates_automatically: true,
        horizontal_position: "center"@,
        vertical_position: "bottom"@,
        horizontal_offset: 0,
        vertical_offset: 76,
        theme: "monochrome"@,
    }
}

/// The theme of a first start.
pub fn default_theme() -> (theme: String)
    ensures
        theme@ == "monochrome"@,
{
    "monochrome".to_owned()
}

/// The scroll direction of a first start: scrolling up raises the volume.
pub fn default_scroll_direction() -> (direction: String)
    ensures
        direction@ == "upIncreases"@,
{
    "upIncreases".to_owned()
}

/// The value of the switches that are on unless the user turned them off.
pub fn default_true() -> (on: bool)
    ensures
        on,
{
    true
}

impl Default for Preferences {
    fn default() -> (preferences: Self)
        ensures
            preferences@ == default_preferences(),
    {
        Preferences {
            scroller_enabled: true,
            launch_at_startup: false,
            start_minimized_to_tray: true,
            scroll_direction: default_scroll_direction(),
            pause_while_hovering: true,
            pause_in_fullscreen_apps: true,
            show_tray_icon: true,
            check_for_updates_automatically: true,
            horizontal_position: "center".to_owned(),
            vertical_position: "bottom".to_owned(),
            horizontal_offset: 0,
            vertical_offset: 76,
            theme: default_theme(),
        }
    }
}

/// Replaces every unknown choice by its default and clamps both offsets to
/// `-400..=400`; the switches are kept as they are.
pub fn normalize_preferences(preferences: Preferences) -> (normal: Preferences)
    ensures
        normal@ == preferences@.normalized(),
{
    let mut preferences = preferences;

    if !(text_eq(preferences.scroll_direction.as_str(), "upIncreases") || text_eq(
        preferences.scroll_direction.as_str(),
        "downIncreases",
    )) {
        preferences.scroll_direction = default_scroll_direction();
    }

    preferences.horizontal_offset = clamp_i32(
        preferences.horizontal_offset,
        -MAX_OVERLAY_OFFSET,
        MAX_OVERLAY_OFFSET,
    );
    preferences.vertical_offset = clamp_i32(
        preferences.vertical_offset,
        -MAX_OVERLAY_OFFSET,
        MAX_OVERLAY_OFFSET,
    );

    let horizontal = preferences.horizontal_position.as_str();
    if !(text_eq(horizontal, "left") || text_eq(horizontal, "center") || text_eq(
        horizontal,
        "right",
    )) {
        preferences.horizontal_position = "center".to_owned();
    }

    let vertical = preferences.vertical_position.as_str();
    if !(text_eq(vertical, "top") || text_eq(vertical, "center") || text_eq(vertical, "bottom")) {
        preferences.vertical_position = "bottom".to_owned();
    }

    let theme = preferences.theme.as_str();
    if !(text_eq(theme, "monochrome") || text_eq(theme, "windows11") || text_eq(theme, "ubuntu")
        || text_eq(theme, "solarized")) {
        preferences.theme = default_theme();
    }

    preferences
}

/// Normalizing twice changes nothing more than normalizing once.
pub proof fn lemma_normalize_idempotent(preferences: PreferencesView)
    ensures
        preferences.normalized().normalized() == preferences.normalized(),
{
}

/// Normalized preferences are normal, and normal preferences are left as
/// they are by normalizing.
pub proof fn lemma_normalized_is_normal(preferences: PreferencesView)
    ensures
        preferences.normalized().is_normal(),
        preferences.is_normal() ==> preferences.normalized() == preferences,
{
}

/// The preferences of a first start are normal.
pub proof fn lemma_default_is_normal()
    ensures
        default_preferences().is_normal(),
        default_preferences().normalized() == default_preferences(),
{
}

/// Normalizing keeps every switch as it is.
pub proof fn lemma_normalize_keeps_switches(p: PreferencesView)
    ensures
        p.normalized().scroller_enabled == p.scroller_enabled,
        p.normalized().launch_at_startup == p.launch_at_startup,
        p.normalized().start_minimized_to_tray == p.start_minimized_to_tray,
        p.normalized().pause_while_hovering == p.pause_while_hovering,
        p.normalized().pause_in_fullscreen_apps == p.pause_in_fullscreen_apps,
        p.normalized().show_tray_icon == p.show_tray_icon,
        p.normalized().check_for_updates_automatically == p.check_for_updates_automatically,
{
}

/// Each choice is normalized on its own: a value the application knows is
/// kept, any other becomes that choice's default.
pub proof fn lemma_normalize_choices(p: PreferencesView)
    ensures
        p.scroll_direction == "upIncreases"@ || p.scroll_direction == "downIncreases"@
            ==> p.normalized().scroll_direction == p.scroll_direction,
        !(p.scroll_direction == "upIncreases"@ || p.scroll_direction == "downIncreases"@)
            ==> p.normalized().scroll_direction == "upIncreases"@,
        p.horizontal_position == "left"@ || p.horizontal_position == "center"@
            || p.horizontal_position == "right"@ ==> p.normalized().horizontal_position
            == p.horizontal_position,
        !(p.horizontal_position == "left"@ || p.horizontal_position == "center"@
            || p.horizontal_position == "right"@) ==> p.normalized().horizontal_position
            == "center"@,
        p.vertical_position == "top"@ || p.vertical_position == "center"@
            || p.vertical_position == "bottom"@ ==> p.normalized().vertical_position
            == p.vertical_position,
        !(p.vertical_position == "top"@ || p.vertical_position == "center"@
            || p.vertical_position == "bottom"@) ==> p.normalized().vertical_position
            == "bottom"@,
        p.theme == "monochrome"@ || p.theme == "windows11"@ || p.theme == "ubuntu"@ || p.theme
            == "solarized"@ ==> p.normalized().theme == p.theme,
        !(p.theme == "monochrome"@ || p.theme == "windows11"@ || p.theme == "ubuntu"@ || p.theme
            == "solarized"@) ==> p.normalized().theme == "monochrome"@,
{
}

/// An offset within 400 of zero is kept; one beyond it is moved to the
/// nearer bound.
pub proof fn lemma_normalize_offsets(p: PreferencesView)
    ensures
        -400 <= p.horizontal_offset <= 400 ==> p.normalized().horizontal_offset
            == p.horizontal_offset,
        p.horizontal_offset > 400 ==> p.normalized().horizontal_offset == 400,
        p.horizontal_offset < -400 ==> p.normalized().horizontal_offset == -400,
        -400 <= p.vertical_offset <= 400 ==> p.normalized().vertical_offset == p.vertical_offset,
        p.vertical_offset > 400 ==> p.normalized().vertical_offset == 400,
        p.vertical_offset < -400 ==> p.normalized().vertical_offset == -400,
{
}

/// Every field is normalized from itself alone: two preferences that agree
/// on a field agree on it after normalizing, whatever their other fields.
pub proof fn lemma_normalize_fieldwise(p: PreferencesView, q: PreferencesView)
    ensures
        p.scroll_direction == q.scroll_direction ==> p.normalized().scroll_direction
            == q.normalized().scroll_direction,
        p.horizontal_position == q.horizontal_position ==> p.normalized().horizontal_position
            == q.normalized().horizontal_position,
        p.vertical_position == q.vertical_position ==> p.normalized().vertical_position
            == q.normalized().vertical_position,
        p.theme == q.theme ==> p.normalized().theme == q.normalized().theme,
        p.horizontal_offset == q.horizontal_offset ==> p.normalized().horizontal_offset
            == q.normalized().horizontal_offset,
        p.vertical_offset == q.vertical_offset ==> p.normalized().vertical_offset
            == q.normalized().vertical_offset,
        p.launch_at_startup == q.launch_at_startup ==> p.normalized().launch_at_startup
            == q.normalized().launch_at_startup,
        p.scroller_enabled == q.scroller_enabled ==> p.normalized().scroller_enabled
            == q.normalized().scroller_enabled,
{
}

} // verus!
