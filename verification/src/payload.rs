//! What the application tells the overlay and the settings window.

use vstd::prelude::*;

use crate::arith::clamp_int;

verus! {

/// A reading of the system volume: the level in percent, already rounded to
/// a whole number, and whether the output is muted.
#[derive(Clone, Copy)]
pub struct VolumeReading {
    pub percent: i64,
    pub muted: bool,
}

/// The volume shown by the overlay, with the direction of the change that
/// led to it (0 when nothing changed).
#[derive(Clone, Copy)]
pub struct VolumePayload {
    pub volume: u8,
    pub muted: bool,
    pub direction: i32,
}

impl VolumePayload {
    /// The payload of a volume reading: the percentage clamped to `0..=100`.
    pub fn from_state(state: VolumeReading, direction: i32) -> (payload: Self)
        ensures
            payload.volume == clamp_int(state.percent as int, 0, 100),
            payload.muted == state.muted,
            payload.direction == direction,
    {
        let volume: i64 = if state.percent < 0 {
            0
        } else if state.percent > 100 {
            100
        } else {
            state.percent
        };
        VolumePayload { volume: volume as u8, muted: state.muted, direction }
    }
}

/// The payload that a preview shows: the current volume when it could be
/// read, otherwise a full, unmuted volume.
pub fn preview_payload(reading: Option<VolumeReading>) -> (payload: VolumePayload)
    ensures
        reading matches Some(state) ==> payload.volume == clamp_int(state.percent as int, 0, 100)
            && payload.muted == state.muted && payload.direction == 0,
        reading is None ==> payload.volume == 100 && !payload.muted && payload.direction == 0,
{
    match reading {
        Some(state) => VolumePayload::from_state(state, 0),
        None => VolumePayload { volume: 100, muted: false, direction: 0 },
    }
}

/// The answer to a check for updates.
pub struct UpdateStatus {
    pub checked: bool,
    pub current_version: String,
    pub message: String,
}

impl UpdateStatus {
    /// The answer of a build that has no update provider: checked, with the
    /// running version and a message that says no provider is configured.
    pub fn without_provider(current_version: String) -> (status: Self)
        ensures
            status.checked,
            status.current_version@ == current_version@,
            status.message@ == "No update provider is configured for this build."@,
    {
        UpdateStatus {
            checked: true,
            current_version,
            message: "No update provider is configured for this build.".to_owned(),
        }
    }
}

} // verus!
