//! Where the volume overlay goes on a monitor.

use vstd::prelude::*;

use crate::arith::{clamp_int, trunc_div};
use crate::preferences::Preferences;
use crate::text::text_eq;

verus! {

/// The unclamped position of a window of `window_length` on a monitor side
/// that starts at `origin` and is `monitor_length` long: at the start for
/// "left" and "top" (moved by `offset` inwards), at the end for "right" and
/// "bottom" (moved by `offset` inwards), centered otherwise (moved by
/// `offset` towards the end).
pub open spec fn anchored_offset_position(
    origin: int,
    monitor_length: int,
    window_length: int,
    anchor: Seq<char>,
    offset: int,
) -> int {
    if anchor == "left"@ || anchor == "top"@ {
        origin + offset
    } else if anchor == "right"@ || anchor == "bottom"@ {
        origin + monitor_length - window_length - offset
    } else {
        origin + trunc_div(monitor_length - window_length, 2) + offset
    }
}

/// The position of the overlay along one side of a monitor, brought into
/// the range of `i32`.
pub fn anchored_position(
    monitor_origin: i32,
    monitor_length: u32,
    window_length: u32,
    anchor: &str,
    offset: i32,
) -> (position: i32)
    ensures
        position == clamp_int(
            anchored_offset_position(
                monitor_origin as int,
                monitor_length as int,
                window_length as int,
                anchor@,
                offset as int,
            ),
            i32::MIN as int,
            i32::MAX as int,
        ),
{
    let origin: i64 = monitor_origin as i64;
    let monitor_length: i64 = monitor_length as i64;
    let window_length: i64 = window_length as i64;
    let offset: i64 = offset as i64;
    let position: i64 = if text_eq(anchor, "left") || text_eq(anchor, "top") {
        origin + offset
    } else if text_eq(anchor, "right") || text_eq(anchor, "bottom") {
        origin + monitor_length - window_length - offset
    } else {
        let spare: i64 = monitor_length - window_length;
        let half: i64 = if spare >= 0 { spare / 2 } else { -((-spare) / 2) };
        origin + half + offset
    };

    let clamped: i64 = if position < i32::MIN as i64 {
        i32::MIN as i64
    } else if position > i32::MAX as i64 {
        i32::MAX as i64
    } else {
        position
    };
    clamped as i32
}

/// Where the overlay's top-left corner goes on a monitor whose top-left
/// corner is at (`monitor_x`, `monitor_y`), for an overlay of the given
/// physical size, following the anchors and offsets of `preferences`.
pub fn overlay_position(
    monitor_x: i32,
    monitor_y: i32,
    monitor_width: u32,
    monitor_height: u32,
    overlay_width: u32,
    overlay_height: u32,
    preferences: &Preferences,
) -> (position: (i32, i32))
    ensures
        position.0 == clamp_int(
            anchored_offset_position(
                monitor_x as int,
                monitor_width as int,
                overlay_width as int,
                preferences@.horizontal_position,
                preferences@.horizontal_offset,
            ),
            i32::MIN as int,
            i32::MAX as int,
        ),
        position.1 == clamp_int(
            anchored_offset_position(
                monitor_y as int,
                monitor_height as int,
                overlay_height as int,
                preferences@.vertical_position,
                preferences@.vertical_offset,
            ),
            i32::MIN as int,
            i32::MAX as int,
        ),
{
    let x = anchored_position(
        monitor_x,
        monitor_width,
        overlay_width,
        preferences.horizontal_position.as_str(),
        preferences.horizontal_offset,
    );
    let y = anchored_position(
        monitor_y,
        monitor_height,
        overlay_height,
        preferences.vertical_position.as_str(),
        preferences.vertical_offset,
    );
    (x, y)
}

/// An overlay anchored at the end of a side sits as far from the end as one
/// anchored at the start, with the same offset, sits from the start.
pub proof fn lemma_end_anchor_mirrors_start(
    origin: int,
    monitor_length: int,
    window_length: int,
    offset: int,
)
    ensures
        origin + monitor_length - (anchored_offset_position(
            origin,
            monitor_length,
            window_length,
            "right"@,
            offset,
        ) + window_length) == anchored_offset_position(
            origin,
            monitor_length,
            window_length,
            "left"@,
            offset,
        ) - origin,
        anchored_offset_position(origin, monitor_length, window_length, "bottom"@, offset)
            == anchored_offset_position(origin, monitor_length, window_length, "right"@, offset),
        anchored_offset_position(origin, monitor_length, window_length, "top"@, offset)
            == anchored_offset_position(origin, monitor_length, window_length, "left"@, offset),
{
    reveal_strlit("left");
    reveal_strlit("top");
    reveal_strlit("right");
    reveal_strlit("bottom");
    assert("left"@.len() == 4 && "top"@.len() == 3);
    assert("right"@.len() == 5 && "bottom"@.len() == 6);
}

/// A centered overlay that fits on the monitor, with no offset, leaves the
/// same space on both sides, or one unit more after it than before it.
pub proof fn lemma_center_is_balanced(origin: int, monitor_length: int, window_length: int)
    requires
        window_length <= monitor_length,
    ensures
        ({
            let position = anchored_offset_position(
                origin,
                monitor_length,
                window_length,
                "center"@,
                0,
            );
            let before = position - origin;
            let after = origin + monitor_length - (position + window_length);
            0 <= after - before <= 1
        }),
{
    reveal_strlit("left");
    reveal_strlit("top");
    reveal_strlit("right");
    reveal_strlit("bottom");
    reveal_strlit("center");
    assert("left"@.len() == 4 && "top"@.len() == 3 && "right"@.len() == 5);
    assert("center"@.len() == 6 && "center"@[0] == 'c' && "bottom"@[0] == 'b');
}

/// Moving the offset by `d` moves the overlay by `d` towards the inside of
/// its anchor: forwards for start anchors and for centered ones, backwards
/// for end anchors, whatever the anchor text is.
pub proof fn lemma_offset_shifts_position(
    origin: int,
    monitor_length: int,
    window_length: int,
    anchor: Seq<char>,
    offset: int,
    d: int,
)
    ensures
        anchored_offset_position(origin, monitor_length, window_length, anchor, offset + d)
            - anchored_offset_position(origin, monitor_length, window_length, anchor, offset)
            == if anchor == "right"@ || anchor == "bottom"@ {
            -d
        } else {
            d
        },
{
    reveal_strlit("left");
    reveal_strlit("top");
    reveal_strlit("right");
    reveal_strlit("bottom");
    assert("left"@.len() == 4 && "top"@.len() == 3);
    assert("right"@.len() == 5 && "bottom"@.len() == 6);
}

/// An overlay at a start anchor lies `offset` after the start of the side;
/// one at an end anchor ends `offset` before the end of the side.
pub proof fn lemma_anchor_gaps(
    origin: int,
    monitor_length: int,
    window_length: int,
    anchor: Seq<char>,
    offset: int,
)
    ensures
        anchor == "left"@ || anchor == "top"@ ==> anchored_offset_position(
            origin,
            monitor_length,
            window_length,
            anchor,
            offset,
        ) - origin == offset,
        anchor == "right"@ || anchor == "bottom"@ ==> origin + monitor_length - (
        anchored_offset_position(origin, monitor_length, window_length, anchor, offset)
            + window_length) == offset,
{
    reveal_strlit("left");
    reveal_strlit("top");
    reveal_strlit("right");
    reveal_strlit("bottom");
    assert("left"@.len() == 4 && "top"@.len() == 3);
    assert("right"@.len() == 5 && "bottom"@.len() == 6);
}

/// With any anchor that is not a start or end anchor ("center" among them),
/// the overlay, taken back by its offset, leaves the same space before and
/// after it up to one unit: one more after it when it fits on the side, one
/// more before it when it does not.
pub proof fn lemma_other_anchors_center(
    origin: int,
    monitor_length: int,
    window_length: int,
    anchor: Seq<char>,
    offset: int,
)
    requires
        anchor != "left"@,
        anchor != "top"@,
        anchor != "right"@,
        anchor != "bottom"@,
    ensures
        ({
            let centered = anchored_offset_position(
                origin,
                monitor_length,
                window_length,
                anchor,
                offset,
            ) - offset;
            let before = centered - origin;
            let after = origin + monitor_length - (centered + window_length);
            &&& window_length <= monitor_length ==> 0 <= after - before <= 1
            &&& window_length > monitor_length ==> -1 <= after - before <= 0
        }),
{
}

/// "center" is one of those anchors: a centered overlay moved by `offset`
/// lies `offset` further than the balanced position.
pub proof fn lemma_center_anchor_with_offset(
    origin: int,
    monitor_length: int,
    window_length: int,
    offset: int,
)
    ensures
        anchored_offset_position(origin, monitor_length, window_length, "center"@, offset)
            == anchored_offset_position(origin, monitor_length, window_length, "center"@, 0)
            + offset,
        window_length <= monitor_length ==> ({
            let centered = anchored_offset_position(
                origin,
                monitor_length,
                window_length,
                "center"@,
                offset,
            ) - offset;
            let before = centered - origin;
            let after = origin + monitor_length - (centered + window_length);
            0 <= after - before <= 1
        }),
{
    reveal_strlit("left");
    reveal_strlit("top");
    reveal_strlit("right");
    reveal_strlit("bottom");
    reveal_strlit("center");
    assert("left"@.len() == 4 && "top"@.len() == 3 && "right"@.len() == 5);
    assert("center"@.len() == 6 && "center"@[0] == 'c' && "bottom"@[0] == 'b');
    lemma_other_anchors_center(origin, monitor_length, window_length, "center"@, offset);
}

} // verus!
