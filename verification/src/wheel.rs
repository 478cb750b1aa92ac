//! Wheel deltas over the taskbar, turned into volume steps.

use vstd::prelude::*;

use crate::arith::{abs_int, sign_int, trunc_div};

verus! {

/// The delta of one full notch of a classic mouse wheel.
pub const WHEEL_DELTA: i32 = 120;

/// The delta that counts as one step for high-resolution wheels and touchpads.
pub const PRECISION_WHEEL_DELTA: i32 = 30;

/// The amount of accumulated delta that makes one step: a full notch for a
/// delta of at least one notch, a precision step otherwise.
pub open spec fn wheel_threshold(delta: int) -> int {
    if abs_int(delta) >= WHEEL_DELTA as int {
        WHEEL_DELTA as int
    } else {
        PRECISION_WHEEL_DELTA as int
    }
}

/// How many steps a delta makes when `remainder` is already pending.
pub open spec fn wheel_step_count(remainder: int, delta: int) -> int {
    trunc_div(remainder + delta, wheel_threshold(delta))
}

/// What stays pending after those steps are taken.
pub open spec fn wheel_remainder_after(remainder: int, delta: int) -> int {
    remainder + delta - wheel_step_count(remainder, delta) * wheel_threshold(delta)
}

/// Adds `delta` to the accumulated `remainder` and takes as many whole steps
/// out of it as it holds, towards zero. Returns the signed number of steps;
/// what is left stays in `remainder`.
pub fn wheel_steps(remainder: &mut i32, delta: i16) -> (steps: i32)
    requires
        i32::MIN < *old(remainder) + delta <= i32::MAX,
    ensures
        steps == wheel_step_count(*old(remainder) as int, delta as int),
        *final(remainder) == wheel_remainder_after(*old(remainder) as int, delta as int),
{
    let d: i32 = delta as i32;
    let magnitude: i32 = if d < 0 { -d } else { d };
    let threshold: i32 = if magnitude >= WHEEL_DELTA { WHEEL_DELTA } else { PRECISION_WHEEL_DELTA };

    *remainder = *remainder + d;
    let ghost total: int = *remainder as int;
    let ghost mut consumed: int = 0;
    let mut steps: i32 = 0;

    while *remainder >= threshold || *remainder <= -threshold
        invariant
            threshold == wheel_threshold(delta as int),
            threshold == 30 || threshold == 120,
            i32::MIN < total <= i32::MAX,
            *remainder + consumed == total,
            consumed == steps * threshold,
            total >= 0 ==> 0 <= *remainder && 0 <= steps && 30 * steps <= consumed,
            total < 0 ==> *remainder <= 0 && steps <= 0 && 30 * steps >= consumed,
        decreases abs_int(*remainder as int),
    {
        let direction: i32 = if *remainder > 0 { 1 } else { -1 };
        *remainder = *remainder - direction * threshold;
        proof {
            assert((steps + direction) * threshold == steps * threshold + direction * threshold)
                by (nonlinear_arith);
            consumed = consumed + direction * threshold;
        }
        steps = steps + direction;
    }

    proof {
        let r: int = *remainder as int;
        if total >= 0 {
            vstd::arithmetic::div_mod::lemma_fundamental_div_mod_converse(
                total,
                threshold as int,
                steps as int,
                r,
            );
        } else {
            assert(-total == (-steps) * threshold + (-r)) by (nonlinear_arith)
                requires
                    r + steps * threshold == total,
            ;
            vstd::arithmetic::div_mod::lemma_fundamental_div_mod_converse(
                -total,
                threshold as int,
                -steps,
                -r,
            );
        }
    }
    steps
}

/// A step never loses or invents delta: the steps taken, times the threshold,
/// plus what stays pending, is the pending remainder plus the new delta; what
/// stays pending is less than one threshold and lies on the same side of zero
/// as that sum.
pub proof fn lemma_wheel_steps_conserve(remainder: int, delta: int)
    ensures
        wheel_step_count(remainder, delta) * wheel_threshold(delta) + wheel_remainder_after(
            remainder,
            delta,
        ) == remainder + delta,
        abs_int(wheel_remainder_after(remainder, delta)) < wheel_threshold(delta),
        wheel_remainder_after(remainder, delta) == 0 || sign_int(
            wheel_remainder_after(remainder, delta),
        ) == sign_int(remainder + delta),
{
    let total = remainder + delta;
    let t = wheel_threshold(delta);
    if total >= 0 {
        vstd::arithmetic::div_mod::lemma_fundamental_div_mod(total, t);
        assert(total / t * t == t * (total / t)) by (nonlinear_arith);
    } else {
        vstd::arithmetic::div_mod::lemma_fundamental_div_mod(-total, t);
        assert((-total) / t * t == t * ((-total) / t)) by (nonlinear_arith);
        assert(-((-total) / t) * t == -((-total) / t * t)) by (nonlinear_arith);
    }
}

/// Whole notches turned from rest make exactly as many steps, in their
/// direction, and leave nothing pending.
pub proof fn lemma_whole_notches_from_rest(notches: int)
    requires
        notches != 0,
    ensures
        wheel_step_count(0, notches * WHEEL_DELTA) == notches,
        wheel_remainder_after(0, notches * WHEEL_DELTA) == 0,
{
    let delta = notches * WHEEL_DELTA;
    assert(abs_int(delta) >= WHEEL_DELTA) by (nonlinear_arith)
        requires
            delta == notches * 120,
            notches != 0,
    ;
    if notches > 0 {
        vstd::arithmetic::div_mod::lemma_div_multiples_vanish(notches, 120);
        assert(120 * notches == delta);
    } else {
        vstd::arithmetic::div_mod::lemma_div_multiples_vanish(-notches, 120);
        assert(120 * (-notches) == -delta) by (nonlinear_arith)
            requires
                delta == notches * 120,
        ;
    }
}

/// One wheel event seen over the taskbar, reduced to one volume step.
#[derive(Clone, Copy)]
pub struct TaskbarScroll {
    /// 1 for a step up (or right), -1 for a step down (or left).
    pub direction: i32,
    pub point_x: i32,
    pub point_y: i32,
}

/// The window message of a vertical wheel turn.
pub const WM_MOUSEWHEEL: u32 = 0x020A;

/// The window message of a horizontal wheel turn.
pub const WM_MOUSEHWHEEL: u32 = 0x020E;

/// Whether a low-level mouse hook call carries a wheel turn that the hook
/// may handle: the hook code is not negative and the message is one of the
/// two wheel messages.
pub fn is_wheel_message(code: i32, message: u32) -> (r: bool)
    ensures
        r == (code >= 0 && (message == WM_MOUSEWHEEL || message == WM_MOUSEHWHEEL)),
{
    code >= 0 && (message == WM_MOUSEWHEEL || message == WM_MOUSEHWHEEL)
}

/// The signed wheel delta held in the high word of a hook's mouse data.
pub fn wheel_delta(mouse_data: u32) -> (delta: i16)
    ensures
        delta as int == (if mouse_data / 65536 >= 32768 {
            mouse_data / 65536 - 65536
        } else {
            (mouse_data / 65536) as int
        }),
{
    let high: u32 = (mouse_data >> 16) & 0xffff;
    assert(high == mouse_data / 65536) by (bit_vector)
        requires
            high == (mouse_data >> 16) & 0xffff,
    ;
    let delta = high as i16;
    assert(high < 32768 ==> delta == high) by (bit_vector)
        requires
            delta == high as i16,
            high < 65536,
    ;
    assert(high >= 32768 ==> delta == high - 65536) by (bit_vector)
        requires
            delta == high as i16,
            high < 65536,
    ;
    delta
}

/// The wheel delta that has not yet made a whole step, kept apart for the
/// vertical and the horizontal wheel.
pub struct WheelAccumulator {
    vertical_remainder: i32,
    horizontal_remainder: i32,
}

impl WheelAccumulator {
    /// Both remainders stay below one notch on either side of zero.
    #[verifier::type_invariant]
    spec fn remainders_below_one_notch(self) -> bool {
        &&& -WHEEL_DELTA < self.vertical_remainder < WHEEL_DELTA
        &&& -WHEEL_DELTA < self.horizontal_remainder < WHEEL_DELTA
    }

    /// The pending vertical delta.
    pub closed spec fn vertical(self) -> int {
        self.vertical_remainder as int
    }

    /// The pending horizontal delta.
    pub closed spec fn horizontal(self) -> int {
        self.horizontal_remainder as int
    }

    /// The pending delta of the wheel that `message` comes from.
    pub open spec fn pending_for(self, message: u32) -> int {
        if message == WM_MOUSEHWHEEL {
            self.horizontal()
        } else {
            self.vertical()
        }
    }

    /// An accumulator with nothing pending.
    pub fn new() -> (acc: Self)
        ensures
            acc.vertical() == 0,
            acc.horizontal() == 0,
    {
        WheelAccumulator { vertical_remainder: 0, horizontal_remainder: 0 }
    }

    /// The pending vertical delta, always less than one notch from zero.
    pub fn vertical_remainder(&self) -> (r: i32)
        ensures
            r == self.vertical(),
            -WHEEL_DELTA < r < WHEEL_DELTA,
    {
        proof {
            use_type_invariant(self);
        }
        self.vertical_remainder
    }

    /// The pending horizontal delta, always less than one notch from zero.
    pub fn horizontal_remainder(&self) -> (r: i32)
        ensures
            r == self.horizontal(),
            -WHEEL_DELTA < r < WHEEL_DELTA,
    {
        proof {
            use_type_invariant(self);
        }
        self.horizontal_remainder
    }

    /// Adds a wheel delta to the remainder of its wheel (the horizontal one
    /// for `WM_MOUSEHWHEEL`, the vertical one otherwise) and returns one
    /// scroll event per whole step taken, all with the step's direction and
    /// the point of the turn. The other wheel's remainder is left unchanged.
    pub fn dispatch(&mut self, message: u32, delta: i16, point_x: i32, point_y: i32) -> (events:
        Vec<TaskbarScroll>)
        ensures
            final(self).pending_for(message) == wheel_remainder_after(
                old(self).pending_for(message),
                delta as int,
            ),
            message == WM_MOUSEHWHEEL ==> final(self).vertical() == old(self).vertical(),
            message != WM_MOUSEHWHEEL ==> final(self).horizontal() == old(self).horizontal(),
            events@.len() == abs_int(wheel_step_count(old(self).pending_for(message), delta as int)),
            forall|i: int|
                0 <= i < events@.len() ==> #[trigger] events@[i] == (TaskbarScroll {
                    direction: sign_int(
                        wheel_step_count(old(self).pending_for(message), delta as int),
                    ) as i32,
                    point_x,
                    point_y,
                }),
    {
        proof {
            use_type_invariant(&*self);
        }
        let horizontal = message == WM_MOUSEHWHEEL;
        let mut remainder: i32 = if horizontal {
            self.horizontal_remainder
        } else {
            self.vertical_remainder
        };
        let ghost before: int = remainder as int;
        let steps = wheel_steps(&mut remainder, delta);
        proof {
            lemma_wheel_steps_conserve(before, delta as int);
        }
        if horizontal {
            self.horizontal_remainder = remainder;
        } else {
            self.vertical_remainder = remainder;
        }

        let count: i32 = if steps < 0 { -steps } else { steps };
        let direction: i32 = if steps > 0 { 1 } else if steps < 0 { -1 } else { 0 };
        let mut events: Vec<TaskbarScroll> = Vec::new();
        let mut sent: i32 = 0;
        while sent < count
            invariant
                0 <= sent <= count,
                events@.len() == sent,
                forall|i: int|
                    0 <= i < events@.len() ==> #[trigger] events@[i] == (TaskbarScroll {
                        direction,
                        point_x,
                        point_y,
                    }),
            decreases count - sent,
        {
            events.push(TaskbarScroll { direction, point_x, point_y });
            sent = sent + 1;
        }
        events
    }
}

/// A delta of at least one notch either way is counted in notches; a smaller
/// one in precision steps.
pub proof fn lemma_threshold_by_delta(delta: int)
    ensures
        delta >= 120 || delta <= -120 ==> wheel_threshold(delta) == 120,
        -120 < delta < 120 ==> wheel_threshold(delta) == 30,
{
}

} // verus!
