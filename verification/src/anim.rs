//! The animation state: the cube's accumulated angle, the rotation speed,
//! the per-plane toggles, and the timestamp of the last clock tick.
//!
//! Angles and speeds are fixed-point radians and radians per second;
//! timestamps are milliseconds on a monotonic clock the caller supplies.

use vstd::prelude::*;
use crate::fx::{div_i128, trunc_div, SCALE};
use crate::geom::RotationFlags;

verus! {

/// Which rotation plane a toggle command addresses.
#[derive(Clone, Copy, Debug, PartialEq, Eq, Structural)]
pub enum Plane {
    XZ,
    YZ,
    XY,
}

/// One update command: a clock tick carrying the current timestamp in
/// milliseconds, a speed adjustment, or a plane toggle.
#[derive(Clone, Copy, Debug, PartialEq, Eq, Structural)]
pub enum Message {
    Tick(u64),
    IncreaseSpeed,
    DecreaseSpeed,
    ToggleXZ,
    ToggleYZ,
    ToggleXY,
}

/// Milliseconds elapsed between the last recorded timestamp and `now`;
/// a clock that stands still or steps backward yields zero.
pub open spec fn elapsed_ms(last: u64, now: u64) -> int {
    if now >= last {
        now - last
    } else {
        0
    }
}

/// How far one tick at `now` advances the angle: elapsed seconds times
/// the speed, in fixed point. `elapsed_ms * 1000` is the elapsed time in
/// fixed-point seconds; the product with the speed is scaled back down,
/// rounding toward zero.
pub open spec fn tick_delta(speed: int, last: u64, now: u64) -> int {
    trunc_div(elapsed_ms(last, now) * 1000 * speed, SCALE as int)
}

/// The flags after toggling one plane.
pub open spec fn toggle_spec(f: RotationFlags, p: Plane) -> RotationFlags {
    match p {
        Plane::XZ => RotationFlags { xz: !f.xz, yz: f.yz, xy: f.xy },
        Plane::YZ => RotationFlags { xz: f.xz, yz: !f.yz, xy: f.xy },
        Plane::XY => RotationFlags { xz: f.xz, yz: f.yz, xy: !f.xy },
    }
}

/// The mutable animation state, updated by one command at a time.
#[derive(Clone, Copy, Debug, PartialEq, Eq, Structural)]
pub struct AnimationState {
    /// Timestamp of the last tick, in milliseconds.
    pub last: u64,
    /// Accumulated rotation angle, fixed-point radians, unbounded.
    pub angle: i64,
    /// Rotation speed, fixed-point radians per second, signed.
    pub speed: i64,
    /// Which rotation planes are active.
    pub flags: RotationFlags,
}

impl AnimationState {
    /// The startup state: angle 1.0, speed 1.0, only the xz plane
    /// rotating, the clock read once for the first timestamp.
    pub fn new(now: u64) -> (st: AnimationState)
        ensures
            st.last == now,
            st.angle == SCALE,
            st.speed == SCALE,
            st.flags == (RotationFlags { xz: true, yz: false, xy: false }),
    {
        AnimationState {
            last: now,
            angle: SCALE,
            speed: SCALE,
            flags: RotationFlags { xz: true, yz: false, xy: false },
        }
    }

    /// Advance the angle by the elapsed time times the speed and record
    /// `now` as the new last timestamp. A repeated timestamp advances the
    /// angle by exactly zero.
    pub fn on_tick(&mut self, now: u64)
        requires
            elapsed_ms(old(self).last, now) * 1000 <= i64::MAX,
            i64::MIN <= tick_delta(old(self).speed as int, old(self).last, now) <= i64::MAX,
            i64::MIN <= old(self).angle + tick_delta(
                old(self).speed as int,
                old(self).last,
                now,
            ) <= i64::MAX,
        ensures
            final(self).last == now,
            final(self).angle == old(self).angle + tick_delta(
                old(self).speed as int,
                old(self).last,
                now,
            ),
            final(self).speed == old(self).speed,
            final(self).flags == old(self).flags,
    {
        let elapsed: u64 = if now >= self.last {
            now - self.last
        } else {
            0
        };
        let elapsed_fx: i64 = (elapsed as i64) * 1000;
        proof {
            crate::fx::lemma_mul_in_range(
                elapsed_fx as int,
                self.speed as int,
                i64::MAX as int,
                i64::MAX as int + 1,
            );
        }
        let product: i128 = (elapsed_fx as i128) * (self.speed as i128);
        let delta: i128 = div_i128(product, SCALE as i128);
        self.angle = self.angle + (delta as i64);
        self.last = now;
    }

    /// Add the fixed increment (1.0) to the rotation speed; no clamping,
    /// so the speed may pass zero or go negative.
    pub fn increase_speed(&mut self)
        requires
            old(self).speed + SCALE <= i64::MAX,
        ensures
            final(self).speed == old(self).speed + SCALE,
            final(self).last == old(self).last,
            final(self).angle == old(self).angle,
            final(self).flags == old(self).flags,
    {
        self.speed = self.speed + SCALE;
    }

    /// Subtract the fixed increment (1.0) from the rotation speed.
    pub fn decrease_speed(&mut self)
        requires
            i64::MIN <= old(self).speed - SCALE,
        ensures
            final(self).speed == old(self).speed - SCALE,
            final(self).last == old(self).last,
            final(self).angle == old(self).angle,
            final(self).flags == old(self).flags,
    {
        self.speed = self.speed - SCALE;
    }

    /// Flip the flag of one rotation plane, leaving the rest of the state
    /// as it was.
    pub fn toggle_plane(&mut self, p: Plane)
        ensures
            final(self).flags == toggle_spec(old(self).flags, p),
            final(self).last == old(self).last,
            final(self).angle == old(self).angle,
            final(self).speed == old(self).speed,
    {
        match p {
            Plane::XZ => {
                self.flags = RotationFlags {
                    xz: !self.flags.xz,
                    yz: self.flags.yz,
                    xy: self.flags.xy,
                };
            },
            Plane::YZ => {
                self.flags = RotationFlags {
                    xz: self.flags.xz,
                    yz: !self.flags.yz,
                    xy: self.flags.xy,
                };
            },
            Plane::XY => {
                self.flags = RotationFlags {
                    xz: self.flags.xz,
                    yz: self.flags.yz,
                    xy: !self.flags.xy,
                };
            },
        }
    }

    /// The single update entry point: dispatch one command.
    pub fn update(&mut self, msg: Message)
        requires
            (msg matches Message::Tick(now) ==> elapsed_ms(old(self).last, now) * 1000
                <= i64::MAX && i64::MIN <= tick_delta(
                old(self).speed as int,
                old(self).last,
                now,
            ) <= i64::MAX && i64::MIN <= old(self).angle + tick_delta(
                old(self).speed as int,
                old(self).last,
                now,
            ) <= i64::MAX),
            msg == Message::IncreaseSpeed ==> old(self).speed + SCALE <= i64::MAX,
            msg == Message::DecreaseSpeed ==> i64::MIN <= old(self).speed - SCALE,
        ensures
            msg matches Message::Tick(now) ==> final(self).last == now && final(self).angle
                == old(self).angle + tick_delta(old(self).speed as int, old(self).last, now)
                && final(self).speed == old(self).speed && final(self).flags == old(self).flags,
            msg == Message::IncreaseSpeed ==> *final(self) == (AnimationState {
                speed: (old(self).speed + SCALE) as i64,
                ..*old(self)
            }),
            msg == Message::DecreaseSpeed ==> *final(self) == (AnimationState {
                speed: (old(self).speed - SCALE) as i64,
                ..*old(self)
            }),
            msg == Message::ToggleXZ ==> *final(self) == (AnimationState {
                flags: toggle_spec(old(self).flags, Plane::XZ),
                ..*old(self)
            }),
            msg == Message::ToggleYZ ==> *final(self) == (AnimationState {
                flags: toggle_spec(old(self).flags, Plane::YZ),
                ..*old(self)
            }),
            msg == Message::ToggleXY ==> *final(self) == (AnimationState {
                flags: toggle_spec(old(self).flags, Plane::XY),
                ..*old(self)
            }),
    {
        match msg {
            Message::Tick(now) => self.on_tick(now),
            Message::IncreaseSpeed => self.increase_speed(),
            Message::DecreaseSpeed => self.decrease_speed(),
            Message::ToggleXZ => self.toggle_plane(Plane::XZ),
            Message::ToggleYZ => self.toggle_plane(Plane::YZ),
            Message::ToggleXY => self.toggle_plane(Plane::XY),
        }
    }
}

/// A tick at an unchanged timestamp advances the angle by exactly zero —
/// so, with `on_tick`'s contract, any number of repeated ticks at `t0`
/// leaves the state exactly as it was — and the following tick at `t1`
/// advances the angle by exactly the elapsed time times the speed,
/// whatever happened in between at `t0`.
pub proof fn lemma_tick_advance(speed: int, t0: u64, t1: u64)
    requires
        t0 <= t1,
    ensures
        tick_delta(speed, t0, t0) == 0,
        tick_delta(speed, t0, t1) == trunc_div((t1 - t0) * 1000 * speed, SCALE as int),
{
    assert(elapsed_ms(t0, t0) == 0);
    assert(0 * 1000 * speed == 0) by (nonlinear_arith);
    assert(trunc_div(0, SCALE as int) == 0);
}

/// Toggling the same plane twice restores the original flags.
pub proof fn lemma_toggle_twice(f: RotationFlags, p: Plane)
    ensures
        toggle_spec(toggle_spec(f, p), p) == f,
{
}

} // verus!
