//! Animation values: a scalar that moves from a start value toward a target
//! over a fixed, short duration, interpolated linearly against an explicit
//! monotonic "now" in milliseconds.
//!
//! Values live on an integer scale from 0 to [`ANIM_SCALE`]; the features of
//! this crate only ever drive an animation toward 0 or toward the full scale,
//! but intermediate samples are interpolated.  An animation is "in motion"
//! exactly while the time elapsed since the last drive is less than the
//! configured duration, and never before it was first driven.

use vstd::prelude::*;

verus! {

/// Length in milliseconds of the short "quick" transition preset every
/// overlay animation uses.
pub const QUICK_ANIMATION_MS: u64 = 200;

/// Top of the interpolation scale; animation values run from 0 to this.
pub const ANIM_SCALE: u32 = 1000;

/// A scalar animation: linear interpolation from `start_value` toward
/// `target` over `duration_ms` milliseconds starting at `start_time`.
#[derive(Debug, Clone, Copy, PartialEq, Eq)]
pub struct Animation {
    pub start_value: u32,
    pub target: u32,
    pub start_time: u64,
    pub duration_ms: u64,
}

impl Animation {
    /// Values stay on the scale and the duration never exceeds the preset,
    /// so interpolation arithmetic cannot overflow.
    pub open spec fn wf(self) -> bool {
        &&& self.start_value <= ANIM_SCALE
        &&& self.target <= ANIM_SCALE
        &&& self.duration_ms <= QUICK_ANIMATION_MS
    }

    /// Milliseconds elapsed at `now` since the animation last started;
    /// a sample taken before the start counts as zero elapsed time.
    pub open spec fn elapsed_at(self, now: u64) -> nat {
        if now >= self.start_time {
            (now - self.start_time) as nat
        } else {
            0
        }
    }

    /// In motion exactly while the elapsed time is under the duration.
    pub open spec fn animating_at(self, now: u64) -> bool {
        self.elapsed_at(now) < self.duration_ms
    }

    /// The interpolated value at `now`: linear between `start_value` and
    /// `target`, clamped to `target` once the duration has elapsed.
    pub open spec fn value_at(self, now: u64) -> u32 {
        if !self.animating_at(now) {
            self.target
        } else {
            let e = self.elapsed_at(now) as int;
            let d = self.duration_ms as int;
            if self.target >= self.start_value {
                (self.start_value + (self.target - self.start_value) * e / d) as u32
            } else {
                (self.start_value - (self.start_value - self.target) * e / d) as u32
            }
        }
    }

    /// The animation as it stands right after a `drive(target, now)` call:
    /// restarted at `now` from the value interpolated there.
    pub open spec fn driven(self, target: u32, now: u64) -> Animation {
        Animation {
            start_value: self.value_at(now),
            target,
            start_time: now,
            duration_ms: QUICK_ANIMATION_MS,
        }
    }

    /// A fresh animation sits at `initial`, not in motion at any instant.
    pub fn new(initial: u32) -> (r: Animation)
        requires
            initial <= ANIM_SCALE,
        ensures
            r == (Animation {
                start_value: initial,
                target: initial,
                start_time: 0,
                duration_ms: 0,
            }),
    {
        Animation { start_value: initial, target: initial, start_time: 0, duration_ms: 0 }
    }

    /// Restart the animation at `now`, moving from the currently
    /// interpolated value toward `target` over the quick preset duration.
    pub fn drive(&mut self, target: u32, now: u64)
        requires
            old(self).wf(),
            target <= ANIM_SCALE,
        ensures
            *final(self) == old(self).driven(target, now),
            final(self).wf(),
    {
        let v = self.value(now);
        self.start_value = v;
        self.target = target;
        self.start_time = now;
        self.duration_ms = QUICK_ANIMATION_MS;
    }

    /// Sample the interpolated value at `now`.
    pub fn value(&self, now: u64) -> (r: u32)
        requires
            self.wf(),
        ensures
            r == self.value_at(now),
            r <= ANIM_SCALE,
    {
        let elapsed: u64 = if now >= self.start_time {
            now - self.start_time
        } else {
            0
        };
        if elapsed >= self.duration_ms {
            self.target
        } else if self.target >= self.start_value {
            let span: u64 = (self.target - self.start_value) as u64;
            proof {
                lemma_mul_bounded(span as int, elapsed as int);
                lemma_interp_bounded(span as int, elapsed as int, self.duration_ms as int);
            }
            let prog: u64 = span * elapsed / self.duration_ms;
            self.start_value + (prog as u32)
        } else {
            let span: u64 = (self.start_value - self.target) as u64;
            proof {
                lemma_mul_bounded(span as int, elapsed as int);
                lemma_interp_bounded(span as int, elapsed as int, self.duration_ms as int);
            }
            let prog: u64 = span * elapsed / self.duration_ms;
            self.start_value - (prog as u32)
        }
    }

    /// Report whether the animation is still in motion at `now`.
    pub fn is_animating(&self, now: u64) -> (r: bool)
        ensures
            r == self.animating_at(now),
    {
        let elapsed: u64 = if now >= self.start_time {
            now - self.start_time
        } else {
            0
        };
        elapsed < self.duration_ms
    }
}

/// The product of a span on the scale and an elapsed time under the quick
/// preset stays far below the 64-bit range.
proof fn lemma_mul_bounded(span: int, elapsed: int)
    requires
        0 <= span <= ANIM_SCALE,
        0 <= elapsed <= QUICK_ANIMATION_MS,
    ensures
        span * elapsed <= ANIM_SCALE * QUICK_ANIMATION_MS,
{
    assert(span * elapsed <= ANIM_SCALE * QUICK_ANIMATION_MS) by (nonlinear_arith)
        requires
            0 <= span <= ANIM_SCALE,
            0 <= elapsed <= QUICK_ANIMATION_MS,
    {
    }
}

/// A linear interpolation step never overshoots the span it interpolates.
proof fn lemma_interp_bounded(span: int, elapsed: int, duration: int)
    requires
        0 <= span,
        0 <= elapsed < duration,
    ensures
        0 <= span * elapsed / duration <= span,
{
    assert(0 <= span * elapsed / duration <= span) by (nonlinear_arith)
        requires
            0 <= span,
            0 <= elapsed < duration,
    {
    }
}

/// Law: `is_animating` is true for an animation exactly while the time
/// elapsed since its last `drive` call is less than the configured duration,
/// and false strictly after.
pub proof fn lemma_animating_iff_within_duration(a: Animation, target: u32, now: u64, t: u64)
    requires
        a.wf(),
        target <= ANIM_SCALE,
        t >= now,
    ensures
        a.driven(target, now).animating_at(t) <==> t - now < QUICK_ANIMATION_MS,
{
}

} // verus!
