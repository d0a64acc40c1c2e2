//! A frame-pacing stopwatch over integer milliseconds. The clock itself is a
//! host capability: every operation takes the current reading as an argument.

use vstd::prelude::*;

use crate::geom::CLOCK_LIMIT;

verus! {

/// Mathematical image of an [`AnimationTimer`].
pub struct TimerModel {
    pub frame_time: int,
    pub next_time: int,
}

/// Paces animation frames: `ready_for_next_frame` answers true at most once
/// per `frame_time` milliseconds, measured against the clock readings the
/// caller passes in.
#[derive(Clone, Copy, Debug)]
pub struct AnimationTimer {
    frame_time: u64,
    next_time: u64,
}

impl View for AnimationTimer {
    type V = TimerModel;

    closed spec fn view(&self) -> TimerModel {
        TimerModel { frame_time: self.frame_time as int, next_time: self.next_time as int }
    }
}

/// Whether a timer in state `t` fires at clock reading `now`.
pub open spec fn spec_timer_ready(t: TimerModel, now: int) -> bool {
    now >= t.next_time
}

/// The timer state after one `ready_for_next_frame` call at reading `now`.
pub open spec fn spec_timer_tick(t: TimerModel, now: int) -> TimerModel {
    if now >= t.next_time {
        TimerModel { frame_time: t.frame_time, next_time: t.next_time + t.frame_time }
    } else {
        t
    }
}

impl AnimationTimer {
    #[verifier::type_invariant]
    spec fn wf(self) -> bool {
        self.frame_time <= 1000 && self.next_time as int <= CLOCK_LIMIT as int + 1000
    }

    /// A timer firing `fps` times per second, initially ready to fire.
    pub fn new(fps: u64) -> (r: AnimationTimer)
        requires
            1 <= fps,
        ensures
            r@ == (TimerModel { frame_time: 1000 as int / fps as int, next_time: 0 }),
    {
        let frame_time: u64 = 1000 / fps;
        assert(frame_time <= 1000) by (nonlinear_arith)
            requires
                fps >= 1,
                frame_time == 1000 as int / fps as int,
        ;
        AnimationTimer { frame_time, next_time: 0 }
    }

    pub fn set_fps(&mut self, fps: u64)
        requires
            1 <= fps,
        ensures
            final(self)@ == (TimerModel {
                frame_time: 1000 as int / fps as int,
                next_time: old(self)@.next_time,
            }),
    {
        proof {
            use_type_invariant(&*self);
        }
        let frame_time: u64 = 1000 / fps;
        assert(frame_time <= 1000) by (nonlinear_arith)
            requires
                fps >= 1,
                frame_time == 1000 as int / fps as int,
        ;
        self.frame_time = frame_time;
    }

    /// Restart the pacing from the given clock reading.
    pub fn reset(&mut self, now_ms: u64)
        requires
            now_ms <= CLOCK_LIMIT,
        ensures
            final(self)@ == (TimerModel {
                frame_time: old(self)@.frame_time,
                next_time: now_ms as int,
            }),
        no_unwind
    {
        proof {
            use_type_invariant(&*self);
        }
        self.next_time = now_ms;
    }

    /// Whether the next animation frame is due at clock reading `now_ms`;
    /// when it is, the deadline advances by one frame interval.
    pub fn ready_for_next_frame(&mut self, now_ms: u64) -> (r: bool)
        requires
            now_ms <= CLOCK_LIMIT,
        ensures
            r == spec_timer_ready(old(self)@, now_ms as int),
            final(self)@ == spec_timer_tick(old(self)@, now_ms as int),
        no_unwind
    {
        proof {
            use_type_invariant(&*self);
        }
        if now_ms >= self.next_time {
            self.next_time = self.next_time + self.frame_time;
            true
        } else {
            false
        }
    }
}

} // verus!
