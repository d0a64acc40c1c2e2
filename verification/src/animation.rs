//! A frame-strip animation: a bitmap, a list of source regions, a playback
//! position and a pacing timer. One `update` call advances the playback by at
//! most one frame, paced by the clock readings the caller passes in.

use vstd::prelude::*;

use crate::geom::CLOCK_LIMIT;
use crate::geom::COORD_LIMIT;
use crate::geom::Region;
use crate::graphics::Graphics;
use crate::image::Image;
use crate::image::ImageModel;
use crate::timer::AnimationTimer;
use crate::timer::TimerModel;
use crate::timer::spec_timer_ready;
use crate::timer::spec_timer_tick;

verus! {

/// Mathematical image of an [`Animation`].
pub struct AnimationModel {
    pub image: ImageModel,
    pub frames: Seq<Region>,
    pub current: int,
    pub repeat: bool,
    pub active: bool,
    pub timer: TimerModel,
}

/// A playing or stopped frame-strip animation.
pub struct Animation {
    image: Image,
    frames: Vec<Region>,
    timer: AnimationTimer,
    current: i64,
    repeat: bool,
    active: bool,
}

impl View for Animation {
    type V = AnimationModel;

    closed spec fn view(&self) -> AnimationModel {
        AnimationModel {
            image: self.image@,
            frames: self.frames@,
            current: self.current as int,
            repeat: self.repeat,
            active: self.active,
            timer: self.timer@,
        }
    }
}

/// Width of one frame; zero when the strip is empty.
pub open spec fn spec_anim_frame_width(a: AnimationModel) -> int {
    if a.frames.len() == 0 {
        0
    } else {
        a.frames[0].width as int
    }
}

/// Height of one frame; zero when the strip is empty.
pub open spec fn spec_anim_frame_height(a: AnimationModel) -> int {
    if a.frames.len() == 0 {
        0
    } else {
        a.frames[0].height as int
    }
}

/// Whether the playback has run past its final frame.
pub open spec fn spec_anim_is_end(a: AnimationModel) -> bool {
    a.current == a.frames.len()
}

/// Whether an `update` call at clock reading `now` advances the playback.
pub open spec fn spec_anim_jump(a: AnimationModel, now: int) -> bool {
    a.active && spec_timer_ready(a.timer, now)
}

/// The animation state after one `update` call at clock reading `now`:
/// an active animation whose frame is due advances by one frame; running past
/// the final frame restarts a repeating animation and stops any other.
pub open spec fn spec_anim_update(a: AnimationModel, now: int) -> AnimationModel {
    if !a.active || !spec_timer_ready(a.timer, now) {
        a
    } else {
        let ticked = spec_timer_tick(a.timer, now);
        let stepped = a.current + 1;
        if stepped >= a.frames.len() {
            if a.repeat {
                AnimationModel { current: 0, timer: ticked, ..a }
            } else {
                AnimationModel {
                    current: a.frames.len() as int,
                    active: false,
                    timer: ticked,
                    ..a
                }
            }
        } else {
            AnimationModel { current: stepped, timer: ticked, ..a }
        }
    }
}

/// Which frame a draw call shows: the playback position, held at the last
/// frame once the strip has ended, and at the first frame before any advance.
pub open spec fn spec_anim_draw_index(a: AnimationModel) -> int {
    if a.current > 0 {
        if a.current == a.frames.len() {
            a.frames.len() - 1
        } else {
            a.current
        }
    } else {
        0
    }
}

impl Animation {
    #[verifier::type_invariant]
    spec fn wf(self) -> bool {
        &&& -1 <= self.current <= self.frames@.len()
        &&& self.frames@.len() <= 0x7fff_ffff
        &&& forall|i: int|
            0 <= i < self.frames@.len() ==> {
                &&& 0 <= (#[trigger] self.frames@[i]).width <= COORD_LIMIT
                &&& 0 <= self.frames@[i].height <= COORD_LIMIT
            }
    }

    /// A stopped animation positioned before its first frame.
    pub fn new(image: Image, frames: Vec<Region>, fps: u64) -> (r: Animation)
        requires
            1 <= fps,
            frames@.len() <= 0x7fff_ffff,
            forall|i: int|
                0 <= i < frames@.len() ==> {
                    &&& 0 <= (#[trigger] frames@[i]).width <= COORD_LIMIT
                    &&& 0 <= frames@[i].height <= COORD_LIMIT
                },
        ensures
            r@ == (AnimationModel {
                image: image@,
                frames: frames@,
                current: -1,
                repeat: false,
                active: false,
                timer: TimerModel { frame_time: 1000 as int / fps as int, next_time: 0 },
            }),
    {
        Animation {
            image,
            frames,
            timer: AnimationTimer::new(fps),
            current: -1,
            repeat: false,
            active: false,
        }
    }

    /// A new animation already started at clock reading `now_ms`.
    pub fn active(image: Image, frames: Vec<Region>, fps: u64, now_ms: u64) -> (r: Animation)
        requires
            1 <= fps,
            now_ms <= CLOCK_LIMIT,
            frames@.len() <= 0x7fff_ffff,
            forall|i: int|
                0 <= i < frames@.len() ==> {
                    &&& 0 <= (#[trigger] frames@[i]).width <= COORD_LIMIT
                    &&& 0 <= frames@[i].height <= COORD_LIMIT
                },
        ensures
            r@ == (AnimationModel {
                image: image@,
                frames: frames@,
                current: -1,
                repeat: false,
                active: true,
                timer: TimerModel {
                    frame_time: 1000 as int / fps as int,
                    next_time: now_ms as int,
                },
            }),
    {
        let mut anim = Self::new(image, frames, fps);
        anim.start(now_ms);
        anim
    }

    pub fn frame_width(&self) -> (r: i64)
        ensures
            r as int == spec_anim_frame_width(self@),
            0 <= r <= COORD_LIMIT,
    {
        proof {
            use_type_invariant(&*self);
        }
        if self.frames.len() == 0 {
            0
        } else {
            self.frames[0].width
        }
    }

    pub fn frame_height(&self) -> (r: i64)
        ensures
            r as int == spec_anim_frame_height(self@),
            0 <= r <= COORD_LIMIT,
    {
        proof {
            use_type_invariant(&*self);
        }
        if self.frames.len() == 0 {
            0
        } else {
            self.frames[0].height
        }
    }

    pub fn frame_count(&self) -> (r: usize)
        ensures
            r == self@.frames.len(),
    {
        self.frames.len()
    }

    pub fn is_active(&self) -> (r: bool)
        ensures
            r == self@.active,
    {
        self.active
    }

    pub fn set_repeat(&mut self, repeat: bool)
        ensures
            final(self)@ == (AnimationModel { repeat, ..old(self)@ }),
    {
        proof {
            use_type_invariant(&*self);
        }
        self.repeat = repeat;
    }

    pub fn is_repeat(&self) -> (r: bool)
        ensures
            r == self@.repeat,
        no_unwind
    {
        self.repeat
    }

    /// Start (or restart) playback, pacing it from clock reading `now_ms`.
    pub fn start(&mut self, now_ms: u64)
        requires
            now_ms <= CLOCK_LIMIT,
        ensures
            final(self)@ == (AnimationModel {
                active: true,
                current: -1,
                timer: TimerModel {
                    frame_time: old(self)@.timer.frame_time,
                    next_time: now_ms as int,
                },
                ..old(self)@
            }),
    {
        proof {
            use_type_invariant(&*self);
        }
        self.active = true;
        self.current = -1;
        self.timer.reset(now_ms);
    }

    pub fn stop(&mut self)
        ensures
            final(self)@ == (AnimationModel { active: false, ..old(self)@ }),
    {
        proof {
            use_type_invariant(&*self);
        }
        self.active = false;
    }

    pub fn is_end(&self) -> (r: bool)
        ensures
            r == spec_anim_is_end(self@),
        no_unwind
    {
        proof {
            use_type_invariant(&*self);
        }
        self.current == self.frames.len() as i64
    }

    /// Advance the playback by at most one frame, paced against `now_ms`.
    /// Answers whether the frame position moved.
    pub fn update(&mut self, now_ms: u64) -> (jump: bool)
        requires
            now_ms <= CLOCK_LIMIT,
        ensures
            final(self)@ == spec_anim_update(old(self)@, now_ms as int),
            jump == spec_anim_jump(old(self)@, now_ms as int),
        no_unwind
    {
        proof {
            use_type_invariant(&*self);
        }
        if self.active {
            if self.timer.ready_for_next_frame(now_ms) {
                let stepped: i64 = self.current + 1;
                let len: i64 = self.frames.len() as i64;
                if stepped >= len {
                    if self.repeat {
                        self.current = 0;
                    } else {
                        self.current = len;
                        self.active = false;
                    }
                } else {
                    self.current = stepped;
                }
                true
            } else {
                false
            }
        } else {
            false
        }
    }

    /// The source region a draw call would show right now.
    pub fn current_frame_region(&self) -> (r: Region)
        requires
            self@.frames.len() > 0,
        ensures
            r == self@.frames[spec_anim_draw_index(self@)],
    {
        proof {
            use_type_invariant(&*self);
        }
        let len: i64 = self.frames.len() as i64;
        let mut idx: i64 = 0;
        if self.current > 0 {
            if self.current == len {
                idx = len - 1;
            } else {
                idx = self.current;
            }
        }
        self.frames[idx as usize]
    }

    /// Draw the current frame scaled into `dest`; the host's surface decides
    /// the outcome, which is handed back unchanged.
    pub fn draw<G: Graphics>(&self, g: &mut G, dest: Region) -> Result<(), String>
        requires
            self@.frames.len() > 0,
    {
        let src = self.current_frame_region();
        g.draw_image(&self.image, Some(src), Some(dest))
    }
}

} // verus!
