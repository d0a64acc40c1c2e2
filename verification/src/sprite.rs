//! A single simulated game object ("sprite"): position, velocity, visual
//! resource, boundary policy and lifecycle flags, with its per-tick update.
//!
//! The per-tick update is a pure function of the sprite state and the clock
//! reading, captured by [`spec_sprite_update`]; the executable update is
//! proved to follow it exactly.

use vstd::prelude::*;

use crate::animation::Animation;
use crate::animation::AnimationModel;
use crate::animation::spec_anim_is_end;
use crate::animation::spec_anim_update;
use crate::geom::CLOCK_LIMIT;
use crate::geom::COORD_LIMIT;
use crate::geom::Point;
use crate::geom::PointModel;
use crate::geom::Rect;
use crate::geom::RectModel;
use crate::geom::Region;
use crate::geom::rect_at;
use crate::geom::rect_contains_point;
use crate::geom::rect_height;
use crate::geom::rect_moved_to;
use crate::geom::rect_width;
use crate::geom::rects_overlap;
use crate::graphics::Graphics;
use crate::image::Image;
use crate::image::ImageModel;
use crate::random::rand_int;

verus! {

/// What a sprite's motion does when it would leave its playfield.
#[derive(Clone, Copy, Debug, PartialEq, Eq, Structural)]
pub enum BoundsAction {
    /// Clamp to the playfield and kill the momentum on the clamped axis.
    Stop,
    /// Reappear flush against the opposite edge once fully outside.
    Wrap,
    /// Clamp to the crossed edge and reflect the velocity on that axis.
    Bounce,
    /// Ask to be retired once fully outside.
    Die,
}

/// The outcome of one per-tick update: exactly one of three, never a
/// combination.
#[derive(Clone, Copy, Debug, PartialEq, Eq, Structural)]
pub enum SpriteAction {
    /// Carry on; the sprite takes part in collision handling this tick.
    Nothing,
    /// Retire the sprite at the end of this pass.
    Kill,
    /// The sprite's extension wants an additional sprite spawned.
    AddSprite,
}

/// A pluggable per-sprite behavior: it can produce an additional sprite to
/// spawn, and it can override the action the generic update computed. The
/// hosting game implements it; the engine promises nothing about what an
/// extension returns.
pub trait SpriteExt: Sized {
    /// The additional sprite this extension wants spawned.
    fn add_sprite(&self, sprite: &Sprite<Self>) -> Sprite<Self>;

    /// Override (or pass through) the action the generic update computed.
    fn update(&self, sprite_action: SpriteAction) -> SpriteAction;
}

/// A sprite's visual resource: a fixed bitmap or a frame-strip animation.
pub enum Resource {
    Static(Image),
    Animation(Animation),
}

/// Mathematical image of a [`Resource`].
pub enum ResourceModel {
    Static(ImageModel),
    Animation(AnimationModel),
}

impl View for Resource {
    type V = ResourceModel;

    closed spec fn view(&self) -> ResourceModel {
        match self {
            Resource::Static(image) => ResourceModel::Static(image@),
            Resource::Animation(anim) => ResourceModel::Animation(anim@),
        }
    }
}

/// Width of the resource's current frame.
pub open spec fn spec_resource_width(r: ResourceModel) -> int {
    match r {
        ResourceModel::Static(image) => image.width,
        ResourceModel::Animation(a) => crate::animation::spec_anim_frame_width(a),
    }
}

/// Height of the resource's current frame.
pub open spec fn spec_resource_height(r: ResourceModel) -> int {
    match r {
        ResourceModel::Static(image) => image.height,
        ResourceModel::Animation(a) => crate::animation::spec_anim_frame_height(a),
    }
}

/// The resource after one tick: an animated resource advances by one
/// `spec_anim_update` step, a static one is untouched.
pub open spec fn spec_resource_tick(r: ResourceModel, now: int) -> ResourceModel {
    match r {
        ResourceModel::Animation(a) => ResourceModel::Animation(spec_anim_update(a, now)),
        ResourceModel::Static(image) => ResourceModel::Static(image),
    }
}

/// Whether one tick leaves the resource as a non-repeating animation that has
/// run past its final frame.
pub open spec fn spec_resource_tick_ended(r: ResourceModel, now: int) -> bool {
    match r {
        ResourceModel::Animation(a) => {
            let stepped = spec_anim_update(a, now);
            !stepped.repeat && spec_anim_is_end(stepped)
        },
        ResourceModel::Static(_) => false,
    }
}

impl Resource {
    /// Advance an animated resource by one paced step; answers whether the
    /// resource is now a non-repeating animation past its final frame.
    fn tick(&mut self, now_ms: u64) -> (ended: bool)
        requires
            now_ms <= CLOCK_LIMIT,
        ensures
            final(self)@ == spec_resource_tick(old(self)@, now_ms as int),
            ended == spec_resource_tick_ended(old(self)@, now_ms as int),
        no_unwind
    {
        match self {
            Resource::Animation(anim) => {
                anim.update(now_ms);
                !anim.is_repeat() && anim.is_end()
            },
            Resource::Static(_) => false,
        }
    }

    pub fn width(&self) -> (r: i64)
        ensures
            r as int == spec_resource_width(self@),
            0 <= r <= COORD_LIMIT,
    {
        match self {
            Resource::Animation(anim) => anim.frame_width(),
            Resource::Static(image) => image.width(),
        }
    }

    pub fn height(&self) -> (r: i64)
        ensures
            r as int == spec_resource_height(self@),
            0 <= r <= COORD_LIMIT,
    {
        match self {
            Resource::Animation(anim) => anim.frame_height(),
            Resource::Static(image) => image.height(),
        }
    }
}

/// Mathematical image of a [`Sprite`]. The extension itself is host code and
/// is tracked only by its presence.
pub struct SpriteModel {
    pub id: u64,
    pub name: Seq<char>,
    pub has_ext: bool,
    pub resource: ResourceModel,
    pub position: RectModel,
    pub bounds: RectModel,
    pub velocity: PointModel,
    pub z_order: int,
    pub bounds_action: BoundsAction,
    pub hidden: bool,
    pub dying: bool,
}

/// A playfield rectangle whose edges all lie within [`COORD_LIMIT`].
pub open spec fn spec_in_playfield(r: RectModel) -> bool {
    &&& -(COORD_LIMIT as int) <= r.left <= COORD_LIMIT as int
    &&& -(COORD_LIMIT as int) <= r.top <= COORD_LIMIT as int
    &&& -(COORD_LIMIT as int) <= r.right <= COORD_LIMIT as int
    &&& -(COORD_LIMIT as int) <= r.bottom <= COORD_LIMIT as int
}

/// A sprite position: non-negative extent no wider than [`COORD_LIMIT`],
/// with every edge within twice that limit.
pub open spec fn spec_valid_position(r: RectModel) -> bool {
    &&& r.left <= r.right
    &&& r.top <= r.bottom
    &&& rect_width(r) <= COORD_LIMIT as int
    &&& rect_height(r) <= COORD_LIMIT as int
    &&& -2 * (COORD_LIMIT as int) <= r.left <= 2 * (COORD_LIMIT as int)
    &&& -2 * (COORD_LIMIT as int) <= r.top <= 2 * (COORD_LIMIT as int)
    &&& -2 * (COORD_LIMIT as int) <= r.right <= 2 * (COORD_LIMIT as int)
    &&& -2 * (COORD_LIMIT as int) <= r.bottom <= 2 * (COORD_LIMIT as int)
}

/// A velocity whose components lie within [`COORD_LIMIT`].
pub open spec fn spec_valid_velocity(p: PointModel) -> bool {
    &&& -(COORD_LIMIT as int) <= p.x <= COORD_LIMIT as int
    &&& -(COORD_LIMIT as int) <= p.y <= COORD_LIMIT as int
}

/// The shrunk hit-test rectangle derived from a position: pulled in by one
/// twelfth of the width on each horizontal side and one twelfth of the height
/// on each vertical side.
pub open spec fn spec_collision_region(r: RectModel) -> RectModel {
    let dx = rect_width(r) / 12;
    let dy = rect_height(r) / 12;
    RectModel { left: r.left + dx, top: r.top + dy, right: r.right - dx, bottom: r.bottom - dy }
}

/// Wrap policy on one axis: once the body has fully left the `[low, high]`
/// span it reappears flush against the opposite edge.
pub open spec fn spec_wrap_coord(candidate: int, size: int, low: int, high: int) -> int {
    if candidate + size < low {
        high
    } else if candidate > high {
        low - size
    } else {
        candidate
    }
}

/// Bounce policy on one axis: the coordinate clamped to the crossed edge,
/// and whether a bounce happened there.
pub open spec fn spec_bounce_coord(candidate: int, size: int, low: int, high: int) -> (int, bool) {
    if candidate < low {
        (low, true)
    } else if candidate + size > high {
        (high - size, true)
    } else {
        (candidate, false)
    }
}

/// Stop policy on one axis: the coordinate clamped into `[low, high - size]`,
/// and whether clamping happened there.
pub open spec fn spec_stop_coord(candidate: int, size: int, low: int, high: int) -> (int, bool) {
    let clamped = candidate < low || candidate > high - size;
    (vstd::math::max(low, vstd::math::min(candidate, high - size)), clamped)
}

/// Die policy: whether the candidate position lies fully outside the bounds.
pub open spec fn spec_die_exited(px: int, py: int, size_x: int, size_y: int, b: RectModel) -> bool {
    ||| px + size_x < b.left
    ||| px > b.right
    ||| py + size_y < b.top
    ||| py > b.bottom
}

/// The animation step of the per-tick update: an animated resource advances,
/// and a non-repeating animation that has ended marks the sprite as dying.
pub open spec fn spec_tick_resource(m: SpriteModel, now: int) -> SpriteModel {
    SpriteModel {
        resource: spec_resource_tick(m.resource, now),
        dying: m.dying || spec_resource_tick_ended(m.resource, now),
        ..m
    }
}

/// One per-tick update of a sprite at clock reading `now`: a dying sprite
/// asks to be killed untouched; otherwise the animation advances, the
/// position moves by the velocity, and the bounds policy adjusts the result.
pub open spec fn spec_sprite_update(m: SpriteModel, now: int) -> (SpriteModel, SpriteAction) {
    if m.dying {
        (m, SpriteAction::Kill)
    } else {
        let m1 = spec_tick_resource(m, now);
        let nx = m1.position.left + m1.velocity.x;
        let ny = m1.position.top + m1.velocity.y;
        let sw = rect_width(m1.position);
        let sh = rect_height(m1.position);
        let b = m1.bounds;
        if m1.bounds_action is Wrap {
            let fx = spec_wrap_coord(nx, sw, b.left, b.right);
            let fy = spec_wrap_coord(ny, sh, b.top, b.bottom);
            (SpriteModel { position: rect_at(fx, fy, sw, sh), ..m1 }, SpriteAction::Nothing)
        } else if m1.bounds_action is Bounce {
            let hx = spec_bounce_coord(nx, sw, b.left, b.right);
            let hy = spec_bounce_coord(ny, sh, b.top, b.bottom);
            let vel = PointModel {
                x: if hx.1 { -m1.velocity.x } else { m1.velocity.x },
                y: if hy.1 { -m1.velocity.y } else { m1.velocity.y },
            };
            (
                SpriteModel { position: rect_at(hx.0, hy.0, sw, sh), velocity: vel, ..m1 },
                SpriteAction::Nothing,
            )
        } else if m1.bounds_action is Die {
            if spec_die_exited(nx, ny, sw, sh, b) {
                (m1, SpriteAction::Kill)
            } else {
                (SpriteModel { position: rect_at(nx, ny, sw, sh), ..m1 }, SpriteAction::Nothing)
            }
        } else {
            let hx = spec_stop_coord(nx, sw, b.left, b.right);
            let hy = spec_stop_coord(ny, sh, b.top, b.bottom);
            let vel = PointModel {
                x: if hx.1 { 0 } else { m1.velocity.x },
                y: if hy.1 { 0 } else { m1.velocity.y },
            };
            (
                SpriteModel { position: rect_at(hx.0, hy.0, sw, sh), velocity: vel, ..m1 },
                SpriteAction::Nothing,
            )
        }
    }
}

/// Whether a sprite can be drawn: an animated resource must have a frame.
pub open spec fn spec_sprite_drawable(m: SpriteModel) -> bool {
    match m.resource {
        ResourceModel::Animation(a) => a.frames.len() > 0,
        ResourceModel::Static(_) => true,
    }
}

/// Law: wrap relocation. Under the `Wrap` policy the moved sprite reappears
/// flush against the opposite edge exactly when it has fully left the
/// playfield on the horizontal axis: a left exit lands its left edge on
/// `bounds.right`, a right exit on `bounds.left - width`; otherwise the
/// candidate position stands. The vertical axis behaves the same way with
/// top, bottom and height.
pub proof fn lemma_wrap_policy(m: SpriteModel, now: int)
    requires
        !m.dying,
        m.bounds_action is Wrap,
    ensures
        ({
            let candidate = m.position.left + m.velocity.x;
            let width = rect_width(m.position);
            let moved = spec_sprite_update(m, now).0;
            &&& spec_sprite_update(m, now).1 is Nothing
            &&& (candidate + width < m.bounds.left ==> moved.position.left == m.bounds.right)
            &&& (!(candidate + width < m.bounds.left) && candidate > m.bounds.right
                ==> moved.position.left == m.bounds.left - width)
            &&& (!(candidate + width < m.bounds.left) && !(candidate > m.bounds.right)
                ==> moved.position.left == candidate)
            &&& rect_width(moved.position) == width
            &&& moved.velocity == m.velocity
        }),
{
    let m1 = spec_tick_resource(m, now);
    assert(m1.position == m.position && m1.velocity == m.velocity && m1.bounds == m.bounds
        && m1.bounds_action == m.bounds_action);
}

/// Law: bounce reflection. Under the `Bounce` policy a candidate that crosses
/// the low edge of an axis is clamped to that edge and the velocity on that
/// axis is negated; at the far edge it is clamped to `high - size` likewise.
pub proof fn lemma_bounce_policy(m: SpriteModel, now: int)
    requires
        !m.dying,
        m.bounds_action is Bounce,
    ensures
        ({
            let candidate = m.position.left + m.velocity.x;
            let moved = spec_sprite_update(m, now).0;
            &&& spec_sprite_update(m, now).1 is Nothing
            &&& (candidate < m.bounds.left ==> moved.position.left == m.bounds.left
                && moved.velocity.x == -m.velocity.x)
            &&& (!(candidate < m.bounds.left) && candidate + rect_width(m.position)
                > m.bounds.right ==> moved.position.left == m.bounds.right - rect_width(m.position)
                && moved.velocity.x == -m.velocity.x)
            &&& (!(candidate < m.bounds.left) && !(candidate + rect_width(m.position)
                > m.bounds.right) ==> moved.position.left == candidate && moved.velocity.x
                == m.velocity.x)
        }),
{
}

/// Law: stopping kills momentum. Under the `Stop` policy a candidate that
/// leaves `[bounds.left, bounds.right - width]` is clamped into that span and
/// the velocity on that axis becomes zero — not merely the position limited.
pub proof fn lemma_stop_policy(m: SpriteModel, now: int)
    requires
        !m.dying,
        m.bounds_action is Stop,
    ensures
        ({
            let candidate = m.position.left + m.velocity.x;
            let width = rect_width(m.position);
            let moved = spec_sprite_update(m, now).0;
            &&& spec_sprite_update(m, now).1 is Nothing
            &&& (candidate < m.bounds.left || candidate > m.bounds.right - width ==> {
                &&& moved.position.left == vstd::math::max(
                    m.bounds.left,
                    vstd::math::min(candidate, m.bounds.right - width),
                )
                &&& moved.velocity.x == 0
            })
            &&& (!(candidate < m.bounds.left || candidate > m.bounds.right - width) ==> {
                &&& moved.position.left == candidate
                &&& moved.velocity.x == m.velocity.x
            })
        }),
{
}

/// Law: a fully departed sprite under the `Die` policy asks to be killed and
/// keeps its position; one still touching the playfield moves to its
/// candidate position.
pub proof fn lemma_die_policy(m: SpriteModel, now: int)
    requires
        !m.dying,
        m.bounds_action is Die,
    ensures
        ({
            let nx = m.position.left + m.velocity.x;
            let ny = m.position.top + m.velocity.y;
            let exited = spec_die_exited(
                nx,
                ny,
                rect_width(m.position),
                rect_height(m.position),
                m.bounds,
            );
            &&& (exited ==> spec_sprite_update(m, now).1 is Kill && spec_sprite_update(
                m,
                now,
            ).0.position == m.position)
            &&& (!exited ==> spec_sprite_update(m, now).1 is Nothing && spec_sprite_update(
                m,
                now,
            ).0.position.left == nx)
        }),
{
}

/// Law: a sprite already marked dying is killed immediately, untouched: no
/// animation step and no movement happen on that tick.
pub proof fn lemma_dying_killed_unchanged(m: SpriteModel, now: int)
    requires
        m.dying,
    ensures
        spec_sprite_update(m, now) == (m, SpriteAction::Kill),
{
}

/// A single simulated game object.
pub struct Sprite<E: SpriteExt> {
    id: u64,
    name: String,
    sprite_ext: Option<E>,
    resource: Resource,
    position: Rect,
    bounds: Rect,
    velocity: Point,
    z_order: i32,
    bounds_action: BoundsAction,
    hidden: bool,
    dying: bool,
}

impl<E: SpriteExt> View for Sprite<E> {
    type V = SpriteModel;

    closed spec fn view(&self) -> SpriteModel {
        SpriteModel {
            id: self.id,
            name: self.name@,
            has_ext: self.sprite_ext is Some,
            resource: self.resource@,
            position: self.position@,
            bounds: self.bounds@,
            velocity: self.velocity@,
            z_order: self.z_order as int,
            bounds_action: self.bounds_action,
            hidden: self.hidden,
            dying: self.dying,
        }
    }
}

impl<E: SpriteExt> Sprite<E> {
    #[verifier::type_invariant]
    spec fn wf(self) -> bool {
        &&& spec_in_playfield(self.bounds@)
        &&& spec_valid_position(self.position@)
        &&& spec_valid_velocity(self.velocity@)
    }

    /// A sprite at the given position, sized to its resource's current frame.
    /// The identifier is derived from the clock reading and a random
    /// fraction; it is intended to be unique but not guaranteed unique.
    pub fn new(
        name: String,
        resource: Resource,
        position: Point,
        velocity: Point,
        z_order: i32,
        bounds: Rect,
        bounds_action: BoundsAction,
        now_ms: u64,
    ) -> (r: Sprite<E>)
        requires
            -COORD_LIMIT <= position.x <= COORD_LIMIT,
            -COORD_LIMIT <= position.y <= COORD_LIMIT,
            spec_valid_velocity(velocity@),
            spec_in_playfield(bounds@),
            now_ms <= CLOCK_LIMIT,
        ensures
            r@.name == name@,
            !r@.has_ext,
            r@.resource == resource@,
            r@.position == rect_at(
                position.x as int,
                position.y as int,
                spec_resource_width(resource@),
                spec_resource_height(resource@),
            ),
            r@.bounds == bounds@,
            r@.velocity == velocity@,
            r@.z_order == z_order as int,
            r@.bounds_action == bounds_action,
            !r@.hidden,
            !r@.dying,
            now_ms as int * 1000 <= r@.id <= now_ms as int * 1000 + 999,
    {
        let width = resource.width();
        let height = resource.height();
        let position_rect = Rect {
            left: position.x,
            top: position.y,
            right: position.x + width,
            bottom: position.y + height,
        };
        let fraction = rand_int(0, 999);
        let id: u64 = now_ms * 1000 + (fraction as u64);
        Sprite {
            id,
            name,
            sprite_ext: None,
            resource,
            position: position_rect,
            bounds,
            velocity,
            z_order,
            bounds_action,
            hidden: false,
            dying: false,
        }
    }

    /// A motionless sprite at the playfield origin with the default `Stop`
    /// policy.
    pub fn from_bitmap(name: String, resource: Resource, bounds: Rect, now_ms: u64) -> (r: Sprite<
        E,
    >)
        requires
            spec_in_playfield(bounds@),
            now_ms <= CLOCK_LIMIT,
        ensures
            r@.name == name@,
            !r@.has_ext,
            r@.resource == resource@,
            r@.position == rect_at(
                0,
                0,
                spec_resource_width(resource@),
                spec_resource_height(resource@),
            ),
            r@.bounds == bounds@,
            r@.velocity == (PointModel { x: 0, y: 0 }),
            r@.z_order == 0,
            r@.bounds_action == BoundsAction::Stop,
            !r@.hidden,
            !r@.dying,
            now_ms as int * 1000 <= r@.id <= now_ms as int * 1000 + 999,
    {
        Sprite::new(
            name,
            resource,
            Point { x: 0, y: 0 },
            Point { x: 0, y: 0 },
            0,
            bounds,
            BoundsAction::Stop,
            now_ms,
        )
    }

    /// A motionless sprite placed at a random spot within the size of its
    /// playfield.
    pub fn with_bounds_action(
        name: String,
        resource: Resource,
        bounds: Rect,
        bounds_action: BoundsAction,
        now_ms: u64,
    ) -> (r: Sprite<E>)
        requires
            spec_in_playfield(bounds@),
            bounds@.left <= bounds@.right,
            bounds@.top <= bounds@.bottom,
            rect_width(bounds@) <= COORD_LIMIT as int,
            rect_height(bounds@) <= COORD_LIMIT as int,
            now_ms <= CLOCK_LIMIT,
        ensures
            r@.name == name@,
            !r@.has_ext,
            r@.resource == resource@,
            r@.position == rect_at(
                r@.position.left,
                r@.position.top,
                spec_resource_width(resource@),
                spec_resource_height(resource@),
            ),
            0 <= r@.position.left <= rect_width(bounds@),
            0 <= r@.position.top <= rect_height(bounds@),
            r@.bounds == bounds@,
            r@.velocity == (PointModel { x: 0, y: 0 }),
            r@.z_order == 0,
            r@.bounds_action == bounds_action,
            !r@.hidden,
            !r@.dying,
            now_ms as int * 1000 <= r@.id <= now_ms as int * 1000 + 999,
    {
        let x_pos = rand_int(0, bounds.right - bounds.left);
        let y_pos = rand_int(0, bounds.bottom - bounds.top);
        Sprite::new(
            name,
            resource,
            Point { x: x_pos, y: y_pos },
            Point { x: 0, y: 0 },
            0,
            bounds,
            bounds_action,
            now_ms,
        )
    }

    /// The shrunk hit-test rectangle for the current position.
    pub fn collision_region(&self) -> (r: Rect)
        ensures
            r@ == spec_collision_region(self@.position),
    {
        proof {
            use_type_invariant(&*self);
        }
        let width: i64 = self.position.right - self.position.left;
        let height: i64 = self.position.bottom - self.position.top;
        let dx: i64 = ((width as u64) / 12) as i64;
        let dy: i64 = ((height as u64) / 12) as i64;
        Rect {
            left: self.position.left + dx,
            top: self.position.top + dy,
            right: self.position.right - dx,
            bottom: self.position.bottom - dy,
        }
    }

    /// One per-tick update; follows [`spec_sprite_update`] exactly.
    pub fn sprite_update(&mut self, now_ms: u64) -> (action: SpriteAction)
        requires
            now_ms <= CLOCK_LIMIT,
        ensures
            final(self)@ == spec_sprite_update(old(self)@, now_ms as int).0,
            action == spec_sprite_update(old(self)@, now_ms as int).1,
    {
        proof {
            use_type_invariant(&*self);
        }
        if self.dying {
            return SpriteAction::Kill;
        }
        if self.resource.tick(now_ms) {
            self.dying = true;
        }
        let vx: i64 = self.velocity.x;
        let vy: i64 = self.velocity.y;
        let mut nx: i64 = self.position.left + vx;
        let mut ny: i64 = self.position.top + vy;
        let sw: i64 = self.position.right - self.position.left;
        let sh: i64 = self.position.bottom - self.position.top;
        match self.bounds_action {
            BoundsAction::Wrap => {
                if nx + sw < self.bounds.left {
                    nx = self.bounds.right;
                } else if nx > self.bounds.right {
                    nx = self.bounds.left - sw;
                }
                if ny + sh < self.bounds.top {
                    ny = self.bounds.bottom;
                } else if ny > self.bounds.bottom {
                    ny = self.bounds.top - sh;
                }
            },
            BoundsAction::Bounce => {
                let mut bounce = false;
                let mut nvx: i64 = vx;
                let mut nvy: i64 = vy;
                if nx < self.bounds.left {
                    bounce = true;
                    nx = self.bounds.left;
                    nvx = -nvx;
                } else if nx + sw > self.bounds.right {
                    bounce = true;
                    nx = self.bounds.right - sw;
                    nvx = -nvx;
                }
                if ny < self.bounds.top {
                    bounce = true;
                    ny = self.bounds.top;
                    nvy = -nvy;
                } else if ny + sh > self.bounds.bottom {
                    bounce = true;
                    ny = self.bounds.bottom - sh;
                    nvy = -nvy;
                }
                if bounce {
                    self.velocity = Point { x: nvx, y: nvy };
                }
            },
            BoundsAction::Die => {
                if nx + sw < self.bounds.left || nx > self.bounds.right || ny + sh
                    < self.bounds.top || ny > self.bounds.bottom {
                    return SpriteAction::Kill;
                }
            },
            BoundsAction::Stop => {
                let low_x: i64 = self.bounds.left;
                let high_x: i64 = self.bounds.right - sw;
                if nx < low_x || nx > high_x {
                    let mut clamped: i64 = nx;
                    if clamped > high_x {
                        clamped = high_x;
                    }
                    if clamped < low_x {
                        clamped = low_x;
                    }
                    nx = clamped;
                    self.velocity = Point { x: 0, y: self.velocity.y };
                }
                let low_y: i64 = self.bounds.top;
                let high_y: i64 = self.bounds.bottom - sh;
                if ny < low_y || ny > high_y {
                    let mut clamped: i64 = ny;
                    if clamped > high_y {
                        clamped = high_y;
                    }
                    if clamped < low_y {
                        clamped = low_y;
                    }
                    ny = clamped;
                    self.velocity = Point { x: self.velocity.x, y: 0 };
                }
            },
        }
        self.position = Rect { left: nx, top: ny, right: nx + sw, bottom: ny + sh };
        SpriteAction::Nothing
    }

    /// The per-tick update, with the extension (when present) given the last
    /// word on the action. The state change is exactly that of
    /// [`spec_sprite_update`] either way; only the returned action can be
    /// overridden.
    pub fn update(&mut self, now_ms: u64) -> (action: SpriteAction)
        requires
            now_ms <= CLOCK_LIMIT,
        ensures
            final(self)@ == spec_sprite_update(old(self)@, now_ms as int).0,
            !old(self)@.has_ext ==> action == spec_sprite_update(old(self)@, now_ms as int).1,
    {
        let computed = self.sprite_update(now_ms);
        match &self.sprite_ext {
            Some(ext) => ext.update(computed),
            None => computed,
        }
    }

    /// Draw the sprite at its position unless it is hidden; the host's
    /// surface decides the outcome of the draw call itself.
    pub fn draw<G: Graphics>(&self, g: &mut G) -> (r: Result<(), String>)
        requires
            !self@.hidden ==> spec_sprite_drawable(self@),
        ensures
            self@.hidden ==> r is Ok,
    {
        if !self.hidden {
            let dest = Region {
                x: self.position.left,
                y: self.position.top,
                width: self.resource.width(),
                height: self.resource.height(),
            };
            match &self.resource {
                Resource::Animation(anim) => anim.draw(g, dest),
                Resource::Static(image) => g.draw_image(image, None, Some(dest)),
            }
        } else {
            Ok(())
        }
    }

    pub fn set_velocity(&mut self, x: i64, y: i64)
        requires
            -COORD_LIMIT <= x <= COORD_LIMIT,
            -COORD_LIMIT <= y <= COORD_LIMIT,
        ensures
            final(self)@ == (SpriteModel {
                velocity: PointModel { x: x as int, y: y as int },
                ..old(self)@
            }),
    {
        proof {
            use_type_invariant(&*self);
        }
        self.velocity = Point { x, y };
    }

    pub fn set_velocity_point(&mut self, velocity: &Point)
        requires
            spec_valid_velocity(velocity@),
        ensures
            final(self)@ == (SpriteModel { velocity: velocity@, ..old(self)@ }),
    {
        proof {
            use_type_invariant(&*self);
        }
        self.velocity = Point { x: velocity.x, y: velocity.y };
    }

    pub fn velocity(&self) -> (r: &Point)
        ensures
            r@ == self@.velocity,
    {
        &self.velocity
    }

    /// Move the sprite so that its top-left corner lands on `position`.
    pub fn set_position_point(&mut self, position: &Point)
        requires
            -COORD_LIMIT <= position.x <= COORD_LIMIT,
            -COORD_LIMIT <= position.y <= COORD_LIMIT,
        ensures
            final(self)@ == (SpriteModel {
                position: rect_moved_to(old(self)@.position, position.x as int, position.y as int),
                ..old(self)@
            }),
    {
        proof {
            use_type_invariant(&*self);
        }
        let width: i64 = self.position.right - self.position.left;
        let height: i64 = self.position.bottom - self.position.top;
        self.position = Rect {
            left: position.x,
            top: position.y,
            right: position.x + width,
            bottom: position.y + height,
        };
    }

    /// Move the sprite so that its top-left corner lands on `(x, y)`.
    pub fn set_position(&mut self, x: i64, y: i64)
        requires
            -COORD_LIMIT <= x <= COORD_LIMIT,
            -COORD_LIMIT <= y <= COORD_LIMIT,
        ensures
            final(self)@ == (SpriteModel {
                position: rect_moved_to(old(self)@.position, x as int, y as int),
                ..old(self)@
            }),
    {
        proof {
            use_type_invariant(&*self);
        }
        let width: i64 = self.position.right - self.position.left;
        let height: i64 = self.position.bottom - self.position.top;
        self.position = Rect { left: x, top: y, right: x + width, bottom: y + height };
    }

    /// Replace the position rectangle outright; the collision region, being
    /// derived from the position, follows it.
    pub fn set_position_rect(&mut self, position: Rect)
        requires
            spec_valid_position(position@),
        ensures
            final(self)@ == (SpriteModel { position: position@, ..old(self)@ }),
    {
        proof {
            use_type_invariant(&*self);
        }
        self.position = position;
    }

    /// Whether this sprite's shrunk collision region overlaps the given full
    /// rectangle. The test is deliberately asymmetric: it always holds the
    /// tester's shrunk region against the other party's unshrunk rectangle.
    pub fn test_collison(&self, test: &Rect) -> (r: bool)
        ensures
            r == rects_overlap(spec_collision_region(self@.position), test@),
    {
        let c = self.collision_region();
        c.left <= test.right && test.left <= c.right && c.top <= test.bottom && test.top
            <= c.bottom
    }

    pub fn is_point_inside(&self, x: i64, y: i64) -> (r: bool)
        ensures
            r == rect_contains_point(self@.position, x as int, y as int),
    {
        self.position.contain(x, y)
    }

    pub fn height(&self) -> (r: i64)
        ensures
            r as int == spec_resource_height(self@.resource),
    {
        self.resource.height()
    }

    pub fn width(&self) -> (r: i64)
        ensures
            r as int == spec_resource_width(self@.resource),
    {
        self.resource.width()
    }

    pub fn z_order(&self) -> (r: i32)
        ensures
            r as int == self@.z_order,
    {
        self.z_order
    }

    pub fn resource(&self) -> (r: &Resource)
        ensures
            r@ == self@.resource,
    {
        &self.resource
    }

    pub fn position(&self) -> (r: &Rect)
        ensures
            r@ == self@.position,
            spec_valid_position(r@),
    {
        proof {
            use_type_invariant(&*self);
        }
        &self.position
    }

    pub fn hidden(&self) -> (r: bool)
        ensures
            r == self@.hidden,
    {
        self.hidden
    }

    pub fn set_hidden(&mut self, hidden: bool)
        ensures
            final(self)@ == (SpriteModel { hidden, ..old(self)@ }),
    {
        proof {
            use_type_invariant(&*self);
        }
        self.hidden = hidden;
    }

    /// Attach an extension; from now on it gets the last word on each tick's
    /// action.
    pub fn ext(&mut self, sprite_ext: E)
        ensures
            final(self)@ == (SpriteModel { has_ext: true, ..old(self)@ }),
    {
        proof {
            use_type_invariant(&*self);
        }
        self.sprite_ext = Some(sprite_ext);
    }

    /// The additional sprite the extension wants spawned, when there is one.
    pub fn add_sprite(&self) -> (r: Option<Sprite<E>>)
        ensures
            r is Some <==> self@.has_ext,
    {
        match self.sprite_ext.as_ref() {
            Some(ext) => Some(ext.add_sprite(self)),
            None => None,
        }
    }

    pub fn id(&self) -> (r: u64)
        ensures
            r == self@.id,
    {
        self.id
    }

    /// Mark the sprite for removal at the end of the next update pass.
    pub fn kill(&mut self)
        ensures
            final(self)@ == (SpriteModel { dying: true, ..old(self)@ }),
    {
        proof {
            use_type_invariant(&*self);
        }
        self.dying = true;
    }

    pub fn dying(&self) -> (r: bool)
        ensures
            r == self@.dying,
    {
        self.dying
    }

    pub fn name(&self) -> (r: &str)
        ensures
            r@ == self@.name,
    {
        self.name.as_str()
    }
}

} // verus!
