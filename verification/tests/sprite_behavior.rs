use sprite_engine::BoundsAction;
use sprite_engine::Image;
use sprite_engine::Point;
use sprite_engine::Rect;
use sprite_engine::Resource;
use sprite_engine::Sprite;
use sprite_engine::SpriteAction;
use sprite_engine::SpriteExt;

struct NoExt;

impl SpriteExt for NoExt {
    fn add_sprite(&self, sprite: &Sprite<NoExt>) -> Sprite<NoExt> {
        plain_sprite(0, 0, 0, 0, BoundsAction::Stop)
    }

    fn update(&self, sprite_action: SpriteAction) -> SpriteAction {
        sprite_action
    }
}

fn square_resource(side: i64) -> Resource {
    Resource::Static(Image::new(1, side, side))
}

fn plain_sprite(x: i64, y: i64, vx: i64, vy: i64, action: BoundsAction) -> Sprite<NoExt> {
    Sprite::new(
        String::from("sprite"),
        square_resource(10),
        Point { x, y },
        Point { x: vx, y: vy },
        0,
        Rect::new(0, 0, 100, 100),
        action,
        0,
    )
}

#[test]
fn new_sprite_sized_to_resource() {
    let s = plain_sprite(3, 4, 0, 0, BoundsAction::Stop);
    let p = *s.position();
    assert_eq!((p.left, p.top, p.right, p.bottom), (3, 4, 13, 14));
    assert_eq!(s.width(), 10);
    assert_eq!(s.height(), 10);
    assert!(!s.dying());
    assert!(!s.hidden());
    assert_eq!(s.z_order(), 0);
    assert_eq!(s.name(), "sprite");
}

#[test]
fn identifier_derived_from_clock() {
    let s: Sprite<NoExt> = Sprite::new(
        String::from("id"),
        square_resource(10),
        Point { x: 0, y: 0 },
        Point { x: 0, y: 0 },
        0,
        Rect::new(0, 0, 100, 100),
        BoundsAction::Stop,
        7,
    );
    assert!(s.id() >= 7000 && s.id() <= 7999);
}

#[test]
fn plain_move_commits_candidate() {
    let mut s = plain_sprite(10, 20, 5, -3, BoundsAction::Stop);
    let action = s.sprite_update(0);
    assert!(matches!(action, SpriteAction::Nothing));
    let p = *s.position();
    assert_eq!((p.left, p.top, p.right, p.bottom), (15, 17, 25, 27));
}

#[test]
fn wrap_right_exit_reappears_left_of_field() {
    // candidate left 105 > bounds.right 100: fully exited right,
    // so the left edge lands on bounds.left - width.
    let mut s = plain_sprite(95, 0, 10, 0, BoundsAction::Wrap);
    s.sprite_update(0);
    assert_eq!(s.position().left, -10);
    assert_eq!(s.position().right, 0);
}

#[test]
fn wrap_left_exit_reappears_at_right_edge() {
    // candidate left -15, right -5 < bounds.left 0: fully exited left,
    // so the left edge lands on bounds.right.
    let mut s = plain_sprite(-5, 0, -10, 0, BoundsAction::Wrap);
    s.sprite_update(0);
    assert_eq!(s.position().left, 100);
}

#[test]
fn wrap_keeps_partly_inside_candidate() {
    let mut s = plain_sprite(95, 0, 3, 0, BoundsAction::Wrap);
    s.sprite_update(0);
    assert_eq!(s.position().left, 98);
}

#[test]
fn bounce_clamps_and_reflects_velocity() {
    let mut s = plain_sprite(0, 50, -5, 0, BoundsAction::Bounce);
    s.sprite_update(0);
    assert_eq!(s.position().left, 0);
    assert_eq!(s.velocity().x, 5);
    assert_eq!(s.velocity().y, 0);
}

#[test]
fn bounce_both_axes_at_once() {
    let mut s = plain_sprite(2, 87, -5, 6, BoundsAction::Bounce);
    s.sprite_update(0);
    assert_eq!(s.position().left, 0);
    assert_eq!(s.position().top, 90);
    assert_eq!(s.velocity().x, 5);
    assert_eq!(s.velocity().y, -6);
}

#[test]
fn stop_clamps_and_zeroes_that_axis() {
    // At the right edge moving out: position clamped, x-velocity killed,
    // y-velocity untouched.
    let mut s = plain_sprite(88, 50, 5, 3, BoundsAction::Stop);
    s.sprite_update(0);
    assert_eq!(s.position().left, 90);
    assert_eq!(s.position().top, 53);
    assert_eq!(s.velocity().x, 0);
    assert_eq!(s.velocity().y, 3);
}

#[test]
fn die_outside_returns_kill_without_moving() {
    let mut s = plain_sprite(150, 150, 5, 5, BoundsAction::Die);
    let action = s.sprite_update(0);
    assert!(matches!(action, SpriteAction::Kill));
    assert_eq!(s.position().left, 150);
    assert_eq!(s.position().top, 150);
}

#[test]
fn die_inside_moves_normally() {
    let mut s = plain_sprite(50, 50, 5, 5, BoundsAction::Die);
    let action = s.sprite_update(0);
    assert!(matches!(action, SpriteAction::Nothing));
    assert_eq!(s.position().left, 55);
}

#[test]
fn dying_sprite_killed_untouched() {
    let mut s = plain_sprite(50, 50, 5, 5, BoundsAction::Stop);
    s.kill();
    let action = s.sprite_update(0);
    assert!(matches!(action, SpriteAction::Kill));
    assert_eq!(s.position().left, 50);
}

#[test]
fn collision_region_shrinks_by_a_twelfth() {
    let s: Sprite<NoExt> = Sprite::new(
        String::from("big"),
        square_resource(120),
        Point { x: 0, y: 0 },
        Point { x: 0, y: 0 },
        0,
        Rect::new(0, 0, 1000, 1000),
        BoundsAction::Stop,
        0,
    );
    let c = s.collision_region();
    assert_eq!((c.left, c.top, c.right, c.bottom), (10, 10, 110, 110));
}

#[test]
fn collision_test_is_asymmetric() {
    // a's shrunk region reaches b's full rectangle, while b's shrunk region
    // stops short of a's full rectangle: a registers the hit, b does not.
    let a: Sprite<NoExt> = Sprite::new(
        String::from("a"),
        square_resource(120),
        Point { x: 0, y: 0 },
        Point { x: 0, y: 0 },
        0,
        Rect::new(0, 0, 1000, 1000),
        BoundsAction::Stop,
        0,
    );
    let b: Sprite<NoExt> = Sprite::new(
        String::from("b"),
        square_resource(144),
        Point { x: 110, y: 0 },
        Point { x: 0, y: 0 },
        0,
        Rect::new(0, 0, 1000, 1000),
        BoundsAction::Stop,
        0,
    );
    assert!(a.test_collison(b.position()));
    assert!(!b.test_collison(a.position()));
}

#[test]
fn rollback_position_keeps_bounced_velocity() {
    // A bounce flips the velocity; restoring the pre-update position by hand
    // (as the engine's rollback does) must not undo the flip.
    let mut s = plain_sprite(2, 50, -5, 0, BoundsAction::Bounce);
    let before = *s.position();
    s.sprite_update(0);
    assert_eq!(s.velocity().x, 5);
    s.set_position_rect(before);
    assert_eq!(s.position().left, 2);
    assert_eq!(s.velocity().x, 5);
}

#[test]
fn point_test_uses_full_rectangle() {
    let s = plain_sprite(10, 10, 0, 0, BoundsAction::Stop);
    assert!(s.is_point_inside(10, 10));
    assert!(s.is_point_inside(20, 20));
    assert!(!s.is_point_inside(21, 20));
}

#[test]
fn setters_move_and_steer() {
    let mut s = plain_sprite(0, 0, 0, 0, BoundsAction::Stop);
    s.set_position(30, 40);
    assert_eq!((s.position().left, s.position().top), (30, 40));
    assert_eq!((s.position().right, s.position().bottom), (40, 50));
    s.set_position_point(&Point { x: 1, y: 2 });
    assert_eq!((s.position().left, s.position().top), (1, 2));
    s.set_velocity(7, -7);
    assert_eq!((s.velocity().x, s.velocity().y), (7, -7));
    s.set_velocity_point(&Point { x: 4, y: 4 });
    assert_eq!((s.velocity().x, s.velocity().y), (4, 4));
    s.set_hidden(true);
    assert!(s.hidden());
}

#[test]
fn spawn_request_needs_extension() {
    let s = plain_sprite(0, 0, 0, 0, BoundsAction::Stop);
    assert!(s.add_sprite().is_none());
    let mut with_ext = plain_sprite(0, 0, 0, 0, BoundsAction::Stop);
    with_ext.ext(NoExt);
    assert!(with_ext.add_sprite().is_some());
}

#[test]
fn wrap_can_cross_both_axes_in_one_tick() {
    let mut s = plain_sprite(95, -5, 10, -10, BoundsAction::Wrap);
    s.sprite_update(0);
    assert_eq!(s.position().left, -10);
    assert_eq!(s.position().top, 100);
}

#[test]
fn die_still_touching_the_edge_survives() {
    // candidate right edge lands exactly on bounds.left: not fully outside.
    let mut s = plain_sprite(-5, 50, -5, 0, BoundsAction::Die);
    let action = s.sprite_update(0);
    assert!(matches!(action, SpriteAction::Nothing));
    assert_eq!(s.position().left, -10);
}

#[test]
fn zero_sized_sprite_has_point_collision_region() {
    let s: Sprite<NoExt> = Sprite::new(
        String::from("dot"),
        square_resource(0),
        Point { x: 5, y: 5 },
        Point { x: 0, y: 0 },
        0,
        Rect::new(0, 0, 100, 100),
        BoundsAction::Stop,
        0,
    );
    let c = s.collision_region();
    assert_eq!((c.left, c.top, c.right, c.bottom), (5, 5, 5, 5));
}

#[test]
fn small_widths_shrink_to_nothing() {
    // Widths under twelve shrink by zero: the collision region equals the
    // position rectangle.
    let s = plain_sprite(0, 0, 0, 0, BoundsAction::Stop);
    let c = s.collision_region();
    let p = *s.position();
    assert_eq!((c.left, c.top, c.right, c.bottom), (p.left, p.top, p.right, p.bottom));
}

#[test]
fn random_placement_stays_within_field_size() {
    for _ in 0..50 {
        let s: Sprite<NoExt> = Sprite::with_bounds_action(
            String::from("placed"),
            square_resource(10),
            Rect::new(0, 0, 50, 30),
            BoundsAction::Wrap,
            0,
        );
        let p = *s.position();
        assert!(p.left >= 0 && p.left <= 50);
        assert!(p.top >= 0 && p.top <= 30);
        assert_eq!(p.right - p.left, 10);
        assert_eq!(p.bottom - p.top, 10);
    }
}
