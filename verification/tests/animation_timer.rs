use sprite_engine::Animation;
use sprite_engine::AnimationTimer;
use sprite_engine::GameEngine;
use sprite_engine::GameHost;
use sprite_engine::BoundsAction;
use sprite_engine::Image;
use sprite_engine::Point;
use sprite_engine::Rect;
use sprite_engine::Region;
use sprite_engine::Resource;
use sprite_engine::Sprite;
use sprite_engine::SpriteAction;
use sprite_engine::SpriteExt;

struct NoExt;

impl SpriteExt for NoExt {
    fn add_sprite(&self, _sprite: &Sprite<NoExt>) -> Sprite<NoExt> {
        Sprite::new(
            String::from("unused"),
            Resource::Static(Image::new(0, 1, 1)),
            Point { x: 0, y: 0 },
            Point { x: 0, y: 0 },
            0,
            Rect::new(0, 0, 10, 10),
            BoundsAction::Stop,
            0,
        )
    }

    fn update(&self, sprite_action: SpriteAction) -> SpriteAction {
        sprite_action
    }
}

struct QuietHost;

impl GameHost for QuietHost {
    fn sprite_dying(&mut self, _sprite_dying_id: usize) {
    }

    fn sprite_collision(&mut self, _hitter: usize, _hittee: usize) -> bool {
        false
    }
}

fn strip(frames: usize) -> Vec<Region> {
    let mut out = Vec::new();
    let mut i = 0;
    while i < frames {
        out.push(Region { x: (i as i64) * 16, y: 0, width: 16, height: 16 });
        i += 1;
    }
    out
}

#[test]
fn timer_paces_by_frame_interval() {
    let mut timer = AnimationTimer::new(10);
    assert!(timer.ready_for_next_frame(0));
    assert!(!timer.ready_for_next_frame(50));
    assert!(timer.ready_for_next_frame(100));
    assert!(!timer.ready_for_next_frame(150));
    assert!(timer.ready_for_next_frame(200));
}

#[test]
fn timer_reset_moves_the_deadline() {
    let mut timer = AnimationTimer::new(10);
    timer.reset(500);
    assert!(!timer.ready_for_next_frame(499));
    assert!(timer.ready_for_next_frame(500));
}

#[test]
fn timer_set_fps_changes_interval() {
    let mut timer = AnimationTimer::new(1);
    assert!(timer.ready_for_next_frame(0));
    assert!(!timer.ready_for_next_frame(999));
    timer.set_fps(1000);
    assert!(timer.ready_for_next_frame(1000));
    assert!(timer.ready_for_next_frame(1001));
}

#[test]
fn animation_advances_when_due() {
    let mut anim = Animation::active(Image::new(3, 48, 16), strip(3), 1, 0);
    assert!(anim.is_active());
    assert!(anim.update(0));
    assert_eq!(anim.current_frame_region().x, 0);
    assert!(!anim.update(500));
    assert!(anim.update(1000));
    assert_eq!(anim.current_frame_region().x, 16);
    assert!(anim.update(2000));
    assert_eq!(anim.current_frame_region().x, 32);
}

#[test]
fn animation_without_repeat_ends_and_stops() {
    let mut anim = Animation::active(Image::new(3, 48, 16), strip(3), 1, 0);
    anim.update(0);
    anim.update(1000);
    anim.update(2000);
    assert!(!anim.is_end());
    anim.update(3000);
    assert!(anim.is_end());
    assert!(!anim.is_active());
    // Draw keeps showing the final frame after the end.
    assert_eq!(anim.current_frame_region().x, 32);
}

#[test]
fn animation_with_repeat_restarts() {
    let mut anim = Animation::active(Image::new(3, 32, 16), strip(2), 1, 0);
    anim.set_repeat(true);
    assert!(anim.is_repeat());
    anim.update(0);
    anim.update(1000);
    assert_eq!(anim.current_frame_region().x, 16);
    anim.update(2000);
    assert!(anim.is_active());
    assert!(!anim.is_end());
    assert_eq!(anim.current_frame_region().x, 0);
}

#[test]
fn stopped_animation_does_not_advance() {
    let mut anim = Animation::new(Image::new(3, 48, 16), strip(3), 1);
    assert!(!anim.is_active());
    assert!(!anim.update(5000));
    anim.start(6000);
    assert!(anim.update(6000));
    anim.stop();
    assert!(!anim.update(9000));
}

#[test]
fn frame_size_comes_from_first_frame() {
    let anim = Animation::new(Image::new(3, 48, 16), strip(3), 1);
    assert_eq!(anim.frame_width(), 16);
    assert_eq!(anim.frame_height(), 16);
    let empty = Animation::new(Image::new(3, 48, 16), Vec::new(), 1);
    assert_eq!(empty.frame_width(), 0);
    assert_eq!(empty.frame_height(), 0);
}

#[test]
fn engine_passes_the_clock_to_animations() {
    let anim = Animation::active(Image::new(4, 32, 16), strip(2), 1, 0);
    let sprite: Sprite<NoExt> = Sprite::new(
        String::from("animated"),
        Resource::Animation(anim),
        Point { x: 0, y: 0 },
        Point { x: 0, y: 0 },
        0,
        Rect::new(0, 0, 100, 100),
        BoundsAction::Stop,
        0,
    );
    let mut engine: GameEngine<NoExt> = GameEngine::new();
    engine.add_sprite(sprite);
    let mut host = QuietHost;
    engine.update_sprites(&mut host, 0);
    engine.update_sprites(&mut host, 500);
    match engine.sprites[0].resource() {
        Resource::Animation(a) => assert_eq!(a.current_frame_region().x, 0),
        Resource::Static(_) => panic!("expected an animated resource"),
    }
    engine.update_sprites(&mut host, 1000);
    match engine.sprites[0].resource() {
        Resource::Animation(a) => assert_eq!(a.current_frame_region().x, 16),
        Resource::Static(_) => panic!("expected an animated resource"),
    }
}

#[test]
fn ended_one_shot_animation_kills_its_sprite() {
    let mut anim = Animation::active(Image::new(4, 16, 16), strip(1), 1, 0);
    anim.set_repeat(false);
    let mut sprite: Sprite<NoExt> = Sprite::new(
        String::from("burst"),
        Resource::Animation(anim),
        Point { x: 20, y: 20 },
        Point { x: 1, y: 0 },
        0,
        Rect::new(0, 0, 100, 100),
        BoundsAction::Stop,
        0,
    );
    // First tick: the single frame is shown; the strip has not ended yet.
    assert!(matches!(sprite.sprite_update(0), SpriteAction::Nothing));
    assert!(!sprite.dying());
    // Second tick: the strip runs past its final frame, the sprite marks
    // itself dying and still moves this tick.
    assert!(matches!(sprite.sprite_update(1000), SpriteAction::Nothing));
    assert!(sprite.dying());
    assert_eq!(sprite.position().left, 22);
    // Third tick: killed before any further movement.
    assert!(matches!(sprite.sprite_update(2000), SpriteAction::Kill));
    assert_eq!(sprite.position().left, 22);
}
