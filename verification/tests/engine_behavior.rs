use sprite_engine::BoundsAction;
use sprite_engine::GameEngine;
use sprite_engine::GameHost;
use sprite_engine::Image;
use sprite_engine::Point;
use sprite_engine::Rect;
use sprite_engine::Resource;
use sprite_engine::Sprite;
use sprite_engine::SpriteAction;
use sprite_engine::SpriteExt;

struct NoExt;

impl SpriteExt for NoExt {
    fn add_sprite(&self, _sprite: &Sprite<NoExt>) -> Sprite<NoExt> {
        named_sprite("never", 0, 0, 0, 0, 0, BoundsAction::Stop)
    }

    fn update(&self, sprite_action: SpriteAction) -> SpriteAction {
        sprite_action
    }
}

struct Spawner;

impl SpriteExt for Spawner {
    fn add_sprite(&self, sprite: &Sprite<Spawner>) -> Sprite<Spawner> {
        Sprite::new(
            String::from("spawned"),
            Resource::Static(Image::new(2, 10, 10)),
            Point { x: 0, y: 0 },
            Point { x: 0, y: 0 },
            sprite.z_order() + 1,
            Rect::new(0, 0, 100, 100),
            BoundsAction::Stop,
            0,
        )
    }

    fn update(&self, _sprite_action: SpriteAction) -> SpriteAction {
        SpriteAction::AddSprite
    }
}

/// Overrides every computed action with `Nothing`, keeping its sprite alive.
struct Immortal;

impl SpriteExt for Immortal {
    fn add_sprite(&self, _sprite: &Sprite<Immortal>) -> Sprite<Immortal> {
        Sprite::new(
            String::from("unused"),
            Resource::Static(Image::new(0, 1, 1)),
            Point { x: 0, y: 0 },
            Point { x: 0, y: 0 },
            0,
            Rect::new(0, 0, 10, 10),
            BoundsAction::Stop,
            0,
        )
    }

    fn update(&self, _sprite_action: SpriteAction) -> SpriteAction {
        SpriteAction::Nothing
    }
}

struct TestHost {
    roll_back: bool,
    dying: Vec<usize>,
    collisions: Vec<(usize, usize)>,
}

impl TestHost {
    fn new(roll_back: bool) -> TestHost {
        TestHost { roll_back, dying: Vec::new(), collisions: Vec::new() }
    }
}

impl GameHost for TestHost {
    fn sprite_dying(&mut self, sprite_dying_id: usize) {
        self.dying.push(sprite_dying_id);
    }

    fn sprite_collision(&mut self, sprite_hitter_id: usize, sprite_hittee_id: usize) -> bool {
        self.collisions.push((sprite_hitter_id, sprite_hittee_id));
        self.roll_back
    }
}

fn named_sprite<E: SpriteExt>(
    name: &str,
    x: i64,
    y: i64,
    vx: i64,
    vy: i64,
    z: i32,
    action: BoundsAction,
) -> Sprite<E> {
    Sprite::new(
        String::from(name),
        Resource::Static(Image::new(1, 10, 10)),
        Point { x, y },
        Point { x: vx, y: vy },
        z,
        Rect::new(0, 0, 100, 100),
        action,
        0,
    )
}

#[test]
fn insertion_orders_by_z() {
    let mut engine: GameEngine<NoExt> = GameEngine::new();
    engine.add_sprite(named_sprite("z3", 0, 0, 0, 0, 3, BoundsAction::Stop));
    engine.add_sprite(named_sprite("z1", 0, 0, 0, 0, 1, BoundsAction::Stop));
    engine.add_sprite(named_sprite("z2", 0, 0, 0, 0, 2, BoundsAction::Stop));
    let zs: Vec<i32> = engine.sprites().iter().map(|s| s.z_order()).collect();
    assert_eq!(zs, vec![1, 2, 3]);
}

#[test]
fn insertion_keeps_arrival_order_among_equal_z() {
    let mut engine: GameEngine<NoExt> = GameEngine::new();
    engine.add_sprite(named_sprite("first", 0, 0, 0, 0, 5, BoundsAction::Stop));
    engine.add_sprite(named_sprite("second", 0, 0, 0, 0, 5, BoundsAction::Stop));
    engine.add_sprite(named_sprite("third", 0, 0, 0, 0, 5, BoundsAction::Stop));
    let names: Vec<&str> = engine.sprites().iter().map(|s| s.name()).collect();
    assert_eq!(names, vec!["first", "second", "third"]);
}

#[test]
fn update_moves_every_sprite() {
    let mut engine: GameEngine<NoExt> = GameEngine::new();
    engine.add_sprite(named_sprite("a", 10, 10, 1, 2, 0, BoundsAction::Stop));
    engine.add_sprite(named_sprite("b", 40, 40, -2, 0, 0, BoundsAction::Stop));
    let mut host = TestHost::new(false);
    engine.update_sprites(&mut host, 0);
    assert_eq!(engine.sprites[0].position().left, 11);
    assert_eq!(engine.sprites[0].position().top, 12);
    assert_eq!(engine.sprites[1].position().left, 38);
    assert!(host.dying.is_empty());
}

#[test]
fn die_sprite_absent_after_pass() {
    let mut engine: GameEngine<NoExt> = GameEngine::new();
    let mut doomed = named_sprite("doomed", 0, 0, 0, 0, 0, BoundsAction::Die);
    doomed.set_position(150, 150);
    let doomed_id = doomed.id();
    engine.add_sprite(doomed);
    engine.add_sprite(named_sprite("bystander", 50, 50, 0, 0, 1, BoundsAction::Stop));
    let mut host = TestHost::new(false);
    engine.update_sprites(&mut host, 0);
    assert_eq!(engine.sprites.len(), 1);
    assert_eq!(engine.sprites[0].name(), "bystander");
    assert!(engine.get_sprite(doomed_id).is_none());
    assert_eq!(host.dying, vec![0]);
}

#[test]
fn already_dying_sprite_absent_after_pass() {
    let mut engine: GameEngine<NoExt> = GameEngine::new();
    engine.add_sprite(named_sprite("marked", 50, 50, 0, 0, 0, BoundsAction::Stop));
    let id = engine.sprites[0].id();
    engine.kill_sprite(id);
    let mut host = TestHost::new(false);
    engine.update_sprites(&mut host, 0);
    assert_eq!(engine.sprites.len(), 0);
    assert_eq!(host.dying, vec![0]);
}

#[test]
fn rollback_restores_position_not_velocity() {
    let mut engine: GameEngine<NoExt> = GameEngine::new();
    // Bounces at the left edge (velocity flips), then collides with the
    // second sprite; the host rules for a rollback.
    engine.add_sprite(named_sprite("bouncer", 2, 0, -5, 0, 0, BoundsAction::Bounce));
    engine.add_sprite(named_sprite("wall", 5, 5, 0, 0, 1, BoundsAction::Stop));
    let mut host = TestHost::new(true);
    engine.update_sprites(&mut host, 0);
    let bouncer = &engine.sprites[0];
    assert_eq!(bouncer.position().left, 2);
    assert_eq!(bouncer.velocity().x, 5);
    assert!(!host.collisions.is_empty());
    assert_eq!(host.collisions[0], (1, 0));
}

#[test]
fn no_rollback_when_host_declines() {
    let mut engine: GameEngine<NoExt> = GameEngine::new();
    engine.add_sprite(named_sprite("mover", 2, 0, 3, 0, 0, BoundsAction::Stop));
    engine.add_sprite(named_sprite("wall", 5, 5, 0, 0, 1, BoundsAction::Stop));
    let mut host = TestHost::new(false);
    engine.update_sprites(&mut host, 0);
    assert_eq!(engine.sprites[0].position().left, 5);
    assert!(!host.collisions.is_empty());
}

#[test]
fn collision_check_consults_host_only_on_overlap() {
    let mut engine: GameEngine<NoExt> = GameEngine::new();
    engine.add_sprite(named_sprite("lone", 0, 0, 0, 0, 0, BoundsAction::Stop));
    engine.add_sprite(named_sprite("far", 80, 80, 0, 0, 1, BoundsAction::Stop));
    let mut host = TestHost::new(true);
    assert!(!engine.check_sprite_collision(0, &mut host));
    assert!(host.collisions.is_empty());
}

#[test]
fn kill_by_reference_is_idempotent() {
    let mut engine: GameEngine<NoExt> = GameEngine::new();
    engine.add_sprite(named_sprite("victim", 50, 50, 0, 0, 0, BoundsAction::Stop));
    engine.add_sprite(named_sprite("other", 20, 20, 0, 0, 1, BoundsAction::Stop));
    let id = engine.sprites[0].id();
    engine.kill_sprite(id);
    engine.kill_sprite(id);
    assert!(engine.sprites[0].dying());
    assert!(!engine.sprites[1].dying());
    let mut host = TestHost::new(false);
    engine.update_sprites(&mut host, 0);
    assert_eq!(engine.sprites.len(), 1);
    assert_eq!(host.dying, vec![0]);
}

#[test]
fn spawned_sprite_joins_for_next_frame() {
    let mut engine: GameEngine<Spawner> = GameEngine::new();
    let mut spawner = Sprite::new(
        String::from("parent"),
        Resource::Static(Image::new(1, 10, 10)),
        Point { x: 0, y: 0 },
        Point { x: 0, y: 0 },
        0,
        Rect::new(0, 0, 100, 100),
        BoundsAction::Stop,
        0,
    );
    spawner.ext(Spawner);
    engine.add_sprite(spawner);
    let mut host = TestHost::new(false);
    engine.update_sprites(&mut host, 0);
    assert_eq!(engine.sprites.len(), 2);
    assert_eq!(engine.sprites[1].name(), "spawned");
    // The spawned sprite was not visited this pass: it sits where it was
    // created.
    assert_eq!(engine.sprites[1].position().left, 0);
}

#[test]
fn extension_can_veto_a_kill() {
    let mut engine: GameEngine<Immortal> = GameEngine::new();
    let mut sprite = Sprite::new(
        String::from("immortal"),
        Resource::Static(Image::new(1, 10, 10)),
        Point { x: 50, y: 50 },
        Point { x: 0, y: 0 },
        0,
        Rect::new(0, 0, 100, 100),
        BoundsAction::Stop,
        0,
    );
    sprite.ext(Immortal);
    sprite.kill();
    engine.add_sprite(sprite);
    let mut host = TestHost::new(false);
    engine.update_sprites(&mut host, 0);
    // The generic update said Kill, but the extension got the last word.
    assert_eq!(engine.sprites.len(), 1);
    assert!(host.dying.is_empty());
}

#[test]
fn point_test_skips_hidden_sprites() {
    let mut engine: GameEngine<NoExt> = GameEngine::new();
    let mut veiled = named_sprite("veiled", 10, 10, 0, 0, 0, BoundsAction::Stop);
    veiled.set_hidden(true);
    engine.add_sprite(veiled);
    engine.add_sprite(named_sprite("shown", 10, 10, 0, 0, 1, BoundsAction::Stop));
    assert!(engine.sprites[0].hidden());
    let hit = engine.is_point_in_sprite(15, 15);
    assert_eq!(hit.map(|s| s.name()), Some("shown"));
    assert!(engine.is_point_in_sprite(90, 90).is_none());
}

#[test]
fn lookup_by_id_yields_mutable_sprite() {
    let mut engine: GameEngine<NoExt> = GameEngine::new();
    engine.add_sprite(named_sprite("a", 0, 0, 0, 0, 0, BoundsAction::Stop));
    engine.add_sprite(named_sprite("b", 20, 20, 0, 0, 1, BoundsAction::Stop));
    let id = engine.sprites[1].id();
    match engine.get_sprite(id) {
        Some(sprite) => sprite.set_velocity(9, 9),
        None => panic!("sprite not found"),
    }
    assert_eq!(engine.sprites[1].velocity().x, 9);
    assert!(engine.get_sprite(u64::MAX).is_none());
}

#[test]
fn clear_empties_the_collection() {
    let mut engine: GameEngine<NoExt> = GameEngine::new();
    engine.add_sprite(named_sprite("a", 0, 0, 0, 0, 0, BoundsAction::Stop));
    engine.clean_up_sprites();
    assert!(engine.sprites().is_empty());
}

#[test]
fn host_lifecycle_defaults() {
    let mut host = TestHost::new(false);
    assert!(host.initialize());
    host.end();
}
