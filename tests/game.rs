use bowling::game::{FrameInput, Game};
use bowling::launcher::{
    make_ball, palette_colour, shoot, ShootClock, CURVE_MAX, CURVE_MIN, OFFSET_MAX, OFFSET_MIN,
    RADIUS_MAX, RADIUS_MIN, SHOOT_INTERVAL_NS, SPEED_MAX, SPEED_MIN,
};
use bowling::menu::{end_condition, update, view, Align, Extent, GameState, Message};
use bowling::scene::{pin_at, setup_scene, Body, Colour, LightSettings, Role, Shape, SpawnSpec, Vec3i};
use bowling::world::{Moved, World};

fn input(delta_ns: u64, messages: Vec<Message>, moves: Vec<Moved>) -> FrameInput {
    FrameInput { delta_ns, messages, moves }
}

fn count(game: &Game, role: Role) -> usize {
    game.world.entities.iter().filter(|e| e.spec.role == role).count()
}

fn started() -> Game {
    let mut game = Game::new();
    game.frame(&input(0, vec![Message::StartClicked], vec![]));
    game.frame(&input(0, vec![], vec![]));
    game
}

#[test]
fn start_click_enters_play_with_full_scene() {
    let mut game = Game::new();
    assert_eq!(game.state, GameState::MainMenu);
    let shots = game.frame(&input(16_000_000, vec![Message::StartClicked], vec![]));
    assert!(shots.is_empty());
    assert_eq!(game.next, Some(GameState::Playing));
    assert_eq!(game.state, GameState::MainMenu);
    let shots = game.frame(&input(0, vec![], vec![]));
    assert!(shots.is_empty());
    assert_eq!(game.state, GameState::Playing);
    assert_eq!(count(&game, Role::Ground), 1);
    assert_eq!(count(&game, Role::Railing), 2);
    assert_eq!(count(&game, Role::Pin), 10);
    assert_eq!(count(&game, Role::Light), 1);
    assert_eq!(count(&game, Role::Camera), 1);
    assert_eq!(count(&game, Role::Ball), 0);
    assert_eq!(game.world.entities.len(), 15);
}

#[test]
fn ten_intervals_fire_ten_balls() {
    let mut game = started();
    let mut shots = 0;
    for _ in 0..10 {
        shots += game.frame(&input(100_000_000, vec![], vec![])).len();
    }
    assert_eq!(shots, 10);
    assert_eq!(count(&game, Role::Ball), 10);
    assert_eq!(count(&game, Role::Pin), 10);
    assert_eq!(game.state, GameState::Playing);
}

#[test]
fn short_frames_fire_once_per_interval() {
    let mut game = started();
    let mut shots = 0;
    for _ in 0..20 {
        shots += game.frame(&input(50_000_000, vec![], vec![])).len();
    }
    assert_eq!(shots, 10);
}

#[test]
fn long_frame_fires_once_per_completed_interval() {
    let mut game = started();
    let shots = game.frame(&input(250_000_000, vec![], vec![]));
    assert_eq!(shots.len(), 2);
    assert_eq!(count(&game, Role::Ball), 2);
    assert_eq!(game.clock.elapsed_ns, 50_000_000);
    assert_eq!(game.frame(&input(50_000_000, vec![], vec![])).len(), 1);
    assert_eq!(game.clock.elapsed_ns, 0);
    assert_eq!(game.frame(&input(1_000_000_000, vec![], vec![])).len(), 10);
    assert_eq!(count(&game, Role::Ball), 13);
    let ids: Vec<u64> = game.world.entities.iter().map(|e| e.id).collect();
    assert!(ids.windows(2).all(|w| w[0] < w[1]));
}

#[test]
fn knocking_all_pins_off_returns_to_menu() {
    let mut game = started();
    let moves: Vec<Moved> = game
        .world
        .entities
        .iter()
        .filter(|e| e.spec.role == Role::Pin)
        .map(|e| Moved { id: e.id, y: -6000 })
        .collect();
    assert_eq!(moves.len(), 10);
    game.frame(&input(0, vec![], moves));
    assert_eq!(count(&game, Role::Pin), 0);
    assert_eq!(game.next, Some(GameState::MainMenu));
    game.frame(&input(0, vec![], vec![]));
    assert_eq!(game.state, GameState::MainMenu);
    assert_eq!(game.world.entities.iter().filter(|e| e.spec.level_unload).count(), 0);
    assert_eq!(game.world.entities.len(), 0);
}

#[test]
fn some_pins_left_keeps_playing() {
    let mut game = started();
    let first_pin = game.world.entities.iter().find(|e| e.spec.role == Role::Pin).unwrap().id;
    game.frame(&input(0, vec![], vec![Moved { id: first_pin, y: -5000 }]));
    assert_eq!(count(&game, Role::Pin), 9);
    assert!(!game.world.contains(first_pin));
    assert_eq!(game.next, None);
    game.frame(&input(0, vec![], vec![]));
    assert_eq!(game.state, GameState::Playing);
}

#[test]
fn fall_limit_is_inclusive() {
    let mut game = started();
    let pins: Vec<u64> =
        game.world.entities.iter().filter(|e| e.spec.role == Role::Pin).map(|e| e.id).collect();
    let ground = game.world.entities.iter().find(|e| e.spec.role == Role::Ground).unwrap().id;
    game.frame(&input(
        0,
        vec![],
        vec![
            Moved { id: pins[0], y: -4999 },
            Moved { id: pins[1], y: -5000 },
            Moved { id: pins[2], y: -9000 },
            Moved { id: pins[2], y: 100 },
            Moved { id: ground, y: -8000 },
        ],
    ));
    assert!(game.world.contains(pins[0]));
    assert!(!game.world.contains(pins[1]));
    assert!(game.world.contains(pins[2]));
    assert!(game.world.contains(ground));
}

#[test]
fn fallen_ball_is_removed() {
    let mut game = started();
    game.frame(&input(100_000_000, vec![], vec![]));
    let ball = game.world.entities.iter().find(|e| e.spec.role == Role::Ball).unwrap().id;
    assert!(game.world.contains(ball));
    game.frame(&input(0, vec![], vec![Moved { id: ball, y: -5001 }]));
    assert!(!game.world.contains(ball));
}

#[test]
fn replay_restarts_clock_and_scene() {
    let mut game = started();
    game.frame(&input(60_000_000, vec![], vec![]));
    assert_eq!(game.clock.elapsed_ns, 60_000_000);
    let moves: Vec<Moved> = game
        .world
        .entities
        .iter()
        .filter(|e| e.spec.role == Role::Pin)
        .map(|e| Moved { id: e.id, y: -6000 })
        .collect();
    game.frame(&input(0, vec![], moves));
    game.frame(&input(0, vec![Message::StartClicked], vec![]));
    game.frame(&input(0, vec![], vec![]));
    assert_eq!(game.state, GameState::Playing);
    assert_eq!(game.clock.elapsed_ns, 0);
    assert_eq!(count(&game, Role::Pin), 10);
}

#[test]
fn menu_ignores_time_and_moves() {
    let mut game = Game::new();
    let shots = game.frame(&input(500_000_000, vec![], vec![Moved { id: 0, y: -9000 }]));
    assert!(shots.is_empty());
    assert_eq!(game.state, GameState::MainMenu);
    assert_eq!(game.next, None);
    assert_eq!(game.world.entities.len(), 0);
}

#[test]
fn balls_fly_level_within_ranges() {
    let mut speeds = std::collections::BTreeSet::new();
    for _ in 0..200 {
        let b = shoot();
        assert_eq!(b.role, Role::Ball);
        assert!(b.level_unload);
        assert!(b.ccd);
        assert_eq!(b.body, Some(Body::Dynamic));
        assert_eq!(b.density, Some(10000));
        assert_eq!(b.vel.y, 0);
        assert!(CURVE_MIN <= b.vel.x && b.vel.x < CURVE_MAX);
        assert!(SPEED_MIN <= b.vel.z && b.vel.z < SPEED_MAX);
        assert!(OFFSET_MIN <= b.pos.x && b.pos.x < OFFSET_MAX);
        assert_eq!((b.pos.y, b.pos.z), (2500, 58000));
        match b.shape {
            Some(Shape::Sphere { radius }) => assert!(RADIUS_MIN <= radius && radius < RADIUS_MAX),
            _ => panic!("a ball is a sphere"),
        }
        assert!(matches!(b.colour, Some(Colour::Purple) | Some(Colour::Blue) | Some(Colour::Pink)));
        speeds.insert(b.vel.z);
    }
    assert!(speeds.len() > 1);
}

#[test]
fn ball_from_draws() {
    let b = make_ball(1, 300, -1500, 4999, -100000);
    assert_eq!(
        b,
        SpawnSpec {
            role: Role::Ball,
            level_unload: true,
            shape: Some(Shape::Sphere { radius: 300 }),
            body: Some(Body::Dynamic),
            density: Some(10000),
            ccd: true,
            colour: Some(Colour::Blue),
            pos: Vec3i { x: -1500, y: 2500, z: 58000 },
            vel: Vec3i { x: 4999, y: 0, z: -100000 },
            light: None,
            look_at: None,
        }
    );
    assert_eq!(palette_colour(0), Colour::Purple);
    assert_eq!(palette_colour(2), Colour::Pink);
    assert_eq!(palette_colour(3), Colour::Red);
}

#[test]
fn clock_carries_remainder() {
    let mut c = ShootClock::new(SHOOT_INTERVAL_NS);
    assert_eq!(c.tick(99_999_999), 0);
    assert_eq!(c.elapsed_ns, 99_999_999);
    assert_eq!(c.tick(1), 1);
    assert_eq!(c.elapsed_ns, 0);
    assert_eq!(c.tick(250_000_000), 2);
    assert_eq!(c.elapsed_ns, 50_000_000);
    let total = 50_000_000u128 + u64::MAX as u128;
    assert_eq!(c.tick(u64::MAX) as u128, total / 100_000_000);
    assert_eq!(c.elapsed_ns as u128, total % 100_000_000);
    let mut one = ShootClock::new(1);
    assert_eq!(one.tick(u64::MAX), u64::MAX);
    assert_eq!(one.elapsed_ns, 0);
}

#[test]
fn scene_layout() {
    let s = setup_scene();
    assert_eq!(s.len(), 15);
    assert!(s.iter().all(|e| e.level_unload));
    assert_eq!(s[0].role, Role::Ground);
    assert_eq!(s[0].shape, Some(Shape::Cuboid { half: Vec3i { x: 6000, y: 500, z: 64000 } }));
    assert_eq!(s[1].pos, Vec3i { x: -4500, y: 1000, z: 0 });
    assert_eq!(s[2].shape, Some(Shape::Cuboid { half: Vec3i { x: 500, y: 500, z: 64000 } }));
    let pins: Vec<&SpawnSpec> = s.iter().filter(|e| e.role == Role::Pin).collect();
    assert_eq!(pins.len(), 10);
    assert_eq!(pins[0].pos, Vec3i { x: 0, y: 2000, z: -25000 });
    assert_eq!(pins[1].pos, Vec3i { x: -1000, y: 2000, z: -26000 });
    assert_eq!(pins[2].pos, Vec3i { x: 1000, y: 2000, z: -26000 });
    assert_eq!(pins[9].pos, Vec3i { x: 3000, y: 2000, z: -28000 });
    assert!(pins.iter().all(|p| p.ccd && p.density == Some(100) && p.body == Some(Body::Dynamic)));
    assert_eq!(*pins[6], pin_at(3, -3));
    assert_eq!(s[13].role, Role::Light);
    assert_eq!(s[13].pos, Vec3i { x: 40000, y: 30000, z: -10000 });
    assert_eq!(s[13].light, Some(LightSettings { intensity: 200000, range: 2000, shadows: true }));
    assert_eq!(s[14].role, Role::Camera);
    assert_eq!(s[14].look_at, Some(Vec3i { x: 0, y: 0, z: 0 }));
    assert!(s[..13].iter().all(|e| e.light.is_none() && e.look_at.is_none()));
    assert_eq!(s[14].pos, Vec3i { x: 0, y: 8000, z: -50000 });
}

#[test]
fn menu_view_and_messages() {
    let v = view();
    assert_eq!(v.title, "Bevy Bowling");
    assert_eq!(v.button_label, "Start Game");
    assert_eq!(v.title_size, 50);
    assert_eq!(v.spacing, 20);
    assert_eq!(v.on_press, Message::StartClicked);
    assert_eq!(v.items_align, Align::Center);
    assert_eq!((v.width, v.height), (Extent::Fill, Extent::Fill));
    assert_eq!((v.align_x, v.align_y), (Align::Center, Align::Center));
    let mut next = None;
    update(&vec![], &mut next);
    assert_eq!(next, None);
    update(&vec![Message::StartClicked, Message::StartClicked], &mut next);
    assert_eq!(next, Some(GameState::Playing));
    assert_eq!(GameState::initial(), GameState::MainMenu);
}

#[test]
fn end_rule() {
    let mut next = None;
    end_condition(3, &mut next);
    assert_eq!(next, None);
    end_condition(0, &mut next);
    assert_eq!(next, Some(GameState::MainMenu));
}

#[test]
fn world_ids_and_cleanup() {
    let mut w = World::new();
    let mut outside = pin_at(0, 0);
    outside.level_unload = false;
    assert_eq!(w.spawn(pin_at(0, 0)), 0);
    assert_eq!(w.spawn(outside), 1);
    assert_eq!(w.pin_count(), 2);
    w.apply_moves(&vec![Moved { id: 1, y: 7 }, Moved { id: 1, y: 9 }]);
    assert_eq!(w.entities[1].spec.pos.y, 9);
    assert_eq!(w.entities[0].spec.pos.y, 2000);
    w.cleanup();
    assert_eq!(w.entities.len(), 1);
    assert!(w.contains(1));
    assert!(!w.contains(0));
    assert_eq!(w.next_id, 2);
}
