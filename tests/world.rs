use sprite_ecs::animation::character_animation_frames;
use sprite_ecs::components::{
    Direction, KeyboardControlled, MovementAnimation, MovementCommand, Position, Sprite, Velocity,
};
use sprite_ecs::geometry::{Point, Rect, MAX_COORD};
use sprite_ecs::renderer::{entity_draw_call, DrawCall};
use sprite_ecs::systems::{animate, apply_command, move_position, PLAYER_MOVEMENT_SPEED};
use sprite_ecs::world::{EntityComponents, Scene};

fn player_world(speed: i32, direction: Direction) -> Scene {
    player_world_at_frame(speed, direction, 0)
}

fn player_world_at_frame(speed: i32, direction: Direction, current_frame: usize) -> Scene {
    let mut animation = MovementAnimation::from_spritesheet(0, Rect::new(0, 0, 32, 32));
    animation.current_frame = current_frame;
    let sprite = animation.right_frames[0];
    let mut world = Scene::new();
    world.create_entity(EntityComponents {
        keyboard_controlled: Some(KeyboardControlled),
        position: Some(Position(Point::new(0, 0))),
        velocity: Some(Velocity { speed, direction }),
        sprite: Some(sprite),
        animation: Some(animation),
    });
    world
}

fn frame(world: &Scene, e: usize) -> usize {
    world.current_frame(e).unwrap()
}

fn position(world: &Scene, e: usize) -> (i32, i32) {
    let p = world.position(e).unwrap().0;
    (p.x, p.y)
}

#[test]
fn moving_frames_count_ticks_modulo_three() {
    for n in 0..10usize {
        let mut world = player_world(PLAYER_MOVEMENT_SPEED, Direction::Down);
        for _ in 0..n {
            world.run_animator();
        }
        assert_eq!(frame(&world, 0), n % 3);
        if n == 0 {
            continue;
        }
        let shown = world.sprite(0).unwrap();
        assert_eq!(shown, character_animation_frames(0, Rect::new(0, 0, 32, 32), Direction::Down)[n % 3]);
    }
}

#[test]
fn still_entity_keeps_its_frame() {
    let mut world = player_world_at_frame(0, Direction::Left, 2);
    for _ in 0..7 {
        world.run_animator();
        assert_eq!(frame(&world, 0), 2);
    }
    assert_eq!(world.sprite(0).unwrap().region, Rect::new(64, 32, 32, 32));
}

#[test]
fn animate_shows_the_frame_of_the_direction_of_travel() {
    let mut a = MovementAnimation::from_spritesheet(3, Rect::new(0, 0, 10, 10));
    let mut s = a.down_frames[0];
    animate(&mut a, &Velocity { speed: 20, direction: Direction::Up }, &mut s);
    assert_eq!(a.current_frame, 1);
    assert_eq!(s, Sprite { spritesheet: 3, region: Rect::new(10, 30, 10, 10) });
}

#[test]
fn physics_moves_along_the_direction_axis() {
    let cases = [
        (Direction::Right, (20, 0)),
        (Direction::Left, (-20, 0)),
        (Direction::Down, (0, 20)),
        (Direction::Up, (0, -20)),
    ];
    for (d, expected) in cases {
        let mut world = player_world(20, d);
        world.run_physics();
        assert_eq!(position(&world, 0), expected);
    }
}

#[test]
fn physics_with_zero_speed_stays() {
    let mut world = player_world(0, Direction::Up);
    world.run_physics();
    assert_eq!(position(&world, 0), (0, 0));
}

#[test]
fn movement_clamps_at_the_edge() {
    let mut p = Position(Point::new(MAX_COORD - 5, 7));
    move_position(&mut p, &Velocity { speed: 20, direction: Direction::Right });
    assert_eq!((p.0.x, p.0.y), (MAX_COORD, 7));
}

#[test]
fn stop_halts_whatever_the_direction() {
    for d in [Direction::Up, Direction::Down, Direction::Left, Direction::Right] {
        let mut world = player_world(20, d);
        world.run_keyboard(Some(MovementCommand::Stop));
        assert_eq!(world.velocity(0), Some(Velocity { speed: 0, direction: d }));
    }
}

#[test]
fn move_and_no_command() {
    let mut v = Velocity { speed: 0, direction: Direction::Right };
    apply_command(&mut v, Some(MovementCommand::Move(Direction::Up)));
    assert_eq!(v, Velocity { speed: PLAYER_MOVEMENT_SPEED, direction: Direction::Up });
    apply_command(&mut v, None);
    assert_eq!(v, Velocity { speed: 20, direction: Direction::Up });
}

#[test]
fn keyboard_steers_only_controlled_entities() {
    let mut world = player_world(0, Direction::Right);
    let other = world.create_entity(EntityComponents {
        keyboard_controlled: None,
        position: Some(Position(Point::new(5, 5))),
        velocity: Some(Velocity { speed: 3, direction: Direction::Down }),
        sprite: None,
        animation: None,
    });
    assert_eq!(other, 1);
    assert_eq!(world.entity_count(), 2);
    world.run_keyboard(Some(MovementCommand::Move(Direction::Left)));
    assert_eq!(world.velocity(0), Some(Velocity { speed: 20, direction: Direction::Left }));
    assert_eq!(world.velocity(1), Some(Velocity { speed: 3, direction: Direction::Down }));
}

#[test]
fn move_right_for_three_ticks() {
    let mut world = player_world(0, Direction::Right);
    world.dispatch(Some(MovementCommand::Move(Direction::Right)));
    world.dispatch(None);
    world.dispatch(None);
    assert_eq!(position(&world, 0), (60, 0));
    assert_eq!(frame(&world, 0), 0);
    assert_eq!(world.sprite(0).unwrap().region, Rect::new(0, 64, 32, 32));
}

#[test]
fn draw_calls_center_each_drawable_entity() {
    let mut world = player_world(0, Direction::Right);
    world.create_entity(EntityComponents {
        keyboard_controlled: None,
        position: Some(Position(Point::new(1, 1))),
        velocity: None,
        sprite: None,
        animation: None,
    });
    world.create_entity(EntityComponents {
        keyboard_controlled: None,
        position: Some(Position(Point::new(-100, 50))),
        velocity: None,
        sprite: Some(Sprite { spritesheet: 1, region: Rect::new(8, 8, 16, 10) }),
        animation: None,
    });
    let calls = world.draw_calls(640, 480);
    assert_eq!(
        calls,
        vec![
            DrawCall { spritesheet: 0, source: Rect::new(0, 64, 32, 32), dest: Rect::new(304, 224, 32, 32) },
            DrawCall { spritesheet: 1, source: Rect::new(8, 8, 16, 10), dest: Rect::new(212, 285, 16, 10) },
        ]
    );
    assert!(Scene::new().draw_calls(640, 480).is_empty());
}

#[test]
fn one_draw_call_uses_half_the_screen() {
    let call = entity_draw_call(
        &Position(Point::new(10, -10)),
        &Sprite { spritesheet: 0, region: Rect::new(0, 0, 32, 32) },
        641,
        481,
    );
    assert_eq!(call.dest, Rect::new(314, 214, 32, 32));
}

#[test]
fn stop_frame_draws_in_the_same_place() {
    for d in [Direction::Up, Direction::Down, Direction::Left, Direction::Right] {
        let mut world = player_world(20, d);
        let before = world.draw_calls(640, 480)[0].dest;
        world.dispatch(Some(MovementCommand::Stop));
        assert_eq!(world.draw_calls(640, 480)[0].dest, before);
        assert_eq!(world.velocity(0), Some(Velocity { speed: 0, direction: d }));
    }
}
