use sprite_ecs::animation::{character_animation_frames, direction_spritesheet_row, FRAMES_PER_DIRECTION};
use sprite_ecs::components::{Direction, MovementAnimation, Sprite};
use sprite_ecs::geometry::{Point, Rect, MAX_COORD, MIN_COORD};

const ALL: [Direction; 4] = [Direction::Up, Direction::Down, Direction::Left, Direction::Right];

#[test]
fn rows_follow_the_sheet_layout() {
    assert_eq!(direction_spritesheet_row(Direction::Down), 0);
    assert_eq!(direction_spritesheet_row(Direction::Left), 1);
    assert_eq!(direction_spritesheet_row(Direction::Right), 2);
    assert_eq!(direction_spritesheet_row(Direction::Up), 3);
}

#[test]
fn three_frames_side_by_side_for_every_direction() {
    let top_left = Rect::new(0, 0, 32, 32);
    for d in ALL {
        let frames = character_animation_frames(0, top_left, d);
        assert_eq!(frames.len(), FRAMES_PER_DIRECTION);
        for (i, f) in frames.iter().enumerate() {
            assert_eq!(f.spritesheet, 0);
            assert_eq!(f.region.x(), 32 * i as i32);
            assert_eq!(f.region.y(), 32 * direction_spritesheet_row(d));
            assert_eq!(f.region.size(), (32, 32));
        }
    }
}

#[test]
fn frames_start_at_the_given_corner() {
    let top_left = Rect::new(10, 5, 16, 24);
    let frames = character_animation_frames(2, top_left, Direction::Up);
    let xs: Vec<i32> = frames.iter().map(|f| f.region.x()).collect();
    assert_eq!(xs, vec![10, 26, 42]);
    assert!(frames.iter().all(|f| f.region.y() == 77 && f.spritesheet == 2));
    let down = character_animation_frames(2, top_left, Direction::Down);
    assert!(down.iter().all(|f| f.region.y() == 5));
}

#[test]
fn frames_past_the_limit_are_clamped() {
    let top_left = Rect::new(MAX_COORD - 10, 0, 8, 8);
    let frames = character_animation_frames(0, top_left, Direction::Right);
    let xs: Vec<i32> = frames.iter().map(|f| f.region.x()).collect();
    assert_eq!(xs, vec![MAX_COORD - 10, MAX_COORD - 2, MAX_COORD]);
}

#[test]
fn animation_holds_each_direction_and_starts_at_zero() {
    let top_left = Rect::new(0, 0, 32, 32);
    let a = MovementAnimation::from_spritesheet(1, top_left);
    assert_eq!(a.current_frame, 0);
    for d in ALL {
        assert_eq!(*a.frames_for(d), character_animation_frames(1, top_left, d));
    }
    assert_eq!(a.up_frames[0].region.y(), 96);
    assert_eq!(
        a.current_sprite(Direction::Left),
        Sprite { spritesheet: 1, region: Rect::new(0, 32, 32, 32) }
    );
}

#[test]
fn rect_new_clamps_corner_and_size() {
    let r = Rect::new(i32::MAX, i32::MIN, 0, u32::MAX);
    assert_eq!((r.x(), r.y()), (MAX_COORD, MIN_COORD));
    assert_eq!((r.width(), r.height()), (1, MAX_COORD as u32));
    let ok = Rect::new(-3, 4, 5, 6);
    assert_eq!((ok.x(), ok.y(), ok.width(), ok.height()), (-3, 4, 5, 6));
}

#[test]
fn rect_from_center_subtracts_half_the_size() {
    let r = Rect::from_center(Point::new(320, 240), 32, 20);
    assert_eq!((r.x(), r.y(), r.width(), r.height()), (304, 230, 32, 20));
    let odd = Rect::from_center(Point::new(0, 0), 5, 0);
    assert_eq!((odd.x(), odd.y(), odd.width(), odd.height()), (-2, 0, 5, 1));
}

#[test]
fn point_offset_clamps_even_on_overflow() {
    let p = Point::new(1, 2).offset(3, -4);
    assert_eq!((p.x, p.y), (4, -2));
    let q = Point::new(MAX_COORD, MIN_COORD).offset(i32::MAX, i32::MIN);
    assert_eq!((q.x, q.y), (MAX_COORD, MIN_COORD));
    let r = Point::new(i32::MAX, 0);
    assert_eq!(r.x, MAX_COORD);
}
