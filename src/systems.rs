//! What each system does to the components of one entity.

use crate::animation::FRAMES_PER_DIRECTION;
use crate::components::{Direction, MovementAnimation, MovementCommand, Position, Sprite, Velocity};
use crate::geometry::{clamp_position, clamped_position, Point, MAX_COORD, MIN_COORD};
use vstd::prelude::*;

verus! {

/// Speed the keyboard-controlled entity moves at while a direction is held.
pub const PLAYER_MOVEMENT_SPEED: i32 = 20;

/// Velocity after `command`: no command keeps it, `Stop` halts in place and
/// `Move` sets the player's speed in the given direction.
pub open spec fn commanded(velocity: Velocity, command: Option<MovementCommand>) -> Velocity {
    match command {
        None => velocity,
        Some(MovementCommand::Stop) => Velocity { speed: 0, ..velocity },
        Some(MovementCommand::Move(d)) => Velocity { speed: PLAYER_MOVEMENT_SPEED, direction: d },
    }
}

/// Horizontal change of one step at `velocity`.
pub open spec fn delta_x(velocity: Velocity) -> int {
    match velocity.direction {
        Direction::Left => -velocity.speed,
        Direction::Right => velocity.speed as int,
        _ => 0,
    }
}

/// Vertical change of one step at `velocity`; the y axis points down.
pub open spec fn delta_y(velocity: Velocity) -> int {
    match velocity.direction {
        Direction::Up => -velocity.speed,
        Direction::Down => velocity.speed as int,
        _ => 0,
    }
}

/// Where `p` is after one step at `velocity`, clamped to the position range.
pub open spec fn moved(p: Point, velocity: Velocity) -> Point {
    Point {
        x: clamped_position(p.x + delta_x(velocity)) as i32,
        y: clamped_position(p.y + delta_y(velocity)) as i32,
    }
}

/// Frame shown after one animation tick: the next one, wrapping around, while
/// moving, and the same one while standing still.
pub open spec fn next_frame(frame: int, speed: i32) -> int {
    if speed != 0 {
        (frame + 1) % (FRAMES_PER_DIRECTION as int)
    } else {
        frame
    }
}

/// Applies the last movement command to a keyboard-controlled velocity.
pub fn apply_command(velocity: &mut Velocity, command: Option<MovementCommand>)
    ensures
        *final(velocity) == commanded(*old(velocity), command),
{
    match command {
        None => {},
        Some(MovementCommand::Stop) => {
            velocity.speed = 0;
        },
        Some(MovementCommand::Move(d)) => {
            velocity.speed = PLAYER_MOVEMENT_SPEED;
            velocity.direction = d;
        },
    }
}

/// Moves `position` one step at `velocity`.
pub fn move_position(position: &mut Position, velocity: &Velocity)
    ensures
        final(position).0 == moved(old(position).0, *velocity),
{
    let speed = velocity.speed as i64;
    let (dx, dy): (i64, i64) = match velocity.direction {
        Direction::Left => (-speed, 0),
        Direction::Right => (speed, 0),
        Direction::Up => (0, -speed),
        Direction::Down => (0, speed),
    };
    let p = position.0;
    position.0 = Point { x: clamp_position(p.x as i64 + dx), y: clamp_position(p.y as i64 + dy) };
}

/// Advances `animation` one tick at `velocity` and shows its current frame
/// for the direction of travel in `sprite`.
pub fn animate(animation: &mut MovementAnimation, velocity: &Velocity, sprite: &mut Sprite)
    requires
        old(animation).wf(),
    ensures
        final(animation).wf(),
        final(animation).current_frame as int == next_frame(old(animation).current_frame as int, velocity.speed),
        final(animation).up_frames@ == old(animation).up_frames@,
        final(animation).down_frames@ == old(animation).down_frames@,
        final(animation).left_frames@ == old(animation).left_frames@,
        final(animation).right_frames@ == old(animation).right_frames@,
        *final(sprite) == final(animation).frames_of(velocity.direction)[final(animation).current_frame as int],
{
    if velocity.speed != 0 {
        animation.current_frame = (animation.current_frame + 1) % FRAMES_PER_DIRECTION;
    }
    *sprite = animation.current_sprite(velocity.direction);
}

/// Frame shown after `n` animation ticks at a constant `speed`, starting
/// from `frame`.
pub open spec fn frame_after(frame: int, speed: i32, n: nat) -> int
    decreases n,
{
    if n == 0 {
        frame
    } else {
        next_frame(frame_after(frame, speed, (n - 1) as nat), speed)
    }
}

/// While moving, the animation cycles through the frames: after `n` ticks
/// from the first frame it shows frame `n mod 3`, and from any valid frame
/// `f` it shows `(f + n) mod 3`.
pub proof fn lemma_moving_frames_cycle(frame: int, speed: i32, n: nat)
    requires
        speed != 0,
        0 <= frame < FRAMES_PER_DIRECTION,
    ensures
        frame_after(frame, speed, n) == (frame + n) % (FRAMES_PER_DIRECTION as int),
        frame_after(0, speed, n) == (n as int) % (FRAMES_PER_DIRECTION as int),
    decreases n,
{
    if n > 0 {
        lemma_moving_frames_cycle(frame, speed, (n - 1) as nat);
        assert(((frame + n - 1) % 3 + 1) % 3 == (frame + n) % 3) by (nonlinear_arith)
            requires n > 0, frame >= 0;
        assert(((n - 1) % 3 + 1) % 3 == n % 3) by (nonlinear_arith)
            requires n > 0;
    }
}

/// Standing still, no number of animation ticks changes the frame shown.
pub proof fn lemma_still_frame_kept(frame: int, n: nat)
    ensures
        frame_after(frame, 0, n) == frame,
    decreases n,
{
    if n > 0 {
        lemma_still_frame_kept(frame, (n - 1) as nat);
    }
}

/// Away from the clamping limits, one step at the player's speed moves a
/// point by that speed along the axis of its direction: right adds it to
/// `x`, left takes it from `x`, down adds it to `y`, up takes it from `y`,
/// and the other coordinate stays.
pub proof fn lemma_player_step(p: Point, direction: Direction)
    requires
        p.wf(),
        MIN_COORD + PLAYER_MOVEMENT_SPEED <= p.x <= MAX_COORD - PLAYER_MOVEMENT_SPEED,
        MIN_COORD + PLAYER_MOVEMENT_SPEED <= p.y <= MAX_COORD - PLAYER_MOVEMENT_SPEED,
    ensures
        ({
            let q = moved(p, Velocity { speed: PLAYER_MOVEMENT_SPEED, direction });
            match direction {
                Direction::Right => q.x == p.x + PLAYER_MOVEMENT_SPEED && q.y == p.y,
                Direction::Left => q.x == p.x - PLAYER_MOVEMENT_SPEED && q.y == p.y,
                Direction::Down => q.x == p.x && q.y == p.y + PLAYER_MOVEMENT_SPEED,
                Direction::Up => q.x == p.x && q.y == p.y - PLAYER_MOVEMENT_SPEED,
            }
        }),
{
}

/// A stop command halts the entity whatever it was doing, and keeps the
/// direction it faces.
pub proof fn lemma_stop_halts(velocity: Velocity)
    ensures
        commanded(velocity, Some(MovementCommand::Stop)).speed == 0,
        commanded(velocity, Some(MovementCommand::Stop)).direction == velocity.direction,
{
}

} // verus!
