//! Directional walking frames cut from a spritesheet laid out as one row per
//! direction and one column per frame.

use crate::components::{Direction, MovementAnimation, Sprite};
use crate::geometry::{clamped_position, clamped_size, Rect, MAX_COORD};
use vstd::prelude::*;

verus! {

/// Number of walking frames in each direction's row.
pub const FRAMES_PER_DIRECTION: usize = 3;

/// Spritesheet row that holds the frames of a direction.
pub open spec fn row_of(direction: Direction) -> int {
    match direction {
        Direction::Up => 3,
        Direction::Down => 0,
        Direction::Left => 1,
        Direction::Right => 2,
    }
}

/// Region of frame `i` facing `direction`, for a sheet whose first frame is
/// `top_left`: `i` frame widths to the right and `row_of(direction)` frame
/// heights down, with the clamping that building a rectangle applies.
pub open spec fn frame_region(top_left: Rect, direction: Direction, i: int) -> Rect {
    Rect {
        x: clamped_position(top_left.x + top_left.w * i) as i32,
        y: clamped_position(top_left.y + top_left.h * row_of(direction)) as i32,
        w: clamped_size(top_left.w as int) as u32,
        h: clamped_size(top_left.h as int) as u32,
    }
}

/// The frames facing `direction`, in the order they are played.
pub open spec fn frames_spec(spritesheet: usize, top_left: Rect, direction: Direction) -> Seq<Sprite> {
    Seq::new(
        FRAMES_PER_DIRECTION as nat,
        |i: int| Sprite { spritesheet, region: frame_region(top_left, direction, i) },
    )
}

/// The frame arithmetic for `direction` stays within `i32`.
pub open spec fn frames_fit(top_left: Rect, direction: Direction) -> bool {
    &&& top_left.x + 2 * top_left.w <= i32::MAX
    &&& top_left.h * row_of(direction) <= i32::MAX
    &&& top_left.y + top_left.h * row_of(direction) <= i32::MAX
}

/// The frame arithmetic stays within `i32` for every direction.
pub open spec fn all_frames_fit(top_left: Rect) -> bool {
    &&& top_left.x + 2 * top_left.w <= i32::MAX
    &&& 3 * top_left.h <= i32::MAX
    &&& top_left.y + 3 * top_left.h <= i32::MAX
}

/// Row of the spritesheet that holds the frames facing `direction`.
pub fn direction_spritesheet_row(direction: Direction) -> (r: i32)
    ensures
        r as int == row_of(direction),
{
    match direction {
        Direction::Up => 3,
        Direction::Down => 0,
        Direction::Left => 1,
        Direction::Right => 2,
    }
}

/// The walking frames facing `direction`, cut from `spritesheet` whose first
/// frame is `top_left`.
pub fn character_animation_frames(spritesheet: usize, top_left_frame: Rect, direction: Direction) -> (r: Vec<Sprite>)
    requires
        top_left_frame.wf(),
        frames_fit(top_left_frame, direction),
    ensures
        r@ == frames_spec(spritesheet, top_left_frame, direction),
{
    let (frame_width, frame_height) = top_left_frame.size();
    let fw = frame_width as i32;
    let fh = frame_height as i32;
    let row = direction_spritesheet_row(direction);
    assert(0 <= fh * row) by (nonlinear_arith)
        requires 0 <= row, 0 <= fh;
    let y_offset = top_left_frame.y() + fh * row;
    let mut frames: Vec<Sprite> = Vec::new();
    let mut i: i32 = 0;
    while i < 3
        invariant
            0 <= i <= 3,
            frames@.len() == i,
            y_offset == top_left_frame.y + top_left_frame.h * row_of(direction),
            top_left_frame.wf(),
            frames_fit(top_left_frame, direction),
            fw == top_left_frame.w,
            frame_width == top_left_frame.w,
            frame_height == top_left_frame.h,
            forall|j: int| 0 <= j < i ==> frames@[j] == frames_spec(spritesheet, top_left_frame, direction)[j],
        decreases 3 - i,
    {
        assert(0 <= fw * i <= fw * 2) by (nonlinear_arith)
            requires 0 <= i <= 2, 0 <= fw;
        frames.push(
            Sprite {
                spritesheet,
                region: Rect::new(top_left_frame.x() + fw * i, y_offset, frame_width, frame_height),
            },
        );
        i = i + 1;
    }
    assert(frames@ =~= frames_spec(spritesheet, top_left_frame, direction));
    frames
}

impl MovementAnimation {
    /// The frames played while facing `direction`.
    pub open spec fn frames_of(&self, direction: Direction) -> Seq<Sprite> {
        match direction {
            Direction::Up => self.up_frames@,
            Direction::Down => self.down_frames@,
            Direction::Left => self.left_frames@,
            Direction::Right => self.right_frames@,
        }
    }

    /// Every direction has its full set of frames and the current frame
    /// indexes into each of them.
    pub open spec fn wf(&self) -> bool {
        &&& self.current_frame < FRAMES_PER_DIRECTION
        &&& self.up_frames@.len() == FRAMES_PER_DIRECTION
        &&& self.down_frames@.len() == FRAMES_PER_DIRECTION
        &&& self.left_frames@.len() == FRAMES_PER_DIRECTION
        &&& self.right_frames@.len() == FRAMES_PER_DIRECTION
    }

    /// The walking animation of a character whose first frame on
    /// `spritesheet` is `top_left_frame`, starting at its first frame.
    pub fn from_spritesheet(spritesheet: usize, top_left_frame: Rect) -> (r: MovementAnimation)
        requires
            top_left_frame.wf(),
            all_frames_fit(top_left_frame),
        ensures
            r.wf(),
            r.current_frame == 0,
            forall|d: Direction| #[trigger] r.frames_of(d) == frames_spec(spritesheet, top_left_frame, d),
    {
        MovementAnimation {
            current_frame: 0,
            up_frames: character_animation_frames(spritesheet, top_left_frame, Direction::Up),
            down_frames: character_animation_frames(spritesheet, top_left_frame, Direction::Down),
            left_frames: character_animation_frames(spritesheet, top_left_frame, Direction::Left),
            right_frames: character_animation_frames(spritesheet, top_left_frame, Direction::Right),
        }
    }

    /// The frames played while facing `direction`.
    pub fn frames_for(&self, direction: Direction) -> (r: &Vec<Sprite>)
        ensures
            r@ == self.frames_of(direction),
    {
        match direction {
            Direction::Up => &self.up_frames,
            Direction::Down => &self.down_frames,
            Direction::Left => &self.left_frames,
            Direction::Right => &self.right_frames,
        }
    }

    /// The sprite shown now while facing `direction`.
    pub fn current_sprite(&self, direction: Direction) -> (r: Sprite)
        requires
            self.wf(),
        ensures
            r == self.frames_of(direction)[self.current_frame as int],
    {
        let frames = self.frames_for(direction);
        frames[self.current_frame]
    }
}

/// Away from the clamping limits, the frames facing `direction` are three
/// frames of the sheet's size side by side: frame `i` starts `i` frame widths
/// right of the first frame and `row_of(direction)` frame heights below it.
pub proof fn lemma_frame_layout(spritesheet: usize, top_left: Rect, direction: Direction)
    requires
        top_left.wf(),
        top_left.x + 2 * top_left.w <= MAX_COORD,
        top_left.y + top_left.h * row_of(direction) <= MAX_COORD,
    ensures
        frames_spec(spritesheet, top_left, direction).len() == 3,
        forall|i: int|
            0 <= i < 3 ==> {
                let f = #[trigger] frames_spec(spritesheet, top_left, direction)[i];
                &&& f.spritesheet == spritesheet
                &&& f.region.x == top_left.x + top_left.w * i
                &&& f.region.y == top_left.y + top_left.h * row_of(direction)
                &&& f.region.w == top_left.w
                &&& f.region.h == top_left.h
            },
{
    assert forall|i: int| 0 <= i < 3 implies 0 <= #[trigger] (top_left.w * i) <= top_left.w * 2 by {
        assert(0 <= top_left.w * i <= top_left.w * 2) by (nonlinear_arith)
            requires 0 <= i <= 2, 0 <= top_left.w;
    }
    assert(0 <= top_left.h * row_of(direction)) by (nonlinear_arith)
        requires 0 <= row_of(direction), 0 <= top_left.h;
}

} // verus!
