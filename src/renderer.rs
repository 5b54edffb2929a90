//! What to draw for one frame: for each entity with a position and a sprite,
//! its spritesheet region placed on the screen centred on its position, the
//! world origin being the middle of the screen.

use crate::components::{Position, Sprite};
use crate::geometry::{clamped_position, clamped_size, Point, Rect};
use crate::store::{position_of, sprite_of};
use crate::world::Scene;
use vstd::prelude::*;

verus! {

/// Copy `source` of spritesheet `spritesheet` into `dest` on the screen.
#[derive(Clone, Copy, Debug, PartialEq, Eq, Structural)]
pub struct DrawCall {
    pub spritesheet: usize,
    pub source: Rect,
    pub dest: Rect,
}

/// Screen point of a world position on a screen of `width` by `height`.
pub open spec fn screen_point(p: Point, width: u32, height: u32) -> Point {
    Point {
        x: clamped_position(p.x + width as int / 2) as i32,
        y: clamped_position(p.y + height as int / 2) as i32,
    }
}

/// Rectangle of the region's size centred on `center`.
pub open spec fn centered(center: Point, region: Rect) -> Rect {
    let w = clamped_size(region.w as int);
    let h = clamped_size(region.h as int);
    Rect {
        x: clamped_position(clamped_position(center.x as int) - w / 2) as i32,
        y: clamped_position(clamped_position(center.y as int) - h / 2) as i32,
        w: w as u32,
        h: h as u32,
    }
}

/// How an entity at `position` showing `sprite` is drawn.
pub open spec fn draw_of(position: Position, sprite: Sprite, width: u32, height: u32) -> DrawCall {
    DrawCall {
        spritesheet: sprite.spritesheet,
        source: sprite.region,
        dest: centered(screen_point(position.0, width, height), sprite.region),
    }
}

/// Draws of the first `n` entities of `scene`, in entity order, skipping
/// those without a position or a sprite.
pub open spec fn draws(scene: Scene, width: u32, height: u32, n: nat) -> Seq<DrawCall>
    decreases n,
{
    if n == 0 {
        Seq::empty()
    } else {
        let before = draws(scene, width, height, (n - 1) as nat);
        match (scene.position_at(n - 1), scene.sprite_at(n - 1)) {
            (Some(p), Some(s)) => before.push(draw_of(p, s, width, height)),
            _ => before,
        }
    }
}

/// Every entity among the first `n` that has a position and a sprite is
/// drawn: the draws hold the call that copies its sprite's region to the
/// screen rectangle centred on its position.
pub proof fn lemma_entity_drawn(scene: Scene, width: u32, height: u32, n: nat, k: int)
    requires
        0 <= k < n,
        scene.position_at(k) is Some,
        scene.sprite_at(k) is Some,
    ensures
        draws(scene, width, height, n).contains(
            draw_of(scene.position_at(k)->Some_0, scene.sprite_at(k)->Some_0, width, height),
        ),
    decreases n,
{
    let call = draw_of(scene.position_at(k)->Some_0, scene.sprite_at(k)->Some_0, width, height);
    let before = draws(scene, width, height, (n - 1) as nat);
    if k == n - 1 {
        assert(draws(scene, width, height, n) == before.push(call));
        assert(before.push(call)[before.len() as int] == call);
    } else {
        lemma_entity_drawn(scene, width, height, (n - 1) as nat, k);
        let i = choose|i: int| 0 <= i < before.len() && before[i] == call;
        match (scene.position_at(n - 1), scene.sprite_at(n - 1)) {
            (Some(p), Some(s)) => {
                assert(before.push(draw_of(p, s, width, height))[i] == call);
            },
            _ => {},
        }
    }
}

/// How one entity at `position` showing `sprite` is drawn on a screen of
/// `width` by `height`.
pub fn entity_draw_call(position: &Position, sprite: &Sprite, width: u32, height: u32) -> (r: DrawCall)
    ensures
        r == draw_of(*position, *sprite, width, height),
{
    let center = position.0.offset((width / 2) as i32, (height / 2) as i32);
    DrawCall {
        spritesheet: sprite.spritesheet,
        source: sprite.region,
        dest: Rect::from_center(center, sprite.region.width(), sprite.region.height()),
    }
}

impl Scene {
    /// Everything to draw this frame on a screen of `width` by `height`, in
    /// entity order.
    pub fn draw_calls(&self, width: u32, height: u32) -> (r: Vec<DrawCall>)
        requires
            self.wf(),
        ensures
            r@ == draws(*self, width, height, self.len()),
    {
        let n = self.entities.len();
        let mut calls: Vec<DrawCall> = Vec::new();
        let mut k: usize = 0;
        while k < n
            invariant
                self.wf(),
                n == self.len(),
                0 <= k <= n,
                calls@ == draws(*self, width, height, k as nat),
            decreases n - k,
        {
            let e = self.entities[k];
            if let Some(p) = position_of(&self.ecs, e) {
                if let Some(s) = sprite_of(&self.ecs, e) {
                    calls.push(entity_draw_call(&p, &s, width, height));
                }
            }
            k = k + 1;
        }
        calls
    }
}

} // verus!
