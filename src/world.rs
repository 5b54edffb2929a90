//! A scene: the entities of a `specs` world in the order they were created,
//! and the systems that run over every entity holding what they need.

use crate::components::{KeyboardControlled, MovementAnimation, MovementCommand, Position, Sprite, Velocity};
use crate::store::{
    allocate_entity, ecs_animations, ecs_entities, ecs_keyboard, ecs_positions, ecs_ready, ecs_sprites,
    ecs_velocities, entry, insert_animation, insert_keyboard, insert_position, insert_sprite, insert_velocity,
    keyboard_of, new_ecs, current_frame_of, position_of, remove_animation, sprite_of, velocity_of, MAX_ENTITIES,
};
use crate::animation::FRAMES_PER_DIRECTION;
use crate::components::Direction;
use crate::geometry::{MAX_COORD, MIN_COORD};
use crate::renderer::screen_point;
use crate::systems::{
    animate, apply_command, commanded, frame_after, lemma_moving_frames_cycle, lemma_still_frame_kept, move_position,
    moved, next_frame, PLAYER_MOVEMENT_SPEED,
};
use vstd::prelude::*;

verus! {

/// Velocity of an entity after the keyboard system: commanded if the entity
/// is keyboard-controlled, unchanged otherwise.
pub open spec fn commanded_entry(
    keyboard: Option<KeyboardControlled>,
    velocity: Option<Velocity>,
    command: Option<MovementCommand>,
) -> Option<Velocity> {
    match (keyboard, velocity) {
        (Some(_), Some(v)) => Some(commanded(v, command)),
        _ => velocity,
    }
}

/// Position of an entity after the physics system: one step at its velocity
/// if it has one, unchanged otherwise.
pub open spec fn stepped_entry(position: Option<Position>, velocity: Option<Velocity>) -> Option<Position> {
    match (position, velocity) {
        (Some(p), Some(v)) => Some(Position(moved(p.0, v))),
        _ => position,
    }
}

/// Two animations hold the same frames for every direction.
pub open spec fn same_frames(a: MovementAnimation, b: MovementAnimation) -> bool {
    &&& a.up_frames@ == b.up_frames@
    &&& a.down_frames@ == b.down_frames@
    &&& a.left_frames@ == b.left_frames@
    &&& a.right_frames@ == b.right_frames@
}

/// Animation and sprite of an entity after the animator system: where the
/// entity has a velocity, a sprite and an animation, the frame advances by
/// `next_frame` and the sprite shows it; otherwise both stay as they were.
pub open spec fn advanced_entry(
    animation: Option<MovementAnimation>,
    sprite: Option<Sprite>,
    velocity: Option<Velocity>,
    new_animation: Option<MovementAnimation>,
    new_sprite: Option<Sprite>,
) -> bool {
    match (velocity, sprite, animation) {
        (Some(v), Some(_), Some(a)) => match new_animation {
            Some(b) => {
                &&& b.current_frame as int == next_frame(a.current_frame as int, v.speed)
                &&& same_frames(a, b)
                &&& new_sprite == Some(b.frames_of(v.direction)[b.current_frame as int])
            },
            None => false,
        },
        _ => new_animation == animation && new_sprite == sprite,
    }
}

/// `after` is `before` after one run of the animator system: the same
/// entities and velocities, and each entity's animation and sprite as
/// `advanced_entry` says.
pub open spec fn animator_step(before: Scene, after: Scene) -> bool {
    &&& after.entities@ == before.entities@
    &&& forall|k: int| 0 <= k < before.len() ==> #[trigger] after.velocity_at(k) == before.velocity_at(k)
    &&& forall|k: int|
        0 <= k < before.len() ==> #[trigger] advanced_entry(
            before.animation_at(k),
            before.sprite_at(k),
            before.velocity_at(k),
            after.animation_at(k),
            after.sprite_at(k),
        )
}

/// Over consecutive runs of the animator system, an animated entity with a
/// sprite and a velocity shows frame `frame_after(f, speed, n)` after `n`
/// runs, `f` being its frame at the start: while it moves that is
/// `(f + n) mod 3`, so `n mod 3` from the first frame, and while it stands
/// still it is `f`. After at least one run its sprite is that frame of the
/// list for its direction.
pub proof fn lemma_animator_runs(scenes: Seq<Scene>, k: int)
    requires
        scenes.len() >= 1,
        forall|i: int| 0 <= i < scenes.len() - 1 ==> animator_step(#[trigger] scenes[i], scenes[i + 1]),
        0 <= k < scenes[0].len(),
        scenes[0].velocity_at(k) is Some,
        scenes[0].sprite_at(k) is Some,
        scenes[0].animation_at(k) is Some,
        scenes[0].animation_at(k)->Some_0.wf(),
    ensures
        ({
            let n = (scenes.len() - 1) as nat;
            let speed = scenes[0].velocity_at(k)->Some_0.speed;
            let f = scenes[0].animation_at(k)->Some_0.current_frame as int;
            let shown = scenes.last().animation_at(k)->Some_0.current_frame as int;
            &&& scenes.last().animation_at(k) is Some
            &&& shown == frame_after(f, speed, n)
            &&& n > 0 ==> scenes.last().sprite_at(k) == Some(
                scenes[0].animation_at(k)->Some_0.frames_of(scenes[0].velocity_at(k)->Some_0.direction)[shown],
            )
            &&& speed != 0 ==> shown == (f + n) % (FRAMES_PER_DIRECTION as int)
            &&& speed == 0 ==> shown == f
        }),
{
    let n = (scenes.len() - 1) as nat;
    let speed = scenes[0].velocity_at(k)->Some_0.speed;
    let f = scenes[0].animation_at(k)->Some_0.current_frame as int;
    lemma_components_kept(scenes, k, n as int);
    if speed != 0 {
        lemma_moving_frames_cycle(f, speed, n);
    } else {
        lemma_still_frame_kept(f, n);
    }
}

/// Runs of the animator system keep every entity's velocity.
proof fn lemma_velocities_kept(scenes: Seq<Scene>, k: int, i: int)
    requires
        forall|j: int| 0 <= j < scenes.len() - 1 ==> animator_step(#[trigger] scenes[j], scenes[j + 1]),
        0 <= i < scenes.len(),
        0 <= k < scenes[0].len(),
    ensures
        scenes[i].velocity_at(k) == scenes[0].velocity_at(k),
        scenes[i].entities@ == scenes[0].entities@,
    decreases i,
{
    if i > 0 {
        lemma_velocities_kept(scenes, k, i - 1);
        assert(animator_step(scenes[i - 1], scenes[i]));
    }
}

/// Runs of the animator system keep the sprite and the animation of an
/// entity that has a velocity, a sprite and an animation, and advance its
/// frame once per run.
proof fn lemma_components_kept(scenes: Seq<Scene>, k: int, i: int)
    requires
        forall|j: int| 0 <= j < scenes.len() - 1 ==> animator_step(#[trigger] scenes[j], scenes[j + 1]),
        0 <= i < scenes.len(),
        0 <= k < scenes[0].len(),
        scenes[0].velocity_at(k) is Some,
        scenes[0].sprite_at(k) is Some,
        scenes[0].animation_at(k) is Some,
    ensures
        scenes[i].sprite_at(k) is Some,
        scenes[i].animation_at(k) is Some,
        scenes[i].animation_at(k)->Some_0.current_frame as int == frame_after(
            scenes[0].animation_at(k)->Some_0.current_frame as int,
            scenes[0].velocity_at(k)->Some_0.speed,
            i as nat,
        ),
        same_frames(scenes[0].animation_at(k)->Some_0, scenes[i].animation_at(k)->Some_0),
        i > 0 ==> scenes[i].sprite_at(k) == Some(
            scenes[0].animation_at(k)->Some_0.frames_of(
                scenes[0].velocity_at(k)->Some_0.direction,
            )[scenes[i].animation_at(k)->Some_0.current_frame as int],
        ),
    decreases i,
{
    if i > 0 {
        lemma_components_kept(scenes, k, i - 1);
        lemma_velocities_kept(scenes, k, i - 1);
        assert(animator_step(scenes[i - 1], scenes[i]));
        assert(advanced_entry(
            scenes[i - 1].animation_at(k),
            scenes[i - 1].sprite_at(k),
            scenes[i - 1].velocity_at(k),
            scenes[i].animation_at(k),
            scenes[i].sprite_at(k),
        ));
    }
}

/// `after` is `before` after one frame with `command`: the keyboard system
/// sets the velocities, then physics and the animator run with them.
pub open spec fn dispatch_step(before: Scene, after: Scene, command: Option<MovementCommand>) -> bool {
    &&& after.entities@ == before.entities@
    &&& ecs_keyboard(after.ecs) == ecs_keyboard(before.ecs)
    &&& forall|k: int|
        0 <= k < before.len() ==> #[trigger] after.velocity_at(k) == commanded_entry(
            before.keyboard_at(k),
            before.velocity_at(k),
            command,
        )
    &&& forall|k: int|
        0 <= k < before.len() ==> #[trigger] after.position_at(k) == stepped_entry(
            before.position_at(k),
            after.velocity_at(k),
        )
    &&& forall|k: int|
        0 <= k < before.len() ==> #[trigger] advanced_entry(
            before.animation_at(k),
            before.sprite_at(k),
            after.velocity_at(k),
            after.animation_at(k),
            after.sprite_at(k),
        )
}

/// Over consecutive frames without a command, an animated entity with a
/// sprite and a velocity shows frame `frame_after(f, speed, n)` after `n`
/// frames, `f` being its frame at the start: `n mod 3` from the first frame
/// while it moves, `f` while it stands still. After at least one frame its
/// sprite, the region drawn for it, is that frame of the list for its
/// direction.
pub proof fn lemma_dispatch_runs(scenes: Seq<Scene>, k: int)
    requires
        scenes.len() >= 1,
        forall|i: int| 0 <= i < scenes.len() - 1 ==> dispatch_step(#[trigger] scenes[i], scenes[i + 1], None),
        0 <= k < scenes[0].len(),
        scenes[0].velocity_at(k) is Some,
        scenes[0].sprite_at(k) is Some,
        scenes[0].animation_at(k) is Some,
        scenes[0].animation_at(k)->Some_0.wf(),
    ensures
        ({
            let n = (scenes.len() - 1) as nat;
            let speed = scenes[0].velocity_at(k)->Some_0.speed;
            let f = scenes[0].animation_at(k)->Some_0.current_frame as int;
            let shown = scenes.last().animation_at(k)->Some_0.current_frame as int;
            &&& scenes.last().animation_at(k) is Some
            &&& shown == frame_after(f, speed, n)
            &&& speed != 0 ==> shown == (f + n) % (FRAMES_PER_DIRECTION as int)
            &&& speed != 0 && f == 0 ==> shown == (n as int) % (FRAMES_PER_DIRECTION as int)
            &&& speed == 0 ==> shown == f
            &&& n > 0 ==> scenes.last().sprite_at(k) == Some(
                scenes[0].animation_at(k)->Some_0.frames_of(scenes[0].velocity_at(k)->Some_0.direction)[shown],
            )
        }),
{
    assert forall|i: int| 0 <= i < scenes.len() - 1 implies animator_step(#[trigger] scenes[i], scenes[i + 1]) by {
        let (b, a) = (scenes[i], scenes[i + 1]);
        assert(dispatch_step(b, a, None));
        assert forall|j: int| 0 <= j < b.len() implies #[trigger] a.velocity_at(j) == b.velocity_at(j) by {
            assert(a.velocity_at(j) == commanded_entry(b.keyboard_at(j), b.velocity_at(j), None));
        }
        assert forall|j: int| 0 <= j < b.len() implies #[trigger] advanced_entry(
            b.animation_at(j),
            b.sprite_at(j),
            b.velocity_at(j),
            a.animation_at(j),
            a.sprite_at(j),
        ) by {
            assert(a.velocity_at(j) == b.velocity_at(j));
        }
    }
    lemma_animator_runs(scenes, k);
}

/// A stop command halts every keyboard-controlled entity, whatever its
/// direction, so that frame leaves its position where it was.
pub proof fn lemma_dispatch_stop(before: Scene, after: Scene, k: int)
    requires
        dispatch_step(before, after, Some(MovementCommand::Stop)),
        0 <= k < before.len(),
        before.keyboard_at(k) is Some,
        before.velocity_at(k) is Some,
        before.position_at(k) is Some,
        before.position_at(k)->Some_0.0.wf(),
    ensures
        after.velocity_at(k) == Some(Velocity { speed: 0, direction: before.velocity_at(k)->Some_0.direction }),
        after.position_at(k) == before.position_at(k),
{
    assert(after.velocity_at(k) == commanded_entry(before.keyboard_at(k), before.velocity_at(k), Some(MovementCommand::Stop)));
    assert(after.position_at(k) == stepped_entry(before.position_at(k), after.velocity_at(k)));
}

/// Away from the clamping limits, a frame without a command moves an entity
/// at the player's speed by that speed along the axis of its direction, and
/// its screen point, where it is drawn centred on a `width` by `height`
/// screen, moves with it.
pub proof fn lemma_dispatch_player_step(before: Scene, after: Scene, k: int, width: u32, height: u32)
    requires
        dispatch_step(before, after, None),
        0 <= k < before.len(),
        before.velocity_at(k) is Some,
        before.velocity_at(k)->Some_0.speed == PLAYER_MOVEMENT_SPEED,
        before.position_at(k) is Some,
        ({
            let p = before.position_at(k)->Some_0.0;
            &&& p.wf()
            &&& MIN_COORD + PLAYER_MOVEMENT_SPEED <= p.x
            &&& p.x + PLAYER_MOVEMENT_SPEED + width as int / 2 <= MAX_COORD
            &&& MIN_COORD + PLAYER_MOVEMENT_SPEED <= p.y
            &&& p.y + PLAYER_MOVEMENT_SPEED + height as int / 2 <= MAX_COORD
        }),
    ensures
        ({
            let p = before.position_at(k)->Some_0.0;
            let d = before.velocity_at(k)->Some_0.direction;
            let (dx, dy) = match d {
                Direction::Right => (PLAYER_MOVEMENT_SPEED as int, 0int),
                Direction::Left => (-PLAYER_MOVEMENT_SPEED, 0int),
                Direction::Down => (0int, PLAYER_MOVEMENT_SPEED as int),
                Direction::Up => (0int, -PLAYER_MOVEMENT_SPEED),
            };
            let q = after.position_at(k)->Some_0.0;
            &&& after.position_at(k) is Some
            &&& q.x == p.x + dx
            &&& q.y == p.y + dy
            &&& screen_point(q, width, height).x == p.x + dx + width as int / 2
            &&& screen_point(q, width, height).y == p.y + dy + height as int / 2
        }),
{
    assert(after.velocity_at(k) == commanded_entry(before.keyboard_at(k), before.velocity_at(k), None));
    assert(after.position_at(k) == stepped_entry(before.position_at(k), after.velocity_at(k)));
}

/// The components a new entity starts with.
pub struct EntityComponents {
    pub keyboard_controlled: Option<KeyboardControlled>,
    pub position: Option<Position>,
    pub velocity: Option<Velocity>,
    pub sprite: Option<Sprite>,
    pub animation: Option<MovementAnimation>,
}

/// The entities of a `specs` world, numbered in the order they were created.
/// Entity `k` of the scene is `entities[k]` of the world.
pub struct Scene {
    pub ecs: specs::World,
    pub entities: Vec<specs::Entity>,
}

impl Scene {
    /// Number of entities.
    pub open spec fn len(&self) -> nat {
        self.entities@.len()
    }

    pub open spec fn keyboard_at(&self, k: int) -> Option<KeyboardControlled> {
        entry(ecs_keyboard(self.ecs), self.entities@[k])
    }

    pub open spec fn position_at(&self, k: int) -> Option<Position> {
        entry(ecs_positions(self.ecs), self.entities@[k])
    }

    pub open spec fn velocity_at(&self, k: int) -> Option<Velocity> {
        entry(ecs_velocities(self.ecs), self.entities@[k])
    }

    pub open spec fn sprite_at(&self, k: int) -> Option<Sprite> {
        entry(ecs_sprites(self.ecs), self.entities@[k])
    }

    pub open spec fn animation_at(&self, k: int) -> Option<MovementAnimation> {
        entry(ecs_animations(self.ecs), self.entities@[k])
    }

    /// The world is ready for use, its entities are exactly those of the
    /// scene, each once, and every animation is whole.
    pub open spec fn wf(&self) -> bool {
        &&& ecs_ready(self.ecs)
        &&& self.entities@.no_duplicates()
        &&& ecs_entities(self.ecs) == self.entities@.to_set()
        &&& forall|k: int| 0 <= k < self.len() && #[trigger] self.animation_at(k) is Some
            ==> self.animation_at(k)->Some_0.wf()
    }

    /// A scene without entities.
    pub fn new() -> (r: Scene)
        ensures
            r.wf(),
            r.len() == 0,
    {
        let r = Scene { ecs: new_ecs(), entities: Vec::new() };
        assert(r.entities@.to_set() =~= Set::empty());
        r
    }

    /// Number of entities.
    pub fn entity_count(&self) -> (r: usize)
        ensures
            r == self.len(),
    {
        self.entities.len()
    }


    /// A scene with the same entities and animations as a well-formed one is
    /// well-formed once its world is ready and allocates the same entities.
    proof fn lemma_same_animations(&self, before: Scene)
        requires
            before.wf(),
            ecs_ready(self.ecs),
            self.entities@ == before.entities@,
            ecs_entities(self.ecs) == ecs_entities(before.ecs),
            ecs_animations(self.ecs) == ecs_animations(before.ecs),
        ensures
            self.wf(),
    {
        assert forall|j: int| 0 <= j < self.len() && #[trigger] self.animation_at(j) is Some
            implies self.animation_at(j)->Some_0.wf() by {
            assert(before.animation_at(j) is Some);
        }
    }

    /// Adds an entity with `components` and returns its number.
    pub fn create_entity(&mut self, components: EntityComponents) -> (k: usize)
        requires
            old(self).wf(),
            old(self).len() < MAX_ENTITIES,
            components.animation matches Some(a) ==> a.wf(),
        ensures
            final(self).wf(),
            k == old(self).len(),
            final(self).len() == old(self).len() + 1,
            final(self).keyboard_at(k as int) == components.keyboard_controlled,
            final(self).position_at(k as int) == components.position,
            final(self).velocity_at(k as int) == components.velocity,
            final(self).sprite_at(k as int) == components.sprite,
            final(self).animation_at(k as int) == components.animation,
            forall|j: int| 0 <= j < old(self).len() ==> {
                &&& #[trigger] final(self).keyboard_at(j) == old(self).keyboard_at(j)
                &&& final(self).position_at(j) == old(self).position_at(j)
                &&& final(self).velocity_at(j) == old(self).velocity_at(j)
                &&& final(self).sprite_at(j) == old(self).sprite_at(j)
                &&& final(self).animation_at(j) == old(self).animation_at(j)
            },
    {
        proof {
            self.entities@.unique_seq_to_set();
        }
        let k = self.entities.len();
        let e = allocate_entity(&mut self.ecs);
        if let Some(c) = components.keyboard_controlled {
            insert_keyboard(&mut self.ecs, e, c);
        }
        if let Some(c) = components.position {
            insert_position(&mut self.ecs, e, c);
        }
        if let Some(c) = components.velocity {
            insert_velocity(&mut self.ecs, e, c);
        }
        if let Some(c) = components.sprite {
            insert_sprite(&mut self.ecs, e, c);
        }
        if let Some(c) = components.animation {
            insert_animation(&mut self.ecs, e, c);
        }
        self.entities.push(e);
        proof {
            old(self).entities@.lemma_push_to_set_commute(e);
            assert(self.entities@.to_set() == old(self).entities@.to_set().insert(e));
            assert forall|j: int| 0 <= j < k implies #[trigger] self.entities@[j] != e by {
                assert(old(self).entities@.to_set().contains(old(self).entities@[j]));
            }
            assert(self.entities@.no_duplicates());
            assert forall|j: int| 0 <= j < self.len() && #[trigger] self.animation_at(j) is Some
                implies self.animation_at(j)->Some_0.wf() by {
                if j < k {
                    assert(old(self).animation_at(j) == self.animation_at(j));
                }
            }
        }
        k
    }

    /// Position of entity `k`, if it has one.
    pub fn position(&self, k: usize) -> (r: Option<Position>)
        requires
            self.wf(),
            k < self.len(),
        ensures
            r == self.position_at(k as int),
    {
        position_of(&self.ecs, self.entities[k])
    }

    /// Velocity of entity `k`, if it has one.
    pub fn velocity(&self, k: usize) -> (r: Option<Velocity>)
        requires
            self.wf(),
            k < self.len(),
        ensures
            r == self.velocity_at(k as int),
    {
        velocity_of(&self.ecs, self.entities[k])
    }

    /// Sprite of entity `k`, if it has one.
    pub fn sprite(&self, k: usize) -> (r: Option<Sprite>)
        requires
            self.wf(),
            k < self.len(),
        ensures
            r == self.sprite_at(k as int),
    {
        sprite_of(&self.ecs, self.entities[k])
    }

    /// Frame shown by the animation of entity `k`, if it has one.
    pub fn current_frame(&self, k: usize) -> (r: Option<usize>)
        requires
            self.wf(),
            k < self.len(),
        ensures
            r == (match self.animation_at(k as int) {
                Some(a) => Some(a.current_frame),
                None => None,
            }),
    {
        current_frame_of(&self.ecs, self.entities[k])
    }

    /// Keyboard system: applies `command` to the velocity of every
    /// keyboard-controlled entity that has one.
    pub fn run_keyboard(&mut self, command: Option<MovementCommand>)
        requires
            old(self).wf(),
        ensures
            final(self).wf(),
            final(self).entities@ == old(self).entities@,
            forall|k: int|
                0 <= k < old(self).len() ==> #[trigger] final(self).velocity_at(k) == commanded_entry(
                    old(self).keyboard_at(k),
                    old(self).velocity_at(k),
                    command,
                ),
            ecs_keyboard(final(self).ecs) == ecs_keyboard(old(self).ecs),
            ecs_positions(final(self).ecs) == ecs_positions(old(self).ecs),
            ecs_sprites(final(self).ecs) == ecs_sprites(old(self).ecs),
            ecs_animations(final(self).ecs) == ecs_animations(old(self).ecs),
    {
        let n = self.entities.len();
        let mut k: usize = 0;
        while k < n
            invariant
                self.wf(),
                n == self.len(),
                0 <= k <= n,
                self.entities@ == old(self).entities@,
                forall|j: int|
                    0 <= j < k ==> #[trigger] self.velocity_at(j) == commanded_entry(
                        old(self).keyboard_at(j),
                        old(self).velocity_at(j),
                        command,
                    ),
                forall|j: int| k <= j < n ==> #[trigger] self.velocity_at(j) == old(self).velocity_at(j),
                ecs_keyboard(self.ecs) == ecs_keyboard(old(self).ecs),
                ecs_positions(self.ecs) == ecs_positions(old(self).ecs),
                ecs_sprites(self.ecs) == ecs_sprites(old(self).ecs),
                ecs_animations(self.ecs) == ecs_animations(old(self).ecs),
            decreases n - k,
        {
            let e = self.entities[k];
            proof {
                assert(self.entities@.to_set().contains(e));
            }
            let ghost before = *self;
            if keyboard_of(&self.ecs, e).is_some() {
                if let Some(mut v) = velocity_of(&self.ecs, e) {
                    apply_command(&mut v, command);
                    insert_velocity(&mut self.ecs, e, v);
                    proof {
                        assert forall|j: int| 0 <= j < n && j != k implies #[trigger] self.velocity_at(j)
                            == before.velocity_at(j) by {
                            assert(self.entities@[j] != e);
                        }
                        self.lemma_same_animations(before);
                    }
                }
            }
            k = k + 1;
        }
    }

    /// Physics system: moves every entity that has a position and a velocity
    /// one step.
    pub fn run_physics(&mut self)
        requires
            old(self).wf(),
        ensures
            final(self).wf(),
            final(self).entities@ == old(self).entities@,
            forall|k: int|
                0 <= k < old(self).len() ==> #[trigger] final(self).position_at(k) == stepped_entry(
                    old(self).position_at(k),
                    old(self).velocity_at(k),
                ),
            ecs_keyboard(final(self).ecs) == ecs_keyboard(old(self).ecs),
            ecs_velocities(final(self).ecs) == ecs_velocities(old(self).ecs),
            ecs_sprites(final(self).ecs) == ecs_sprites(old(self).ecs),
            ecs_animations(final(self).ecs) == ecs_animations(old(self).ecs),
    {
        let n = self.entities.len();
        let mut k: usize = 0;
        while k < n
            invariant
                self.wf(),
                n == self.len(),
                0 <= k <= n,
                self.entities@ == old(self).entities@,
                forall|j: int|
                    0 <= j < k ==> #[trigger] self.position_at(j) == stepped_entry(
                        old(self).position_at(j),
                        old(self).velocity_at(j),
                    ),
                forall|j: int| k <= j < n ==> #[trigger] self.position_at(j) == old(self).position_at(j),
                ecs_keyboard(self.ecs) == ecs_keyboard(old(self).ecs),
                ecs_velocities(self.ecs) == ecs_velocities(old(self).ecs),
                ecs_sprites(self.ecs) == ecs_sprites(old(self).ecs),
                ecs_animations(self.ecs) == ecs_animations(old(self).ecs),
            decreases n - k,
        {
            let e = self.entities[k];
            proof {
                assert(self.entities@.to_set().contains(e));
            }
            let ghost before = *self;
            if let Some(v) = velocity_of(&self.ecs, e) {
                if let Some(mut p) = position_of(&self.ecs, e) {
                    move_position(&mut p, &v);
                    insert_position(&mut self.ecs, e, p);
                    proof {
                        assert forall|j: int| 0 <= j < n && j != k implies #[trigger] self.position_at(j)
                            == before.position_at(j) by {
                            assert(self.entities@[j] != e);
                        }
                        self.lemma_same_animations(before);
                    }
                }
            }
            k = k + 1;
        }
    }

    /// Animator system: advances the animation of every entity that has a
    /// velocity, a sprite and an animation, and shows the current frame in
    /// its sprite.
    pub fn run_animator(&mut self)
        requires
            old(self).wf(),
        ensures
            final(self).wf(),
            final(self).entities@ == old(self).entities@,
            animator_step(*old(self), *final(self)),
            ecs_velocities(final(self).ecs) == ecs_velocities(old(self).ecs),
            ecs_keyboard(final(self).ecs) == ecs_keyboard(old(self).ecs),
            ecs_positions(final(self).ecs) == ecs_positions(old(self).ecs),
    {
        let n = self.entities.len();
        let mut k: usize = 0;
        while k < n
            invariant
                self.wf(),
                n == self.len(),
                0 <= k <= n,
                self.entities@ == old(self).entities@,
                forall|j: int|
                    0 <= j < k ==> #[trigger] advanced_entry(
                        old(self).animation_at(j),
                        old(self).sprite_at(j),
                        old(self).velocity_at(j),
                        self.animation_at(j),
                        self.sprite_at(j),
                    ),
                forall|j: int| k <= j < n ==> #[trigger] self.animation_at(j) == old(self).animation_at(j),
                forall|j: int| k <= j < n ==> #[trigger] self.sprite_at(j) == old(self).sprite_at(j),
                ecs_keyboard(self.ecs) == ecs_keyboard(old(self).ecs),
                ecs_positions(self.ecs) == ecs_positions(old(self).ecs),
                ecs_velocities(self.ecs) == ecs_velocities(old(self).ecs),
            decreases n - k,
        {
            let e = self.entities[k];
            proof {
                assert(self.entities@.to_set().contains(e));
            }
            let ghost before = *self;
            if let Some(v) = velocity_of(&self.ecs, e) {
                if let Some(mut s) = sprite_of(&self.ecs, e) {
                    if let Some(mut a) = remove_animation(&mut self.ecs, e) {
                        assert(before.animation_at(k as int) is Some);
                        animate(&mut a, &v, &mut s);
                        insert_sprite(&mut self.ecs, e, s);
                        insert_animation(&mut self.ecs, e, a);
                        proof {
                            assert(advanced_entry(
                                before.animation_at(k as int),
                                before.sprite_at(k as int),
                                before.velocity_at(k as int),
                                self.animation_at(k as int),
                                self.sprite_at(k as int),
                            ));
                            assert forall|j: int| 0 <= j < self.len() && #[trigger] self.animation_at(j) is Some
                                implies self.animation_at(j)->Some_0.wf() by {
                                if j != k {
                                    assert(before.animation_at(j) is Some);
                                }
                            }
                        }
                    } else {
                        proof {
                            assert(ecs_animations(self.ecs) =~= ecs_animations(before.ecs));
                            self.lemma_same_animations(before);
                        }
                    }
                }
            }
            proof {
                assert forall|j: int| 0 <= j < n && j != k implies #[trigger] self.animation_at(j)
                    == before.animation_at(j) by {
                    assert(self.entities@[j] != e);
                }
                assert forall|j: int| 0 <= j < n && j != k implies #[trigger] self.sprite_at(j)
                    == before.sprite_at(j) by {
                    assert(self.entities@[j] != e);
                }
            }
            k = k + 1;
        }
    }

    /// One frame of the scene: the keyboard system with `command`, then the
    /// physics and animator systems, which both see the velocities the
    /// keyboard system left.
    pub fn dispatch(&mut self, command: Option<MovementCommand>)
        requires
            old(self).wf(),
        ensures
            final(self).wf(),
            dispatch_step(*old(self), *final(self), command),
    {
        self.run_keyboard(command);
        let ghost commanded_scene = *self;
        self.run_physics();
        let ghost moved_scene = *self;
        self.run_animator();
        proof {
            assert forall|k: int| 0 <= k < old(self).len() implies {
                &&& #[trigger] self.velocity_at(k) == commanded_scene.velocity_at(k)
                &&& old(self).animation_at(k) == commanded_scene.animation_at(k)
                &&& old(self).sprite_at(k) == commanded_scene.sprite_at(k)
                &&& commanded_scene.animation_at(k) == moved_scene.animation_at(k)
                &&& commanded_scene.sprite_at(k) == moved_scene.sprite_at(k)
            } by {
                assert(commanded_scene.velocity_at(k) == moved_scene.velocity_at(k));
            }
            assert forall|k: int| 0 <= k < old(self).len() implies #[trigger] self.position_at(k) == stepped_entry(
                old(self).position_at(k),
                self.velocity_at(k),
            ) by {
                assert(self.velocity_at(k) == commanded_scene.velocity_at(k));
                assert(old(self).position_at(k) == commanded_scene.position_at(k));
                assert(self.position_at(k) == moved_scene.position_at(k));
            }
            assert forall|k: int| 0 <= k < old(self).len() implies #[trigger] advanced_entry(
                old(self).animation_at(k),
                old(self).sprite_at(k),
                self.velocity_at(k),
                self.animation_at(k),
                self.sprite_at(k),
            ) by {
                assert(self.velocity_at(k) == commanded_scene.velocity_at(k));
                assert(moved_scene.velocity_at(k) == commanded_scene.velocity_at(k));
            }
        }
    }
}

} // verus!
