//! The component storages of a `specs` world, as seen by the library: one
//! map per component from the entities that hold it to its value, and the
//! set of entities the world has allocated.

use crate::components::{KeyboardControlled, MovementAnimation, Position, Sprite, Velocity};
use specs::Builder;
use vstd::prelude::*;

verus! {

/// Largest number of entities one world hands out: entity indices are kept
/// in `hibitset` bit sets, which hold indices below 2^24 on 64-bit targets
/// and below 2^20 on 32-bit ones; this is the smaller of the two.
pub const MAX_ENTITIES: usize = 1048576;

#[verifier::external_type_specification]
#[verifier::external_body]
pub struct ExWorld(specs::World);

#[verifier::external_type_specification]
#[verifier::external_body]
pub struct ExEntity(specs::Entity);

#[verifier::external_type_specification]
#[verifier::external_body]
#[verifier::reject_recursive_types(T)]
pub struct ExVecStorage<T>(specs::VecStorage<T>);

impl specs::Component for KeyboardControlled {
    type Storage = specs::VecStorage<Self>;
}

impl specs::Component for Position {
    type Storage = specs::VecStorage<Self>;
}

impl specs::Component for Velocity {
    type Storage = specs::VecStorage<Self>;
}

impl specs::Component for Sprite {
    type Storage = specs::VecStorage<Self>;
}

impl specs::Component for MovementAnimation {
    type Storage = specs::VecStorage<Self>;
}

/// Entities the world has allocated.
pub uninterp spec fn ecs_entities(w: specs::World) -> Set<specs::Entity>;

/// The world has the five component storages registered, has never deleted
/// an entity, and its storages hold components of allocated entities only.
pub uninterp spec fn ecs_ready(w: specs::World) -> bool;

/// Keyboard markers held by the world's entities.
pub uninterp spec fn ecs_keyboard(w: specs::World) -> Map<specs::Entity, KeyboardControlled>;

/// Positions held by the world's entities.
pub uninterp spec fn ecs_positions(w: specs::World) -> Map<specs::Entity, Position>;

/// Velocities held by the world's entities.
pub uninterp spec fn ecs_velocities(w: specs::World) -> Map<specs::Entity, Velocity>;

/// Sprites held by the world's entities.
pub uninterp spec fn ecs_sprites(w: specs::World) -> Map<specs::Entity, Sprite>;

/// Animations held by the world's entities.
pub uninterp spec fn ecs_animations(w: specs::World) -> Map<specs::Entity, MovementAnimation>;

/// The value `m` holds for `e`, if any.
pub open spec fn entry<V>(m: Map<specs::Entity, V>, e: specs::Entity) -> Option<V> {
    if m.dom().contains(e) {
        Some(m[e])
    } else {
        None
    }
}

/// Relies on specs::World::new and World::register: a new world with an
/// empty storage for each component and no entities.
#[verifier::external_body]
pub(crate) fn new_ecs() -> (r: specs::World)
    ensures
        ecs_ready(r),
        ecs_entities(r).is_empty(),
        ecs_keyboard(r).dom().is_empty(),
        ecs_positions(r).dom().is_empty(),
        ecs_velocities(r).dom().is_empty(),
        ecs_sprites(r).dom().is_empty(),
        ecs_animations(r).dom().is_empty(),
{
    let mut w = specs::World::new();
    w.register::<KeyboardControlled>();
    w.register::<Position>();
    w.register::<Velocity>();
    w.register::<Sprite>();
    w.register::<MovementAnimation>();
    w
}

/// Relies on specs::World::create_entity and Builder::build: allocates an
/// entity the world never handed out before, holding no component.
#[verifier::external_body]
pub(crate) fn allocate_entity(w: &mut specs::World) -> (e: specs::Entity)
    requires
        ecs_ready(*old(w)),
        ecs_entities(*old(w)).len() < MAX_ENTITIES,
    ensures
        ecs_ready(*final(w)),
        !ecs_entities(*old(w)).contains(e),
        ecs_entities(*final(w)) == ecs_entities(*old(w)).insert(e),
        ecs_keyboard(*final(w)) == ecs_keyboard(*old(w)),
        ecs_positions(*final(w)) == ecs_positions(*old(w)),
        ecs_velocities(*final(w)) == ecs_velocities(*old(w)),
        ecs_sprites(*final(w)) == ecs_sprites(*old(w)),
        ecs_animations(*final(w)) == ecs_animations(*old(w)),
        !ecs_keyboard(*final(w)).dom().contains(e),
        !ecs_positions(*final(w)).dom().contains(e),
        !ecs_velocities(*final(w)).dom().contains(e),
        !ecs_sprites(*final(w)).dom().contains(e),
        !ecs_animations(*final(w)).dom().contains(e),
{
    w.create_entity().build()
}

/// Relies on specs::World::read_storage and Storage::get: the keyboard marker of
/// `e`, if it holds one.
#[verifier::external_body]
pub(crate) fn keyboard_of(w: &specs::World, e: specs::Entity) -> (r: Option<KeyboardControlled>)
    requires
        ecs_ready(*w),
    ensures
        r == entry(ecs_keyboard(*w), e),
{
    w.read_storage::<KeyboardControlled>().get(e).copied()
}

/// Relies on specs::World::read_storage and Storage::get: the position of
/// `e`, if it holds one.
#[verifier::external_body]
pub(crate) fn position_of(w: &specs::World, e: specs::Entity) -> (r: Option<Position>)
    requires
        ecs_ready(*w),
    ensures
        r == entry(ecs_positions(*w), e),
{
    w.read_storage::<Position>().get(e).copied()
}

/// Relies on specs::World::read_storage and Storage::get: the velocity of
/// `e`, if it holds one.
#[verifier::external_body]
pub(crate) fn velocity_of(w: &specs::World, e: specs::Entity) -> (r: Option<Velocity>)
    requires
        ecs_ready(*w),
    ensures
        r == entry(ecs_velocities(*w), e),
{
    w.read_storage::<Velocity>().get(e).copied()
}

/// Relies on specs::World::read_storage and Storage::get: the sprite of
/// `e`, if it holds one.
#[verifier::external_body]
pub(crate) fn sprite_of(w: &specs::World, e: specs::Entity) -> (r: Option<Sprite>)
    requires
        ecs_ready(*w),
    ensures
        r == entry(ecs_sprites(*w), e),
{
    w.read_storage::<Sprite>().get(e).copied()
}

/// Relies on specs::World::read_storage and Storage::get: the frame the
/// animation of `e` shows, if it holds one.
#[verifier::external_body]
pub(crate) fn current_frame_of(w: &specs::World, e: specs::Entity) -> (r: Option<usize>)
    requires
        ecs_ready(*w),
    ensures
        r == (match entry(ecs_animations(*w), e) {
            Some(a) => Some(a.current_frame),
            None => None,
        }),
{
    w.read_storage::<MovementAnimation>().get(e).map(|a| a.current_frame)
}

/// Relies on specs::World::write_storage and Storage::insert: gives the
/// allocated entity `e` the keyboard marker `c`, replacing any it held.
#[verifier::external_body]
pub(crate) fn insert_keyboard(w: &mut specs::World, e: specs::Entity, c: KeyboardControlled)
    requires
        ecs_ready(*old(w)),
        ecs_entities(*old(w)).contains(e),
    ensures
        ecs_ready(*final(w)),
        ecs_entities(*final(w)) == ecs_entities(*old(w)),
        ecs_keyboard(*final(w)) == ecs_keyboard(*old(w)).insert(e, c),
        ecs_positions(*final(w)) == ecs_positions(*old(w)),
        ecs_velocities(*final(w)) == ecs_velocities(*old(w)),
        ecs_sprites(*final(w)) == ecs_sprites(*old(w)),
        ecs_animations(*final(w)) == ecs_animations(*old(w)),
{
    let _ = w.write_storage::<KeyboardControlled>().insert(e, c);
}

/// Relies on specs::World::write_storage and Storage::insert: gives the
/// allocated entity `e` the position `c`, replacing any it held.
#[verifier::external_body]
pub(crate) fn insert_position(w: &mut specs::World, e: specs::Entity, c: Position)
    requires
        ecs_ready(*old(w)),
        ecs_entities(*old(w)).contains(e),
    ensures
        ecs_ready(*final(w)),
        ecs_entities(*final(w)) == ecs_entities(*old(w)),
        ecs_positions(*final(w)) == ecs_positions(*old(w)).insert(e, c),
        ecs_keyboard(*final(w)) == ecs_keyboard(*old(w)),
        ecs_velocities(*final(w)) == ecs_velocities(*old(w)),
        ecs_sprites(*final(w)) == ecs_sprites(*old(w)),
        ecs_animations(*final(w)) == ecs_animations(*old(w)),
{
    let _ = w.write_storage::<Position>().insert(e, c);
}

/// Relies on specs::World::write_storage and Storage::insert: gives the
/// allocated entity `e` the velocity `c`, replacing any it held.
#[verifier::external_body]
pub(crate) fn insert_velocity(w: &mut specs::World, e: specs::Entity, c: Velocity)
    requires
        ecs_ready(*old(w)),
        ecs_entities(*old(w)).contains(e),
    ensures
        ecs_ready(*final(w)),
        ecs_entities(*final(w)) == ecs_entities(*old(w)),
        ecs_velocities(*final(w)) == ecs_velocities(*old(w)).insert(e, c),
        ecs_keyboard(*final(w)) == ecs_keyboard(*old(w)),
        ecs_positions(*final(w)) == ecs_positions(*old(w)),
        ecs_sprites(*final(w)) == ecs_sprites(*old(w)),
        ecs_animations(*final(w)) == ecs_animations(*old(w)),
{
    let _ = w.write_storage::<Velocity>().insert(e, c);
}

/// Relies on specs::World::write_storage and Storage::insert: gives the
/// allocated entity `e` the sprite `c`, replacing any it held.
#[verifier::external_body]
pub(crate) fn insert_sprite(w: &mut specs::World, e: specs::Entity, c: Sprite)
    requires
        ecs_ready(*old(w)),
        ecs_entities(*old(w)).contains(e),
    ensures
        ecs_ready(*final(w)),
        ecs_entities(*final(w)) == ecs_entities(*old(w)),
        ecs_sprites(*final(w)) == ecs_sprites(*old(w)).insert(e, c),
        ecs_keyboard(*final(w)) == ecs_keyboard(*old(w)),
        ecs_positions(*final(w)) == ecs_positions(*old(w)),
        ecs_velocities(*final(w)) == ecs_velocities(*old(w)),
        ecs_animations(*final(w)) == ecs_animations(*old(w)),
{
    let _ = w.write_storage::<Sprite>().insert(e, c);
}

/// Relies on specs::World::write_storage and Storage::insert: gives the
/// allocated entity `e` the animation `c`, replacing any it held.
#[verifier::external_body]
pub(crate) fn insert_animation(w: &mut specs::World, e: specs::Entity, c: MovementAnimation)
    requires
        ecs_ready(*old(w)),
        ecs_entities(*old(w)).contains(e),
    ensures
        ecs_ready(*final(w)),
        ecs_entities(*final(w)) == ecs_entities(*old(w)),
        ecs_animations(*final(w)) == ecs_animations(*old(w)).insert(e, c),
        ecs_keyboard(*final(w)) == ecs_keyboard(*old(w)),
        ecs_positions(*final(w)) == ecs_positions(*old(w)),
        ecs_velocities(*final(w)) == ecs_velocities(*old(w)),
        ecs_sprites(*final(w)) == ecs_sprites(*old(w)),
{
    let _ = w.write_storage::<MovementAnimation>().insert(e, c);
}

/// Relies on specs::World::write_storage and Storage::remove: takes the
/// animation of `e` out of the world, if it holds one.
#[verifier::external_body]
pub(crate) fn remove_animation(w: &mut specs::World, e: specs::Entity) -> (r: Option<MovementAnimation>)
    requires
        ecs_ready(*old(w)),
    ensures
        r == entry(ecs_animations(*old(w)), e),
        ecs_ready(*final(w)),
        ecs_entities(*final(w)) == ecs_entities(*old(w)),
        ecs_animations(*final(w)) == ecs_animations(*old(w)).remove(e),
        ecs_keyboard(*final(w)) == ecs_keyboard(*old(w)),
        ecs_positions(*final(w)) == ecs_positions(*old(w)),
        ecs_velocities(*final(w)) == ecs_velocities(*old(w)),
        ecs_sprites(*final(w)) == ecs_sprites(*old(w)),
{
    w.write_storage::<MovementAnimation>().remove(e)
}

} // verus!
