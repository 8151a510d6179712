//! Spawn intents and the command queue that the rules hand to the entity store.
use crate::angle::QUARTER_TURN;
use crate::geometry::Point;
use crate::motion::{rotated, Velocity};
use vstd::prelude::*;

verus! {

/// Meteors larger than this split in two when shot.
pub const SPLIT_SIZE: u8 = 2;

/// The angle between a shot meteor's velocity and each fragment's: 0.7 radian.
pub const SPLIT_ANGLE: i64 = 700_000;

/// A meteor to be created.
#[derive(Clone, Copy, Debug, PartialEq, Eq, Structural)]
pub struct MeteorSpawn {
    pub size: u8,
    pub velocity: Velocity,
    pub position: Point,
}

/// A ship to be created.
#[derive(Clone, Copy, Debug, PartialEq, Eq, Structural)]
pub struct ShipSpawn {
    pub position: Point,
    /// Facing, in millionths of a radian.
    pub orientation: i64,
}

/// A change to the entity store, applied at the end of the frame.
#[derive(Clone, Copy, Debug, PartialEq, Eq, Structural)]
pub enum Command {
    Despawn(u64),
    SpawnMeteor(MeteorSpawn),
    SpawnShip(ShipSpawn),
}

/// A meteor on the playfield, as the collision rules see it.
#[derive(Clone, Copy, Debug, PartialEq, Eq, Structural)]
pub struct MeteorBody {
    /// The entity that carries it.
    pub id: u64,
    pub size: u8,
    pub position: Point,
    pub velocity: Velocity,
}

/// Where a ship enters play: the centre of the screen, facing up.
pub open spec fn home_ship() -> ShipSpawn {
    ShipSpawn { position: Point { x: 0, y: 0 }, orientation: QUARTER_TURN }
}

/// One fragment of a shot meteor: half its size, at its place, its velocity turned by `delta`.
pub open spec fn fragment(m: MeteorBody, delta: int) -> MeteorSpawn {
    MeteorSpawn { size: (m.size / 2) as u8, velocity: rotated(m.velocity, delta), position: m.position }
}

/// What is left of a shot meteor: two fragments when it is large enough, none otherwise.
pub open spec fn fragments(m: MeteorBody) -> Seq<MeteorSpawn> {
    if m.size > SPLIT_SIZE {
        seq![fragment(m, SPLIT_ANGLE as int), fragment(m, -SPLIT_ANGLE)]
    } else {
        seq![]
    }
}

/// The ship that enters play at the start of a round and after a life is lost.
pub fn home_ship_spawn() -> (r: ShipSpawn)
    ensures
        r == home_ship(),
{
    ShipSpawn { position: Point { x: 0, y: 0 }, orientation: QUARTER_TURN }
}

/// Breaks a shot meteor into its fragments.
pub fn split(m: &MeteorBody) -> (r: Vec<MeteorSpawn>)
    ensures
        r@ == fragments(*m),
{
    let mut out: Vec<MeteorSpawn> = Vec::new();
    if m.size > SPLIT_SIZE {
        let size = m.size / 2;
        out.push(MeteorSpawn { size, velocity: m.velocity.rotate(SPLIT_ANGLE), position: m.position });
        out.push(MeteorSpawn { size, velocity: m.velocity.rotate(-SPLIT_ANGLE), position: m.position });
    }
    out
}

} // verus!
