//! What a spawn intent turns into: the bodies of new entities, the opening of a
//! round, and bullets.
use crate::angle::FULL_TURN;
use crate::events::{home_ship, home_ship_spawn, Command, MeteorSpawn, ShipSpawn};
use crate::game::{Game, GameState};
use crate::geometry::{BoundsTag, Point, Viewport};
use crate::motion::{Keys, Movement, Velocity};
use vstd::prelude::*;

verus! {

/// Side of the box of a meteor of size one, in thousandths of a pixel.
pub const METEOR_BASE: u32 = 16_250;

/// Largest side of the ship's box, in thousandths of a pixel.
pub const SHIP_EXTENT: u32 = 65_000;

/// Speed of a bullet relative to the ship that fired it.
pub const BULLET_SPEED: u32 = 200_000;

/// Size of the meteor that opens a round.
pub const OPENING_SIZE: u8 = 8;

/// Bound on the speed of the meteor that opens a round: 50 pixels per second.
/// Its speed stays below this, so neither component of its velocity reaches
/// 50 pixels per second in either direction.
pub const MAX_DRIFT: u32 = 50_000;

/// Relies on rand::random: a value drawn from the thread-local generator.
/// Nothing is known of which value comes back.
pub assume_specification<T>[ rand::random::<T> ]() -> (r: T)
    where
        rand::distributions::Standard: rand::distributions::Distribution<T>,
;

/// The full component set of an entity to be created.
#[derive(Clone, Copy, Debug, PartialEq, Eq, Structural)]
pub struct Body {
    pub position: Point,
    pub movement: Movement,
    /// Largest side of its box, in thousandths of a pixel.
    pub extent: u32,
    pub bounds: BoundsTag,
}

/// A bullet to be created. It moves with the sum of the ship's velocity and its
/// own muzzle velocity.
#[derive(Clone, Copy, Debug, PartialEq, Eq, Structural)]
pub struct BulletSpawn {
    pub position: Point,
    /// Always `BoundsTag::Despawn`: a bullet is removed when it leaves the playfield.
    pub bounds: BoundsTag,
    /// Along the ship's facing, at `BULLET_SPEED`.
    pub muzzle: Velocity,
    /// The velocity of the ship that fired it.
    pub carried: Velocity,
}

/// Random values from which the opening meteor of a round is placed.
#[derive(Clone, Copy, Debug, PartialEq, Eq, Structural)]
pub struct MeteorDraw {
    pub heading: u32,
    pub speed: u32,
    pub x: u32,
    pub y: u32,
}

/// The body of a new meteor: its box grows with its size, and it wraps at the edges.
pub open spec fn meteor_body_of(ev: MeteorSpawn) -> Body {
    Body {
        position: ev.position,
        movement: Movement { orientation: 0, velocity: ev.velocity },
        extent: (METEOR_BASE * ev.size) as u32,
        bounds: BoundsTag::Wrap,
    }
}

/// The body of a new ship: at rest, facing as asked, wrapping at the edges.
pub open spec fn ship_body_of(ev: ShipSpawn) -> Body {
    Body {
        position: ev.position,
        movement: Movement {
            orientation: ev.orientation,
            velocity: Velocity { heading: 0, speed: 0 },
        },
        extent: SHIP_EXTENT,
        bounds: BoundsTag::Wrap,
    }
}

/// The bullet that a ship at `position`, moving as `ship`, fires.
pub open spec fn bullet_of(position: Point, ship: Movement) -> BulletSpawn {
    BulletSpawn {
        position,
        bounds: BoundsTag::Despawn,
        muzzle: Velocity { heading: ship.orientation, speed: BULLET_SPEED },
        carried: ship.velocity,
    }
}

/// A coordinate drawn from `r` on a span centred on zero: within `[-span/2, span/2)`.
pub open spec fn drawn_coord(r: u32, span: u32) -> int {
    if span == 0 {
        0
    } else {
        (r % span) - span / 2
    }
}

/// The meteor that opens a round, placed from the random values `d`.
pub open spec fn opening_meteor(d: MeteorDraw, view: Viewport) -> MeteorSpawn {
    MeteorSpawn {
        size: OPENING_SIZE,
        velocity: Velocity {
            heading: (d.heading % (FULL_TURN as u32)) as i64,
            speed: d.speed % MAX_DRIFT,
        },
        position: Point {
            x: drawn_coord(d.x, view.width) as i32,
            y: drawn_coord(d.y, view.height) as i32,
        },
    }
}

/// The commands that open a round: one meteor and the ship.
pub open spec fn opening_commands(d: MeteorDraw, view: Viewport) -> Seq<Command> {
    seq![Command::SpawnMeteor(opening_meteor(d, view)), Command::SpawnShip(home_ship())]
}

/// The game after a round was opened in `g`: a loading round is now in progress.
pub open spec fn opened(g: Game) -> Game {
    if g.state == GameState::Loading {
        Game { state: GameState::InProgress, ..g }
    } else {
        g
    }
}

/// Materializes a meteor spawn intent.
pub fn create_meteor(ev: &MeteorSpawn) -> (r: Body)
    ensures
        r == meteor_body_of(*ev),
{
    Body {
        position: ev.position,
        movement: Movement { orientation: 0, velocity: ev.velocity },
        extent: METEOR_BASE * (ev.size as u32),
        bounds: BoundsTag::Wrap,
    }
}

/// Materializes a ship spawn intent.
pub fn create_ship(ev: &ShipSpawn) -> (r: Body)
    ensures
        r == ship_body_of(*ev),
{
    Body {
        position: ev.position,
        movement: Movement { orientation: ev.orientation, velocity: Velocity::zero() },
        extent: SHIP_EXTENT,
        bounds: BoundsTag::Wrap,
    }
}

/// A ship fires when the fire key was pressed this frame.
pub fn spawn_bullet(k: &Keys, position: Point, ship: &Movement) -> (r: Option<BulletSpawn>)
    ensures
        r == (if k.fire {
            Some(bullet_of(position, *ship))
        } else {
            None
        }),
        r matches Some(b) ==> b.bounds == BoundsTag::Despawn,
{
    if k.fire {
        Some(
            BulletSpawn {
                position,
                bounds: BoundsTag::Despawn,
                muzzle: Velocity { heading: ship.orientation, speed: BULLET_SPEED },
                carried: ship.velocity,
            },
        )
    } else {
        None
    }
}

fn drawn(r: u32, span: u32) -> (c: i32)
    ensures
        c == drawn_coord(r, span),
{
    if span == 0 {
        0
    } else {
        ((r % span) as i64 - (span / 2) as i64) as i32
    }
}

/// Places the opening meteor of a round from the random values `d`.
pub fn place_opening_meteor(d: &MeteorDraw, view: &Viewport) -> (r: MeteorSpawn)
    ensures
        r == opening_meteor(*d, *view),
        r.velocity.wf(),
        r.velocity.speed < MAX_DRIFT,
        r.position.wf(),
{
    MeteorSpawn {
        size: OPENING_SIZE,
        velocity: Velocity {
            heading: (d.heading % (FULL_TURN as u32)) as i64,
            speed: d.speed % MAX_DRIFT,
        },
        position: Point { x: drawn(d.x, view.width), y: drawn(d.y, view.height) },
    }
}

impl Game {
    /// Opens a loading round: the opening meteor, placed from `d`, and the ship
    /// enter play, and the round is in progress. In any other state nothing happens.
    pub fn begin_round(&mut self, d: &MeteorDraw, view: &Viewport) -> (r: Vec<Command>)
        ensures
            *final(self) == opened(*old(self)),
            r@ == (if old(self).state == GameState::Loading {
                opening_commands(*d, *view)
            } else {
                Seq::empty()
            }),
    {
        let mut out: Vec<Command> = Vec::new();
        if self.state == GameState::Loading {
            out.push(Command::SpawnMeteor(place_opening_meteor(d, view)));
            out.push(Command::SpawnShip(home_ship_spawn()));
            self.state = GameState::InProgress;
        }
        out
    }

    /// Opens a loading round with a meteor placed at random.
    pub fn setup_round(&mut self, view: &Viewport) -> (r: Vec<Command>)
        ensures
            *final(self) == opened(*old(self)),
            old(self).state == GameState::Loading ==> exists|d: MeteorDraw|
                r@ == opening_commands(d, *view),
            old(self).state != GameState::Loading ==> r@.len() == 0,
    {
        if self.state == GameState::Loading {
            let d = MeteorDraw {
                heading: rand::random::<u32>(),
                speed: rand::random::<u32>(),
                x: rand::random::<u32>(),
                y: rand::random::<u32>(),
            };
            let r = self.begin_round(&d, view);
            assert(r@ == opening_commands(d, *view));
            r
        } else {
            Vec::new()
        }
    }
}

} // verus!
