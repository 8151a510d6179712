//! Velocities, headings and the mapping from player input to steering.
use crate::angle::{is_orientation, lemma_turn_by_zero, turn, turned};
use vstd::prelude::*;

verus! {

/// How far one frame with a turn key held turns the ship: 0.1 radian.
pub const TURN_STEP: i64 = 100_000;

/// The impulse that one frame with the thrust key held gives the ship.
pub const THRUST: u32 = 1_000;

/// A velocity in polar form: a direction of travel and a speed.
#[derive(Clone, Copy, Debug, PartialEq, Eq, Structural)]
pub struct Velocity {
    /// Direction of travel, in millionths of a radian.
    pub heading: i64,
    /// Thousandths of a pixel per second.
    pub speed: u32,
}

/// The velocity `v` turned by `delta`: same speed, heading turned.
pub open spec fn rotated(v: Velocity, delta: int) -> Velocity {
    Velocity { heading: turned(v.heading as int, delta) as i64, speed: v.speed }
}

impl Velocity {
    pub open spec fn wf(self) -> bool {
        is_orientation(self.heading as int)
    }

    /// Standing still.
    pub fn zero() -> (r: Velocity)
        ensures
            r == (Velocity { heading: 0, speed: 0 }),
            r.wf(),
    {
        Velocity { heading: 0, speed: 0 }
    }

    /// The same velocity, turned by `delta`.
    pub fn rotate(&self, delta: i64) -> (r: Velocity)
        ensures
            r == rotated(*self, delta as int),
            r.wf(),
    {
        Velocity { heading: turn(self.heading, delta), speed: self.speed }
    }
}

/// The kinematic state of a body: where it faces and how it moves.
#[derive(Clone, Copy, Debug, PartialEq, Eq, Structural)]
pub struct Movement {
    /// Facing, in millionths of a radian.
    pub orientation: i64,
    pub velocity: Velocity,
}

impl Movement {
    pub open spec fn wf(self) -> bool {
        is_orientation(self.orientation as int) && self.velocity.wf()
    }
}

/// The keys of the fixed control scheme, as held this frame.
#[derive(Clone, Copy, Debug, PartialEq, Eq, Structural)]
pub struct Keys {
    pub thrust: bool,
    pub left: bool,
    pub right: bool,
    /// Fire was pressed this frame (not merely held).
    pub fire: bool,
}

/// What the player asks of the ship in one frame.
#[derive(Clone, Copy, Debug, PartialEq, Eq, Structural)]
pub struct Booster {
    /// Turn, in millionths of a radian; positive is counter-clockwise.
    pub turn: i64,
    /// Impulse along the facing.
    pub thrust: u32,
    /// A turn key is held, whether or not the turns cancel out.
    pub turning: bool,
}

/// The booster that the held keys ask for.
pub open spec fn booster_of(k: Keys) -> Booster {
    Booster {
        turn: ((if k.left {
            TURN_STEP
        } else {
            0
        }) + (if k.right {
            -TURN_STEP
        } else {
            0
        })) as i64,
        thrust: if k.thrust {
            THRUST
        } else {
            0
        },
        turning: k.left || k.right,
    }
}

/// The outcome of applying a booster to a body.
#[derive(Clone, Copy, Debug, PartialEq, Eq, Structural)]
pub struct Steering {
    /// The body turned to its new facing; its velocity is untouched.
    pub movement: Movement,
    /// The impulse to add to the body's velocity, along the new facing.
    pub impulse: Option<Velocity>,
    /// Holding a turn key cancels any spin the body had.
    pub halt_spin: bool,
}

/// Applying booster `b` to movement `m`.
pub open spec fn steered(m: Movement, b: Booster) -> Steering {
    let orientation = turned(m.orientation as int, b.turn as int) as i64;
    Steering {
        movement: Movement { orientation, velocity: m.velocity },
        impulse: if b.thrust == 0 {
            None
        } else {
            Some(Velocity { heading: orientation, speed: b.thrust })
        },
        halt_spin: b.turning,
    }
}

impl Booster {
    /// Reads the booster from the held keys: left and right turn by one step each
    /// way, thrust is full while its key is held and zero otherwise, and holding
    /// either turn key counts as turning.
    pub fn from_keys(k: &Keys) -> (r: Booster)
        ensures
            r == booster_of(*k),
    {
        let mut t: i64 = 0;
        if k.left {
            t = t + TURN_STEP;
        }
        if k.right {
            t = t - TURN_STEP;
        }
        Booster {
            turn: t,
            thrust: if k.thrust {
                THRUST
            } else {
                0
            },
            turning: k.left || k.right,
        }
    }
}

impl Movement {
    /// Turns the body by the booster's turn and, when it thrusts, asks for an
    /// impulse along the new facing.
    pub fn steer(&self, b: &Booster) -> (r: Steering)
        ensures
            r == steered(*self, *b),
            r.movement.wf() == self.velocity.wf(),
    {
        let orientation = turn(self.orientation, b.turn);
        let impulse = if b.thrust == 0 {
            None
        } else {
            Some(Velocity { heading: orientation, speed: b.thrust })
        };
        Steering {
            movement: Movement { orientation, velocity: self.velocity },
            impulse,
            halt_spin: b.turning,
        }
    }
}

/// One frame of player control: the keys read as a booster, applied to the ship.
/// Holding left or right, or both, cancels the ship's spin.
pub fn controls(k: &Keys, ship: &Movement) -> (r: Steering)
    ensures
        r == steered(*ship, booster_of(*k)),
        r.halt_spin == (k.left || k.right),
{
    let b = Booster::from_keys(k);
    ship.steer(&b)
}

/// With no thrust and no turn, a body keeps its facing, heading and speed, and
/// no impulse is asked for.
pub proof fn lemma_coasting_keeps_motion(m: Movement, b: Booster)
    requires
        m.wf(),
        b.thrust == 0,
        b.turn == 0,
    ensures
        steered(m, b).movement == m,
        steered(m, b).impulse is None,
{
    lemma_turn_by_zero(m.orientation as int);
}

} // verus!
