//! The game singleton: score, lives and the four-state round machine.
use crate::events::{home_ship, home_ship_spawn, Command, ShipSpawn};
use vstd::prelude::*;

verus! {

pub const INITIAL_SCORE: u32 = 0;

pub const INITIAL_LIVES: u8 = 3;

/// Where the game stands.
#[derive(Clone, Copy, Debug, PartialEq, Eq, Structural)]
pub enum GameState {
    /// A round was asked for; ship and first meteor are not placed yet.
    Loading,
    InProgress,
    /// The last life was lost.
    Ended,
    /// Nothing was played yet.
    Waiting,
}

#[derive(Clone, Copy, Debug, PartialEq, Eq, Structural)]
pub struct Game {
    pub score: u32,
    pub lives: u8,
    pub state: GameState,
}

/// The game as it is before anything was played.
pub open spec fn fresh_game() -> Game {
    Game { score: INITIAL_SCORE, lives: INITIAL_LIVES, state: GameState::Waiting }
}

/// The game as a start request leaves it: counters reset, round loading.
pub open spec fn started_game() -> Game {
    Game { score: INITIAL_SCORE, lives: INITIAL_LIVES, state: GameState::Loading }
}

/// The game after its ship collided with a meteor: one life less (none are left
/// below zero), and the game is over when no life is left.
pub open spec fn after_ship_hit(g: Game) -> Game {
    let lives: u8 = if g.lives > 0 {
        (g.lives - 1) as u8
    } else {
        0
    };
    Game {
        score: g.score,
        lives,
        state: if lives == 0 {
            GameState::Ended
        } else {
            g.state
        },
    }
}

/// The ship that comes back after a collision in game `g`: one while a life is left.
pub open spec fn respawn_after(g: Game) -> Option<ShipSpawn> {
    if after_ship_hit(g).lives > 0 {
        Some(home_ship())
    } else {
        None
    }
}

/// The game after a bullet hit a meteor: one more point, held at the counter's maximum.
pub open spec fn after_bullet_hit(g: Game) -> Game {
    Game {
        score: if g.score < u32::MAX {
            (g.score + 1) as u32
        } else {
            g.score
        },
        ..g
    }
}

/// The despawn commands for every meteor in `meteors`, in order.
pub open spec fn despawn_all(meteors: Seq<u64>) -> Seq<Command> {
    meteors.map_values(|id: u64| Command::Despawn(id))
}

impl Game {
    /// The game before anything was played: no score, full lives, waiting.
    pub fn new() -> (r: Game)
        ensures
            r == fresh_game(),
    {
        Game { score: INITIAL_SCORE, lives: INITIAL_LIVES, state: GameState::Waiting }
    }

    /// A start request: resets score and lives and begins loading a round.
    pub fn start(&mut self)
        ensures
            *final(self) == started_game(),
    {
        self.score = INITIAL_SCORE;
        self.lives = INITIAL_LIVES;
        self.state = GameState::Loading;
    }

    /// The ship collided with a meteor. Takes a life; while one is left, the
    /// ship that is to enter play again is returned, else the game ends.
    pub fn ship_hit(&mut self) -> (r: Option<ShipSpawn>)
        ensures
            *final(self) == after_ship_hit(*old(self)),
            r == respawn_after(*old(self)),
    {
        if self.lives > 0 {
            self.lives = self.lives - 1;
        }
        if self.lives == 0 {
            self.state = GameState::Ended;
            None
        } else {
            Some(home_ship_spawn())
        }
    }

    /// A bullet hit a meteor: one more point.
    pub fn bullet_hit(&mut self)
        ensures
            *final(self) == after_bullet_hit(*old(self)),
    {
        self.score = self.score.saturating_add(1);
    }

    /// Once per frame: a start request resets the game to loading; then, while
    /// the game is over, every meteor on the playfield is removed.
    pub fn update_game_state(&mut self, start_requested: bool, meteors: &Vec<u64>) -> (r: Vec<
        Command,
    >)
        ensures
            *final(self) == (if start_requested {
                started_game()
            } else {
                *old(self)
            }),
            r@ == (if final(self).state == GameState::Ended {
                despawn_all(meteors@)
            } else {
                Seq::empty()
            }),
    {
        if start_requested {
            self.start();
        }
        let mut out: Vec<Command> = Vec::new();
        if self.state == GameState::Ended {
            let mut i: usize = 0;
            while i < meteors.len()
                invariant
                    i <= meteors@.len(),
                    out@ == despawn_all(meteors@.subrange(0, i as int)),
                decreases meteors@.len() - i,
            {
                out.push(Command::Despawn(meteors[i]));
                proof {
                    assert(meteors@.subrange(0, i + 1) == meteors@.subrange(0, i as int).push(
                        meteors@[i as int],
                    ));
                }
                i = i + 1;
            }
            proof {
                assert(meteors@.subrange(0, meteors@.len() as int) == meteors@);
            }
        }
        out
    }
}

} // verus!
