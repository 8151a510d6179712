//! Collisions between meteors and the ship or bullets, resolved into game
//! changes and commands for the entity store.
use crate::events::{
    fragments, home_ship, split, Command, MeteorBody, MeteorSpawn, SPLIT_ANGLE, SPLIT_SIZE,
};
use crate::motion::rotated;
use crate::game::{after_bullet_hit, after_ship_hit, respawn_after, Game, GameState};
use vstd::prelude::*;

verus! {

/// The other party of a meteor contact.
#[derive(Clone, Copy, Debug, PartialEq, Eq, Structural)]
pub enum Target {
    Ship(u64),
    Bullet(u64),
}

/// One pair that the collision oracle was asked about in this frame, with its
/// answer: `Some(true)` when the shapes intersect, `Some(false)` when they do
/// not, `None` while the answer is still pending.
#[derive(Clone, Copy, Debug, PartialEq, Eq, Structural)]
pub struct Contact {
    pub meteor: MeteorBody,
    pub other: Target,
    pub touching: Option<bool>,
}

/// The spawn commands for some meteors, in order.
pub open spec fn spawn_meteors(ms: Seq<MeteorSpawn>) -> Seq<Command> {
    ms.map_values(|m: MeteorSpawn| Command::SpawnMeteor(m))
}

/// The commands that a ship collision in game `g` issues: the ship goes, and
/// comes back while a life is left.
pub open spec fn ship_hit_commands(g: Game, ship: u64) -> Seq<Command> {
    match respawn_after(g) {
        Some(s) => seq![Command::Despawn(ship), Command::SpawnShip(s)],
        None => seq![Command::Despawn(ship)],
    }
}

/// The commands that a bullet hitting meteor `m` issues: its fragments appear,
/// then the meteor and the bullet go.
pub open spec fn bullet_hit_commands(m: MeteorBody, bullet: u64) -> Seq<Command> {
    spawn_meteors(fragments(m)) + seq![Command::Despawn(m.id), Command::Despawn(bullet)]
}

/// The game after contact `c` was resolved in game `g`.
pub open spec fn game_after_contact(g: Game, c: Contact) -> Game {
    if c.touching == Some(true) {
        match c.other {
            Target::Ship(_) => after_ship_hit(g),
            Target::Bullet(_) => after_bullet_hit(g),
        }
    } else {
        g
    }
}

/// The commands that resolving contact `c` in game `g` issues.
pub open spec fn contact_commands(g: Game, c: Contact) -> Seq<Command> {
    if c.touching == Some(true) {
        match c.other {
            Target::Ship(s) => ship_hit_commands(g, s),
            Target::Bullet(b) => bullet_hit_commands(c.meteor, b),
        }
    } else {
        Seq::empty()
    }
}

/// The game after the contacts `cs` were resolved one after the other, from `g`.
pub open spec fn game_after_contacts(g: Game, cs: Seq<Contact>) -> Game
    decreases cs.len(),
{
    if cs.len() == 0 {
        g
    } else {
        game_after_contact(game_after_contacts(g, cs.drop_last()), cs.last())
    }
}

/// The commands issued while the contacts `cs` are resolved one after the other, from `g`.
pub open spec fn contacts_commands(g: Game, cs: Seq<Contact>) -> Seq<Command>
    decreases cs.len(),
{
    if cs.len() == 0 {
        Seq::empty()
    } else {
        contacts_commands(g, cs.drop_last()) + contact_commands(
            game_after_contacts(g, cs.drop_last()),
            cs.last(),
        )
    }
}

/// Resolves one contact: a touching ship costs a life, a touching bullet scores
/// and splits the meteor. The commands it issues are appended to `out`.
pub fn resolve_contact(game: &mut Game, c: &Contact, out: &mut Vec<Command>)
    ensures
        *final(game) == game_after_contact(*old(game), *c),
        final(out)@ == old(out)@ + contact_commands(*old(game), *c),
{
    if c.touching == Some(true) {
        match c.other {
            Target::Ship(s) => {
                let respawn = game.ship_hit();
                out.push(Command::Despawn(s));
                match respawn {
                    Some(ship) => out.push(Command::SpawnShip(ship)),
                    None => {},
                }
            },
            Target::Bullet(b) => {
                game.bullet_hit();
                let pieces = split(&c.meteor);
                let ghost before = out@;
                let mut i: usize = 0;
                while i < pieces.len()
                    invariant
                        i <= pieces@.len(),
                        out@ == before + spawn_meteors(pieces@.subrange(0, i as int)),
                    decreases pieces@.len() - i,
                {
                    out.push(Command::SpawnMeteor(pieces[i]));
                    proof {
                        assert(pieces@.subrange(0, i + 1) == pieces@.subrange(0, i as int).push(
                            pieces@[i as int],
                        ));
                    }
                    i = i + 1;
                }
                proof {
                    assert(pieces@.subrange(0, pieces@.len() as int) == pieces@);
                }
                out.push(Command::Despawn(c.meteor.id));
                out.push(Command::Despawn(b));
            },
        }
    }
}

/// The collision pass of one frame: the contacts are resolved in the order the
/// oracle was asked, and the commands they issue are returned in that order.
pub fn resolve_contacts(game: &mut Game, contacts: &Vec<Contact>) -> (r: Vec<Command>)
    ensures
        *final(game) == game_after_contacts(*old(game), contacts@),
        r@ == contacts_commands(*old(game), contacts@),
{
    let mut out: Vec<Command> = Vec::new();
    let mut i: usize = 0;
    while i < contacts.len()
        invariant
            i <= contacts@.len(),
            *game == game_after_contacts(*old(game), contacts@.subrange(0, i as int)),
            out@ == contacts_commands(*old(game), contacts@.subrange(0, i as int)),
        decreases contacts@.len() - i,
    {
        proof {
            assert(contacts@.subrange(0, i + 1).drop_last() == contacts@.subrange(0, i as int));
        }
        resolve_contact(game, &contacts[i], &mut out);
        i = i + 1;
    }
    proof {
        assert(contacts@.subrange(0, contacts@.len() as int) == contacts@);
    }
    out
}

/// The number of contacts in `cs` in which a ship touches a meteor.
pub open spec fn ship_hits(cs: Seq<Contact>) -> nat
    decreases cs.len(),
{
    if cs.len() == 0 {
        0
    } else {
        ship_hits(cs.drop_last()) + if cs.last().touching == Some(true) && cs.last().other is Ship {
            1nat
        } else {
            0nat
        }
    }
}

/// Over a whole frame, each ship collision costs exactly one life, as long as
/// lives are left to take.
pub proof fn lemma_one_life_per_ship_hit(g: Game, cs: Seq<Contact>)
    requires
        g.lives >= ship_hits(cs),
    ensures
        game_after_contacts(g, cs).lives == g.lives - ship_hits(cs),
    decreases cs.len(),
{
    if cs.len() > 0 {
        lemma_one_life_per_ship_hit(g, cs.drop_last());
    }
}

/// A bullet that hits a meteor larger than the splitting size yields exactly two
/// fragments of half its size at its place, whose velocities are the meteor's
/// turned by +0.7 and by -0.7 radian; then the meteor and the bullet are both
/// removed, and one point is scored.
pub proof fn lemma_bullet_splits_meteor(g: Game, c: Contact)
    requires
        c.touching == Some(true),
        c.other is Bullet,
        c.meteor.size > SPLIT_SIZE,
    ensures
        contact_commands(g, c) == seq![
            Command::SpawnMeteor(
                MeteorSpawn {
                    size: (c.meteor.size / 2) as u8,
                    velocity: rotated(c.meteor.velocity, SPLIT_ANGLE as int),
                    position: c.meteor.position,
                },
            ),
            Command::SpawnMeteor(
                MeteorSpawn {
                    size: (c.meteor.size / 2) as u8,
                    velocity: rotated(c.meteor.velocity, -SPLIT_ANGLE),
                    position: c.meteor.position,
                },
            ),
            Command::Despawn(c.meteor.id),
            Command::Despawn(c.other->Bullet_0),
        ],
        g.score < u32::MAX ==> game_after_contact(g, c).score == g.score + 1,
        game_after_contact(g, c).lives == g.lives,
        game_after_contact(g, c).state == g.state,
{
    assert(contact_commands(g, c) =~= bullet_hit_commands(c.meteor, c.other->Bullet_0));
}

/// A ship that collides with a meteor costs exactly one life. The game ends
/// when that was the last life, and only then; otherwise exactly one ship is
/// sent back into play, at the centre of the screen.
pub proof fn lemma_ship_hit_costs_a_life(g: Game, c: Contact)
    requires
        c.touching == Some(true),
        c.other is Ship,
        g.lives > 0,
    ensures
        game_after_contact(g, c).lives == g.lives - 1,
        game_after_contact(g, c).score == g.score,
        game_after_contact(g, c).lives == 0 ==> game_after_contact(g, c).state == GameState::Ended,
        game_after_contact(g, c).lives > 0 ==> game_after_contact(g, c).state == g.state,
        g.state != GameState::Ended ==> (game_after_contact(g, c).state == GameState::Ended
            <==> game_after_contact(g, c).lives == 0),
        contact_commands(g, c) == (if g.lives > 1 {
            seq![Command::Despawn(c.other->Ship_0), Command::SpawnShip(home_ship())]
        } else {
            seq![Command::Despawn(c.other->Ship_0)]
        }),
{
}

} // verus!
