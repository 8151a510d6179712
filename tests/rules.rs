use asteroids::angle::{turn, wrap_angle, FULL_TURN, QUARTER_TURN};
use asteroids::collision::{resolve_contacts, Contact, Target};
use asteroids::events::{split, Command, MeteorBody, MeteorSpawn, ShipSpawn, SPLIT_ANGLE};
use asteroids::game::{Game, GameState, INITIAL_LIVES};
use asteroids::geometry::{near, screen_despawn, screen_wrap, Point, Viewport};
use asteroids::motion::{controls, Booster, Keys, Movement, Velocity, THRUST, TURN_STEP};
use asteroids::spawner::{
    create_meteor, create_ship, place_opening_meteor, spawn_bullet, MeteorDraw, BULLET_SPEED,
    MAX_DRIFT, SHIP_EXTENT,
};
use asteroids::ui::{button_interaction, update_button, update_message, ButtonInteraction, ButtonShade};
use asteroids::geometry::BoundsTag;

const VIEW: Viewport = Viewport { width: 800_000, height: 600_000 };

fn meteor(id: u64, size: u8, x: i32, y: i32, heading: i64, speed: u32) -> MeteorBody {
    MeteorBody { id, size, position: Point { x, y }, velocity: Velocity { heading, speed } }
}

fn hit(m: MeteorBody, other: Target) -> Contact {
    Contact { meteor: m, other, touching: Some(true) }
}

#[test]
fn wrap_angle_stays_in_a_turn() {
    for a in [0i64, 1, -1, FULL_TURN, -FULL_TURN, 3 * FULL_TURN + 5, i64::MIN, i64::MAX] {
        let r = wrap_angle(a);
        assert!(r >= 0 && r < FULL_TURN);
    }
    assert_eq!(wrap_angle(-1), FULL_TURN - 1);
    assert_eq!(wrap_angle(FULL_TURN + 7), 7);
}

#[test]
fn turning_wraps_around() {
    assert_eq!(turn(FULL_TURN - 50_000, TURN_STEP), 50_000);
    assert_eq!(turn(50_000, -TURN_STEP), FULL_TURN - 50_000);
    assert_eq!(turn(QUARTER_TURN, 0), QUARTER_TURN);
    let r = turn(FULL_TURN - 1, i64::MAX);
    assert!(r >= 0 && r < FULL_TURN);
}

#[test]
fn coasting_keeps_heading_and_speed() {
    let m = Movement { orientation: 123_456, velocity: Velocity { heading: 2_000_000, speed: 40_000 } };
    let s = m.steer(&Booster { turn: 0, thrust: 0, turning: false });
    assert_eq!(s.movement, m);
    assert_eq!(s.impulse, None);
    assert!(!s.halt_spin);
}

#[test]
fn keys_turn_and_thrust() {
    let ship = Movement { orientation: QUARTER_TURN, velocity: Velocity { heading: 0, speed: 0 } };
    let keys = Keys { thrust: true, left: true, right: false, fire: false };
    assert_eq!(Booster::from_keys(&keys), Booster { turn: TURN_STEP, thrust: THRUST, turning: true });
    let s = controls(&keys, &ship);
    assert_eq!(s.movement.orientation, QUARTER_TURN + TURN_STEP);
    assert_eq!(s.impulse, Some(Velocity { heading: QUARTER_TURN + TURN_STEP, speed: THRUST }));
    assert!(s.halt_spin);
    let right = Keys { thrust: false, left: false, right: true, fire: false };
    let s = controls(&right, &Movement { orientation: 0, velocity: ship.velocity });
    assert_eq!(s.movement.orientation, FULL_TURN - TURN_STEP);
    assert_eq!(s.impulse, None);
    let both = Keys { thrust: false, left: true, right: true, fire: false };
    assert_eq!(Booster::from_keys(&both).turn, 0);
}

#[test]
fn both_turn_keys_cancel_turn_but_halt_spin() {
    let ship = Movement { orientation: 1_000, velocity: Velocity { heading: 5, speed: 9 } };
    let both = Keys { thrust: false, left: true, right: true, fire: false };
    let s = controls(&both, &ship);
    assert_eq!(s.movement, ship);
    assert_eq!(s.impulse, None);
    assert!(s.halt_spin);
    let none = Keys { thrust: false, left: false, right: false, fire: false };
    assert!(!controls(&none, &ship).halt_spin);
}

#[test]
fn wrap_past_right_edge_negates_x() {
    let x = (VIEW.width / 2 + 1) as i32;
    let p = Point { x, y: 10 };
    let r = screen_wrap(p, 0, VIEW);
    assert_eq!(r, Point { x: -x, y: 10 });
}

#[test]
fn wrap_past_right_edge_negates_x_for_a_ship() {
    let x = (VIEW.width / 2 + 1) as i32;
    let r = screen_wrap(Point { x, y: 0 }, SHIP_EXTENT, VIEW);
    assert_eq!(r, Point { x: -x, y: 0 });
}

#[test]
fn wrap_keeps_points_inside_and_counts_extent() {
    let p = Point { x: 400_000, y: -300_000 };
    assert_eq!(screen_wrap(p, 0, VIEW), p);
    let q = Point { x: 360_000, y: 0 };
    assert_eq!(screen_wrap(q, 80_000, VIEW), q);
    assert_eq!(screen_wrap(q, 80_001, VIEW), Point { x: -360_000, y: 0 });
    let ship = Point { x: -370_000, y: 0 };
    assert_eq!(screen_wrap(ship, SHIP_EXTENT, VIEW), Point { x: 370_000, y: 0 });
    let corner = Point { x: -500_000, y: 400_000 };
    assert_eq!(screen_wrap(corner, 0, VIEW), Point { x: 500_000, y: -400_000 });
}

#[test]
fn wrapping_twice_restores_the_sign() {
    let p = Point { x: 400_001, y: -300_002 };
    let once = screen_wrap(p, 0, VIEW);
    assert!(once.x < 0 && once.y > 0);
    assert_eq!(screen_wrap(once, 0, VIEW), p);
    let near_edge = Point { x: 380_000, y: 0 };
    let once = screen_wrap(near_edge, SHIP_EXTENT, VIEW);
    assert_eq!(once.x, -380_000);
    assert_eq!(screen_wrap(once, SHIP_EXTENT, VIEW), near_edge);
}

#[test]
fn despawn_only_off_screen() {
    assert!(!screen_despawn(Point { x: 400_000, y: 300_000 }, VIEW));
    assert!(screen_despawn(Point { x: 400_001, y: 0 }, VIEW));
    assert!(screen_despawn(Point { x: 0, y: -300_001 }, VIEW));
}

#[test]
fn proximity_check() {
    assert!(near(Point { x: 0, y: 0 }, Point { x: 19_999, y: -19_999 }));
    assert!(!near(Point { x: 0, y: 0 }, Point { x: 20_000, y: 0 }));
}

#[test]
fn meteor_of_size_eight_shot() {
    let mut game = Game { score: 5, lives: 3, state: GameState::InProgress };
    let m = meteor(7, 8, 1_000, -2_000, 1_000_000, 30_000);
    let cmds = resolve_contacts(&mut game, &vec![hit(m, Target::Bullet(9))]);
    assert_eq!(game.score, 6);
    assert_eq!(game.lives, 3);
    assert_eq!(cmds.len(), 4);
    let spawned: Vec<MeteorSpawn> = cmds
        .iter()
        .filter_map(|c| match c {
            Command::SpawnMeteor(s) => Some(*s),
            _ => None,
        })
        .collect();
    assert_eq!(spawned.len(), 2);
    for s in &spawned {
        assert_eq!(s.size, 4);
        assert_eq!(s.position, m.position);
        assert_eq!(s.velocity.speed, 30_000);
    }
    assert_eq!(spawned[0].velocity.heading, 1_700_000);
    assert_eq!(spawned[1].velocity.heading, 300_000);
    assert!(cmds.contains(&Command::Despawn(7)));
    assert!(cmds.contains(&Command::Despawn(9)));
}

#[test]
fn split_turns_fragments_both_ways() {
    let m = meteor(1, 4, 0, 0, 100_000, 5);
    let parts = split(&m);
    assert_eq!(parts.len(), 2);
    assert_eq!(parts[0].velocity.heading, 800_000);
    assert_eq!(parts[1].velocity.heading, FULL_TURN + 100_000 - SPLIT_ANGLE);
    assert_eq!(parts[0].size, 2);
}

#[test]
fn smallest_meteor_does_not_split() {
    let mut game = Game { score: 0, lives: 3, state: GameState::InProgress };
    let m = meteor(3, 2, 0, 0, 0, 0);
    assert!(split(&m).is_empty());
    let cmds = resolve_contacts(&mut game, &vec![hit(m, Target::Bullet(4))]);
    assert_eq!(cmds, vec![Command::Despawn(3), Command::Despawn(4)]);
    assert_eq!(game.score, 1);
}

#[test]
fn last_life_ends_the_game() {
    let mut game = Game { score: 12, lives: 1, state: GameState::InProgress };
    let m = meteor(2, 8, 0, 0, 0, 0);
    let cmds = resolve_contacts(&mut game, &vec![hit(m, Target::Ship(1))]);
    assert_eq!(game.lives, 0);
    assert_eq!(game.state, GameState::Ended);
    assert_eq!(cmds, vec![Command::Despawn(1)]);
}

#[test]
fn ship_hit_respawns_while_lives_remain() {
    let mut game = Game { score: 0, lives: 3, state: GameState::InProgress };
    let m = meteor(2, 8, 0, 0, 0, 0);
    let cmds = resolve_contacts(&mut game, &vec![hit(m, Target::Ship(1))]);
    assert_eq!(game.lives, 2);
    assert_eq!(game.state, GameState::InProgress);
    let home = ShipSpawn { position: Point { x: 0, y: 0 }, orientation: QUARTER_TURN };
    assert_eq!(cmds, vec![Command::Despawn(1), Command::SpawnShip(home)]);
}

#[test]
fn ship_hit_without_lives_stays_at_zero() {
    let mut game = Game { score: 0, lives: 0, state: GameState::Ended };
    assert_eq!(game.ship_hit(), None);
    assert_eq!(game.lives, 0);
    assert_eq!(game.state, GameState::Ended);
}

#[test]
fn untouched_or_pending_contacts_change_nothing() {
    let mut game = Game { score: 1, lives: 2, state: GameState::InProgress };
    let m = meteor(2, 8, 0, 0, 0, 0);
    let cs = vec![
        Contact { meteor: m, other: Target::Ship(1), touching: None },
        Contact { meteor: m, other: Target::Bullet(5), touching: Some(false) },
    ];
    assert!(resolve_contacts(&mut game, &cs).is_empty());
    assert_eq!(game, Game { score: 1, lives: 2, state: GameState::InProgress });
}

#[test]
fn contacts_resolve_in_order() {
    let mut game = Game { score: 0, lives: 2, state: GameState::InProgress };
    let m = meteor(2, 2, 0, 0, 0, 0);
    let cs = vec![hit(m, Target::Ship(1)), hit(m, Target::Ship(1)), hit(m, Target::Bullet(3))];
    let cmds = resolve_contacts(&mut game, &cs);
    assert_eq!(game.lives, 0);
    assert_eq!(game.state, GameState::Ended);
    assert_eq!(game.score, 1);
    let home = ShipSpawn { position: Point { x: 0, y: 0 }, orientation: QUARTER_TURN };
    assert_eq!(
        cmds,
        vec![
            Command::Despawn(1),
            Command::SpawnShip(home),
            Command::Despawn(1),
            Command::Despawn(2),
            Command::Despawn(3)
        ]
    );
}

#[test]
fn score_holds_at_its_maximum() {
    let mut game = Game { score: u32::MAX, lives: 3, state: GameState::InProgress };
    game.bullet_hit();
    assert_eq!(game.score, u32::MAX);
}

#[test]
fn state_machine_round_trip() {
    let mut game = Game::new();
    assert_eq!(game, Game { score: 0, lives: INITIAL_LIVES, state: GameState::Waiting });
    assert!(game.begin_round(&MeteorDraw { heading: 0, speed: 0, x: 0, y: 0 }, &VIEW).is_empty());
    assert_eq!(game.state, GameState::Waiting);
    assert!(game.update_game_state(true, &vec![4, 5]).is_empty());
    assert_eq!(game.state, GameState::Loading);
    let cmds = game.setup_round(&VIEW);
    assert_eq!(game.state, GameState::InProgress);
    assert_eq!(cmds.len(), 2);
    match cmds[0] {
        Command::SpawnMeteor(m) => {
            assert_eq!(m.size, 8);
            assert!(m.velocity.speed < MAX_DRIFT);
            assert!(m.velocity.heading >= 0 && m.velocity.heading < FULL_TURN);
            assert!(m.position.x >= -400_000 && m.position.x < 400_000);
            assert!(m.position.y >= -300_000 && m.position.y < 300_000);
        }
        _ => panic!("the round opens with a meteor"),
    }
    let home = ShipSpawn { position: Point { x: 0, y: 0 }, orientation: QUARTER_TURN };
    assert_eq!(cmds[1], Command::SpawnShip(home));
    game.lives = 1;
    game.ship_hit();
    assert_eq!(game.state, GameState::Ended);
    let cleared = game.update_game_state(false, &vec![4, 5]);
    assert_eq!(cleared, vec![Command::Despawn(4), Command::Despawn(5)]);
    game.score = 9;
    assert!(game.update_game_state(true, &vec![4]).is_empty());
    assert_eq!(game, Game { score: 0, lives: 3, state: GameState::Loading });
}

#[test]
fn opening_meteor_is_placed_from_the_draw() {
    let d = MeteorDraw { heading: 7_000_000, speed: 123_456, x: 1_000_000, y: 5 };
    let m = place_opening_meteor(&d, &VIEW);
    assert_eq!(m.velocity.heading, 7_000_000 - FULL_TURN);
    assert_eq!(m.velocity.speed, 23_456);
    let fastest = MeteorDraw { speed: u32::MAX, ..d };
    assert!(place_opening_meteor(&fastest, &VIEW).velocity.speed < 50_000);
    assert_eq!(m.position, Point { x: 200_000 - 400_000, y: 5 - 300_000 });
    let flat = place_opening_meteor(&d, &Viewport { width: 0, height: 0 });
    assert_eq!(flat.position, Point { x: 0, y: 0 });
}

#[test]
fn spawned_bodies() {
    let ev = MeteorSpawn { size: 4, velocity: Velocity { heading: 10, speed: 20 }, position: Point { x: 1, y: 2 } };
    let b = create_meteor(&ev);
    assert_eq!(b.extent, 65_000);
    assert_eq!(b.position, ev.position);
    assert_eq!(b.movement.velocity, ev.velocity);
    assert_eq!(b.bounds, BoundsTag::Wrap);
    let s = create_ship(&ShipSpawn { position: Point { x: 3, y: 4 }, orientation: QUARTER_TURN });
    assert_eq!(s.extent, SHIP_EXTENT);
    assert_eq!(s.movement.orientation, QUARTER_TURN);
    assert_eq!(s.movement.velocity.speed, 0);
}

#[test]
fn bullets_fire_on_press() {
    let ship = Movement { orientation: 42, velocity: Velocity { heading: 7, speed: 3 } };
    let pos = Point { x: 5, y: 6 };
    let idle = Keys { thrust: false, left: false, right: false, fire: false };
    assert_eq!(spawn_bullet(&idle, pos, &ship), None);
    let fire = Keys { fire: true, ..idle };
    let b = spawn_bullet(&fire, pos, &ship).unwrap();
    assert_eq!(b.position, pos);
    assert_eq!(b.muzzle, Velocity { heading: 42, speed: BULLET_SPEED });
    assert_eq!(b.carried, ship.velocity);
    assert_eq!(b.bounds, BoundsTag::Despawn);
}

#[test]
fn interface_follows_state() {
    assert!(!update_button(GameState::InProgress));
    assert!(update_button(GameState::Ended));
    assert!(update_button(GameState::Waiting));
    assert!(update_button(GameState::Loading));
    assert!(!update_message(GameState::InProgress));
    assert!(update_message(GameState::Ended));
    assert!(!update_message(GameState::Waiting));
    assert!(!update_message(GameState::Loading));
    let r = button_interaction(ButtonInteraction::Clicked);
    assert_eq!(r.shade, ButtonShade::Pressed);
    assert!(r.start);
    assert!(!button_interaction(ButtonInteraction::Hovered).start);
    assert_eq!(button_interaction(ButtonInteraction::Idle).shade, ButtonShade::Normal);
}
