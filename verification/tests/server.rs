use zigma::command::Command;
use zigma::command::MoveCommand;
use zigma::error::ErrorKind;
use zigma::player::Identity;
use zigma::player::Player;
use zigma::schedule::init;
use zigma::schedule::MoveAllPlayersTimer;
use zigma::schedule::ScheduleAt;
use zigma::schedule::Scheduler;
use zigma::server::apply_move;
use zigma::server::identity_connected;
use zigma::server::identity_disconnected;
use zigma::server::integrate;
use zigma::server::move_all_players;
use zigma::server::player_command;
use zigma::table::PlayerTable;
use zigma::vector::magnitude_accepted;
use zigma::vector::Vector3;
use zigma::vector::HALF;
use zigma::vector::INFINITY;
use zigma::vector::MAX_MAGNITUDE;
use zigma::vector::MINUS_ONE;
use zigma::vector::MIN_MAGNITUDE;
use zigma::vector::ONE;
use zigma::vector::ZERO;

fn vec3(x: f32, y: f32, z: f32) -> Vector3 {
    Vector3 { x: x.to_bits(), y: y.to_bits(), z: z.to_bits() }
}

fn floats(v: Vector3) -> (f32, f32, f32) {
    (f32::from_bits(v.x), f32::from_bits(v.y), f32::from_bits(v.z))
}

fn length(v: Vector3) -> f32 {
    let (x, y, z) = floats(v);
    (x * x + y * y + z * z).sqrt()
}

fn magnitude(v: Vector3) -> u32 {
    length(v).to_bits()
}

fn normalized(v: Vector3) -> Vector3 {
    let (x, y, z) = floats(v);
    let m = length(v);
    vec3(x / m, y / m, z / m)
}

fn scale(v: Vector3, k: u32) -> Vector3 {
    let (x, y, z) = floats(v);
    let k = f32::from_bits(k);
    vec3(x * k, y * k, z * k)
}

fn sum(a: Vector3, b: Vector3) -> Vector3 {
    let (ax, ay, az) = floats(a);
    let (bx, by, bz) = floats(b);
    vec3(ax + bx, ay + by, az + bz)
}

fn id(n: u128) -> Identity {
    Identity { high: 0, low: n }
}

fn timer() -> MoveAllPlayersTimer {
    MoveAllPlayersTimer { scheduled_id: 1, scheduled_at: ScheduleAt::Interval(50_000) }
}

fn send(table: &mut PlayerTable, sender: Identity, direction: Vector3) -> Result<(), ErrorKind> {
    player_command(table, sender, Command::Move(MoveCommand { direction }), magnitude, normalized)
}

fn rows_of(table: &PlayerTable, identity: Identity) -> usize {
    table.iter().iter().filter(|p| p.identity == identity).count()
}

#[test]
fn patterns_are_those_of_the_numbers() {
    assert_eq!(ZERO, 0.0f32.to_bits());
    assert_eq!(HALF, 0.5f32.to_bits());
    assert_eq!(ONE, 1.0f32.to_bits());
    assert_eq!(MINUS_ONE, (-1.0f32).to_bits());
    assert_eq!(MIN_MAGNITUDE, 0.01f32.to_bits());
    assert_eq!(MAX_MAGNITUDE, 1.1f32.to_bits());
    assert_eq!(INFINITY, f32::INFINITY.to_bits());
    assert_eq!(Vector3::zero(), vec3(0.0, 0.0, 0.0));
}

#[test]
fn magnitudes_outside_the_range_are_refused() {
    for m in [0.0f32, 0.009, 1.11, 5.0] {
        assert!(!magnitude_accepted(m.to_bits()), "{}", m);
    }
    for m in [1.0f32, 0.5, 0.01, 1.1] {
        assert!(magnitude_accepted(m.to_bits()), "{}", m);
    }
}

#[test]
fn magnitudes_that_are_no_numbers_are_refused() {
    assert!(!magnitude_accepted(f32::NAN.to_bits()));
    assert!(!magnitude_accepted(f32::INFINITY.to_bits()));
    assert!(!magnitude_accepted(f32::NEG_INFINITY.to_bits()));
    assert!(!magnitude_accepted((-0.5f32).to_bits()));
    assert!(!magnitude_accepted((-0.0f32).to_bits()));
    assert!(!magnitude_accepted(MIN_MAGNITUDE - 1));
    assert!(!magnitude_accepted(MAX_MAGNITUDE + 1));
}

#[test]
fn range_on_patterns_agrees_with_range_on_numbers() {
    let mut bits: u32 = 0;
    loop {
        let m = f32::from_bits(bits);
        let expected = m >= 0.01 && m <= 1.1;
        assert_eq!(magnitude_accepted(bits), expected, "{:#x}", bits);
        match bits.checked_add(0x0001_0001) {
            Some(next) => bits = next,
            None => break,
        }
    }
}

#[test]
fn commands_by_magnitude() {
    for m in [0.0f32, 0.009, 1.11, 5.0] {
        let mut table = PlayerTable::new();
        identity_connected(&mut table, id(1)).unwrap();
        let before = table.iter();
        assert_eq!(send(&mut table, id(1), vec3(m, 0.0, 0.0)), Err(ErrorKind::InvalidMagnitude));
        assert_eq!(table.iter(), before);
    }
    for m in [1.0f32, 0.5] {
        let mut table = PlayerTable::new();
        identity_connected(&mut table, id(1)).unwrap();
        assert_eq!(send(&mut table, id(1), vec3(0.0, m, 0.0)), Ok(()));
        assert_eq!(table.find(id(1)).unwrap().direction, vec3(0.0, 1.0, 0.0));
    }
}

#[test]
fn accepted_direction_is_stored_with_unit_length() {
    let directions = [
        vec3(0.3, 0.4, 0.5),
        vec3(-0.6, 0.2, 0.1),
        vec3(0.01, 0.0, 0.0),
        vec3(0.0, -1.1, 0.0),
        vec3(0.5, 0.5, 0.5),
    ];
    for d in directions {
        let mut table = PlayerTable::new();
        identity_connected(&mut table, id(9)).unwrap();
        assert_eq!(send(&mut table, id(9), d), Ok(()));
        let stored = table.find(id(9)).unwrap().direction;
        assert_eq!(stored, normalized(d));
        assert!((length(stored) - 1.0).abs() < 1e-6);
    }
}

#[test]
fn jump_changes_nothing() {
    let mut table = PlayerTable::new();
    identity_connected(&mut table, id(1)).unwrap();
    let before = table.iter();
    assert_eq!(player_command(&mut table, id(1), Command::Jump, magnitude, normalized), Ok(()));
    assert_eq!(table.iter(), before);
    assert_eq!(
        player_command(&mut table, id(2), Command::Jump, magnitude, normalized),
        Err(ErrorKind::UnknownSender)
    );
}

#[test]
fn apply_move_takes_measured_values() {
    let mut table = PlayerTable::new();
    identity_connected(&mut table, id(1)).unwrap();
    identity_connected(&mut table, id(2)).unwrap();
    let unit = vec3(0.0, 0.0, 1.0);
    assert_eq!(apply_move(&mut table, id(2), 0.7f32.to_bits(), unit), Ok(()));
    assert_eq!(table.find(id(2)).unwrap().direction, unit);
    assert_eq!(table.find(id(1)).unwrap().direction, Vector3::zero());
    assert_eq!(
        apply_move(&mut table, id(1), 1.2f32.to_bits(), unit),
        Err(ErrorKind::InvalidMagnitude)
    );
    assert_eq!(table.find(id(1)).unwrap().direction, Vector3::zero());
    assert_eq!(
        apply_move(&mut table, id(3), 0.7f32.to_bits(), unit),
        Err(ErrorKind::UnknownSender)
    );
    assert_eq!(table.count(), 2);
}

#[test]
fn session_from_connection_to_disconnection() {
    let mut table = PlayerTable::new();
    let i1 = id(0x1111);
    assert_eq!(identity_connected(&mut table, i1), Ok(()));
    let row = table.find(i1).unwrap();
    assert_eq!(row.player_id, 1);
    assert_eq!(row.name, "Lucas");
    assert_eq!(row.position, vec3(0.0, 0.0, 0.0));
    assert_eq!(row.rotation, vec3(0.0, 0.0, 0.0));
    assert_eq!(row.direction, vec3(0.0, 0.0, 0.0));

    assert_eq!(send(&mut table, i1, vec3(1.0, 0.0, 0.0)), Ok(()));
    let row = table.find(i1).unwrap();
    assert_eq!(row.direction, vec3(1.0, 0.0, 0.0));
    assert_eq!(row.position, vec3(0.0, 0.0, 0.0));

    assert_eq!(move_all_players(&mut table, &timer(), scale, sum), Ok(()));
    let row = table.find(i1).unwrap();
    assert_eq!(row.position, vec3(0.5, 0.0, 0.0));
    assert_eq!(row.direction, vec3(0.0, 0.0, 0.0));
    assert_eq!(row.player_id, 1);

    identity_disconnected(&mut table, i1);
    assert_eq!(table.count(), 0);
    assert!(table.find(i1).is_none());
    assert_eq!(send(&mut table, i1, vec3(1.0, 0.0, 0.0)), Err(ErrorKind::UnknownSender));
    assert_eq!(table.count(), 0);
}

#[test]
fn reconnection_keeps_the_row() {
    let mut table = PlayerTable::new();
    identity_connected(&mut table, id(5)).unwrap();
    identity_connected(&mut table, id(6)).unwrap();
    send(&mut table, id(6), vec3(0.0, 0.0, 1.0)).unwrap();
    let before = table.iter();
    assert_eq!(identity_connected(&mut table, id(6)), Ok(()));
    assert_eq!(table.iter(), before);
    assert_eq!(table.count(), 2);
    assert_eq!(table.find(id(6)).unwrap().player_id, 2);
    assert_eq!(rows_of(&table, id(6)), 1);
}

#[test]
fn one_row_per_identity_through_connections_and_disconnections() {
    let mut table = PlayerTable::new();
    let mut seed: u32 = 12345;
    let mut connected = [false; 5];
    for _ in 0..2000 {
        seed = seed.wrapping_mul(1_664_525).wrapping_add(1_013_904_223);
        let who = ((seed >> 16) % 5) as usize;
        if (seed >> 8) & 1 == 0 {
            identity_connected(&mut table, id(who as u128)).unwrap();
            connected[who] = true;
        } else {
            identity_disconnected(&mut table, id(who as u128));
            connected[who] = false;
        }
        for k in 0..5 {
            let expected = if connected[k] { 1 } else { 0 };
            assert_eq!(rows_of(&table, id(k as u128)), expected);
            assert_eq!(table.contains(id(k as u128)), connected[k]);
        }
        assert_eq!(table.count(), connected.iter().filter(|c| **c).count());
        let rows = table.iter();
        for a in 0..rows.len() {
            for b in 0..a {
                assert_ne!(rows[a].player_id, rows[b].player_id);
                assert!(rows[b].player_id < rows[a].player_id);
            }
        }
    }
}

#[test]
fn player_ids_are_not_reused() {
    let mut table = PlayerTable::new();
    identity_connected(&mut table, id(1)).unwrap();
    identity_connected(&mut table, id(2)).unwrap();
    identity_disconnected(&mut table, id(2));
    identity_disconnected(&mut table, id(1));
    identity_connected(&mut table, id(2)).unwrap();
    identity_connected(&mut table, id(1)).unwrap();
    assert_eq!(table.find(id(2)).unwrap().player_id, 3);
    assert_eq!(table.find(id(1)).unwrap().player_id, 4);
}

#[test]
fn disconnection_of_an_unknown_identity_is_nothing() {
    let mut table = PlayerTable::new();
    identity_connected(&mut table, id(1)).unwrap();
    let before = table.iter();
    identity_disconnected(&mut table, id(2));
    assert_eq!(table.iter(), before);
}

#[test]
fn constant_direction_over_ticks() {
    let mut table = PlayerTable::new();
    identity_connected(&mut table, id(1)).unwrap();
    let n = 8;
    for k in 1..=n {
        send(&mut table, id(1), vec3(0.0, 0.0, -0.9)).unwrap();
        move_all_players(&mut table, &timer(), scale, sum).unwrap();
        let row = table.find(id(1)).unwrap();
        assert_eq!(row.position, vec3(0.0, 0.0, -0.5 * k as f32));
        assert_eq!(row.direction, Vector3::zero());
    }
}

#[test]
fn tick_without_command_leaves_the_position() {
    let mut table = PlayerTable::new();
    identity_connected(&mut table, id(1)).unwrap();
    identity_connected(&mut table, id(2)).unwrap();
    send(&mut table, id(1), vec3(0.6, 0.0, 0.8)).unwrap();
    move_all_players(&mut table, &timer(), scale, sum).unwrap();
    let after_first = table.iter();
    assert_eq!(after_first[0].position, vec3(0.3, 0.0, 0.4));
    assert_eq!(after_first[1].position, vec3(0.0, 0.0, 0.0));
    move_all_players(&mut table, &timer(), scale, sum).unwrap();
    assert_eq!(table.iter(), after_first);
}

#[test]
fn tick_moves_every_player() {
    let mut table = PlayerTable::new();
    for k in 1..=4u128 {
        identity_connected(&mut table, id(k)).unwrap();
    }
    send(&mut table, id(1), vec3(1.0, 0.0, 0.0)).unwrap();
    send(&mut table, id(2), vec3(-1.0, 0.0, 0.0)).unwrap();
    send(&mut table, id(4), vec3(0.0, 0.0, 1.0)).unwrap();
    move_all_players(&mut table, &timer(), scale, sum).unwrap();
    let rows = table.iter();
    assert_eq!(rows.len(), 4);
    assert_eq!(rows[0].position, vec3(0.5, 0.0, 0.0));
    assert_eq!(rows[1].position, vec3(-0.5, 0.0, 0.0));
    assert_eq!(rows[2].position, vec3(0.0, 0.0, 0.0));
    assert_eq!(rows[3].position, vec3(0.0, 0.0, 0.5));
    for (k, row) in rows.iter().enumerate() {
        assert_eq!(row.identity, id(k as u128 + 1));
        assert_eq!(row.player_id, k as u32 + 1);
        assert_eq!(row.direction, Vector3::zero());
    }
}

#[test]
fn integrate_sets_position_and_clears_direction() {
    let row = Player {
        identity: id(3),
        player_id: 7,
        name: "Ada".to_string(),
        position: vec3(1.0, 2.0, 3.0),
        rotation: vec3(0.0, 0.5, 0.0),
        direction: vec3(0.0, 1.0, 0.0),
    };
    let moved = integrate(row.clone(), vec3(1.0, 2.5, 3.0));
    assert_eq!(
        moved,
        Player { position: vec3(1.0, 2.5, 3.0), direction: Vector3::zero(), ..row }
    );
}

#[test]
fn scheduler_is_armed_once() {
    let mut scheduler = Scheduler::new();
    assert!(!scheduler.is_armed());
    assert_eq!(init(&mut scheduler), Ok(()));
    assert!(scheduler.is_armed());
    assert_eq!(
        scheduler.timer,
        Some(MoveAllPlayersTimer { scheduled_id: 1, scheduled_at: ScheduleAt::Interval(50_000) })
    );
    let armed = scheduler;
    assert_eq!(init(&mut scheduler), Err(ErrorKind::DuplicateSchedule));
    assert_eq!(scheduler, armed);
}

#[test]
fn table_operations() {
    let mut table = PlayerTable::new();
    assert_eq!(table.count(), 0);
    let stored = table.insert(Player::fresh(id(10))).unwrap();
    assert_eq!(stored.player_id, 1);
    assert_eq!(stored.identity, id(10));
    let second = table.insert(Player { player_id: 99, ..Player::fresh(id(11)) }).unwrap();
    assert_eq!(second.player_id, 2);
    assert_eq!(table.insert(Player::fresh(id(10))), Err(ErrorKind::DuplicateIdentity));
    assert_eq!(table.count(), 2);
    assert!(table.contains(id(11)));
    assert!(!table.contains(id(12)));

    let changed = Player { name: "Grace".to_string(), rotation: vec3(0.0, 1.0, 0.0), ..stored };
    table.update(changed.clone());
    assert_eq!(table.find(id(10)), Some(changed.clone()));
    assert_eq!(table.iter(), vec![changed.clone(), second.clone()]);

    table.delete(&changed);
    assert_eq!(table.iter(), vec![second]);
    assert_eq!(table.find(id(10)), None);
}

#[test]
fn ids_run_out() {
    let mut table = PlayerTable::starting_after(u32::MAX - 1);
    assert_eq!(identity_connected(&mut table, id(1)), Ok(()));
    assert_eq!(table.find(id(1)).unwrap().player_id, u32::MAX);
    assert_eq!(identity_connected(&mut table, id(2)), Err(ErrorKind::IdentifiersExhausted));
    assert_eq!(table.insert(Player::fresh(id(2))), Err(ErrorKind::IdentifiersExhausted));
    assert_eq!(table.count(), 1);
    assert_eq!(identity_connected(&mut table, id(1)), Ok(()));
}

#[test]
fn connection_asks_for_a_row_once() {
    let fresh = zigma::server::connection_row(&None, id(4)).unwrap();
    assert_eq!(
        fresh,
        Player {
            identity: id(4),
            player_id: 0,
            name: "Lucas".to_string(),
            position: vec3(0.0, 0.0, 0.0),
            rotation: vec3(0.0, 0.0, 0.0),
            direction: vec3(0.0, 0.0, 0.0),
        }
    );
    assert_eq!(zigma::server::connection_row(&Some(fresh), id(4)), None);
}

#[test]
fn command_on_a_row() {
    let row = Player { player_id: 3, position: vec3(1.0, 0.0, 0.0), ..Player::fresh(id(4)) };
    let go = Command::Move(MoveCommand { direction: vec3(0.0, 0.0, -0.5) });
    assert_eq!(
        zigma::server::command_row(Some(row.clone()), go, magnitude, normalized),
        Ok(Some(Player { direction: vec3(0.0, 0.0, -1.0), ..row.clone() }))
    );
    assert_eq!(
        zigma::server::command_row(None, go, magnitude, normalized),
        Err(ErrorKind::UnknownSender)
    );
    assert_eq!(
        zigma::server::command_row(Some(row.clone()), Command::Jump, magnitude, normalized),
        Ok(None)
    );
    let far = Command::Move(MoveCommand { direction: vec3(3.0, 4.0, 0.0) });
    assert_eq!(
        zigma::server::command_row(Some(row.clone()), far, magnitude, normalized),
        Err(ErrorKind::InvalidMagnitude)
    );
    let none = Command::Move(MoveCommand { direction: vec3(0.0, 0.0, 0.0) });
    assert_eq!(
        zigma::server::command_row(Some(row), none, magnitude, normalized),
        Err(ErrorKind::InvalidMagnitude)
    );
}

#[test]
fn accept_move_by_magnitude() {
    let row = Player { player_id: 3, ..Player::fresh(id(4)) };
    let unit = vec3(0.0, 1.0, 0.0);
    assert_eq!(
        zigma::server::accept_move(row.clone(), MIN_MAGNITUDE, unit),
        Ok(Player { direction: unit, ..row.clone() })
    );
    assert_eq!(
        zigma::server::accept_move(row.clone(), MAX_MAGNITUDE, unit),
        Ok(Player { direction: unit, ..row.clone() })
    );
    assert_eq!(
        zigma::server::accept_move(row.clone(), MAX_MAGNITUDE + 1, unit),
        Err(ErrorKind::InvalidMagnitude)
    );
    assert_eq!(
        zigma::server::accept_move(row, MIN_MAGNITUDE - 1, unit),
        Err(ErrorKind::InvalidMagnitude)
    );
}

#[test]
fn advance_row_steps_by_half_the_direction() {
    let row = Player {
        player_id: 3,
        position: vec3(1.0, 2.0, 3.0),
        rotation: vec3(0.0, 0.25, 0.0),
        direction: vec3(0.0, -1.0, 0.0),
        ..Player::fresh(id(4))
    };
    assert_eq!(
        zigma::server::advance_row(row.clone(), &scale, &sum),
        Player { position: vec3(1.0, 1.5, 3.0), direction: Vector3::zero(), ..row }
    );
}
