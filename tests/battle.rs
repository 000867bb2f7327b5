use tamagotchi_battle::battle::{
    Battle, GAS_AMOUNT, MAX_ENERGY, MIN_ENERGY, MIN_POWER, MAX_POWER, RPG_ID, SHIELD, SHIELD_ID,
    SWORD_ID, TIME_FOR_UPDATE,
};
use tamagotchi_battle::types::{
    ActorId, AttributesPerRound, BattleError, BattleEvent, BattleState, DirectionOfMovement,
    Entropy, Funding, Notification, Player, ReservationId,
};

fn entropy(first: u8, second: u8) -> Entropy {
    let mut bytes = [0u8; 32];
    bytes[0] = first;
    bytes[1] = second;
    Entropy(bytes)
}

fn register(battle: &mut Battle, piece: u8, owner: u8, e: Entropy) -> Result<BattleEvent, BattleError> {
    let pending = battle.initiate_registration(&ActorId::new([piece; 32]), AttributesPerRound::default())?;
    battle.complete_registration(pending, ActorId::new([owner; 32]), &e)
}

fn player(owner: u8, piece: u8, energy: u16, power: u16, side: DirectionOfMovement) -> Player {
    Player {
        owner: ActorId::new([owner; 32]),
        tmg_id: ActorId::new([piece; 32]),
        energy,
        power,
        attributes: AttributesPerRound::default(),
        actual_attribute: 1,
        actual_side: side,
    }
}

fn battle_in_moves(first: Player, second: Player) -> Battle {
    let mut battle = Battle::new(ActorId::new([9; 32]));
    battle.players.push(first);
    battle.players.push(second);
    battle.state = BattleState::Moves;
    battle.current_turn = 0;
    battle
}

#[test]
fn test_initiate_registration() {
    let mut battle = Battle::default();
    let tmg_id = ActorId::new([1; 32]);
    let attributes = AttributesPerRound {
        round_1: Some(1),
        round_2: Some(2),
        round_3: Some(3),
    };

    let pending = battle.initiate_registration(&tmg_id, attributes).unwrap();
    let reply = battle
        .complete_registration(pending, ActorId::new([2; 32]), &entropy(0, 0))
        .unwrap();

    assert_eq!(reply, BattleEvent::Registered { tmg_id });
    assert_eq!(battle.players.len(), 1);
    assert_eq!(battle.state, BattleState::Registration);
    assert_eq!(battle.current_turn, 0);
}

#[test]
fn new_battle_loads_tables() {
    let battle = Battle::new(ActorId::new([7; 32]));
    assert_eq!(battle.state, BattleState::Registration);
    assert!(battle.players.is_empty());
    assert_eq!(battle.tmg_store_id, ActorId::new([7; 32]));
    assert_eq!(battle.weapons_data.len(), 4);
    assert_eq!(battle.weapons_data.get(&RPG_ID), Some(&10));
    assert_eq!(battle.weapons_data.get(&SWORD_ID), Some(&2));
    assert_eq!(battle.shields_data.get(&SHIELD_ID), Some(&SHIELD));
    assert!(battle.reservations.is_empty());
    assert_eq!(battle.winner, ActorId::new([0; 32]));
    assert_eq!(battle.current_turn, 0);
    assert_eq!(battle.steps, 0);
    let weapons: Vec<(u32, u16)> = battle.weapons_data.iter().map(|(k, v)| (*k, *v)).collect();
    assert_eq!(weapons, vec![(1, 2), (2, 1), (3, 6), (4, 10)]);
    let shields: Vec<(u32, u16)> = battle.shields_data.iter().map(|(k, v)| (*k, *v)).collect();
    assert_eq!(shields, vec![(5, 3500)]);
}

#[test]
fn actor_ids_compare_by_bytes() {
    let mut bytes = [3u8; 32];
    assert_eq!(ActorId::new(bytes), ActorId::new([3; 32]));
    bytes[31] = 4;
    assert_ne!(ActorId::new(bytes), ActorId::new([3; 32]));
    assert_eq!(ActorId::zero(), ActorId::new([0; 32]));
}

#[test]
fn coin_flip_is_first_byte_parity() {
    assert_eq!(Battle::determine_turn(&entropy(7, 0)), 1);
    assert_eq!(Battle::determine_turn(&entropy(200, 1)), 0);
}

#[test]
fn bounded_draw_reads_big_endian_and_falls_back_to_half() {
    // 0x2000 = 8192; 8192 % 5000 = 3192, not below 3000.
    assert_eq!(Battle::generate_random_number_field(&entropy(0x20, 0x00), MIN_POWER, MAX_POWER), 3192);
    // 0x0102 = 258, below 3000: half of 5000.
    assert_eq!(Battle::generate_random_number_field(&entropy(0x01, 0x02), MIN_POWER, MAX_POWER), 2500);
    // 0xffff = 65535; 65535 % 5000 = 535, below 3000.
    assert_eq!(Battle::generate_random_number_field(&entropy(0xff, 0xff), MIN_POWER, MAX_POWER), 2500);
    // 0xf0 0x00 = 61440; 61440 % 5000 = 1440.
    assert_eq!(Battle::generate_random_number_field(&entropy(0xf0, 0x00), 1000, MAX_POWER), 1440);
    // The energy draw is always below its minimum, so it is always half.
    assert_eq!(Battle::generate_random_number_field(&entropy(0x12, 0x34), MIN_ENERGY, MAX_ENERGY), 5000);
}

#[test]
fn registration_draws_power_energy_and_side() {
    let mut battle = Battle::default();
    register(&mut battle, 1, 2, entropy(0x20, 0x00)).unwrap();
    let p = battle.players[0];
    assert_eq!(p.power, 1808);
    assert_eq!(p.energy, 5000);
    assert_eq!(p.actual_side, DirectionOfMovement::Left);
    assert_eq!(p.actual_attribute, 1);
    assert_eq!(p.owner, ActorId::new([2; 32]));
    assert_eq!(p.tmg_id, ActorId::new([1; 32]));

    let mut other = Battle::default();
    register(&mut other, 1, 2, entropy(0x01, 0x02)).unwrap();
    assert_eq!(other.players[0].power, 2500);
    assert_eq!(other.players[0].actual_side, DirectionOfMovement::Right);
}

#[test]
fn two_registrations_start_the_moves() {
    let mut battle = Battle::default();
    register(&mut battle, 1, 2, entropy(4, 0)).unwrap();
    register(&mut battle, 3, 4, entropy(5, 0)).unwrap();
    assert_eq!(battle.players.len(), 2);
    assert_eq!(battle.state, BattleState::Moves);
    assert_eq!(battle.current_turn, 1);
}

#[test]
fn third_registration_is_refused() {
    let mut battle = Battle::default();
    register(&mut battle, 1, 2, entropy(4, 0)).unwrap();
    register(&mut battle, 3, 4, entropy(4, 0)).unwrap();
    assert_eq!(register(&mut battle, 5, 6, entropy(4, 0)), Err(BattleError::InvalidState));
    assert_eq!(battle.players.len(), 2);
}

#[test]
fn first_move_strikes_with_plain_power() {
    let mut battle = Battle::default();
    register(&mut battle, 10, 1, entropy(0x20, 0x00)).unwrap();
    register(&mut battle, 20, 2, entropy(0x00, 0x00)).unwrap();
    assert_eq!(battle.current_turn, 0);
    let a = battle.players[0];
    let b = battle.players[1];
    assert_eq!(a.power, 1808);
    assert_eq!(b.actual_side, DirectionOfMovement::Left);

    let out = battle.execute_move(ActorId::new([1; 32]), b.actual_side).unwrap();
    assert_eq!(out.reply, Some(BattleEvent::MoveMade));
    assert!(out.notifications.is_empty());
    assert_eq!(battle.players[1].energy, b.energy - a.power);
    assert_eq!(battle.players[1].energy, 5000 - 1808);
    assert_eq!(battle.steps, 1);
    assert_eq!(battle.current_turn, 1);
    assert_eq!(battle.players[0].actual_attribute, 2);
}

#[test]
fn move_by_wrong_player_is_refused() {
    let mut battle = battle_in_moves(
        player(1, 2, 100, 50, DirectionOfMovement::Right),
        player(3, 4, 80, 60, DirectionOfMovement::Left),
    );
    let r = battle.execute_move(ActorId::new([3; 32]), DirectionOfMovement::Left);
    assert_eq!(r.unwrap_err(), BattleError::Unauthorized);
    assert_eq!(battle.steps, 0);
    assert_eq!(battle.players[1].energy, 80);
    assert_eq!(battle.players[0].actual_attribute, 1);
}

#[test]
fn move_outside_moves_is_refused() {
    let mut battle = Battle::default();
    let r = battle.execute_move(ActorId::new([1; 32]), DirectionOfMovement::Left);
    assert_eq!(r.unwrap_err(), BattleError::InvalidState);
}

#[test]
fn dodged_attack_spares_defender_and_tells_mover() {
    let mut battle = battle_in_moves(
        player(1, 2, 100, 50, DirectionOfMovement::Right),
        player(3, 4, 80, 60, DirectionOfMovement::Left),
    );
    let out = battle.execute_move(ActorId::new([1; 32]), DirectionOfMovement::Right).unwrap();
    assert_eq!(battle.players[1].energy, 80);
    assert_eq!(out.reply, Some(BattleEvent::MoveMade));
    assert_eq!(
        out.notifications,
        vec![Notification { to: ActorId::new([1; 32]), event: BattleEvent::OpponentDodgedTheAttack }]
    );
    assert_eq!(battle.state, BattleState::Moves);
    assert_eq!(battle.steps, 1);
}

#[test]
fn energy_saturates_at_zero_and_ends_game() {
    let mut battle = battle_in_moves(
        player(1, 2, 100, 50, DirectionOfMovement::Left),
        player(3, 4, 30, 60, DirectionOfMovement::Left),
    );
    battle.steps = 1;
    battle.players[0].actual_attribute = 2;
    let out = battle.execute_move(ActorId::new([1; 32]), DirectionOfMovement::Left).unwrap();
    assert_eq!(battle.state, BattleState::GameIsOver);
    assert!(battle.players.is_empty());
    assert_eq!(battle.winner, ActorId::new([2; 32]));
    assert_eq!(battle.steps, 0);
    assert_eq!(out.reply, Some(BattleEvent::GameIsOver));
    assert_eq!(
        out.notifications,
        vec![Notification { to: ActorId::new([3; 32]), event: BattleEvent::GameIsOver }]
    );
    assert_eq!(out.wake_up, None);
}

#[test]
fn exact_knockout_beats_round_limit() {
    let mut battle = battle_in_moves(
        player(1, 2, 100, 50, DirectionOfMovement::Left),
        player(3, 4, 50, 60, DirectionOfMovement::Left),
    );
    battle.steps = 4;
    let out = battle.execute_move(ActorId::new([1; 32]), DirectionOfMovement::Left).unwrap();
    assert_eq!(battle.state, BattleState::GameIsOver);
    assert_eq!(battle.winner, ActorId::new([2; 32]));
    assert_eq!(out.reply, Some(BattleEvent::GameIsOver));
    assert_eq!(out.wake_up, None);
}

#[test]
fn full_round_goes_waiting_with_newest_voucher() {
    let mut battle = battle_in_moves(
        player(1, 2, 10_000, 1, DirectionOfMovement::Left),
        player(3, 4, 10_000, 1, DirectionOfMovement::Left),
    );
    assert_eq!(battle.initiate_reservation(ReservationId([1; 32])), BattleEvent::GasReserved);
    assert_eq!(battle.initiate_reservation(ReservationId([2; 32])), BattleEvent::GasReserved);
    let owners = [1u8, 3, 1, 3];
    for (i, owner) in owners.iter().enumerate() {
        let out = battle.execute_move(ActorId::new([*owner; 32]), DirectionOfMovement::Left).unwrap();
        assert_eq!(out.reply, Some(BattleEvent::MoveMade));
        assert_eq!(battle.steps as usize, i + 1);
        assert_eq!(battle.state, BattleState::Moves);
    }
    let out = battle.execute_move(ActorId::new([1; 32]), DirectionOfMovement::Left).unwrap();
    assert_eq!(battle.state, BattleState::Waiting);
    assert_eq!(battle.steps, 0);
    assert_eq!(battle.players[0].actual_attribute, 1);
    assert_eq!(battle.players[1].actual_attribute, 1);
    assert_eq!(battle.players[1].energy, 10_000 - 3);
    assert_eq!(battle.players[0].energy, 10_000 - 2);
    assert_eq!(out.reply, Some(BattleEvent::GoToWaitingState));
    assert_eq!(
        out.notifications,
        vec![Notification { to: ActorId::new([3; 32]), event: BattleEvent::GoToWaitingState }]
    );
    let wake = out.wake_up.unwrap();
    assert_eq!(wake.funding, Funding::Reservation(ReservationId([2; 32])));
    assert_eq!(wake.delay, TIME_FOR_UPDATE);
    assert_eq!(battle.reservations, vec![ReservationId([1; 32])]);
}

#[test]
fn round_end_without_voucher_grants_gas() {
    let mut battle = battle_in_moves(
        player(1, 2, 10_000, 1, DirectionOfMovement::Left),
        player(3, 4, 10_000, 1, DirectionOfMovement::Left),
    );
    battle.steps = 4;
    let out = battle.execute_move(ActorId::new([1; 32]), DirectionOfMovement::Right).unwrap();
    assert_eq!(battle.state, BattleState::Waiting);
    let wake = out.wake_up.unwrap();
    assert_eq!(wake.funding, Funding::Gas(GAS_AMOUNT));
    assert_eq!(wake.delay, 10);
    assert_eq!(
        out.notifications,
        vec![
            Notification { to: ActorId::new([1; 32]), event: BattleEvent::OpponentDodgedTheAttack },
            Notification { to: ActorId::new([3; 32]), event: BattleEvent::GoToWaitingState },
        ]
    );
}

#[test]
fn active_attribute_follows_slot() {
    let mut p = player(1, 2, 100, 50, DirectionOfMovement::Left);
    p.attributes = AttributesPerRound { round_1: Some(4), round_2: None, round_3: Some(5) };
    assert_eq!(Battle::get_player_actual_attribute_id(&p), 4);
    p.actual_attribute = 2;
    assert_eq!(Battle::get_player_actual_attribute_id(&p), 0);
    p.actual_attribute = 3;
    assert_eq!(Battle::get_player_actual_attribute_id(&p), 5);
    p.actual_attribute = 4;
    assert_eq!(Battle::get_player_actual_attribute_id(&p), 0);
}

#[test]
fn total_attack_applies_weapon_and_shield() {
    let battle = Battle::new(ActorId::new([9; 32]));
    let mut attacker = player(1, 2, 100, 500, DirectionOfMovement::Left);
    let mut defender = player(3, 4, 100, 60, DirectionOfMovement::Left);
    assert_eq!(battle.calculate_tamagotchi_total_attack(&attacker, &defender), 500);
    attacker.attributes.round_1 = Some(RPG_ID);
    assert_eq!(battle.calculate_tamagotchi_total_attack(&attacker, &defender), 5000);
    defender.attributes.round_1 = Some(SHIELD_ID);
    assert_eq!(battle.calculate_tamagotchi_total_attack(&attacker, &defender), 1500);
    attacker.attributes.round_1 = None;
    assert_eq!(battle.calculate_tamagotchi_total_attack(&attacker, &defender), 0);
}

#[test]
fn large_weapon_factor_does_not_overflow() {
    let mut battle = Battle::new(ActorId::new([9; 32]));
    battle.weapons_data.insert(77, u16::MAX);
    let mut attacker = player(1, 2, 100, u16::MAX, DirectionOfMovement::Left);
    attacker.attributes.round_1 = Some(77);
    let defender = player(3, 4, 100, 60, DirectionOfMovement::Left);
    assert_eq!(battle.calculate_tamagotchi_total_attack(&attacker, &defender), 65535u32 * 65535);
    let (hit, dodged) = battle.resolve_step(&attacker, &defender);
    assert!(!dodged);
    assert_eq!(hit.energy, 0);
}

#[test]
fn shielded_defender_takes_no_damage() {
    let battle = Battle::new(ActorId::new([9; 32]));
    let mut attacker = player(1, 2, 100, 5000, DirectionOfMovement::Left);
    attacker.attributes.round_1 = Some(RPG_ID);
    let mut defender = player(3, 4, 100, 60, DirectionOfMovement::Left);
    defender.attributes.round_1 = Some(SHIELD_ID);
    let (hit, dodged) = battle.resolve_step(&attacker, &defender);
    assert!(!dodged);
    assert_eq!(hit.energy, 100);

    defender.attributes.round_1 = None;
    attacker.power = 30;
    let (hit, _) = battle.resolve_step(&attacker, &defender);
    // 30 times 10 is 300, more than the 100 left.
    assert_eq!(hit.energy, 0);
}

#[test]
fn weapon_in_next_slot_is_used_by_move() {
    let mut battle = battle_in_moves(
        player(1, 2, 100, 20, DirectionOfMovement::Left),
        player(3, 4, 1000, 60, DirectionOfMovement::Left),
    );
    battle.players[0].attributes = AttributesPerRound { round_1: None, round_2: Some(SWORD_ID), round_3: None };
    battle.execute_move(ActorId::new([1; 32]), DirectionOfMovement::Left).unwrap();
    assert_eq!(battle.players[1].energy, 1000 - 40);
}

#[test]
fn new_attributes_only_while_waiting_and_from_owners() {
    let mut battle = battle_in_moves(
        player(1, 2, 100, 50, DirectionOfMovement::Left),
        player(3, 4, 80, 60, DirectionOfMovement::Left),
    );
    let attrs = AttributesPerRound { round_1: Some(SHIELD_ID), round_2: Some(RPG_ID), round_3: None };
    assert_eq!(
        battle.update_tamagotchi_attributes(ActorId::new([3; 32]), attrs),
        Err(BattleError::InvalidState)
    );
    battle.state = BattleState::Waiting;
    assert_eq!(
        battle.update_tamagotchi_attributes(ActorId::new([8; 32]), attrs),
        Err(BattleError::Unauthorized)
    );
    assert_eq!(
        battle.update_tamagotchi_attributes(ActorId::new([3; 32]), attrs),
        Ok(BattleEvent::AttributesUpdated)
    );
    assert_eq!(battle.players[1].attributes, attrs);
    assert_eq!(battle.players[0].attributes, AttributesPerRound::default());
    assert_eq!(battle.state, BattleState::Waiting);
}

#[test]
fn wake_up_only_from_the_engine_itself() {
    let me = ActorId::new([42; 32]);
    let mut battle = battle_in_moves(
        player(1, 2, 100, 50, DirectionOfMovement::Left),
        player(3, 4, 80, 60, DirectionOfMovement::Left),
    );
    assert_eq!(
        battle.update_game_info(me, me, &entropy(1, 0)).unwrap_err(),
        BattleError::InvalidState
    );
    battle.state = BattleState::Waiting;
    assert_eq!(
        battle.update_game_info(ActorId::new([1; 32]), me, &entropy(1, 0)).unwrap_err(),
        BattleError::Unauthorized
    );
    assert_eq!(battle.state, BattleState::Waiting);
    let out = battle.update_game_info(me, me, &entropy(1, 0)).unwrap();
    assert_eq!(battle.state, BattleState::Moves);
    assert_eq!(battle.current_turn, 1);
    assert_eq!(out.reply, None);
    assert_eq!(
        out.notifications,
        vec![
            Notification { to: ActorId::new([1; 32]), event: BattleEvent::InfoUpdated },
            Notification { to: ActorId::new([3; 32]), event: BattleEvent::InfoUpdated },
        ]
    );
}

#[test]
fn restart_only_after_game_over() {
    let mut battle = battle_in_moves(
        player(1, 2, 100, 50, DirectionOfMovement::Left),
        player(3, 4, 10, 60, DirectionOfMovement::Left),
    );
    battle.initiate_reservation(ReservationId([5; 32]));
    assert_eq!(battle.reset_game(), Err(BattleError::InvalidState));
    assert_eq!(battle.state, BattleState::Moves);
    battle.execute_move(ActorId::new([1; 32]), DirectionOfMovement::Left).unwrap();
    assert_eq!(battle.state, BattleState::GameIsOver);
    assert_eq!(battle.reset_game(), Ok(BattleEvent::ContractReinstated));
    assert_eq!(battle.state, BattleState::Registration);
    assert!(battle.players.is_empty());
    assert_eq!(battle.reservations, vec![ReservationId([5; 32])]);
    assert_eq!(battle.shields_data.get(&SHIELD_ID), Some(&SHIELD));
    register(&mut battle, 1, 2, entropy(0, 0)).unwrap();
    assert_eq!(battle.players.len(), 1);
}

#[test]
fn reservations_are_kept_in_any_state() {
    let mut battle = Battle::default();
    battle.initiate_reservation(ReservationId([1; 32]));
    assert_eq!(battle.state, BattleState::Registration);
    assert_eq!(battle.reservations.len(), 1);
    assert!(matches!(battle.initiate_registration(&ActorId::new([1; 32]), AttributesPerRound::default()), Ok(_)));
}
