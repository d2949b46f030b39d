use newomega::{prepare_ships, GameEngineLibrary, NewOmega, Ship, MAX_SHIPS};

#[test]
fn test_fight_end_to_end() {
    let contract = NewOmega::default();
    let ships: Vec<Ship> = prepare_ships();
    let seed: u64 = 1337;
    let log_moves: bool = true;
    let selection_lhs: [u8; MAX_SHIPS] = [10, 10, 10, 10];
    let selection_rhs: [u8; MAX_SHIPS] = [5, 5, 5, 5];
    let variants_lhs: [u8; MAX_SHIPS] = [0, 1, 2, 0];
    let variants_rhs: [u8; MAX_SHIPS] = [1, 0, 1, 2];
    let commander_lhs: u8 = 0;
    let commander_rhs: u8 = 1;

    let (result, _moves_lhs, _moves_rhs) = contract.fight(
        seed,
        log_moves,
        ships,
        selection_lhs,
        selection_rhs,
        variants_lhs,
        variants_rhs,
        commander_lhs,
        commander_rhs,
    );

    assert!(result.rhs_dead);
}

#[test]
fn test_damage_calculation() {
    let contract = NewOmega::default();
    let ships: Vec<Ship> = prepare_ships();
    let variants_source: [u8; MAX_SHIPS] = [0, 1, 2, 0];
    let variants_target: [u8; MAX_SHIPS] = [2, 0, 1, 1];
    let variables: [u16; MAX_SHIPS] = [0, 1, 2, 3];
    let source: u8 = 0;
    let target: u8 = 0;
    let source_hp: u32 = ships[source as usize].hp as u32;
    let damage: u32 = contract.calculate_damage(
        variables,
        variants_source,
        variants_target,
        &ships,
        source,
        target,
        source_hp,
    );

    assert_eq!(damage, 160);
}

#[test]
fn test_isdead() {
    let contract = NewOmega::default();
    let alive_ship_hps: [i32; MAX_SHIPS] = [20, -20, 0, 0];
    let is_dead_first: bool = contract.is_dead(alive_ship_hps);

    assert_eq!(is_dead_first, false);

    let dead_ship_hps: [i32; MAX_SHIPS] = [-100, -20, 0, 0];
    let is_dead_second: bool = contract.is_dead(dead_ship_hps);

    assert_eq!(is_dead_second, true);
}

#[test]
fn it_works() {
    let _contract = GameEngineLibrary::new();
}

#[test]
fn an_engine_is_a_value_without_state() {
    assert_eq!(GameEngineLibrary::new(), GameEngineLibrary::default());
    assert_eq!(NewOmega::new(), NewOmega::default());
}
