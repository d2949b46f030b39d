use newomega::arith::{distance_between, drained, shifted};
use newomega::damage::damage;
use newomega::engine::NewOmega;
use newomega::fitting::{fitted_attack, fitted_defence, DEFENSIVE, NEUTRAL, OFFENSIVE};
use newomega::game_engine::GameEngineLibrary;
use newomega::outcome::{any_fielded, count_losses, count_units_lost, fleet_dead};
use newomega::moves::{log_move, log_shoot, Move, REPOSITION, SHOOT};
use newomega::ship::{prepare_ships, usable, Ship, FIT_TO_STAT, MAX_ROUNDS, MAX_SHIPS};
use newomega::targeting::select_target;

fn ship(hp: u16, attack_base: u16, defence: u16, speed: u8, range: u8) -> Ship {
    Ship { cp: 1, hp, attack_base, attack_variable: 20, defence, speed, range }
}

#[test]
fn the_stock_catalog_is_as_published() {
    let ships = prepare_ships();
    assert_eq!(MAX_SHIPS, 4);
    assert_eq!(MAX_ROUNDS, 50);
    assert_eq!(FIT_TO_STAT, 20);
    assert_eq!(ships.len(), 4);
    assert_eq!(
        ships[0],
        Ship { cp: 1, hp: 120, attack_base: 80, attack_variable: 20, defence: 20, speed: 4, range: 4 }
    );
    assert_eq!(
        ships[1],
        Ship { cp: 3, hp: 150, attack_base: 65, attack_variable: 20, defence: 30, speed: 3, range: 8 }
    );
    assert_eq!(
        ships[2],
        Ship { cp: 4, hp: 220, attack_base: 65, attack_variable: 20, defence: 35, speed: 2, range: 15 }
    );
    assert_eq!(
        ships[3],
        Ship { cp: 10, hp: 450, attack_base: 80, attack_variable: 20, defence: 40, speed: 1, range: 30 }
    );
}

#[test]
fn fittings_shift_stats_by_the_constant() {
    assert_eq!(fitted_attack(80, NEUTRAL), 80);
    assert_eq!(fitted_attack(80, DEFENSIVE), 60);
    assert_eq!(fitted_attack(80, OFFENSIVE), 100);
    assert_eq!(fitted_defence(40, NEUTRAL), 40);
    assert_eq!(fitted_defence(40, DEFENSIVE), 60);
    assert_eq!(fitted_defence(40, OFFENSIVE), 20);
}

#[test]
fn an_unknown_fitting_gives_no_stat() {
    assert_eq!(fitted_attack(80, 3), 0);
    assert_eq!(fitted_defence(40, 255), 0);
}

#[test]
fn a_fitted_stat_may_leave_the_width_of_a_stat() {
    assert_eq!(fitted_attack(5, DEFENSIVE), -15);
    assert_eq!(fitted_defence(5, OFFENSIVE), -15);
    assert_eq!(fitted_attack(65530, OFFENSIVE), 65550);
    assert_eq!(fitted_defence(65535, DEFENSIVE), 65555);
    assert_eq!(fitted_attack(20, DEFENSIVE), 0);
    assert_eq!(fitted_defence(65515, DEFENSIVE), 65535);
}

#[test]
fn the_engines_agree_on_stats_and_extremes() {
    let by_vector = NewOmega::new();
    let by_array = GameEngineLibrary::new();
    assert_eq!(by_vector.get_attack_stat(65, 1), 45);
    assert_eq!(by_vector.get_defence_stat(65, 1), 85);
    assert_eq!(by_array.getAttackStat(65, 2), 85);
    assert_eq!(by_array.getDefenceStat(65, 2), 45);
    assert_eq!(by_vector.min(3, -4), -4);
    assert_eq!(by_vector.max(3, -4), 3);
    assert_eq!(by_array.min(7, 7), 7);
    assert_eq!(by_array.max(i32::MIN, i32::MAX), i32::MAX);
    assert!(!by_array.isDead([20, -20, 0, 0]));
    assert!(by_array.isDead([-100, -20, 0, 0]));
    assert!(by_array.isDead([0, 0, 0, 0]));
    assert!(!by_vector.is_dead([0, 0, 0, 1]));
}

#[test]
fn a_slot_that_leaves_the_board_comes_back_at_the_other_end() {
    assert_eq!(shifted(10, 4, true), 6);
    assert_eq!(shifted(-10, 4, false), -6);
    assert_eq!(shifted(-126, 4, true), 126);
    assert_eq!(shifted(126, 4, false), -126);
    assert_eq!(shifted(0, 255, true), 1);
    assert_eq!(shifted(0, 128, false), -128);
}

#[test]
fn distance_is_that_of_the_coordinates() {
    assert_eq!(distance_between(10, -13), 23);
    assert_eq!(distance_between(-13, 10), 23);
    assert_eq!(distance_between(7, 7), 0);
    assert_eq!(distance_between(127, -128), 255);
    assert_eq!(distance_between(-128, 0), 128);
    assert_eq!(distance_between(100, -100), 200);
}

#[test]
fn a_pool_falls_by_the_damage_down_to_its_floor() {
    assert_eq!(drained(100, 160), -60);
    assert_eq!(drained(100, 0), 100);
    assert_eq!(drained(-2_147_483_000, 600), -2_147_483_600);
    assert_eq!(drained(i32::MIN, 1), i32::MIN);
    assert_eq!(drained(0, u32::MAX), i32::MIN);
    assert_eq!(drained(i32::MAX, u32::MAX), i32::MIN);
}

#[test]
fn the_highest_slot_within_reach_is_engaged() {
    let ships = prepare_ships();
    let own: [i8; 4] = [10, 11, 12, 13];
    let enemy: [i8; 4] = [-10, -11, -12, -13];
    assert_eq!(select_target(&ships, 3, &own, &enemy, &[1, 1, 1, 1]), Some((3, 0)));
    assert_eq!(select_target(&ships, 0, &own, &enemy, &[1, 1, 1, 1]), None);
    assert_eq!(select_target(&ships, 2, &own, &[-10, -5, -3, -13], &[1, 1, 1, 1]), Some((2, 0)));
    assert_eq!(select_target(&ships, 2, &own, &[-10, -11, -3, -13], &[1, 1, 1, 1]), Some((2, 0)));
}

#[test]
fn the_advance_brings_the_target_into_range() {
    let ships = prepare_ships();
    let own: [i8; 4] = [2, 11, 12, 13];
    assert_eq!(select_target(&ships, 0, &own, &[-10, -5, -4, -13], &[1, 1, 1, 1]), Some((2, 2)));
    assert_eq!(select_target(&ships, 0, &own, &[-10, -5, -2, -13], &[1, 1, 1, 1]), Some((2, 0)));
    assert_eq!(select_target(&ships, 0, &own, &[-10, -5, -6, -13], &[1, 1, 1, 1]), Some((2, 4)));
    assert_eq!(select_target(&ships, 0, &own, &[-10, -5, -7, -13], &[1, 1, 1, 1]), Some((1, 3)));
}

#[test]
fn a_slot_engages_only_while_its_counterpart_is_alive() {
    let ships = prepare_ships();
    let own: [i8; 4] = [10, 11, 12, 13];
    let enemy: [i8; 4] = [-10, -11, -12, -13];
    // The target slot 3 is alive, the counterpart of the acting slot is not.
    assert_eq!(select_target(&ships, 3, &own, &enemy, &[1, 1, 1, 0]), None);
    // The target slot 3 is destroyed, the counterpart of the acting slot alive.
    assert_eq!(select_target(&ships, 2, &[10, 11, 2, 13], &enemy, &[1, 1, 1, -5]), Some((3, 0)));
    assert_eq!(select_target(&ships, 3, &own, &enemy, &[0, 0, 0, 1]), Some((3, 0)));
}

#[test]
fn the_engines_report_targets_alike() {
    let ships = prepare_ships();
    let catalog: [Ship; MAX_SHIPS] = [ships[0], ships[1], ships[2], ships[3]];
    let own: [i8; 4] = [2, 11, 12, 13];
    let enemy: [i8; 4] = [-10, -5, -4, -13];
    let by_vector = NewOmega::new();
    let by_array = GameEngineLibrary::new();
    assert_eq!(by_vector.get_target(&ships, 0, own, enemy, [1, 1, 1, 1]), (true, 2, 2));
    assert_eq!(by_array.getTarget(&catalog, 0, own, enemy, [1, 1, 1, 1]), (true, 2, 2));
    assert_eq!(by_vector.get_target(&ships, 0, own, enemy, [0, 1, 1, 1]), (false, 4, 0));
    assert_eq!(by_array.getTarget(&catalog, 0, own, enemy, [0, 1, 1, 1]), (false, 4, 0));
}

#[test]
fn reach_is_range_and_speed_together() {
    let far = vec![ship(100, 10, 0, 200, 100), ship(1, 1, 1, 1, 1)];
    assert_eq!(select_target(&far, 0, &[0; 4], &[45, 45, 45, 45], &[1; 4]), Some((3, 0)));
    assert_eq!(select_target(&far, 0, &[0; 4], &[127, 127, -128, 127], &[1; 4]), Some((3, 27)));
    assert_eq!(select_target(&far, 0, &[100, 0, 0, 0], &[-128; 4], &[1; 4]), Some((3, 128)));
    let near = vec![ship(100, 10, 0, 100, 100)];
    assert_eq!(select_target(&near, 0, &[100, 0, 0, 0], &[-100, -101, -102, -103], &[1; 4]), Some((0, 100)));
    assert_eq!(select_target(&near, 0, &[100, 0, 0, 0], &[-101; 4], &[1; 4]), None);
    let ships = prepare_ships();
    assert_eq!(select_target(&ships, 0, &[127, 0, 0, 0], &[-128; 4], &[1; 4]), None);
}

#[test]
fn damage_is_margin_times_stack_under_the_cap() {
    let ships = prepare_ships();
    let none: [u16; 4] = [0; 4];
    let neutral: [u8; 4] = [0; 4];
    assert_eq!(damage(&none, &neutral, &neutral, &ships, 2, 0, 1), 45);
    assert_eq!(damage(&none, &neutral, &neutral, &ships, 0, 1, 120), 100);
    assert_eq!(damage(&[17; 4], &[2; 4], &[1; 4], &ships, 3, 1, 4500), 737);
    assert_eq!(damage(&[5, 0, 0, 0], &[3, 0, 0, 0], &[0, 3, 0, 0], &ships, 0, 1, 120), 10);
}

#[test]
fn damage_is_held_to_what_the_target_stack_absorbs() {
    let ships = prepare_ships();
    let none: [u16; 4] = [0; 4];
    let neutral: [u8; 4] = [0; 4];
    assert_eq!(damage(&none, &neutral, &[0, 3, 0, 0], &ships, 0, 1, 120), 160);
    assert_eq!(damage(&none, &neutral, &[0, 3, 0, 0], &ships, 0, 1, 1200), 880);
    assert_eq!(damage(&none, &neutral, &neutral, &ships, 3, 0, 450), 120);
}

#[test]
fn a_hard_counter_deals_half_the_square_of_the_damage() {
    let ships = prepare_ships();
    let none: [u16; 4] = [0; 4];
    let neutral: [u8; 4] = [0; 4];
    // Margin 1: a stack of three deals 3 * 3 / 2, a stack of two 2 * 2 / 2.
    let weak = vec![ships[0], ship(150, 21, 30, 3, 8), ships[2], ships[3]];
    assert_eq!(damage(&none, &neutral, &neutral, &weak, 1, 0, 300), 4);
    assert_eq!(damage(&none, &neutral, &neutral, &weak, 1, 0, 150), 2);
    // Margin 3 on its own: 3 * 3 / 2 under a cap of 100.
    let odd = Ship {
        cp: 1,
        hp: 100,
        attack_base: 23,
        attack_variable: 1,
        defence: 20,
        speed: 1,
        range: 1,
    };
    assert_eq!(damage(&none, &neutral, &neutral, &[odd, odd, odd, odd], 1, 0, 0), 4);
    // With the stock catalog the bonus always runs into the cap.
    assert_eq!(damage(&none, &neutral, &neutral, &ships, 1, 0, 150), 240);
    assert_eq!(damage(&none, &neutral, &neutral, &ships, 0, 3, 120), 900);
    assert_eq!(damage(&none, &neutral, &neutral, &ships, 2, 1, 220), 300);
    assert_eq!(damage(&none, &neutral, &neutral, &ships, 2, 1, 1), 150);
    assert_eq!(damage(&none, &neutral, &neutral, &ships, 3, 2, 450), 440);
}

#[test]
fn an_attack_that_is_not_above_the_defence_deals_nothing() {
    let ships = prepare_ships();
    let none: [u16; 4] = [0; 4];
    // Attack 45 against defence 60.
    assert_eq!(damage(&none, &[0, 1, 0, 0], &[0, 0, 0, 1], &ships, 1, 3, 150), 0);
    // Attack and defence level, off and on a hard counter.
    let level = vec![ship(100, 50, 50, 1, 1), ship(100, 50, 50, 1, 1)];
    assert_eq!(damage(&none, &[0; 4], &[0; 4], &level, 0, 1, 1000), 0);
    assert_eq!(damage(&none, &[0; 4], &[0; 4], &level, 1, 0, 1000), 0);
    // Attack 30 against defence 50 on a hard counter.
    assert_eq!(damage(&none, &[0, 1, 0, 0], &[0; 4], &level, 1, 0, 1000), 0);
    // An unknown fitting leaves the bonus alone as the attack.
    assert_eq!(damage(&[5, 0, 0, 0], &[3, 0, 0, 0], &[0; 4], &ships, 0, 1, 120), 0);
    // A defensive fitting takes a base attack of 5 below nothing.
    let meek = vec![ship(100, 5, 0, 1, 1), ship(100, 65530, 30, 1, 1)];
    assert_eq!(damage(&none, &[1, 0, 0, 0], &[0; 4], &meek, 0, 1, 100), 0);
}

#[test]
fn stats_beyond_their_width_still_count_in_full() {
    let meek = ship(100, 5, 0, 1, 1);
    let fierce = ship(100, 65530, 30, 1, 1);
    let ships = vec![meek, fierce, meek, fierce];
    let none: [u16; 4] = [0; 4];
    // Attack 65550 against defence 0, and attack 65530 against defence -20.
    assert_eq!(damage(&none, &[0, 2, 0, 0], &[0; 4], &ships, 1, 2, 100), 200);
    assert_eq!(damage(&none, &[0; 4], &[2, 0, 0, 0], &ships, 3, 0, 100), 200);
    // The largest margin and stack there are, on a hard counter.
    assert_eq!(
        damage(&[65535; 4], &[0, 2, 0, 0], &[2, 0, 0, 0], &ships, 1, 0, 100 * 65534),
        6553500
    );
}

#[test]
fn damage_of_any_size_is_held_to_the_cap() {
    let giant = Ship {
        cp: 1,
        hp: 1,
        attack_base: 65535,
        attack_variable: 1,
        defence: 0,
        speed: 0,
        range: 200,
    };
    let wall = Ship { hp: 65535, ..giant };
    let ships = vec![giant, wall, giant, giant];
    let none: [u16; 4] = [0; 4];
    let neutral: [u8; 4] = [0; 4];
    assert_eq!(damage(&none, &neutral, &neutral, &ships, 0, 1, 40000), 2621465535);
    assert_eq!(damage(&none, &neutral, &neutral, &ships, 0, 1, 65533), 4294770690);
    // Margin 256 and a stack of 256 on a hard counter: half the square of
    // the damage is 2^31, the cap 256 units of the target.
    let keen = Ship { hp: 100, attack_base: 256, ..giant };
    let broad = Ship { hp: 65535, attack_base: 256, ..giant };
    let ships = vec![keen, broad, giant, broad];
    assert_eq!(damage(&none, &neutral, &neutral, &ships, 0, 3, 25500), 16776960);
    assert_eq!(damage(&none, &neutral, &neutral, &ships, 1, 0, 255 * 65535), 25600);
}

#[test]
fn the_engines_deal_the_same_damage() {
    let ships = prepare_ships();
    let catalog: [Ship; MAX_SHIPS] = [ships[0], ships[1], ships[2], ships[3]];
    let by_array = GameEngineLibrary::new();
    assert_eq!(
        by_array.calculateDamage([0, 1, 2, 3], [0, 1, 2, 0], [2, 0, 1, 1], &catalog, 0, 0, 120),
        160
    );
    assert_eq!(
        NewOmega::new().calculate_damage([0; 4], [0, 1, 0, 0], [0, 0, 0, 1], &ships, 1, 3, 150),
        0
    );
}

#[test]
fn losses_are_counted_in_whole_units() {
    let ships = prepare_ships();
    assert_eq!(count_units_lost(ships[0], 10, 1200), 0);
    assert_eq!(count_units_lost(ships[0], 10, 1199), 0);
    assert_eq!(count_units_lost(ships[0], 10, 1080), 1);
    assert_eq!(count_units_lost(ships[0], 10, 480), 6);
    assert_eq!(count_units_lost(ships[0], 10, 1), 9);
    assert_eq!(count_units_lost(ships[0], 10, 0), 10);
    assert_eq!(count_units_lost(ships[0], 10, -5000), 10);
    assert_eq!(count_losses(&ships, &[10, 10, 10, 10], &[480, 366, 2200, 3476]), [6, 7, 0, 2]);
    assert!(fleet_dead(&[0, -1, 0, i32::MIN]));
    assert!(!fleet_dead(&[0, 0, 1, 0]));
    assert!(any_fielded(&[0, 0, 0, 1]));
    assert!(!any_fielded(&[0, 0, 0, 0]));
}

#[test]
fn a_catalog_is_usable_when_its_slots_can_be_divided_by() {
    let ships = prepare_ships();
    assert!(usable(&ships));
    assert!(!usable(&ships[..3]));
    assert!(!usable(&[]));
    let mut without_hit_points = prepare_ships();
    without_hit_points[2].hp = 0;
    assert!(!usable(&without_hit_points));
    let mut without_variability = prepare_ships();
    without_variability[3].attack_variable = 0;
    assert!(!usable(&without_variability));
    let mut with_a_spare = prepare_ships();
    with_a_spare.push(Ship { hp: 0, attack_variable: 0, ..ships[0] });
    assert!(usable(&with_a_spare));
}

#[test]
fn moves_are_logged_in_the_order_made() {
    let mut moves: Vec<Move> = Vec::new();
    log_move(0, &mut moves, 2, -7);
    log_shoot(1, &mut moves, 2, 3, 440, -9);
    NewOmega::new().log_move(2, &mut moves, 1, 5);
    NewOmega::new().log_shoot(3, &mut moves, 0, 1, 7, 6);
    let mut number: u16 = 9;
    GameEngineLibrary::new().logMove(&mut number, 4, &mut moves, 3, 8);
    GameEngineLibrary::new().logShoot(&mut number, 5, &mut moves, 3, 2, 1, 9);
    assert_eq!(number, 9);
    assert_eq!(
        moves,
        vec![
            Move { move_type: REPOSITION, round: 0, source: 2, target: 0, target_position: -7, damage: 0 },
            Move { move_type: SHOOT, round: 1, source: 2, target: 3, target_position: -9, damage: 440 },
            Move { move_type: REPOSITION, round: 2, source: 1, target: 0, target_position: 5, damage: 0 },
            Move { move_type: SHOOT, round: 3, source: 0, target: 1, target_position: 6, damage: 7 },
            Move { move_type: REPOSITION, round: 4, source: 3, target: 0, target_position: 8, damage: 0 },
            Move { move_type: SHOOT, round: 5, source: 3, target: 2, target_position: 9, damage: 1 },
        ]
    );
    assert_eq!(SHOOT, 1);
    assert_eq!(REPOSITION, 2);
}
