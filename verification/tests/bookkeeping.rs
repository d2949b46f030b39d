use newomega::engine::NewOmega;
use newomega::game::NewOmegaGame;
use newomega::ledger::{
    add_commander_xp, authorised, ensure_player, get_commanders,
    mark_ranked_loss, mark_ranked_win, same_account, CommanderData, PlayerData,
};
use newomega::ranked::{attack, settle, PlayerDefence, Settlement, Winner, XP_PER_RANKED_WIN};
use newomega::rewarder::{
    buy_loot_crate, dice_roll, pays_for_crate, pick_commander, LOOT_CRATE_PRICE, MAX_COMMANDERS,
    XP_PER_LOOT_CRATE,
};
use newomega::ship::{prepare_ships, Ship};
use newomega::simulator::fight;
use newomega::withdraw::{
    admin_withdraw_funds, check_funds, report_fault, RewardWithdrawError, TransferFault,
};

fn account(tag: u8) -> [u8; 32] {
    let mut bytes = [0u8; 32];
    bytes[31] = tag;
    bytes
}

#[test]
fn the_die_is_the_remainder_of_the_seed() {
    assert_eq!(dice_roll(0, 100), 0);
    assert_eq!(dice_roll(1337, 100), 37);
    assert_eq!(dice_roll(u64::MAX, 100), 15);
    assert_eq!(dice_roll(5, 1), 0);
    assert_eq!(dice_roll(511, 255), 1);
}

#[test]
fn each_commander_has_half_of_what_the_lower_ones_left() {
    assert_eq!(pick_commander(0), 0);
    assert_eq!(pick_commander(74), 0);
    assert_eq!(pick_commander(75), 1);
    assert_eq!(pick_commander(86), 1);
    assert_eq!(pick_commander(87), 2);
    assert_eq!(pick_commander(92), 2);
    assert_eq!(pick_commander(93), 3);
    assert_eq!(pick_commander(95), 3);
}

#[test]
fn a_roll_outside_every_window_yields_the_lowest_commander() {
    assert_eq!(pick_commander(96), 0);
    assert_eq!(pick_commander(99), 0);
    assert_eq!(pick_commander(255), 0);
}

#[test]
fn a_loot_crate_yields_a_commander_and_experience() {
    assert_eq!(MAX_COMMANDERS, 4);
    assert_eq!(buy_loot_crate(1337), (0, XP_PER_LOOT_CRATE));
    assert_eq!(buy_loot_crate(1380), (1, 10));
    assert_eq!(buy_loot_crate(90), (2, 10));
    assert_eq!(buy_loot_crate(200_095), (3, 10));
    assert_eq!(buy_loot_crate(99), (0, 10));
    assert!(pays_for_crate(LOOT_CRATE_PRICE));
    assert!(pays_for_crate(7));
    assert!(!pays_for_crate(0));
}

#[test]
fn ranked_marking_by_entry() {
    let alice: PlayerData = mark_ranked_win(None);
    let bob: PlayerData = mark_ranked_loss(None);
    assert_eq!(alice.ranked_wins, 1);
    assert_eq!(alice.ranked_losses, 0);
    assert_eq!(bob.ranked_wins, 0);
    assert_eq!(bob.ranked_losses, 1);
    let again: PlayerData = mark_ranked_loss(Some(mark_ranked_win(Some(alice))));
    assert_eq!(again, PlayerData { ranked_wins: 2, ranked_losses: 1 });
    assert_eq!(ensure_player(None), PlayerData::default());
    assert_eq!(ensure_player(Some(again)), again);
    assert_eq!(PlayerData::default(), PlayerData { ranked_wins: 0, ranked_losses: 0 });
}

#[test]
fn commanders_listed_by_owner() {
    let alice = account(1);
    let bob = account(2);
    let eve = account(5);
    let entries = vec![
        (alice, 0u8, add_commander_xp(None, 100)),
        (bob, 1u8, add_commander_xp(None, 50)),
    ];
    let commanders_alice = get_commanders(&entries, &alice);
    let commanders_bob = get_commanders(&entries, &bob);
    let commanders_eve = get_commanders(&entries, &eve);
    assert_eq!(commanders_alice.len(), 1);
    assert_eq!(commanders_bob.len(), 1);
    assert_eq!(commanders_eve.len(), 0);
    assert_eq!(commanders_alice[0], (0, CommanderData { xp: 100 }));
    assert_eq!(commanders_bob[0], (1, CommanderData { xp: 50 }));
}

#[test]
fn commanders_keep_the_order_of_the_entries() {
    let alice = account(1);
    let bob = account(2);
    let entries = vec![
        (alice, 3u8, CommanderData { xp: 1 }),
        (bob, 0u8, CommanderData { xp: 2 }),
        (alice, 0u8, CommanderData { xp: 3 }),
        (alice, 2u8, CommanderData { xp: 4 }),
    ];
    assert_eq!(
        get_commanders(&entries, &alice),
        vec![
            (3, CommanderData { xp: 1 }),
            (0, CommanderData { xp: 3 }),
            (2, CommanderData { xp: 4 }),
        ]
    );
    assert_eq!(get_commanders(&Vec::new(), &alice), Vec::new());
}

#[test]
fn experience_adds_up() {
    assert_eq!(CommanderData::default(), CommanderData { xp: 0 });
    let first = add_commander_xp(None, 10);
    let second = add_commander_xp(Some(first), 1);
    assert_eq!(second.xp, 11);
    assert_eq!(add_commander_xp(Some(second), u32::MAX - 11).xp, u32::MAX);
}

#[test]
fn only_owners_are_authorised() {
    let alice = account(1);
    let bob = account(2);
    let mut last_byte_only = account(1);
    last_byte_only[0] = 9;
    assert!(same_account(&alice, &account(1)));
    assert!(!same_account(&alice, &bob));
    assert!(!same_account(&alice, &last_byte_only));
    let owners = vec![alice, bob];
    assert!(authorised(&owners, &alice));
    assert!(authorised(&owners, &bob));
    assert!(!authorised(&owners, &account(3)));
    assert!(!authorised(&Vec::new(), &alice));
}

fn result_with(lhs_dead: bool, rhs_dead: bool) -> newomega::outcome::FightResult {
    let (mut result, _, _) =
        fight(0, false, &prepare_ships(), [0; 4], [0; 4], [0; 4], [0; 4], 7, 9);
    result.lhs_dead = lhs_dead;
    result.rhs_dead = rhs_dead;
    result
}

#[test]
fn the_survivor_wins_a_ranked_fight() {
    assert_eq!(
        settle(&result_with(true, false)),
        Settlement { winner: Winner::Defender, commander: 9, xp: XP_PER_RANKED_WIN }
    );
    assert_eq!(
        settle(&result_with(false, true)),
        Settlement { winner: Winner::Attacker, commander: 7, xp: 1 }
    );
    assert_eq!(
        settle(&result_with(true, true)),
        Settlement { winner: Winner::Defender, commander: 9, xp: 1 }
    );
    assert_eq!(
        settle(&result_with(false, false)),
        Settlement { winner: Winner::Nobody, commander: 0, xp: 0 }
    );
}

#[test]
fn a_ranked_attack_fights_the_registered_defence() {
    let ships = prepare_ships();
    let defence = PlayerDefence {
        selection: [5, 5, 5, 5],
        variants: [1, 0, 1, 2],
        commander: 1,
        name: String::from("bob"),
    };
    let (result, settlement) = attack(1337, &ships, [10, 10, 10, 10], [0, 1, 2, 0], 0, &defence);
    let (expected, _, _) = fight(
        1337,
        false,
        &ships,
        [10, 10, 10, 10],
        [5, 5, 5, 5],
        [0, 1, 2, 0],
        [1, 0, 1, 2],
        0,
        1,
    );
    assert_eq!(result, expected);
    assert_eq!(settlement, Settlement { winner: Winner::Attacker, commander: 0, xp: 1 });
    let (lost, lost_settlement) = attack(60, &ships, [3, 0, 0, 0], [0; 4], 4, &PlayerDefence {
        selection: [3, 0, 0, 0],
        variants: [0; 4],
        commander: 2,
        name: String::new(),
    });
    assert!(lost.lhs_dead);
    assert_eq!(lost_settlement, Settlement { winner: Winner::Defender, commander: 2, xp: 1 });
}

#[test]
fn a_withdrawal_beyond_the_balance_is_refused() {
    assert_eq!(check_funds(0, 0), Ok(()));
    assert_eq!(check_funds(10, 10), Ok(()));
    assert_eq!(check_funds(11, 10), Err(RewardWithdrawError::InsufficientFunds));
    assert_eq!(check_funds(u128::MAX, 0), Err(RewardWithdrawError::InsufficientFunds));
}

#[test]
fn a_refused_withdrawal_transfers_nothing() {
    let mut sent: Vec<u128> = Vec::new();
    let refused = admin_withdraw_funds(11, 10, |value| {
        sent.push(value);
        Ok(())
    });
    assert_eq!(refused, Err(RewardWithdrawError::InsufficientFunds));
    assert_eq!(sent, Vec::new());
    let also_refused =
        admin_withdraw_funds(1, 0, |_| Err(ink_env::Error::BelowSubsistenceThreshold));
    assert_eq!(also_refused, Err(RewardWithdrawError::InsufficientFunds));
}

#[test]
fn a_withdrawal_within_the_balance_transfers_the_value_once() {
    let mut sent: Vec<u128> = Vec::new();
    let withdrawn = admin_withdraw_funds(10, 10, |value| {
        sent.push(value);
        Ok(())
    });
    assert_eq!(withdrawn, Ok(()));
    assert_eq!(sent, vec![10]);
    assert_eq!(admin_withdraw_funds(0, 0, |_| Ok(())), Ok(()));
}

#[test]
fn a_failed_transfer_is_reported_by_its_kind() {
    assert_eq!(
        admin_withdraw_funds(5, 10, |_| Err(ink_env::Error::BelowSubsistenceThreshold)),
        Err(RewardWithdrawError::BelowSubsistenceThreshold)
    );
    assert_eq!(
        admin_withdraw_funds(5, 10, |_| Err(ink_env::Error::TransferFailed)),
        Err(RewardWithdrawError::TransferFailed)
    );
    assert_eq!(
        admin_withdraw_funds(5, 10, |_| Err(ink_env::Error::CodeNotFound)),
        Err(RewardWithdrawError::TransferFailed)
    );
    assert_eq!(
        report_fault(TransferFault::BelowSubsistenceThreshold),
        RewardWithdrawError::BelowSubsistenceThreshold
    );
    assert_eq!(report_fault(TransferFault::Other), RewardWithdrawError::TransferFailed);
}

#[test]
fn a_game_fights_with_its_catalog() {
    let mut game = NewOmegaGame::new(NewOmega::new());
    assert_eq!(game.get_ships(), prepare_ships());
    game.add_ship(20, 1000, 90, 20, 50, 1, 40);
    let ships = game.get_ships();
    assert_eq!(ships.len(), 5);
    assert_eq!(
        ships[4],
        Ship {
            cp: 20,
            hp: 1000,
            attack_base: 90,
            attack_variable: 20,
            defence: 50,
            speed: 1,
            range: 40,
        }
    );
    let fought = game.fight(1337, true, [10, 10, 10, 10], [5, 5, 5, 5], [0, 1, 2, 0], [1, 0, 1, 2], 0, 1);
    let expected = fight(
        1337,
        true,
        &prepare_ships(),
        [10, 10, 10, 10],
        [5, 5, 5, 5],
        [0, 1, 2, 0],
        [1, 0, 1, 2],
        0,
        1,
    );
    assert_eq!(fought, expected);
}
