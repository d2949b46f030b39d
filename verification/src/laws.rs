//! What holds of every battle.

use vstd::prelude::*;
use crate::battle::{
    after_hit, after_moving, battle_of, battle_shaped, fleet_shaped, lemma_slots_keep_round,
    opening, over, plan, played_out, round_step, slot_step, slots_step, Action, BattleView,
    FleetView,
};
use crate::moves::Move;
use crate::outcome::{fielded_any, outcome_of, pools_dead, FightResult};
use crate::ship::{Ship, MAX_ROUNDS, MAX_SHIPS};
use crate::simulator::fought;
use crate::targeting::lemma_highest_viable;

verus! {

/// A battle is a function of its inputs: two results of a fight on the same
/// arguments are the same result, and their logs hold the same moves in the
/// same order.
pub proof fn lemma_fight_deterministic(
    seed: u64,
    log_moves: bool,
    ships: Seq<Ship>,
    selection_lhs: Seq<u8>,
    selection_rhs: Seq<u8>,
    variants_lhs: Seq<u8>,
    variants_rhs: Seq<u8>,
    commander_lhs: u8,
    commander_rhs: u8,
    first: (FightResult, Option<Vec<Move>>, Option<Vec<Move>>),
    second: (FightResult, Option<Vec<Move>>, Option<Vec<Move>>),
)
    requires
        fought(
            seed,
            log_moves,
            ships,
            selection_lhs,
            selection_rhs,
            variants_lhs,
            variants_rhs,
            commander_lhs,
            commander_rhs,
            first,
        ),
        fought(
            seed,
            log_moves,
            ships,
            selection_lhs,
            selection_rhs,
            variants_lhs,
            variants_rhs,
            commander_lhs,
            commander_rhs,
            second,
        ),
    ensures
        first.0 == second.0,
        first.1 is Some <==> second.1 is Some,
        first.2 is Some <==> second.2 is Some,
        first.1 is Some ==> first.1->0@ == second.1->0@,
        first.2 is Some ==> first.2->0@ == second.2->0@,
{
    assert(first.0@ == second.0@);
    assert(first.0.selection_lhs =~= second.0.selection_lhs);
    assert(first.0.selection_rhs =~= second.0.selection_rhs);
    assert(first.0.variants_lhs =~= second.0.variants_lhs);
    assert(first.0.variants_rhs =~= second.0.variants_rhs);
    assert(first.0.ships_lost_lhs =~= second.0.ships_lost_lhs);
    assert(first.0.ships_lost_rhs =~= second.0.ships_lost_rhs);
}

/// The turns of `upto` slots add at most `upto` moves to the log of either
/// side, and take none away.
pub proof fn lemma_slots_log_growth(ships: Seq<Ship>, battle: BattleView, upto: int)
    requires
        0 <= upto,
    ensures
        ({
            let after = slots_step(ships, battle, upto);
            &&& battle.attacker_moves.len() <= after.attacker_moves.len()
                <= battle.attacker_moves.len() + upto
            &&& battle.defender_moves.len() <= after.defender_moves.len()
                <= battle.defender_moves.len() + upto
        }),
    decreases upto,
{
    if upto > 0 {
        lemma_slots_log_growth(ships, battle, upto - 1);
    }
}

/// A battle that is within its bounds stays within them to its end: it ends
/// over, after at most `MAX_ROUNDS` rounds, with at most `MAX_SHIPS` moves of
/// either side for each round played.
pub proof fn lemma_played_out_bounded(ships: Seq<Ship>, battle: BattleView)
    requires
        battle.rounds <= MAX_ROUNDS,
        battle.attacker_moves.len() <= battle.rounds * MAX_SHIPS,
        battle.defender_moves.len() <= battle.rounds * MAX_SHIPS,
    ensures
        ({
            let end = played_out(ships, battle);
            &&& over(end)
            &&& battle.rounds <= end.rounds <= MAX_ROUNDS
            &&& end.attacker_moves.len() <= end.rounds * MAX_SHIPS
            &&& end.defender_moves.len() <= end.rounds * MAX_SHIPS
        }),
    decreases MAX_ROUNDS - battle.rounds,
{
    if !over(battle) {
        lemma_slots_log_growth(ships, battle, MAX_SHIPS as int);
        lemma_slots_keep_round(ships, battle, MAX_SHIPS as int);
        lemma_played_out_bounded(ships, round_step(ships, battle));
    }
}

/// Every battle is bounded: it takes at most `MAX_ROUNDS` rounds, and the log
/// of either side holds at most `MAX_SHIPS` moves for each round played.
pub proof fn lemma_fight_bounded(
    ships: Seq<Ship>,
    seed: u64,
    selection_lhs: Seq<u8>,
    selection_rhs: Seq<u8>,
    variants_lhs: Seq<u8>,
    variants_rhs: Seq<u8>,
)
    ensures
        ({
            let end = battle_of(
                ships,
                seed,
                selection_lhs,
                selection_rhs,
                variants_lhs,
                variants_rhs,
            );
            &&& over(end)
            &&& end.rounds <= MAX_ROUNDS
            &&& end.attacker_moves.len() <= end.rounds * MAX_SHIPS
            &&& end.defender_moves.len() <= end.rounds * MAX_SHIPS
        }),
{
    lemma_played_out_bounded(
        ships,
        opening(ships, seed, selection_lhs, selection_rhs, variants_lhs, variants_rhs),
    );
}

/// Before the first round every pool holds exactly the hit points of the
/// units fielded in its slot, which is never less than nothing, and every
/// per-slot sequence has its `MAX_SHIPS` entries.
pub proof fn lemma_opening_pools_full(
    ships: Seq<Ship>,
    seed: u64,
    selection_lhs: Seq<u8>,
    selection_rhs: Seq<u8>,
    variants_lhs: Seq<u8>,
    variants_rhs: Seq<u8>,
    slot: int,
)
    requires
        variants_lhs.len() == MAX_SHIPS,
        variants_rhs.len() == MAX_SHIPS,
        0 <= slot < MAX_SHIPS,
    ensures
        ({
            let start = opening(
                ships,
                seed,
                selection_lhs,
                selection_rhs,
                variants_lhs,
                variants_rhs,
            );
            &&& battle_shaped(start)
            &&& start.attacker.pools[slot] == ships[slot].hp * selection_lhs[slot]
            &&& start.defender.pools[slot] == ships[slot].hp * selection_rhs[slot]
            &&& start.attacker.pools[slot] >= 0
            &&& start.defender.pools[slot] >= 0
        }),
{
    let hp: int = ships[slot].hp as int;
    let lhs: int = selection_lhs[slot] as int;
    let rhs: int = selection_rhs[slot] as int;
    assert(0 <= hp * lhs <= 0xffff * 0xff && 0 <= hp * rhs <= 0xffff * 0xff) by (nonlinear_arith)
        requires
            0 <= hp <= 0xffff,
            0 <= lhs <= 0xff,
            0 <= rhs <= 0xff,
    ;
}

/// Neither a move nor a hit changes the shape of a fleet.
proof fn lemma_fleet_keeps_shape(
    ships: Seq<Ship>,
    fleet: FleetView,
    slot: int,
    own: Action,
    enemy: Action,
    towards_negative: bool,
)
    requires
        fleet_shaped(fleet),
        0 <= slot < MAX_SHIPS,
        enemy matches Action::Shoot { target, .. } ==> target < MAX_SHIPS,
    ensures
        fleet_shaped(after_hit(after_moving(ships, fleet, slot, own, towards_negative), enemy)),
{
}

/// A slot that shoots shoots at a slot that fleets have.
pub proof fn lemma_plan_targets_a_slot(
    ships: Seq<Ship>,
    own: FleetView,
    enemy: FleetView,
    slot: int,
)
    ensures
        plan(ships, own, enemy, slot) matches Action::Shoot { target, .. } ==> target < MAX_SHIPS,
{
    lemma_highest_viable(
        ships,
        slot,
        own.positions,
        enemy.positions,
        enemy.pools,
        MAX_SHIPS as int,
    );
}

/// The turn of a slot leaves every per-slot sequence with its `MAX_SHIPS`
/// entries.
pub proof fn lemma_slot_keeps_shape(ships: Seq<Ship>, battle: BattleView, slot: int)
    requires
        battle_shaped(battle),
        0 <= slot < MAX_SHIPS,
    ensures
        battle_shaped(slot_step(ships, battle, slot)),
{
    let attack = plan(ships, battle.attacker, battle.defender, slot);
    let defence = plan(ships, battle.defender, battle.attacker, slot);
    lemma_plan_targets_a_slot(ships, battle.attacker, battle.defender, slot);
    lemma_plan_targets_a_slot(ships, battle.defender, battle.attacker, slot);
    lemma_fleet_keeps_shape(ships, battle.attacker, slot, attack, defence, true);
    lemma_fleet_keeps_shape(ships, battle.defender, slot, defence, attack, false);
}

/// The turns of slots leave every per-slot sequence with its `MAX_SHIPS`
/// entries.
pub proof fn lemma_slots_keep_shape(ships: Seq<Ship>, battle: BattleView, upto: int)
    requires
        battle_shaped(battle),
        0 <= upto <= MAX_SHIPS,
    ensures
        battle_shaped(slots_step(ships, battle, upto)),
    decreases upto,
{
    if upto > 0 {
        lemma_slots_keep_shape(ships, battle, upto - 1);
        lemma_slot_keeps_shape(ships, slots_step(ships, battle, upto - 1), upto - 1);
    }
}

/// A battle keeps its shape to its end: every per-slot sequence has its
/// `MAX_SHIPS` entries throughout.
pub proof fn lemma_battle_keeps_shape(ships: Seq<Ship>, battle: BattleView)
    requires
        battle_shaped(battle),
    ensures
        battle_shaped(played_out(ships, battle)),
    decreases MAX_ROUNDS - battle.rounds,
{
    if !over(battle) {
        lemma_slots_keep_shape(ships, battle, MAX_SHIPS as int);
        lemma_battle_keeps_shape(ships, round_step(ships, battle));
    }
}

/// Whether a fleet fields no unit in any slot.
pub open spec fn fields_nothing(selection: Seq<u8>) -> bool {
    forall|i: int| 0 <= i < selection.len() ==> selection[i] == 0
}

/// A fleet that fields nothing is dead before the first round, so that no
/// round is played and no move made. Against a defender that fields nothing
/// the attacker is never reported destroyed, while such a defender always is.
pub proof fn lemma_empty_fleet(
    ships: Seq<Ship>,
    seed: u64,
    selection_lhs: Seq<u8>,
    selection_rhs: Seq<u8>,
    variants_lhs: Seq<u8>,
    variants_rhs: Seq<u8>,
    commander_lhs: u8,
    commander_rhs: u8,
)
    requires
        selection_lhs.len() == MAX_SHIPS,
        selection_rhs.len() == MAX_SHIPS,
        fields_nothing(selection_lhs) || fields_nothing(selection_rhs),
    ensures
        ({
            let start = opening(
                ships,
                seed,
                selection_lhs,
                selection_rhs,
                variants_lhs,
                variants_rhs,
            );
            let end = battle_of(
                ships,
                seed,
                selection_lhs,
                selection_rhs,
                variants_lhs,
                variants_rhs,
            );
            let outcome = outcome_of(
                ships,
                seed,
                selection_lhs,
                selection_rhs,
                variants_lhs,
                variants_rhs,
                commander_lhs,
                commander_rhs,
            );
            &&& fields_nothing(selection_lhs) ==> pools_dead(start.attacker.pools)
            &&& fields_nothing(selection_rhs) ==> pools_dead(start.defender.pools)
            &&& end == start
            &&& outcome.rounds == 0
            &&& fields_nothing(selection_rhs) ==> outcome.rhs_dead && !outcome.lhs_dead
            &&& fields_nothing(selection_lhs) ==> (outcome.lhs_dead <==> fielded_any(
                selection_rhs,
            ))
        }),
{
    let start = opening(ships, seed, selection_lhs, selection_rhs, variants_lhs, variants_rhs);
    if fields_nothing(selection_lhs) {
        assert forall|i: int| 0 <= i < start.attacker.pools.len() implies start.attacker.pools[i]
            <= 0 by {
            assert(ships[i].hp * selection_lhs[i] == 0) by (nonlinear_arith)
                requires
                    selection_lhs[i] == 0,
            ;
        }
    }
    if fields_nothing(selection_rhs) {
        assert forall|i: int| 0 <= i < start.defender.pools.len() implies start.defender.pools[i]
            <= 0 by {
            assert(ships[i].hp * selection_rhs[i] == 0) by (nonlinear_arith)
                requires
                    selection_rhs[i] == 0,
            ;
        }
    }
}

} // verus!
