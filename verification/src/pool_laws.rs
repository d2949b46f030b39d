//! What holds of the pools of a battle: they never rise, every shot stays
//! within what its width can hold, and what a slot loses is never more than
//! it fielded.

use vstd::prelude::*;
use crate::battle::{
    after_hit, battle_capped, battle_of, lemma_slots_keep_round, opening, over, plan, played_out,
    pools_capped, round_step, slot_step, slots_step, Action, BattleView, FleetView,
};
use crate::damage::{damage_cap, damage_of, lemma_damage_within_cap, stack_fits, stack_size};
use crate::laws::{lemma_opening_pools_full, lemma_plan_targets_a_slot, lemma_slot_keeps_shape};
use crate::outcome::{fielded_any, lemma_units_lost_within, outcome_of, pools_dead};
use crate::ship::{catalog_usable, Ship, MAX_ROUNDS, MAX_SHIPS};

verus! {

/// A pool that holds no more than its slot fielded stands for a stack of at
/// most one unit more than were fielded, which can be counted in sixteen
/// bits.
pub proof fn lemma_capped_pool_stack(ship: Ship, fielded: u8, pool: i32)
    requires
        ship.hp > 0,
        0 < pool <= ship.hp * fielded,
    ensures
        stack_size(pool as u32, ship.hp) <= fielded + 1,
        stack_fits(pool as u32, ship.hp),
{
    let hp: int = ship.hp as int;
    let units: int = pool as int / hp;
    assert(units <= fielded) by (nonlinear_arith)
        requires
            0 < pool <= hp * fielded,
            hp > 0,
            units == pool as int / hp,
    ;
}

/// What a slot whose pool holds no more than it fielded plans to shoot is
/// the damage of that shot, which fits the width of a damage.
pub proof fn lemma_planned_damage_exact(
    ships: Seq<Ship>,
    own: FleetView,
    enemy: FleetView,
    slot: int,
    fielded: u8,
)
    requires
        catalog_usable(ships),
        0 <= slot < MAX_SHIPS,
        own.pools[slot] <= ships[slot].hp * fielded,
    ensures
        plan(ships, own, enemy, slot) matches Action::Shoot { target, damage, .. } ==> damage
            == damage_of(
            own.variance,
            own.variants,
            enemy.variants,
            ships,
            slot,
            target as int,
            own.pools[slot] as u32,
        ),
{
    if let Action::Shoot { target, damage, .. } = plan(ships, own, enemy, slot) {
        let pool = own.pools[slot];
        lemma_capped_pool_stack(ships[slot], fielded, pool);
        lemma_damage_within_cap(
            own.variance,
            own.variants,
            enemy.variants,
            ships,
            slot,
            target as int,
            pool as u32,
        );
        let stack = stack_size(pool as u32, ships[slot].hp);
        let target_hp: int = ships[target as int].hp as int;
        assert(damage_cap(stack, ships[target as int].hp) <= 0x100 * 0xffff) by (nonlinear_arith)
            requires
                0 <= stack <= 0x100,
                0 <= target_hp <= 0xffff,
                damage_cap(stack, ships[target as int].hp) == stack * target_hp,
        ;
    }
}

/// A hit leaves no pool higher than it was.
proof fn lemma_hit_keeps_pools(
    ships: Seq<Ship>,
    fleet: FleetView,
    selection: Seq<u8>,
    action: Action,
)
    requires
        fleet.pools.len() == MAX_SHIPS,
        pools_capped(ships, selection, fleet.pools),
        action matches Action::Shoot { target, .. } ==> target < MAX_SHIPS,
    ensures
        pools_capped(ships, selection, after_hit(fleet, action).pools),
{
    let after = after_hit(fleet, action);
    assert forall|j: int| 0 <= j < MAX_SHIPS implies (#[trigger] after.pools[j]) <= ships[j].hp
        * selection[j] by {
        assert(after.pools[j] <= fleet.pools[j]);
    }
}

/// The turn of a slot leaves no pool higher than it was.
pub proof fn lemma_slot_keeps_pools(
    ships: Seq<Ship>,
    selection_lhs: Seq<u8>,
    selection_rhs: Seq<u8>,
    battle: BattleView,
    slot: int,
)
    requires
        battle_capped(ships, selection_lhs, selection_rhs, battle),
        0 <= slot < MAX_SHIPS,
    ensures
        battle_capped(ships, selection_lhs, selection_rhs, slot_step(ships, battle, slot)),
{
    let attack = plan(ships, battle.attacker, battle.defender, slot);
    let defence = plan(ships, battle.defender, battle.attacker, slot);
    lemma_plan_targets_a_slot(ships, battle.attacker, battle.defender, slot);
    lemma_plan_targets_a_slot(ships, battle.defender, battle.attacker, slot);
    lemma_slot_keeps_shape(ships, battle, slot);
    lemma_hit_keeps_pools(ships, battle.attacker, selection_lhs, defence);
    lemma_hit_keeps_pools(ships, battle.defender, selection_rhs, attack);
    let after = slot_step(ships, battle, slot);
    assert(after.attacker.pools == after_hit(battle.attacker, defence).pools);
    assert(after.defender.pools == after_hit(battle.defender, attack).pools);
}

/// The turns of the slots below `upto` leave no pool higher than it was.
pub proof fn lemma_slots_keep_pools(
    ships: Seq<Ship>,
    selection_lhs: Seq<u8>,
    selection_rhs: Seq<u8>,
    battle: BattleView,
    upto: int,
)
    requires
        battle_capped(ships, selection_lhs, selection_rhs, battle),
        0 <= upto <= MAX_SHIPS,
    ensures
        battle_capped(ships, selection_lhs, selection_rhs, slots_step(ships, battle, upto)),
    decreases upto,
{
    if upto > 0 {
        lemma_slots_keep_pools(ships, selection_lhs, selection_rhs, battle, upto - 1);
        lemma_slot_keeps_pools(
            ships,
            selection_lhs,
            selection_rhs,
            slots_step(ships, battle, upto - 1),
            upto - 1,
        );
    }
}

/// A battle in which no pool holds more than was fielded ends as such a
/// battle.
pub proof fn lemma_played_out_keeps_pools(
    ships: Seq<Ship>,
    selection_lhs: Seq<u8>,
    selection_rhs: Seq<u8>,
    battle: BattleView,
)
    requires
        battle_capped(ships, selection_lhs, selection_rhs, battle),
    ensures
        battle_capped(ships, selection_lhs, selection_rhs, played_out(ships, battle)),
    decreases MAX_ROUNDS - battle.rounds,
{
    if !over(battle) {
        lemma_slots_keep_pools(ships, selection_lhs, selection_rhs, battle, MAX_SHIPS as int);
        lemma_slots_keep_round(ships, battle, MAX_SHIPS as int);
        lemma_played_out_keeps_pools(
            ships,
            selection_lhs,
            selection_rhs,
            round_step(ships, battle),
        );
    }
}

/// Before the first round no pool holds more than was fielded: each holds
/// exactly that.
pub proof fn lemma_opening_capped(
    ships: Seq<Ship>,
    seed: u64,
    selection_lhs: Seq<u8>,
    selection_rhs: Seq<u8>,
    variants_lhs: Seq<u8>,
    variants_rhs: Seq<u8>,
)
    requires
        variants_lhs.len() == MAX_SHIPS,
        variants_rhs.len() == MAX_SHIPS,
    ensures
        battle_capped(
            ships,
            selection_lhs,
            selection_rhs,
            opening(ships, seed, selection_lhs, selection_rhs, variants_lhs, variants_rhs),
        ),
{
    let start = opening(ships, seed, selection_lhs, selection_rhs, variants_lhs, variants_rhs);
    assert forall|j: int| 0 <= j < MAX_SHIPS implies (#[trigger] start.attacker.pools[j])
        <= ships[j].hp * selection_lhs[j] && (#[trigger] start.defender.pools[j]) <= ships[j].hp
        * selection_rhs[j] by {
        lemma_opening_pools_full(
            ships,
            seed,
            selection_lhs,
            selection_rhs,
            variants_lhs,
            variants_rhs,
            j,
        );
    }
}

/// No pool ever rises: at the end of every battle each pool holds at most
/// the hit points of the units fielded in its slot.
pub proof fn lemma_pools_never_rise(
    ships: Seq<Ship>,
    seed: u64,
    selection_lhs: Seq<u8>,
    selection_rhs: Seq<u8>,
    variants_lhs: Seq<u8>,
    variants_rhs: Seq<u8>,
)
    requires
        variants_lhs.len() == MAX_SHIPS,
        variants_rhs.len() == MAX_SHIPS,
    ensures
        battle_capped(
            ships,
            selection_lhs,
            selection_rhs,
            battle_of(ships, seed, selection_lhs, selection_rhs, variants_lhs, variants_rhs),
        ),
{
    lemma_opening_capped(ships, seed, selection_lhs, selection_rhs, variants_lhs, variants_rhs);
    lemma_played_out_keeps_pools(
        ships,
        selection_lhs,
        selection_rhs,
        opening(ships, seed, selection_lhs, selection_rhs, variants_lhs, variants_rhs),
    );
}

/// What a slot is reported to have lost is consistent with what it fielded:
/// no more units than were fielded, and so no more hit points than they had.
pub proof fn lemma_units_lost_consistent(
    ships: Seq<Ship>,
    seed: u64,
    selection_lhs: Seq<u8>,
    selection_rhs: Seq<u8>,
    variants_lhs: Seq<u8>,
    variants_rhs: Seq<u8>,
    commander_lhs: u8,
    commander_rhs: u8,
    slot: int,
)
    requires
        catalog_usable(ships),
        selection_lhs.len() == MAX_SHIPS,
        selection_rhs.len() == MAX_SHIPS,
        variants_lhs.len() == MAX_SHIPS,
        variants_rhs.len() == MAX_SHIPS,
        0 <= slot < MAX_SHIPS,
    ensures
        ({
            let outcome = outcome_of(
                ships,
                seed,
                selection_lhs,
                selection_rhs,
                variants_lhs,
                variants_rhs,
                commander_lhs,
                commander_rhs,
            );
            &&& outcome.ships_lost_lhs[slot] <= selection_lhs[slot]
            &&& outcome.ships_lost_rhs[slot] <= selection_rhs[slot]
            &&& outcome.ships_lost_lhs[slot] * ships[slot].hp <= selection_lhs[slot]
                * ships[slot].hp
            &&& outcome.ships_lost_rhs[slot] * ships[slot].hp <= selection_rhs[slot]
                * ships[slot].hp
        }),
{
    let end = battle_of(ships, seed, selection_lhs, selection_rhs, variants_lhs, variants_rhs);
    lemma_pools_never_rise(ships, seed, selection_lhs, selection_rhs, variants_lhs, variants_rhs);
    assert(end.attacker.pools[slot] <= ships[slot].hp * selection_lhs[slot]);
    assert(end.defender.pools[slot] <= ships[slot].hp * selection_rhs[slot]);
    let hp: int = ships[slot].hp as int;
    assert(hp * selection_lhs[slot] == selection_lhs[slot] * hp) by (nonlinear_arith);
    assert(hp * selection_rhs[slot] == selection_rhs[slot] * hp) by (nonlinear_arith);
    lemma_units_lost_within(ships[slot], selection_lhs[slot], end.attacker.pools[slot]);
    lemma_units_lost_within(ships[slot], selection_rhs[slot], end.defender.pools[slot]);
}

/// A slot is reported to have lost all it fielded exactly when its pool
/// holds nothing at the end.
pub proof fn lemma_all_lost_when_pool_empty(
    ships: Seq<Ship>,
    seed: u64,
    selection_lhs: Seq<u8>,
    selection_rhs: Seq<u8>,
    variants_lhs: Seq<u8>,
    variants_rhs: Seq<u8>,
    commander_lhs: u8,
    commander_rhs: u8,
    slot: int,
)
    requires
        catalog_usable(ships),
        selection_lhs.len() == MAX_SHIPS,
        selection_rhs.len() == MAX_SHIPS,
        variants_lhs.len() == MAX_SHIPS,
        variants_rhs.len() == MAX_SHIPS,
        0 <= slot < MAX_SHIPS,
    ensures
        ({
            let end = battle_of(
                ships,
                seed,
                selection_lhs,
                selection_rhs,
                variants_lhs,
                variants_rhs,
            );
            let outcome = outcome_of(
                ships,
                seed,
                selection_lhs,
                selection_rhs,
                variants_lhs,
                variants_rhs,
                commander_lhs,
                commander_rhs,
            );
            &&& end.attacker.pools.len() == MAX_SHIPS
            &&& end.defender.pools.len() == MAX_SHIPS
            &&& outcome.ships_lost_lhs[slot] == selection_lhs[slot] <==> end.attacker.pools[slot]
                <= 0
            &&& outcome.ships_lost_rhs[slot] == selection_rhs[slot] <==> end.defender.pools[slot]
                <= 0
        }),
{
    let end = battle_of(ships, seed, selection_lhs, selection_rhs, variants_lhs, variants_rhs);
    lemma_pools_never_rise(ships, seed, selection_lhs, selection_rhs, variants_lhs, variants_rhs);
    assert(end.attacker.pools[slot] <= ships[slot].hp * selection_lhs[slot]);
    assert(end.defender.pools[slot] <= ships[slot].hp * selection_rhs[slot]);
    let hp: int = ships[slot].hp as int;
    assert(hp * selection_lhs[slot] == selection_lhs[slot] * hp) by (nonlinear_arith);
    assert(hp * selection_rhs[slot] == selection_rhs[slot] * hp) by (nonlinear_arith);
    lemma_units_lost_within(ships[slot], selection_lhs[slot], end.attacker.pools[slot]);
    lemma_units_lost_within(ships[slot], selection_rhs[slot], end.defender.pools[slot]);
}

/// A side is reported destroyed exactly when it has lost all it fielded: the
/// defender when each of its slots lost every unit, the attacker when, besides,
/// the defender fielded a unit.
pub proof fn lemma_destroyed_when_all_lost(
    ships: Seq<Ship>,
    seed: u64,
    selection_lhs: Seq<u8>,
    selection_rhs: Seq<u8>,
    variants_lhs: Seq<u8>,
    variants_rhs: Seq<u8>,
    commander_lhs: u8,
    commander_rhs: u8,
)
    requires
        catalog_usable(ships),
        selection_lhs.len() == MAX_SHIPS,
        selection_rhs.len() == MAX_SHIPS,
        variants_lhs.len() == MAX_SHIPS,
        variants_rhs.len() == MAX_SHIPS,
    ensures
        ({
            let outcome = outcome_of(
                ships,
                seed,
                selection_lhs,
                selection_rhs,
                variants_lhs,
                variants_rhs,
                commander_lhs,
                commander_rhs,
            );
            &&& outcome.rhs_dead <==> forall|i: int|
                0 <= i < MAX_SHIPS ==> #[trigger] outcome.ships_lost_rhs[i] == selection_rhs[i]
            &&& outcome.lhs_dead <==> fielded_any(selection_rhs) && forall|i: int|
                0 <= i < MAX_SHIPS ==> #[trigger] outcome.ships_lost_lhs[i] == selection_lhs[i]
        }),
{
    let end = battle_of(ships, seed, selection_lhs, selection_rhs, variants_lhs, variants_rhs);
    let outcome = outcome_of(
        ships,
        seed,
        selection_lhs,
        selection_rhs,
        variants_lhs,
        variants_rhs,
        commander_lhs,
        commander_rhs,
    );
    assert forall|i: int| 0 <= i < MAX_SHIPS implies (outcome.ships_lost_lhs[i]
        == selection_lhs[i] <==> #[trigger] end.attacker.pools[i] <= 0) by {
        lemma_all_lost_when_pool_empty(
            ships,
            seed,
            selection_lhs,
            selection_rhs,
            variants_lhs,
            variants_rhs,
            commander_lhs,
            commander_rhs,
            i,
        );
    }
    assert forall|i: int| 0 <= i < MAX_SHIPS implies (outcome.ships_lost_rhs[i]
        == selection_rhs[i] <==> #[trigger] end.defender.pools[i] <= 0) by {
        lemma_all_lost_when_pool_empty(
            ships,
            seed,
            selection_lhs,
            selection_rhs,
            variants_lhs,
            variants_rhs,
            commander_lhs,
            commander_rhs,
            i,
        );
    }
    lemma_all_lost_when_pool_empty(
        ships,
        seed,
        selection_lhs,
        selection_rhs,
        variants_lhs,
        variants_rhs,
        commander_lhs,
        commander_rhs,
        0,
    );
    if pools_dead(end.attacker.pools) {
        assert forall|i: int| 0 <= i < MAX_SHIPS implies #[trigger] outcome.ships_lost_lhs[i]
            == selection_lhs[i] by {
            assert(end.attacker.pools[i] <= 0);
        }
    }
    if pools_dead(end.defender.pools) {
        assert forall|i: int| 0 <= i < MAX_SHIPS implies #[trigger] outcome.ships_lost_rhs[i]
            == selection_rhs[i] by {
            assert(end.defender.pools[i] <= 0);
        }
    }
    if forall|i: int|
        0 <= i < MAX_SHIPS ==> #[trigger] outcome.ships_lost_lhs[i] == selection_lhs[i] {
        assert forall|i: int| 0 <= i < end.attacker.pools.len() implies end.attacker.pools[i]
            <= 0 by {
            assert(outcome.ships_lost_lhs[i] == selection_lhs[i]);
        }
    }
    if forall|i: int|
        0 <= i < MAX_SHIPS ==> #[trigger] outcome.ships_lost_rhs[i] == selection_rhs[i] {
        assert forall|i: int| 0 <= i < end.defender.pools.len() implies end.defender.pools[i]
            <= 0 by {
            assert(outcome.ships_lost_rhs[i] == selection_rhs[i]);
        }
    }
}

} // verus!
