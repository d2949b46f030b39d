//! The battle as a mathematical object: its state, and how a slot, a round
//! and a whole battle change it.

use vstd::prelude::*;
use crate::arith::{floored, wrap_i8};
use crate::damage::damage_of;
use crate::moves::{repositioning, shot, Move};
use crate::outcome::pools_dead;
use crate::ship::{Ship, MAX_ROUNDS, MAX_SHIPS};
use crate::targeting::target_of;

verus! {

/// One side of a battle: what it was fitted with, and where its slots stand
/// and what they have left.
pub struct FleetView {
    /// Fitting of each slot; fixed for the battle.
    pub variants: Seq<u8>,
    /// Attack bonus of each slot, drawn once from the seed; fixed for the battle.
    pub variance: Seq<u16>,
    /// Board coordinate of each slot.
    pub positions: Seq<i8>,
    /// Hit points of each slot: those of all its surviving units together. A
    /// pool goes below zero when a shot takes more than it held.
    pub pools: Seq<i32>,
}

/// A battle in progress.
pub struct BattleView {
    /// The side that attacks. It starts at positive coordinates and moves
    /// towards lower ones.
    pub attacker: FleetView,
    /// The side that defends. It starts at negative coordinates and moves
    /// towards higher ones.
    pub defender: FleetView,
    /// Moves of the attacker so far, oldest first.
    pub attacker_moves: Seq<Move>,
    /// Moves of the defender so far, oldest first.
    pub defender_moves: Seq<Move>,
    /// Rounds played so far.
    pub rounds: nat,
}

/// What a slot does in its turn.
#[derive(Clone, Copy, Debug, PartialEq, Eq)]
pub enum Action {
    /// The slot is destroyed and does nothing.
    Idle,
    /// The slot found no target and moves on by its full speed.
    Reposition,
    /// The slot advances by `advance` and shoots at `target` for `damage`.
    Shoot { target: u8, advance: u8, damage: u32 },
}

/// Whether every per-slot sequence of a fleet has `MAX_SHIPS` entries.
pub open spec fn fleet_shaped(fleet: FleetView) -> bool {
    &&& fleet.variants.len() == MAX_SHIPS
    &&& fleet.variance.len() == MAX_SHIPS
    &&& fleet.positions.len() == MAX_SHIPS
    &&& fleet.pools.len() == MAX_SHIPS
}

/// Whether both fleets of a battle are shaped.
pub open spec fn battle_shaped(battle: BattleView) -> bool {
    fleet_shaped(battle.attacker) && fleet_shaped(battle.defender)
}

/// Whether no pool holds more than the hit points of the units that
/// `selection` fields in its slot.
pub open spec fn pools_capped(ships: Seq<Ship>, selection: Seq<u8>, pools: Seq<i32>) -> bool {
    forall|j: int| 0 <= j < MAX_SHIPS ==> (#[trigger] pools[j]) <= ships[j].hp * selection[j]
}

/// Whether both fleets of a battle are shaped, and no pool of either holds
/// more than was fielded.
pub open spec fn battle_capped(
    ships: Seq<Ship>,
    selection_lhs: Seq<u8>,
    selection_rhs: Seq<u8>,
    battle: BattleView,
) -> bool {
    &&& battle_shaped(battle)
    &&& pools_capped(ships, selection_lhs, battle.attacker.pools)
    &&& pools_capped(ships, selection_rhs, battle.defender.pools)
}

/// What the slot `slot` of the fleet `own` does against `enemy`. The damage of
/// a shot fits its width wherever the pool of the slot holds no more than the
/// slot fielded, as it does throughout every battle.
pub open spec fn plan(ships: Seq<Ship>, own: FleetView, enemy: FleetView, slot: int) -> Action {
    if own.pools[slot] <= 0 {
        Action::Idle
    } else {
        match target_of(ships, slot, own.positions, enemy.positions, enemy.pools) {
            None => Action::Reposition,
            Some((target, advance)) => Action::Shoot {
                target,
                advance,
                damage: damage_of(
                    own.variance,
                    own.variants,
                    enemy.variants,
                    ships,
                    slot,
                    target as int,
                    own.pools[slot] as u32,
                ) as u32,
            },
        }
    }
}

/// Fields that a slot of ship type `ship` moves by `action`.
pub open spec fn step_of(ship: Ship, action: Action) -> u8 {
    match action {
        Action::Idle => 0,
        Action::Reposition => ship.speed,
        Action::Shoot { advance, .. } => advance,
    }
}

/// Where a slot at `position` stands after `action`.
pub open spec fn position_after(
    ship: Ship,
    position: i8,
    action: Action,
    towards_negative: bool,
) -> i8 {
    if towards_negative {
        wrap_i8(position - step_of(ship, action))
    } else {
        wrap_i8(position + step_of(ship, action))
    }
}

/// The fleet after its slot `slot` has moved by `action`.
pub open spec fn after_moving(
    ships: Seq<Ship>,
    fleet: FleetView,
    slot: int,
    action: Action,
    towards_negative: bool,
) -> FleetView {
    FleetView {
        positions: fleet.positions.update(
            slot,
            position_after(ships[slot], fleet.positions[slot], action, towards_negative),
        ),
        ..fleet
    }
}

/// The fleet after an enemy `action` has landed on it: the pool that was shot
/// at has fallen by the damage.
pub open spec fn after_hit(fleet: FleetView, action: Action) -> FleetView {
    match action {
        Action::Shoot { target, damage, .. } => FleetView {
            pools: fleet.pools.update(
                target as int,
                floored(fleet.pools[target as int] - damage) as i32,
            ),
            ..fleet
        },
        _ => fleet,
    }
}

/// What `action` of the slot `slot`, which stood at `position`, adds to the
/// log of its side in round `round`.
pub open spec fn recorded(
    ship: Ship,
    position: i8,
    slot: int,
    action: Action,
    towards_negative: bool,
    round: nat,
) -> Seq<Move> {
    let now = position_after(ship, position, action, towards_negative);
    match action {
        Action::Idle => Seq::empty(),
        Action::Reposition => seq![repositioning(round as u8, slot as u8, now)],
        Action::Shoot { target, damage, .. } => seq![
            shot(round as u8, slot as u8, target, damage, now),
        ],
    }
}

/// The battle after the slot `slot` of both sides has had its turn.
///
/// Both sides plan on the state in which the turn began, so that the two
/// slots act at the same time: neither sees what the other has just done.
pub open spec fn slot_step(ships: Seq<Ship>, battle: BattleView, slot: int) -> BattleView {
    let attack = plan(ships, battle.attacker, battle.defender, slot);
    let defence = plan(ships, battle.defender, battle.attacker, slot);
    BattleView {
        attacker: after_hit(after_moving(ships, battle.attacker, slot, attack, true), defence),
        defender: after_hit(after_moving(ships, battle.defender, slot, defence, false), attack),
        attacker_moves: battle.attacker_moves + recorded(
            ships[slot],
            battle.attacker.positions[slot],
            slot,
            attack,
            true,
            battle.rounds,
        ),
        defender_moves: battle.defender_moves + recorded(
            ships[slot],
            battle.defender.positions[slot],
            slot,
            defence,
            false,
            battle.rounds,
        ),
        rounds: battle.rounds,
    }
}

/// The battle after the slots below `upto` have had their turns, lowest
/// first.
pub open spec fn slots_step(ships: Seq<Ship>, battle: BattleView, upto: int) -> BattleView
    decreases upto,
{
    if upto <= 0 {
        battle
    } else {
        slot_step(ships, slots_step(ships, battle, upto - 1), upto - 1)
    }
}

/// Turns of slots leave the round count as it is.
pub proof fn lemma_slots_keep_round(ships: Seq<Ship>, battle: BattleView, upto: int)
    ensures
        slots_step(ships, battle, upto).rounds == battle.rounds,
    decreases upto,
{
    if upto > 0 {
        lemma_slots_keep_round(ships, battle, upto - 1);
    }
}

/// The battle after one more round.
pub open spec fn round_step(ships: Seq<Ship>, battle: BattleView) -> BattleView {
    BattleView { rounds: battle.rounds + 1, ..slots_step(ships, battle, MAX_SHIPS as int) }
}

/// Whether the battle is decided: one fleet at least is dead.
pub open spec fn resolved(battle: BattleView) -> bool {
    pools_dead(battle.attacker.pools) || pools_dead(battle.defender.pools)
}

/// Whether the battle is over: decided, or out of rounds.
pub open spec fn over(battle: BattleView) -> bool {
    resolved(battle) || battle.rounds >= MAX_ROUNDS
}

/// The battle played to its end. A round is played, and counted, only while
/// the battle is not over.
pub open spec fn played_out(ships: Seq<Ship>, battle: BattleView) -> BattleView
    decreases MAX_ROUNDS - battle.rounds,
{
    if over(battle) {
        battle
    } else {
        played_out(ships, round_step(ships, battle))
    }
}

/// Attack bonus of each slot: the remainder of `draw` by the slot's attack
/// variability.
pub open spec fn variance_terms(ships: Seq<Ship>, draw: u64) -> Seq<u16> {
    Seq::new(MAX_SHIPS as nat, |i: int| (draw as int % ships[i].attack_variable as int) as u16)
}

/// Pools of a fleet before the battle: the hit points of all fielded units.
pub open spec fn full_pools(ships: Seq<Ship>, selection: Seq<u8>) -> Seq<i32> {
    Seq::new(MAX_SHIPS as nat, |i: int| (ships[i].hp * selection[i]) as i32)
}

/// Where the attacker's slots start, smallest ship nearest the centre.
pub open spec fn attacker_lines() -> Seq<i8> {
    seq![10i8, 11i8, 12i8, 13i8]
}

/// Where the defender's slots start, smallest ship nearest the centre.
pub open spec fn defender_lines() -> Seq<i8> {
    seq![-10i8, -11i8, -12i8, -13i8]
}

/// The battle before its first round. The attacker draws its attack bonus
/// from the seed, the defender from half of it.
pub open spec fn opening(
    ships: Seq<Ship>,
    seed: u64,
    selection_lhs: Seq<u8>,
    selection_rhs: Seq<u8>,
    variants_lhs: Seq<u8>,
    variants_rhs: Seq<u8>,
) -> BattleView {
    BattleView {
        attacker: FleetView {
            variants: variants_lhs,
            variance: variance_terms(ships, seed),
            positions: attacker_lines(),
            pools: full_pools(ships, selection_lhs),
        },
        defender: FleetView {
            variants: variants_rhs,
            variance: variance_terms(ships, (seed / 2) as u64),
            positions: defender_lines(),
            pools: full_pools(ships, selection_rhs),
        },
        attacker_moves: Seq::empty(),
        defender_moves: Seq::empty(),
        rounds: 0,
    }
}

/// The whole battle: the opening played to its end.
pub open spec fn battle_of(
    ships: Seq<Ship>,
    seed: u64,
    selection_lhs: Seq<u8>,
    selection_rhs: Seq<u8>,
    variants_lhs: Seq<u8>,
    variants_rhs: Seq<u8>,
) -> BattleView {
    played_out(
        ships,
        opening(ships, seed, selection_lhs, selection_rhs, variants_lhs, variants_rhs),
    )
}

} // verus!
