//! The battle engine as a value with methods. The engine holds no state:
//! every method is a function of its arguments.

use vstd::prelude::*;
use crate::damage::{damage, damage_of, stack_fits};
use crate::fitting::{attack_stat, defence_stat, fitted_attack, fitted_defence, stat_fits};
use crate::moves::{repositioning, shot, Move};
use crate::outcome::{fleet_dead, pools_dead, FightResult};
use crate::ship::{catalog_usable, Ship, MAX_SHIPS};
use crate::simulator::{bounded, fought, losses_within};
use crate::targeting::{select_target, target_of};

verus! {

/// The battle engine over a catalog held in a vector, of which it reads the
/// first `MAX_SHIPS` entries.
#[derive(Clone, Copy, Debug, PartialEq, Eq)]
pub struct NewOmega {}

/// What a targeting call reports for `choice`: whether a target was found,
/// the target and the advance towards it. Without a target it reports the
/// slot `MAX_SHIPS`, which no fleet has, and no advance.
pub open spec fn target_report(choice: Option<(u8, u8)>) -> (bool, u8, u8) {
    match choice {
        Some((target, advance)) => (true, target, advance),
        None => (false, MAX_SHIPS as u8, 0),
    }
}

impl NewOmega {
    /// Makes an engine.
    pub fn new() -> (engine: Self) {
        NewOmega {  }
    }

    /// Makes an engine.
    pub fn default() -> (engine: Self) {
        Self::new()
    }

    /// The smaller of two numbers.
    pub fn min(&self, lhs: i32, rhs: i32) -> (least: i32)
        ensures
            least <= lhs,
            least <= rhs,
            least == lhs || least == rhs,
    {
        if lhs > rhs {
            rhs
        } else {
            lhs
        }
    }

    /// The larger of two numbers.
    pub fn max(&self, lhs: i32, rhs: i32) -> (most: i32)
        ensures
            most >= lhs,
            most >= rhs,
            most == lhs || most == rhs,
    {
        if lhs > rhs {
            lhs
        } else {
            rhs
        }
    }

    /// Whether a fleet is dead: no slot of `ship_hps` holds a positive amount.
    pub fn is_dead(&self, ship_hps: [i32; MAX_SHIPS]) -> (dead: bool)
        ensures
            dead == pools_dead(ship_hps@),
    {
        fleet_dead(&ship_hps)
    }

    /// Defence of a ship of base defence `stat` under the fitting `variant`,
    /// which fits the width of a stat.
    pub fn get_defence_stat(&self, stat: u16, variant: u8) -> (final_stat: u16)
        requires
            stat_fits(defence_stat(stat, variant)),
        ensures
            final_stat == defence_stat(stat, variant),
    {
        fitted_defence(stat, variant) as u16
    }

    /// Attack of a ship of base attack `stat` under the fitting `variant`,
    /// which fits the width of a stat.
    pub fn get_attack_stat(&self, stat: u16, variant: u8) -> (final_stat: u16)
        requires
            stat_fits(attack_stat(stat, variant)),
        ensures
            final_stat == attack_stat(stat, variant),
    {
        fitted_attack(stat, variant) as u16
    }

    /// Picks the target of the slot `current_ship`: the highest enemy slot
    /// within reach. Reports whether there is one, which it is, and by how
    /// many fields the slot must advance to have it in range.
    pub fn get_target(
        &self,
        ships: &Vec<Ship>,
        current_ship: u8,
        ship_positions_own: [i8; MAX_SHIPS],
        ship_positions_enemy: [i8; MAX_SHIPS],
        ship_hps_enemy: [i32; MAX_SHIPS],
    ) -> (report: (bool, u8, u8))
        requires
            current_ship < MAX_SHIPS,
            current_ship < ships@.len(),
        ensures
            report == target_report(
                target_of(
                    ships@,
                    current_ship as int,
                    ship_positions_own@,
                    ship_positions_enemy@,
                    ship_hps_enemy@,
                ),
            ),
    {
        match select_target(
            ships.as_slice(),
            current_ship,
            &ship_positions_own,
            &ship_positions_enemy,
            &ship_hps_enemy,
        ) {
            Some((target, advance)) => (true, target, advance),
            None => (false, MAX_SHIPS as u8, 0),
        }
    }

    /// Damage that the slot `source`, with `source_hp` hit points left,
    /// inflicts on the enemy slot `target`.
    pub fn calculate_damage(
        &self,
        variables: [u16; MAX_SHIPS],
        variants_source: [u8; MAX_SHIPS],
        variants_target: [u8; MAX_SHIPS],
        ships: &Vec<Ship>,
        source: u8,
        target: u8,
        source_hp: u32,
    ) -> (dealt: u32)
        requires
            source < MAX_SHIPS,
            target < MAX_SHIPS,
            source < ships@.len(),
            target < ships@.len(),
            ships@[source as int].hp > 0,
            stack_fits(source_hp, ships@[source as int].hp),
        ensures
            dealt == damage_of(
                variables@,
                variants_source@,
                variants_target@,
                ships@,
                source as int,
                target as int,
                source_hp,
            ),
    {
        damage(
            &variables,
            &variants_source,
            &variants_target,
            ships.as_slice(),
            source,
            target,
            source_hp,
        )
    }

    /// Appends the record of a shot to `moves`.
    pub fn log_shoot(
        &self,
        round: u8,
        moves: &mut Vec<Move>,
        source: u8,
        target: u8,
        damage: u32,
        position: i8,
    )
        ensures
            final(moves)@ == old(moves)@.push(shot(round, source, target, damage, position)),
    {
        crate::moves::log_shoot(round, moves, source, target, damage, position);
    }

    /// Appends the record of a reposition to `moves`.
    pub fn log_move(&self, round: u8, moves: &mut Vec<Move>, source: u8, target_position: i8)
        ensures
            final(moves)@ == old(moves)@.push(repositioning(round, source, target_position)),
    {
        crate::moves::log_move(round, moves, source, target_position);
    }

    /// Fights a battle between two fleets and reports its result, with the
    /// moves of both sides where `log_moves` is set.
    pub fn fight(
        &self,
        seed: u64,
        log_moves: bool,
        ships: Vec<Ship>,
        selection_lhs: [u8; MAX_SHIPS],
        selection_rhs: [u8; MAX_SHIPS],
        variants_lhs: [u8; MAX_SHIPS],
        variants_rhs: [u8; MAX_SHIPS],
        commander_lhs: u8,
        commander_rhs: u8,
    ) -> (out: (FightResult, Option<Vec<Move>>, Option<Vec<Move>>))
        requires
            catalog_usable(ships@),
        ensures
            fought(
                seed,
                log_moves,
                ships@,
                selection_lhs@,
                selection_rhs@,
                variants_lhs@,
                variants_rhs@,
                commander_lhs,
                commander_rhs,
                out,
            ),
            bounded(out),
            losses_within(out.0, selection_lhs@, selection_rhs@),
    {
        crate::simulator::fight(
            seed,
            log_moves,
            ships.as_slice(),
            selection_lhs,
            selection_rhs,
            variants_lhs,
            variants_rhs,
            commander_lhs,
            commander_rhs,
        )
    }
}

} // verus!
