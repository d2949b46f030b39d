//! The battle engine over a catalog of exactly `MAX_SHIPS` ship types.

use vstd::prelude::*;
use crate::damage::{damage, damage_of, stack_fits};
use crate::fitting::{attack_stat, defence_stat, fitted_attack, fitted_defence, stat_fits};
use crate::moves::{repositioning, shot, Move};
use crate::outcome::{fleet_dead, pools_dead, FightResult};
use crate::ship::{catalog_usable, Ship, MAX_SHIPS};
use crate::simulator::{bounded, fought, losses_within};
use crate::engine::target_report;
use crate::targeting::{select_target, target_of};

verus! {

/// The battle engine over a catalog held in an array. It holds no state:
/// every method is a function of its arguments.
#[derive(Clone, Copy, Debug, PartialEq, Eq)]
pub struct GameEngineLibrary {}

#[allow(non_snake_case)]
impl GameEngineLibrary {
    /// Makes an engine.
    pub fn new() -> (engine: Self) {
        GameEngineLibrary {  }
    }

    /// Makes an engine.
    pub fn default() -> (engine: Self) {
        Self::new()
    }

    /// The smaller of two numbers.
    pub fn min(&self, lhs: i32, rhs: i32) -> (least: i32)
        ensures
            least <= lhs,
            least <= rhs,
            least == lhs || least == rhs,
    {
        if lhs > rhs {
            rhs
        } else {
            lhs
        }
    }

    /// The larger of two numbers.
    pub fn max(&self, lhs: i32, rhs: i32) -> (most: i32)
        ensures
            most >= lhs,
            most >= rhs,
            most == lhs || most == rhs,
    {
        if lhs > rhs {
            lhs
        } else {
            rhs
        }
    }

    /// Whether a fleet is dead: no slot of `shipHps` holds a positive amount.
    pub fn isDead(&self, shipHps: [i32; MAX_SHIPS]) -> (dead: bool)
        ensures
            dead == pools_dead(shipHps@),
    {
        fleet_dead(&shipHps)
    }

    /// Defence of a ship of base defence `stat` under the fitting `variant`,
    /// which fits the width of a stat.
    pub fn getDefenceStat(&self, stat: u16, variant: u8) -> (finalStat: u16)
        requires
            stat_fits(defence_stat(stat, variant)),
        ensures
            finalStat == defence_stat(stat, variant),
    {
        fitted_defence(stat, variant) as u16
    }

    /// Attack of a ship of base attack `stat` under the fitting `variant`,
    /// which fits the width of a stat.
    pub fn getAttackStat(&self, stat: u16, variant: u8) -> (finalStat: u16)
        requires
            stat_fits(attack_stat(stat, variant)),
        ensures
            finalStat == attack_stat(stat, variant),
    {
        fitted_attack(stat, variant) as u16
    }

    /// Picks the target of the slot `currentShip`: the highest enemy slot
    /// within reach. Reports whether there is one, which it is, and by how
    /// many fields the slot must advance to have it in range.
    pub fn getTarget(
        &self,
        Ships: &[Ship; MAX_SHIPS],
        currentShip: u8,
        shipPositionsOwn: [i8; MAX_SHIPS],
        shipPositionsEnemy: [i8; MAX_SHIPS],
        shipHpsEnemy: [i32; MAX_SHIPS],
    ) -> (report: (bool, u8, u8))
        requires
            currentShip < MAX_SHIPS,
        ensures
            report == target_report(
                target_of(
                    Ships@,
                    currentShip as int,
                    shipPositionsOwn@,
                    shipPositionsEnemy@,
                    shipHpsEnemy@,
                ),
            ),
    {
        match select_target(
            Ships,
            currentShip,
            &shipPositionsOwn,
            &shipPositionsEnemy,
            &shipHpsEnemy,
        ) {
            Some((target, advance)) => (true, target, advance),
            None => (false, MAX_SHIPS as u8, 0),
        }
    }

    /// Damage that the slot `source`, with `sourceHp` hit points left,
    /// inflicts on the enemy slot `target`.
    pub fn calculateDamage(
        &self,
        variables: [u16; MAX_SHIPS],
        variantsSource: [u8; MAX_SHIPS],
        variantsTarget: [u8; MAX_SHIPS],
        Ships: &[Ship; MAX_SHIPS],
        source: u8,
        target: u8,
        sourceHp: u32,
    ) -> (dealt: u32)
        requires
            source < MAX_SHIPS,
            target < MAX_SHIPS,
            Ships@[source as int].hp > 0,
            stack_fits(sourceHp, Ships@[source as int].hp),
        ensures
            dealt == damage_of(
                variables@,
                variantsSource@,
                variantsTarget@,
                Ships@,
                source as int,
                target as int,
                sourceHp,
            ),
    {
        damage(
            &variables,
            &variantsSource,
            &variantsTarget,
            Ships,
            source,
            target,
            sourceHp,
        )
    }

    /// Appends the record of a shot to `moves`.
    pub fn logShoot(
        &self,
        moveNumber: &mut u16,
        round: u8,
        moves: &mut Vec<Move>,
        source: u8,
        target: u8,
        damage: u32,
        position: i8,
    )
        ensures
            final(moves)@ == old(moves)@.push(shot(round, source, target, damage, position)),
            *final(moveNumber) == *old(moveNumber),
    {
        crate::moves::log_shoot(round, moves, source, target, damage, position);
    }

    /// Appends the record of a reposition to `moves`.
    pub fn logMove(
        &self,
        moveNumber: &mut u16,
        round: u8,
        moves: &mut Vec<Move>,
        source: u8,
        targetPosition: i8,
    )
        ensures
            final(moves)@ == old(moves)@.push(repositioning(round, source, targetPosition)),
            *final(moveNumber) == *old(moveNumber),
    {
        crate::moves::log_move(round, moves, source, targetPosition);
    }

    /// Fights a battle between two fleets and reports its result, with the
    /// moves of both sides where `logMoves` is set.
    pub fn fight(
        &self,
        seed: u64,
        logMoves: bool,
        Ships: [Ship; MAX_SHIPS],
        selectionLhs: [u8; MAX_SHIPS],
        selectionRhs: [u8; MAX_SHIPS],
        variantsLhs: [u8; MAX_SHIPS],
        variantsRhs: [u8; MAX_SHIPS],
        commanderLhs: u8,
        commanderRhs: u8,
    ) -> (out: (FightResult, Option<Vec<Move>>, Option<Vec<Move>>))
        requires
            catalog_usable(Ships@),
        ensures
            fought(
                seed,
                logMoves,
                Ships@,
                selectionLhs@,
                selectionRhs@,
                variantsLhs@,
                variantsRhs@,
                commanderLhs,
                commanderRhs,
                out,
            ),
            bounded(out),
            losses_within(out.0, selectionLhs@, selectionRhs@),
    {
        crate::simulator::fight(
            seed,
            logMoves,
            &Ships,
            selectionLhs,
            selectionRhs,
            variantsLhs,
            variantsRhs,
            commanderLhs,
            commanderRhs,
        )
    }
}

} // verus!
