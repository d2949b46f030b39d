//! The game: the battle engine together with the catalog it fights with.

use vstd::prelude::*;
use crate::engine::NewOmega;
use crate::moves::Move;
use crate::outcome::FightResult;
use crate::ship::{catalog_usable, prepare_ships, stock_catalog, Ship, MAX_SHIPS};
use crate::simulator::{bounded, fought, losses_within};

verus! {

/// A battle engine with a catalog of ship types. The catalog starts as the
/// stock catalog and only grows.
pub struct NewOmegaGame {
    /// The engine that fights the battles.
    pub new_omega: NewOmega,
    /// The catalog. Battles are fought with its first `MAX_SHIPS` entries.
    pub ships: Vec<Ship>,
}

impl NewOmegaGame {
    /// Whether battles can be fought with the catalog.
    pub open spec fn well_formed(&self) -> bool {
        catalog_usable(self.ships@)
    }

    /// Makes a game with the stock catalog.
    pub fn new(new_omega: NewOmega) -> (game: Self)
        ensures
            game.new_omega == new_omega,
            game.ships@ == stock_catalog(),
            game.well_formed(),
    {
        NewOmegaGame { new_omega, ships: prepare_ships() }
    }

    /// Adds a ship type at the end of the catalog.
    pub fn add_ship(
        &mut self,
        cp: u16,
        hp: u16,
        attack_base: u16,
        attack_variable: u16,
        defence: u16,
        speed: u8,
        range: u8,
    )
        ensures
            final(self).ships@ == old(self).ships@.push(
                Ship { cp, hp, attack_base, attack_variable, defence, speed, range },
            ),
            final(self).new_omega == old(self).new_omega,
            old(self).well_formed() ==> final(self).well_formed(),
    {
        self.ships.push(Ship { cp, hp, attack_base, attack_variable, defence, speed, range });
    }

    /// Returns a copy of the catalog.
    pub fn get_ships(&self) -> (ships: Vec<Ship>)
        ensures
            ships@ == self.ships@,
    {
        let ships: Vec<Ship> = self.ships.clone();
        assert(ships@ =~= self.ships@);
        ships
    }

    /// Fights a battle with the catalog of the game.
    pub fn fight(
        &self,
        seed: u64,
        log_moves: bool,
        selection_lhs: [u8; MAX_SHIPS],
        selection_rhs: [u8; MAX_SHIPS],
        variants_lhs: [u8; MAX_SHIPS],
        variants_rhs: [u8; MAX_SHIPS],
        commander_lhs: u8,
        commander_rhs: u8,
    ) -> (out: (FightResult, Option<Vec<Move>>, Option<Vec<Move>>))
        requires
            self.well_formed(),
        ensures
            fought(
                seed,
                log_moves,
                self.ships@,
                selection_lhs@,
                selection_rhs@,
                variants_lhs@,
                variants_rhs@,
                commander_lhs,
                commander_rhs,
                out,
            ),
            bounded(out),
            losses_within(out.0, selection_lhs@, selection_rhs@),
    {
        self.new_omega.fight(
            seed,
            log_moves,
            self.get_ships(),
            selection_lhs,
            selection_rhs,
            variants_lhs,
            variants_rhs,
            commander_lhs,
            commander_rhs,
        )
    }
}

} // verus!
