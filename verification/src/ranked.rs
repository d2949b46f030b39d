//! Ranked fights: an attack on a registered defence, and what it settles.

use vstd::prelude::*;
use crate::moves::Move;
use crate::outcome::{outcome_of, FightResult, FightResultView};
use crate::ship::{catalog_usable, Ship, MAX_SHIPS};
use crate::simulator::fight;

verus! {

/// Experience that a ranked win gives to the winner's commander.
pub const XP_PER_RANKED_WIN: u32 = 1;

/// The defence that a player has registered for ranked fights.
#[derive(Clone, Debug, PartialEq, Eq)]
pub struct PlayerDefence {
    /// Units fielded, by slot.
    pub selection: [u8; MAX_SHIPS],
    /// Fittings, by slot.
    pub variants: [u8; MAX_SHIPS],
    /// Commander leading the defence.
    pub commander: u8,
    /// Name of the defender.
    pub name: String,
}

/// Who has won a ranked fight.
#[derive(Clone, Copy, Debug, PartialEq, Eq)]
pub enum Winner {
    /// The attacker was destroyed.
    Defender,
    /// The defender was destroyed and the attacker was not.
    Attacker,
    /// Neither fleet was destroyed: nothing is recorded.
    Nobody,
}

/// What a ranked fight settles: who is marked with a win and who with a
/// loss, and which commander of the winner gains experience.
#[derive(Clone, Copy, Debug, PartialEq, Eq)]
pub struct Settlement {
    /// Who won. The other side is marked with the loss.
    pub winner: Winner,
    /// Commander of the winner that gains `xp`.
    pub commander: u8,
    /// Experience gained.
    pub xp: u32,
}

/// The settlement of a fight that ended with these flags between these
/// commanders. A destroyed attacker loses even where the defender was
/// destroyed too.
pub open spec fn settlement_of(
    lhs_dead: bool,
    rhs_dead: bool,
    attacker_commander: u8,
    defender_commander: u8,
) -> Settlement {
    if lhs_dead {
        Settlement { winner: Winner::Defender, commander: defender_commander, xp: XP_PER_RANKED_WIN }
    } else if rhs_dead {
        Settlement { winner: Winner::Attacker, commander: attacker_commander, xp: XP_PER_RANKED_WIN }
    } else {
        Settlement { winner: Winner::Nobody, commander: 0, xp: 0 }
    }
}

/// Settles a fight that has been fought.
pub fn settle(result: &FightResult) -> (settlement: Settlement)
    ensures
        settlement == settlement_of(
            result.lhs_dead,
            result.rhs_dead,
            result.commander_lhs,
            result.commander_rhs,
        ),
{
    if result.lhs_dead {
        Settlement {
            winner: Winner::Defender,
            commander: result.commander_rhs,
            xp: XP_PER_RANKED_WIN,
        }
    } else if result.rhs_dead {
        Settlement {
            winner: Winner::Attacker,
            commander: result.commander_lhs,
            xp: XP_PER_RANKED_WIN,
        }
    } else {
        Settlement { winner: Winner::Nobody, commander: 0, xp: 0 }
    }
}

/// The result of an attack with these forces on `defence`.
pub open spec fn attack_outcome(
    seed: u64,
    ships: Seq<Ship>,
    selection: Seq<u8>,
    variants: Seq<u8>,
    commander: u8,
    defence: PlayerDefence,
) -> FightResultView {
    outcome_of(
        ships,
        seed,
        selection,
        defence.selection@,
        variants,
        defence.variants@,
        commander,
        defence.commander,
    )
}

/// Fights a ranked fight against the registered `defence`, without a log, and
/// settles it.
pub fn attack(
    seed: u64,
    ships: &[Ship],
    selection: [u8; MAX_SHIPS],
    variants: [u8; MAX_SHIPS],
    commander: u8,
    defence: &PlayerDefence,
) -> (out: (FightResult, Settlement))
    requires
        catalog_usable(ships@),
    ensures
        out.0@ == attack_outcome(seed, ships@, selection@, variants@, commander, *defence),
        out.1 == settlement_of(out.0.lhs_dead, out.0.rhs_dead, commander, defence.commander),
{
    let fought: (FightResult, Option<Vec<Move>>, Option<Vec<Move>>) = fight(
        seed,
        false,
        ships,
        selection,
        defence.selection,
        variants,
        defence.variants,
        commander,
        defence.commander,
    );
    let result: FightResult = fought.0;
    let settlement: Settlement = settle(&result);
    (result, settlement)
}

} // verus!
