//! Ship types and the catalog a battle is fought with.

use vstd::prelude::*;

verus! {

/// Number of ship types, and so of slots in every per-fleet array.
pub const MAX_SHIPS: usize = 4;

/// Upper bound on the rounds of one battle.
pub const MAX_ROUNDS: usize = 50;

/// Amount by which a fitting raises one stat and lowers the other.
pub const FIT_TO_STAT: u16 = 20;

/// One ship type. A battle reads it and never changes it.
#[derive(Clone, Copy, Debug, PartialEq, Eq)]
pub struct Ship {
    /// Command power, by which fleets are weighed.
    pub cp: u16,
    /// Hit points of one unit.
    pub hp: u16,
    /// Base attack.
    pub attack_base: u16,
    /// Modulus of the seed-derived attack bonus.
    pub attack_variable: u16,
    /// Defence.
    pub defence: u16,
    /// Fields a unit can move in one round.
    pub speed: u8,
    /// Fields a unit can shoot across.
    pub range: u8,
}

/// A ship type a battle can be fought with: both stats that a battle divides
/// by are positive.
pub open spec fn ship_usable(ship: Ship) -> bool {
    ship.hp > 0 && ship.attack_variable > 0
}

/// A catalog a battle can be fought with: it defines each of the `MAX_SHIPS`
/// slots by a usable ship type. Entries past the slots are never read.
pub open spec fn catalog_usable(ships: Seq<Ship>) -> bool {
    &&& ships.len() >= MAX_SHIPS
    &&& forall|i: int| 0 <= i < MAX_SHIPS ==> ship_usable(#[trigger] ships[i])
}

/// Checks whether a battle can be fought with `ships`.
pub fn usable(ships: &[Ship]) -> (fit: bool)
    ensures
        fit == catalog_usable(ships@),
{
    if ships.len() < MAX_SHIPS {
        return false;
    }
    let mut i: usize = 0;
    while i < MAX_SHIPS
        invariant
            i <= MAX_SHIPS,
            ships@.len() >= MAX_SHIPS,
            forall|j: int| 0 <= j < i ==> ship_usable(#[trigger] ships@[j]),
        decreases MAX_SHIPS - i,
    {
        if ships[i].hp == 0 || ships[i].attack_variable == 0 {
            assert(!ship_usable(ships@[i as int]));
            return false;
        }
        i += 1;
    }
    true
}

/// The stock catalog, smallest ship first.
pub open spec fn stock_catalog() -> Seq<Ship> {
    seq![
        Ship { cp: 1, hp: 120, attack_base: 80, attack_variable: 20, defence: 20, speed: 4, range: 4 },
        Ship { cp: 3, hp: 150, attack_base: 65, attack_variable: 20, defence: 30, speed: 3, range: 8 },
        Ship { cp: 4, hp: 220, attack_base: 65, attack_variable: 20, defence: 35, speed: 2, range: 15 },
        Ship { cp: 10, hp: 450, attack_base: 80, attack_variable: 20, defence: 40, speed: 1, range: 30 },
    ]
}

/// Builds the stock catalog.
pub fn prepare_ships() -> (ships: Vec<Ship>)
    ensures
        ships@ == stock_catalog(),
        catalog_usable(ships@),
{
    let mut ships: Vec<Ship> = Vec::new();
    ships.push(
        Ship { cp: 1, hp: 120, attack_base: 80, attack_variable: 20, defence: 20, speed: 4, range: 4 },
    );
    ships.push(
        Ship { cp: 3, hp: 150, attack_base: 65, attack_variable: 20, defence: 30, speed: 3, range: 8 },
    );
    ships.push(
        Ship { cp: 4, hp: 220, attack_base: 65, attack_variable: 20, defence: 35, speed: 2, range: 15 },
    );
    ships.push(
        Ship { cp: 10, hp: 450, attack_base: 80, attack_variable: 20, defence: 40, speed: 1, range: 30 },
    );
    assert(ships@ =~= stock_catalog());
    ships
}

} // verus!
