//! Targeting: which enemy slot a slot engages, and how far it must advance.

use vstd::prelude::*;
use crate::arith::{distance, distance_between};
use crate::ship::{Ship, MAX_SHIPS};

verus! {

/// How far from itself a ship can engage within one round: its range and its
/// speed together.
pub open spec fn reach(ship: Ship) -> int {
    ship.range + ship.speed
}

/// Whether the slot `own_slot` can engage the enemy slot `candidate`.
///
/// The candidate must stand within the acting ship's reach. The pool that must
/// be positive is the enemy's pool in the slot of the *acting* ship, not in the
/// candidate's: a slot engages only while its counterpart is alive, and may
/// then engage a slot that is already destroyed.
pub open spec fn viable(
    ships: Seq<Ship>,
    own_slot: int,
    own_positions: Seq<i8>,
    enemy_positions: Seq<i8>,
    enemy_pools: Seq<i32>,
    candidate: int,
) -> bool {
    &&& distance(own_positions[own_slot], enemy_positions[candidate]) <= reach(ships[own_slot])
    &&& enemy_pools[own_slot] > 0
}

/// Fields the slot `own_slot` must advance to bring `target` into its bare
/// range: none if it is within range already.
pub open spec fn advance_needed(
    ships: Seq<Ship>,
    own_slot: int,
    own_positions: Seq<i8>,
    enemy_positions: Seq<i8>,
    target: int,
) -> u8 {
    let gap = distance(own_positions[own_slot], enemy_positions[target]);
    if gap > ships[own_slot].range {
        (gap - ships[own_slot].range) as u8
    } else {
        0
    }
}

/// The highest viable enemy slot below `upto`, if there is one.
pub open spec fn highest_viable_below(
    ships: Seq<Ship>,
    own_slot: int,
    own_positions: Seq<i8>,
    enemy_positions: Seq<i8>,
    enemy_pools: Seq<i32>,
    upto: int,
) -> Option<int>
    decreases upto,
{
    if upto <= 0 {
        None
    } else if viable(ships, own_slot, own_positions, enemy_positions, enemy_pools, upto - 1) {
        Some(upto - 1)
    } else {
        highest_viable_below(ships, own_slot, own_positions, enemy_positions, enemy_pools, upto - 1)
    }
}

/// The slot that `own_slot` engages, with the advance this takes: the highest
/// viable enemy slot, so that bigger ship types are engaged first. `None` when
/// no enemy slot is viable.
pub open spec fn target_of(
    ships: Seq<Ship>,
    own_slot: int,
    own_positions: Seq<i8>,
    enemy_positions: Seq<i8>,
    enemy_pools: Seq<i32>,
) -> Option<(u8, u8)> {
    match highest_viable_below(
        ships,
        own_slot,
        own_positions,
        enemy_positions,
        enemy_pools,
        MAX_SHIPS as int,
    ) {
        None => None,
        Some(target) => Some(
            (
                target as u8,
                advance_needed(ships, own_slot, own_positions, enemy_positions, target),
            ),
        ),
    }
}

/// `highest_viable_below` finds a viable slot below `upto` above which, below
/// `upto`, none is viable; it finds none only where none is viable.
pub proof fn lemma_highest_viable(
    ships: Seq<Ship>,
    own_slot: int,
    own_positions: Seq<i8>,
    enemy_positions: Seq<i8>,
    enemy_pools: Seq<i32>,
    upto: int,
)
    ensures
        match highest_viable_below(
            ships,
            own_slot,
            own_positions,
            enemy_positions,
            enemy_pools,
            upto,
        ) {
            Some(target) => {
                &&& 0 <= target < upto
                &&& viable(ships, own_slot, own_positions, enemy_positions, enemy_pools, target)
                &&& forall|e: int|
                    target < e < upto ==> !viable(
                        ships,
                        own_slot,
                        own_positions,
                        enemy_positions,
                        enemy_pools,
                        e,
                    )
            },
            None => forall|e: int|
                0 <= e < upto ==> !viable(
                    ships,
                    own_slot,
                    own_positions,
                    enemy_positions,
                    enemy_pools,
                    e,
                ),
        },
    decreases upto,
{
    if upto > 0 && !viable(ships, own_slot, own_positions, enemy_positions, enemy_pools, upto - 1) {
        lemma_highest_viable(ships, own_slot, own_positions, enemy_positions, enemy_pools, upto - 1);
    }
}

/// Picks the target of the slot `own_slot`.
///
/// Returns the engaged slot and the advance towards it, or `None` when no
/// enemy slot is viable and the slot can only reposition.
pub fn select_target(
    ships: &[Ship],
    own_slot: u8,
    own_positions: &[i8; MAX_SHIPS],
    enemy_positions: &[i8; MAX_SHIPS],
    enemy_pools: &[i32; MAX_SHIPS],
) -> (choice: Option<(u8, u8)>)
    requires
        own_slot < MAX_SHIPS,
        own_slot < ships@.len(),
    ensures
        choice == target_of(
            ships@,
            own_slot as int,
            own_positions@,
            enemy_positions@,
            enemy_pools@,
        ),
        match choice {
            Some((target, advance)) => {
                &&& target < MAX_SHIPS
                &&& viable(
                    ships@,
                    own_slot as int,
                    own_positions@,
                    enemy_positions@,
                    enemy_pools@,
                    target as int,
                )
                &&& forall|e: int|
                    target < e < MAX_SHIPS ==> !viable(
                        ships@,
                        own_slot as int,
                        own_positions@,
                        enemy_positions@,
                        enemy_pools@,
                        e,
                    )
                &&& advance == advance_needed(
                    ships@,
                    own_slot as int,
                    own_positions@,
                    enemy_positions@,
                    target as int,
                )
                &&& advance <= ships@[own_slot as int].speed
            },
            None => forall|e: int|
                0 <= e < MAX_SHIPS ==> !viable(
                    ships@,
                    own_slot as int,
                    own_positions@,
                    enemy_positions@,
                    enemy_pools@,
                    e,
                ),
        },
{
    let slot: usize = own_slot as usize;
    let ship: Ship = ships[slot];
    let position: i8 = own_positions[slot];
    let within: u16 = (ship.range as u16) + (ship.speed as u16);
    let counterpart_alive: bool = enemy_pools[slot] > 0;
    let mut upto: usize = MAX_SHIPS;
    while upto > 0
        invariant
            upto <= MAX_SHIPS,
            slot == own_slot,
            slot < MAX_SHIPS,
            slot < ships@.len(),
            ship == ships@[slot as int],
            position == own_positions@[slot as int],
            within == reach(ship),
            counterpart_alive == (enemy_pools@[slot as int] > 0),
            highest_viable_below(
                ships@,
                own_slot as int,
                own_positions@,
                enemy_positions@,
                enemy_pools@,
                MAX_SHIPS as int,
            ) == highest_viable_below(
                ships@,
                own_slot as int,
                own_positions@,
                enemy_positions@,
                enemy_pools@,
                upto as int,
            ),
        decreases upto,
    {
        let candidate: usize = upto - 1;
        let gap: u8 = distance_between(position, enemy_positions[candidate]);
        if (gap as u16) <= within && counterpart_alive {
            let advance: u8 = if gap > ship.range {
                gap - ship.range
            } else {
                0
            };
            proof {
                assert(advance <= ship.speed);
                lemma_highest_viable(
                    ships@,
                    own_slot as int,
                    own_positions@,
                    enemy_positions@,
                    enemy_pools@,
                    MAX_SHIPS as int,
                );
                assert(viable(
                    ships@,
                    own_slot as int,
                    own_positions@,
                    enemy_positions@,
                    enemy_pools@,
                    candidate as int,
                ));
            }
            return Some((candidate as u8, advance));
        }
        assert(!viable(
            ships@,
            own_slot as int,
            own_positions@,
            enemy_positions@,
            enemy_pools@,
            candidate as int,
        ));
        upto = candidate;
    }
    proof {
        lemma_highest_viable(
            ships@,
            own_slot as int,
            own_positions@,
            enemy_positions@,
            enemy_pools@,
            MAX_SHIPS as int,
        );
    }
    None
}

} // verus!
