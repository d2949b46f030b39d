//! The result of a battle.

use vstd::prelude::*;
use crate::battle::{battle_of, pools_capped};
use crate::ship::{Ship, MAX_SHIPS};

verus! {

/// What a battle leaves behind: its inputs, who was destroyed, how long it
/// took and what each slot lost.
#[derive(Debug, PartialEq, Eq)]
pub struct FightResult {
    /// Units the attacker fielded, by slot.
    pub selection_lhs: [u8; MAX_SHIPS],
    /// Units the defender fielded, by slot.
    pub selection_rhs: [u8; MAX_SHIPS],
    /// Fittings of the attacker, by slot.
    pub variants_lhs: [u8; MAX_SHIPS],
    /// Fittings of the defender, by slot.
    pub variants_rhs: [u8; MAX_SHIPS],
    /// Commander of the attacker; carried through, never read.
    pub commander_lhs: u8,
    /// Commander of the defender; carried through, never read.
    pub commander_rhs: u8,
    /// Whether the attacker's fleet was destroyed by a fleet that fielded units.
    pub lhs_dead: bool,
    /// Whether the defender's fleet was destroyed.
    pub rhs_dead: bool,
    /// Rounds played.
    pub rounds: u8,
    /// Seed of the battle.
    pub seed: u64,
    /// Units the attacker lost, by slot.
    pub ships_lost_lhs: [u8; MAX_SHIPS],
    /// Units the defender lost, by slot.
    pub ships_lost_rhs: [u8; MAX_SHIPS],
}

/// A [`FightResult`] with its arrays as sequences.
pub struct FightResultView {
    pub selection_lhs: Seq<u8>,
    pub selection_rhs: Seq<u8>,
    pub variants_lhs: Seq<u8>,
    pub variants_rhs: Seq<u8>,
    pub commander_lhs: u8,
    pub commander_rhs: u8,
    pub lhs_dead: bool,
    pub rhs_dead: bool,
    pub rounds: u8,
    pub seed: u64,
    pub ships_lost_lhs: Seq<u8>,
    pub ships_lost_rhs: Seq<u8>,
}

impl View for FightResult {
    type V = FightResultView;

    open spec fn view(&self) -> FightResultView {
        FightResultView {
            selection_lhs: self.selection_lhs@,
            selection_rhs: self.selection_rhs@,
            variants_lhs: self.variants_lhs@,
            variants_rhs: self.variants_rhs@,
            commander_lhs: self.commander_lhs,
            commander_rhs: self.commander_rhs,
            lhs_dead: self.lhs_dead,
            rhs_dead: self.rhs_dead,
            rounds: self.rounds,
            seed: self.seed,
            ships_lost_lhs: self.ships_lost_lhs@,
            ships_lost_rhs: self.ships_lost_rhs@,
        }
    }
}

/// A fleet is dead when no slot of its pool array holds a positive amount.
pub open spec fn pools_dead(pools: Seq<i32>) -> bool {
    forall|i: int| 0 <= i < pools.len() ==> pools[i] <= 0
}

/// Whether a fleet fielded any unit at all.
pub open spec fn fielded_any(selection: Seq<u8>) -> bool {
    exists|i: int| 0 <= i < selection.len() && selection[i] > 0
}

/// Hit points left in a pool: a pool below zero holds none.
pub open spec fn hit_points_left(pool: i32) -> u32 {
    if pool > 0 {
        pool as u32
    } else {
        0
    }
}

/// Units that a slot lost: the hit points it lost, in whole units of its ship
/// type.
pub open spec fn units_lost(ship: Ship, fielded: u8, pool: i32) -> int {
    (fielded * ship.hp - hit_points_left(pool)) / (ship.hp as int)
}

/// Units that each slot of a fleet lost, given what it fielded and what its
/// pools hold at the end.
pub open spec fn losses(ships: Seq<Ship>, selection: Seq<u8>, pools: Seq<i32>) -> Seq<u8> {
    Seq::new(MAX_SHIPS as nat, |i: int| units_lost(ships[i], selection[i], pools[i]) as u8)
}

/// The result of the battle that these inputs define.
///
/// The defender counts as destroyed when its fleet is dead at the end. The
/// attacker counts as destroyed only when, besides, the defender fielded
/// a unit: a fleet that could never do harm destroys nothing.
pub open spec fn outcome_of(
    ships: Seq<Ship>,
    seed: u64,
    selection_lhs: Seq<u8>,
    selection_rhs: Seq<u8>,
    variants_lhs: Seq<u8>,
    variants_rhs: Seq<u8>,
    commander_lhs: u8,
    commander_rhs: u8,
) -> FightResultView {
    let end = battle_of(ships, seed, selection_lhs, selection_rhs, variants_lhs, variants_rhs);
    FightResultView {
        selection_lhs,
        selection_rhs,
        variants_lhs,
        variants_rhs,
        commander_lhs,
        commander_rhs,
        lhs_dead: fielded_any(selection_rhs) && pools_dead(end.attacker.pools),
        rhs_dead: pools_dead(end.defender.pools),
        rounds: end.rounds as u8,
        seed,
        ships_lost_lhs: losses(ships, selection_lhs, end.attacker.pools),
        ships_lost_rhs: losses(ships, selection_rhs, end.defender.pools),
    }
}

/// A slot whose pool holds no more than was fielded has lost no more units
/// than were fielded, and so no more hit points than they had. It has lost
/// all of them exactly when its pool holds nothing.
pub proof fn lemma_units_lost_within(ship: Ship, fielded: u8, pool: i32)
    requires
        ship.hp > 0,
        pool <= fielded * ship.hp,
    ensures
        0 <= units_lost(ship, fielded, pool) <= fielded,
        units_lost(ship, fielded, pool) * ship.hp <= fielded * ship.hp,
        units_lost(ship, fielded, pool) == fielded <==> pool <= 0,
{
    let left: int = hit_points_left(pool) as int;
    let lost: int = fielded * ship.hp - left;
    let hp: int = ship.hp as int;
    let f: int = fielded as int;
    assert(0 <= f * hp <= 0xff * 0xffff) by (nonlinear_arith)
        requires
            0 <= f <= 0xff,
            0 <= hp <= 0xffff,
    ;
    assert(0 <= lost <= f * hp);
    assert(0 <= lost / hp <= f) by (nonlinear_arith)
        requires
            0 <= lost <= f * hp,
            hp > 0,
    ;
    assert((lost / hp) * hp <= f * hp) by (nonlinear_arith)
        requires
            0 <= lost / hp <= f,
            hp > 0,
    ;
    assert(lost / hp == f <==> left == 0) by (nonlinear_arith)
        requires
            lost == f * hp - left,
            0 <= left <= f * hp,
            hp > 0,
    ;
}

/// Checks whether a fleet is dead.
pub fn fleet_dead(pools: &[i32; MAX_SHIPS]) -> (dead: bool)
    ensures
        dead == pools_dead(pools@),
{
    let mut dead: bool = true;
    let mut i: usize = 0;
    while i < MAX_SHIPS
        invariant
            i <= MAX_SHIPS,
            dead == (forall|j: int| 0 <= j < i ==> pools@[j] <= 0),
        decreases MAX_SHIPS - i,
    {
        if pools[i] > 0 {
            dead = false;
        }
        i += 1;
    }
    dead
}

/// Checks whether a fleet fielded any unit.
pub fn any_fielded(selection: &[u8; MAX_SHIPS]) -> (any: bool)
    ensures
        any == fielded_any(selection@),
{
    let mut any: bool = false;
    let mut i: usize = 0;
    while i < MAX_SHIPS
        invariant
            i <= MAX_SHIPS,
            any == (exists|j: int| 0 <= j < i && selection@[j] > 0),
        decreases MAX_SHIPS - i,
    {
        if selection[i] > 0 {
            any = true;
        }
        i += 1;
    }
    any
}

/// Counts the units that each slot of a fleet lost.
pub fn count_losses(
    ships: &[Ship],
    selection: &[u8; MAX_SHIPS],
    pools: &[i32; MAX_SHIPS],
) -> (lost: [u8; MAX_SHIPS])
    requires
        ships@.len() >= MAX_SHIPS,
        forall|i: int| 0 <= i < MAX_SHIPS ==> (#[trigger] ships@[i]).hp > 0,
        pools_capped(ships@, selection@, pools@),
    ensures
        lost@ == losses(ships@, selection@, pools@),
        forall|i: int| 0 <= i < MAX_SHIPS ==> (#[trigger] lost@[i]) <= selection@[i],
{
    let mut lost: [u8; MAX_SHIPS] = [0; MAX_SHIPS];
    let mut i: usize = 0;
    while i < MAX_SHIPS
        invariant
            i <= MAX_SHIPS,
            ships@.len() >= MAX_SHIPS,
            forall|k: int| 0 <= k < MAX_SHIPS ==> (#[trigger] ships@[k]).hp > 0,
            pools_capped(ships@, selection@, pools@),
            forall|j: int|
                0 <= j < i ==> (#[trigger] lost@[j]) == units_lost(
                    ships@[j],
                    selection@[j],
                    pools@[j],
                ) && lost@[j] <= selection@[j],
        decreases MAX_SHIPS - i,
    {
        assert(pools@[i as int] <= selection@[i as int] * ships@[i as int].hp) by {
            assert(pools@[i as int] <= ships@[i as int].hp * selection@[i as int]);
            assert(ships@[i as int].hp * selection@[i as int] == selection@[i as int]
                * ships@[i as int].hp) by (nonlinear_arith);
        }
        let units: u8 = count_units_lost(ships[i], selection[i], pools[i]);
        lost[i] = units;
        i += 1;
    }
    lost
}

/// Counts the units that one slot lost. The pool holds no more than the
/// slot fielded.
pub fn count_units_lost(ship: Ship, fielded: u8, pool: i32) -> (lost: u8)
    requires
        ship.hp > 0,
        pool <= fielded * ship.hp,
    ensures
        lost == units_lost(ship, fielded, pool),
        lost <= fielded,
{
    proof {
        lemma_units_lost_within(ship, fielded, pool);
    }
    let left: u32 = if pool > 0 {
        pool as u32
    } else {
        0
    };
    assert(fielded * ship.hp <= 0xff * 0xffff) by (nonlinear_arith)
        requires
            0 <= fielded <= 0xff,
            0 <= ship.hp <= 0xffff,
    ;
    let full: u32 = (fielded as u32) * (ship.hp as u32);
    let units: u32 = (full - left) / (ship.hp as u32);
    units as u8
}

} // verus!
