//! Damage: what one slot inflicts on another.

use vstd::prelude::*;
use crate::fitting::{attack_stat, defence_stat, fitted_attack, fitted_defence};
use crate::ship::{Ship, MAX_SHIPS};

verus! {

/// Attack of the slot `source`: its base attack under its fitting, raised by
/// the slot's variance term.
pub open spec fn effective_attack(
    variance: Seq<u16>,
    variants: Seq<u8>,
    ships: Seq<Ship>,
    source: int,
) -> int {
    attack_stat(ships[source].attack_base, variants[source]) + variance[source]
}

/// Defence of the slot `target`: its base defence under its fitting.
pub open spec fn effective_defence(variants: Seq<u8>, ships: Seq<Ship>, target: int) -> int {
    defence_stat(ships[target].defence, variants[target])
}

/// Units that a pool of `pool` hit points stands for, a damaged unit counting
/// as one more.
pub open spec fn stack_size(pool: u32, hp: u16) -> int {
    pool as int / hp as int + 1
}

/// Whether the stack that a pool stands for can be counted in sixteen bits.
/// It always can where the pool holds no more than 255 units.
pub open spec fn stack_fits(pool: u32, hp: u16) -> bool {
    stack_size(pool, hp) <= u16::MAX
}

/// Most that a stack of `stack` units can inflict on units of `target_hp` hit
/// points: what as many target units could absorb.
pub open spec fn damage_cap(stack: int, target_hp: u16) -> int {
    stack * target_hp
}

/// Whether `source` is the hard counter of `target`: the slot right above it,
/// the lowest slot countering the highest.
pub open spec fn hard_counter(source: int, target: int) -> bool {
    source - target == 1 || (source == 0 && target == MAX_SHIPS - 1)
}

/// What the attack has over the defence: nothing where it is not above it.
pub open spec fn margin(attack: int, defence: int) -> int {
    if attack > defence {
        attack - defence
    } else {
        0
    }
}

/// Damage of a stack before any bonus: the margin of attack over defence, once
/// for each unit.
pub open spec fn raw_damage(attack: int, defence: int, stack: int) -> int {
    margin(attack, defence) * stack
}

/// Damage after the hard-counter bonus, which replaces the damage by half of
/// its square.
pub open spec fn amplified(raw: int, countering: bool) -> int {
    if countering {
        raw * raw / 2
    } else {
        raw
    }
}

/// `damage` held between nothing and `cap`.
pub open spec fn clamped(damage: int, cap: int) -> int {
    if damage <= 0 {
        0
    } else if damage > cap {
        cap
    } else {
        damage
    }
}

/// Damage that the slot `source`, with `source_pool` hit points left, inflicts
/// on the enemy slot `target`.
pub open spec fn damage_of(
    variance: Seq<u16>,
    own_variants: Seq<u8>,
    target_variants: Seq<u8>,
    ships: Seq<Ship>,
    source: int,
    target: int,
    source_pool: u32,
) -> int {
    let stack = stack_size(source_pool, ships[source].hp);
    let raw = raw_damage(
        effective_attack(variance, own_variants, ships, source),
        effective_defence(target_variants, ships, target),
        stack,
    );
    clamped(amplified(raw, hard_counter(source, target)), damage_cap(stack, ships[target].hp))
}

/// A shot deals no less than nothing and no more than its cap: what as many
/// units of the target as the source has in its stack could absorb.
pub proof fn lemma_damage_within_cap(
    variance: Seq<u16>,
    own_variants: Seq<u8>,
    target_variants: Seq<u8>,
    ships: Seq<Ship>,
    source: int,
    target: int,
    source_pool: u32,
)
    requires
        ships[source].hp > 0,
    ensures
        0 <= damage_of(
            variance,
            own_variants,
            target_variants,
            ships,
            source,
            target,
            source_pool,
        ) <= damage_cap(stack_size(source_pool, ships[source].hp), ships[target].hp),
{
    let hp: int = ships[source].hp as int;
    let units: int = source_pool as int / hp;
    assert(0 <= units) by (nonlinear_arith)
        requires
            0 <= source_pool,
            hp > 0,
            units == source_pool as int / hp,
    ;
    let stack: int = units + 1;
    let target_hp: int = ships[target].hp as int;
    assert(0 <= stack * target_hp) by (nonlinear_arith)
        requires
            0 <= stack,
            0 <= target_hp,
    ;
}

/// An attack that is not above the defence deals nothing.
pub proof fn lemma_no_margin_no_damage(
    variance: Seq<u16>,
    own_variants: Seq<u8>,
    target_variants: Seq<u8>,
    ships: Seq<Ship>,
    source: int,
    target: int,
    source_pool: u32,
)
    requires
        effective_attack(variance, own_variants, ships, source) <= effective_defence(
            target_variants,
            ships,
            target,
        ),
    ensures
        damage_of(variance, own_variants, target_variants, ships, source, target, source_pool)
            == 0,
{
    let stack = stack_size(source_pool, ships[source].hp);
    assert(0 * stack == 0);
    assert(0int * 0int / 2 == 0);
}

/// Computes the damage of one shot.
pub fn damage(
    variance: &[u16; MAX_SHIPS],
    own_variants: &[u8; MAX_SHIPS],
    target_variants: &[u8; MAX_SHIPS],
    ships: &[Ship],
    source: u8,
    target: u8,
    source_pool: u32,
) -> (dealt: u32)
    requires
        source < MAX_SHIPS,
        target < MAX_SHIPS,
        source < ships@.len(),
        target < ships@.len(),
        ships@[source as int].hp > 0,
        stack_fits(source_pool, ships@[source as int].hp),
    ensures
        dealt == damage_of(
            variance@,
            own_variants@,
            target_variants@,
            ships@,
            source as int,
            target as int,
            source_pool,
        ),
{
    let from: usize = source as usize;
    let onto: usize = target as usize;
    let attack: i32 = fitted_attack(ships[from].attack_base, own_variants[from]) + (
    variance[from] as i32);
    let defence: i32 = fitted_defence(ships[onto].defence, target_variants[onto]);
    let over: u64 = if attack > defence {
        (attack - defence) as u64
    } else {
        0
    };
    let stack: u64 = (source_pool / (ships[from].hp as u32)) as u64 + 1;
    assert(stack == stack_size(source_pool, ships@[source as int].hp));
    assert(over * stack <= 0x4_0000 * 0xffff && stack * ships@[target as int].hp <= 0xffff
        * 0xffff) by (nonlinear_arith)
        requires
            0 <= over <= 0x4_0000,
            0 <= stack <= 0xffff,
            0 <= ships@[target as int].hp <= 0xffff,
    ;
    let cap: u64 = stack * (ships[onto].hp as u64);
    let raw: u64 = over * stack;
    let countering: bool = source == target + 1 || (source == 0 && target == MAX_SHIPS as u8 - 1);
    assert(raw * raw <= 0x4_0000_0000 * 0x4_0000_0000) by (nonlinear_arith)
        requires
            0 <= raw <= 0x4_0000_0000,
    ;
    let boosted: u128 = if countering {
        (raw as u128) * (raw as u128) / 2
    } else {
        raw as u128
    };
    assert(boosted == amplified(raw as int, hard_counter(source as int, target as int)));
    if boosted > (cap as u128) {
        cap as u32
    } else {
        boosted as u32
    }
}

} // verus!
