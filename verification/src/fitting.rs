//! Fittings: how a slot's variant shifts its attack and defence.

use vstd::prelude::*;
use crate::ship::FIT_TO_STAT;

verus! {

/// Variant of a slot that leaves both stats as they are.
pub const NEUTRAL: u8 = 0;

/// Variant of a slot that raises defence and lowers attack.
pub const DEFENSIVE: u8 = 1;

/// Variant of a slot that raises attack and lowers defence.
pub const OFFENSIVE: u8 = 2;

/// Attack of a ship of base attack `stat` under `variant`: lowered by
/// `FIT_TO_STAT` by the defensive fitting, raised by it by the offensive one.
/// A variant that is none of the three gives no attack at all.
pub open spec fn attack_stat(stat: u16, variant: u8) -> int {
    if variant == NEUTRAL {
        stat as int
    } else if variant == DEFENSIVE {
        stat - FIT_TO_STAT
    } else if variant == OFFENSIVE {
        stat + FIT_TO_STAT
    } else {
        0
    }
}

/// Defence of a ship of base defence `stat` under `variant`: raised by
/// `FIT_TO_STAT` by the defensive fitting, lowered by it by the offensive one.
/// A variant that is none of the three gives no defence at all.
pub open spec fn defence_stat(stat: u16, variant: u8) -> int {
    if variant == NEUTRAL {
        stat as int
    } else if variant == DEFENSIVE {
        stat + FIT_TO_STAT
    } else if variant == OFFENSIVE {
        stat - FIT_TO_STAT
    } else {
        0
    }
}

/// Whether a fitted stat can be held in the width of a stat.
pub open spec fn stat_fits(fitted: int) -> bool {
    0 <= fitted <= u16::MAX
}

/// Computes [`attack_stat`].
pub fn fitted_attack(stat: u16, variant: u8) -> (fitted: i32)
    ensures
        fitted == attack_stat(stat, variant),
{
    if variant == NEUTRAL {
        stat as i32
    } else if variant == DEFENSIVE {
        (stat as i32) - (FIT_TO_STAT as i32)
    } else if variant == OFFENSIVE {
        (stat as i32) + (FIT_TO_STAT as i32)
    } else {
        0
    }
}

/// Computes [`defence_stat`].
pub fn fitted_defence(stat: u16, variant: u8) -> (fitted: i32)
    ensures
        fitted == defence_stat(stat, variant),
{
    if variant == NEUTRAL {
        stat as i32
    } else if variant == DEFENSIVE {
        (stat as i32) + (FIT_TO_STAT as i32)
    } else if variant == OFFENSIVE {
        (stat as i32) - (FIT_TO_STAT as i32)
    } else {
        0
    }
}

} // verus!
