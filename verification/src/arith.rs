//! Arithmetic of the battle board.
//!
//! Stats, reach, distance, damage, pools and losses are computed over the
//! integers: nothing in them ever wraps. A pool is kept in an `i32` and stops
//! falling at the lowest value of its type, far below the point where its
//! slot is destroyed.
//!
//! A board coordinate is an `i8`. A slot that moves off one end of the board
//! comes back at the other: its coordinate is reduced modulo the size of the
//! type, so that a battle is defined for every input.

use vstd::prelude::*;

verus! {

/// `x` reduced into `-128 ..= 127`.
pub open spec fn wrap_i8(x: int) -> i8 {
    ((x + 0x80) % 0x100 - 0x80) as i8
}

/// `x`, but not below the lowest value of an `i32`.
pub open spec fn floored(x: int) -> int {
    if x < i32::MIN {
        i32::MIN as int
    } else {
        x
    }
}

/// Distance between two integers.
pub open spec fn abs_diff(a: int, b: int) -> int {
    if a >= b {
        a - b
    } else {
        b - a
    }
}

/// The bits of a `u8` read as an `i8`.
pub proof fn lemma_u8_as_i8(x: u8)
    ensures
        (x as i8) == wrap_i8(x as int),
{
    assert(x < 128 ==> (x as i8) == x) by (bit_vector);
    assert(x >= 128 ==> (x as i8) == x - 256) by (bit_vector);
}

/// Moves a board position by `step` fields, towards lower coordinates when
/// `towards_negative` is set and towards higher ones otherwise.
pub fn shifted(position: i8, step: u8, towards_negative: bool) -> (moved: i8)
    ensures
        moved == wrap_i8(
            if towards_negative {
                position - step
            } else {
                position + step
            },
        ),
{
    proof {
        lemma_u8_as_i8(step);
    }
    let signed_step: i8 = step as i8;
    if towards_negative {
        position.wrapping_sub(signed_step)
    } else {
        position.wrapping_add(signed_step)
    }
}

/// Takes `damage` hit points out of `pool`. The pool falls by exactly the
/// damage, down to the lowest value of its type.
pub fn drained(pool: i32, damage: u32) -> (left: i32)
    ensures
        left == floored(pool - damage),
        left <= pool,
{
    let wide: i64 = (pool as i64) - (damage as i64);
    if wide < (i32::MIN as i64) {
        i32::MIN
    } else {
        wide as i32
    }
}

/// Distance between two board positions.
pub open spec fn distance(from: i8, to: i8) -> int {
    abs_diff(from as int, to as int)
}

/// Computes [`distance`].
pub fn distance_between(from: i8, to: i8) -> (d: u8)
    ensures
        d == distance(from, to),
{
    let gap: i16 = (from as i16) - (to as i16);
    if gap >= 0 {
        gap as u8
    } else {
        (-gap) as u8
    }
}

} // verus!
