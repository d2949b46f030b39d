//! Move records: what one slot did in one round.

use vstd::prelude::*;

verus! {

/// Kind of a move in which the slot shot at a target, advancing first where
/// the target stood beyond its range.
pub const SHOOT: u8 = 1;

/// Kind of a move in which the slot found no target and moved on by its speed.
pub const REPOSITION: u8 = 2;

/// One logged move of one slot.
#[derive(Clone, Copy, Debug, PartialEq, Eq)]
pub struct Move {
    /// `SHOOT` or `REPOSITION`.
    pub move_type: u8,
    /// Round of the move, counted from zero.
    pub round: u8,
    /// Slot that moved.
    pub source: u8,
    /// Slot shot at; zero for a reposition.
    pub target: u8,
    /// Position of the slot after the move.
    pub target_position: i8,
    /// Damage of the shot; zero for a reposition.
    pub damage: u32,
}

/// The record of a shot.
pub open spec fn shot(round: u8, source: u8, target: u8, damage: u32, position: i8) -> Move {
    Move { move_type: SHOOT, round, source, target, target_position: position, damage }
}

/// The record of a reposition.
pub open spec fn repositioning(round: u8, source: u8, position: i8) -> Move {
    Move { move_type: REPOSITION, round, source, target: 0, target_position: position, damage: 0 }
}

/// Appends the record of a shot to `moves`.
pub fn log_shoot(
    round: u8,
    moves: &mut Vec<Move>,
    source: u8,
    target: u8,
    damage: u32,
    position: i8,
)
    ensures
        final(moves)@ == old(moves)@.push(shot(round, source, target, damage, position)),
{
    moves.push(
        Move { move_type: SHOOT, round, source, target, target_position: position, damage },
    );
}

/// Appends the record of a reposition to `moves`.
pub fn log_move(round: u8, moves: &mut Vec<Move>, source: u8, target_position: i8)
    ensures
        final(moves)@ == old(moves)@.push(repositioning(round, source, target_position)),
{
    moves.push(
        Move { move_type: REPOSITION, round, source, target: 0, target_position, damage: 0 },
    );
}

} // verus!
