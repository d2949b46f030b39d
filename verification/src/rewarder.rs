//! Loot crates: which commander a roll of the dice yields.

use vstd::prelude::*;

verus! {

/// Experience that a loot crate gives to the commander it yields.
pub const XP_PER_LOOT_CRATE: u32 = 10;

/// Number of commanders that a loot crate can yield.
pub const MAX_COMMANDERS: u8 = 4;

/// Sides of the die that is rolled for a loot crate.
pub const MAX_ROLL: u8 = 100;

/// Price of a loot crate.
pub const LOOT_CRATE_PRICE: u128 = 1;

/// The roll of a die of `sides` sides that `seed` stands for.
pub open spec fn roll_of(seed: u64, sides: u8) -> u8 {
    (seed as int % sides as int) as u8
}

/// Rolls below this bound yield the commander `commander` or a lower one.
/// The lowest commander has the rolls below 75; each next one has the lower
/// half of what is left up to `MAX_ROLL`.
pub open spec fn window(commander: nat) -> int
    decreases commander,
{
    if commander == 0 {
        75
    } else {
        let below = window((commander - 1) as nat);
        below + (MAX_ROLL - below) / 2
    }
}

/// The lowest commander among the first `upto` whose window holds `roll`.
pub open spec fn first_window(roll: u8, upto: nat) -> Option<u8>
    decreases upto,
{
    if upto == 0 {
        None
    } else {
        match first_window(roll, (upto - 1) as nat) {
            Some(commander) => Some(commander),
            None => if roll < window((upto - 1) as nat) {
                Some((upto - 1) as u8)
            } else {
                None
            },
        }
    }
}

/// The commander that `roll` yields: the lowest whose window holds the roll,
/// and the lowest of all where no window does.
pub open spec fn commander_for(roll: u8) -> u8 {
    match first_window(roll, MAX_COMMANDERS as nat) {
        Some(commander) => commander,
        None => 0,
    }
}

/// The windows end at 75, 87, 93 and 96, so that this is what each roll
/// yields.
pub proof fn lemma_commander_windows(roll: u8)
    ensures
        window(0) == 75,
        window(1) == 87,
        window(2) == 93,
        window(3) == 96,
        commander_for(roll) == if roll < 75 {
            0u8
        } else if roll < 87 {
            1u8
        } else if roll < 93 {
            2u8
        } else if roll < 96 {
            3u8
        } else {
            0u8
        },
{
    reveal_with_fuel(window, 5);
    reveal_with_fuel(first_window, 5);
}

/// Rolls a die of `sides` sides from `seed`.
pub fn dice_roll(seed: u64, sides: u8) -> (roll: u8)
    requires
        sides > 0,
    ensures
        roll == roll_of(seed, sides),
        roll < sides,
{
    (seed % (sides as u64)) as u8
}

/// Picks the commander that `roll` yields.
pub fn pick_commander(roll: u8) -> (commander: u8)
    ensures
        commander == commander_for(roll),
        commander < MAX_COMMANDERS,
{
    let mut picked: Option<u8> = None;
    let mut bound: u8 = 75;
    let mut i: u8 = 0;
    proof {
        lemma_commander_windows(roll);
    }
    while i < MAX_COMMANDERS
        invariant
            i <= MAX_COMMANDERS,
            picked == first_window(roll, i as nat),
            picked matches Some(commander) ==> commander < MAX_COMMANDERS,
            bound == window(i as nat),
            75 <= bound <= MAX_ROLL,
        decreases MAX_COMMANDERS - i,
    {
        if picked.is_none() && roll < bound {
            picked = Some(i);
        }
        bound = bound + (MAX_ROLL - bound) / 2;
        i = i + 1;
    }
    match picked {
        Some(commander) => commander,
        None => 0,
    }
}

/// Whether `paid` pays for a loot crate.
pub fn pays_for_crate(paid: u128) -> (enough: bool)
    ensures
        enough == (paid >= LOOT_CRATE_PRICE),
{
    paid >= LOOT_CRATE_PRICE
}

/// Opens a loot crate on `seed`: rolls the die and returns the commander
/// that the roll yields, with the experience to credit to it.
pub fn buy_loot_crate(seed: u64) -> (prize: (u8, u32))
    ensures
        prize.0 == commander_for(roll_of(seed, MAX_ROLL)),
        prize.0 < MAX_COMMANDERS,
        prize.1 == XP_PER_LOOT_CRATE,
{
    let roll: u8 = dice_roll(seed, MAX_ROLL);
    (pick_commander(roll), XP_PER_LOOT_CRATE)
}

} // verus!
