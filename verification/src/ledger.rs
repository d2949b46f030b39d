//! The ledger of player progress, entry by entry: standings on the ranked
//! leaderboard, experience of commanders, and who may write to either.
//!
//! The entries themselves are kept elsewhere. The functions here take an entry
//! as it was read, or all of them as a list, and return what to write or to
//! report.

use vstd::prelude::*;

verus! {

/// Length of an account identifier in bytes.
pub const ACCOUNT_BYTES: usize = 32;

/// Progress of one commander of one player.
#[derive(Clone, Copy, Debug, PartialEq, Eq)]
pub struct CommanderData {
    /// Experience points.
    pub xp: u32,
}

/// Standing of one player on the ranked leaderboard.
#[derive(Clone, Copy, Debug, PartialEq, Eq)]
pub struct PlayerData {
    /// Ranked fights won.
    pub ranked_wins: u32,
    /// Ranked fights lost.
    pub ranked_losses: u32,
}

impl Default for CommanderData {
    /// A commander without experience.
    fn default() -> (fresh: Self)
        ensures
            fresh == (CommanderData { xp: 0 }),
    {
        CommanderData { xp: 0 }
    }
}

impl Default for PlayerData {
    /// A player who has fought no ranked fight.
    fn default() -> (fresh: Self)
        ensures
            fresh == (PlayerData { ranked_wins: 0, ranked_losses: 0 }),
    {
        PlayerData { ranked_wins: 0, ranked_losses: 0 }
    }
}

/// The standing that an entry stands for: a player without an entry has
/// fought no ranked fight.
pub open spec fn standing_of(entry: Option<PlayerData>) -> PlayerData {
    match entry {
        Some(standing) => standing,
        None => PlayerData { ranked_wins: 0, ranked_losses: 0 },
    }
}

/// The progress that an entry stands for: a commander without an entry has no
/// experience.
pub open spec fn progress_of(entry: Option<CommanderData>) -> CommanderData {
    match entry {
        Some(progress) => progress,
        None => CommanderData { xp: 0 },
    }
}

/// The standing of a player whose entry reads `entry`.
pub fn ensure_player(entry: Option<PlayerData>) -> (standing: PlayerData)
    ensures
        standing == standing_of(entry),
{
    match entry {
        Some(standing) => standing,
        None => PlayerData::default(),
    }
}

/// The standing to write for a player who has won a ranked fight.
pub fn mark_ranked_win(entry: Option<PlayerData>) -> (standing: PlayerData)
    requires
        standing_of(entry).ranked_wins < u32::MAX,
    ensures
        standing.ranked_wins == standing_of(entry).ranked_wins + 1,
        standing.ranked_losses == standing_of(entry).ranked_losses,
{
    let before: PlayerData = ensure_player(entry);
    PlayerData { ranked_wins: before.ranked_wins + 1, ranked_losses: before.ranked_losses }
}

/// The standing to write for a player who has lost a ranked fight.
pub fn mark_ranked_loss(entry: Option<PlayerData>) -> (standing: PlayerData)
    requires
        standing_of(entry).ranked_losses < u32::MAX,
    ensures
        standing.ranked_wins == standing_of(entry).ranked_wins,
        standing.ranked_losses == standing_of(entry).ranked_losses + 1,
{
    let before: PlayerData = ensure_player(entry);
    PlayerData { ranked_wins: before.ranked_wins, ranked_losses: before.ranked_losses + 1 }
}

/// The progress to write for a commander who has gained `amount` experience.
pub fn add_commander_xp(entry: Option<CommanderData>, amount: u32) -> (progress: CommanderData)
    requires
        progress_of(entry).xp + amount <= u32::MAX,
    ensures
        progress.xp == progress_of(entry).xp + amount,
{
    let before: CommanderData = match entry {
        Some(progress) => progress,
        None => CommanderData::default(),
    };
    CommanderData { xp: before.xp + amount }
}

/// Whether two account identifiers are the same.
pub fn same_account(one: &[u8; ACCOUNT_BYTES], other: &[u8; ACCOUNT_BYTES]) -> (same: bool)
    ensures
        same == (one@ == other@),
{
    let mut i: usize = 0;
    while i < ACCOUNT_BYTES
        invariant
            i <= ACCOUNT_BYTES,
            forall|j: int| 0 <= j < i ==> one@[j] == other@[j],
        decreases ACCOUNT_BYTES - i,
    {
        if one[i] != other[i] {
            return false;
        }
        i += 1;
    }
    assert(one@ =~= other@);
    true
}

/// Whether `caller` is one of `owners`.
pub open spec fn is_owner(owners: Seq<[u8; ACCOUNT_BYTES]>, caller: [u8; ACCOUNT_BYTES]) -> bool {
    exists|i: int| 0 <= i < owners.len() && (#[trigger] owners[i])@ == caller@
}

/// Whether `caller` may write to the ledger: only its owners may.
pub fn authorised(owners: &Vec<[u8; ACCOUNT_BYTES]>, caller: &[u8; ACCOUNT_BYTES]) -> (allowed:
    bool)
    ensures
        allowed == is_owner(owners@, *caller),
{
    let mut i: usize = 0;
    while i < owners.len()
        invariant
            i <= owners.len(),
            forall|j: int| 0 <= j < i ==> (#[trigger] owners@[j])@ != caller@,
        decreases owners.len() - i,
    {
        if same_account(&owners[i], caller) {
            return true;
        }
        i += 1;
    }
    false
}

/// The commanders of `caller` among `entries`, each with its progress, in the
/// order of the entries.
pub open spec fn commanders_of(
    entries: Seq<([u8; ACCOUNT_BYTES], u8, CommanderData)>,
    caller: [u8; ACCOUNT_BYTES],
) -> Seq<(u8, CommanderData)>
    decreases entries.len(),
{
    if entries.len() == 0 {
        Seq::empty()
    } else {
        let earlier = commanders_of(entries.drop_last(), caller);
        let entry = entries.last();
        if entry.0@ == caller@ {
            earlier.push((entry.1, entry.2))
        } else {
            earlier
        }
    }
}

/// Lists the commanders of `caller` among `entries`.
pub fn get_commanders(
    entries: &Vec<([u8; ACCOUNT_BYTES], u8, CommanderData)>,
    caller: &[u8; ACCOUNT_BYTES],
) -> (owned: Vec<(u8, CommanderData)>)
    ensures
        owned@ == commanders_of(entries@, *caller),
{
    let mut owned: Vec<(u8, CommanderData)> = Vec::new();
    let mut i: usize = 0;
    assert(entries@.take(0) =~= Seq::empty());
    while i < entries.len()
        invariant
            i <= entries.len(),
            owned@ == commanders_of(entries@.take(i as int), *caller),
        decreases entries.len() - i,
    {
        let entry: &([u8; ACCOUNT_BYTES], u8, CommanderData) = &entries[i];
        proof {
            let upto = entries@.take(i + 1);
            assert(upto.drop_last() =~= entries@.take(i as int));
            assert(upto.last() == entries@[i as int]);
        }
        if same_account(&entry.0, caller) {
            owned.push((entry.1, entry.2));
        }
        i += 1;
    }
    assert(entries@.take(entries@.len() as int) =~= entries@);
    owned
}

} // verus!
