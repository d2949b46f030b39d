//! The simulator: plays a battle and reports its result.

use vstd::prelude::*;
use crate::arith::{drained, shifted};
use crate::battle::{
    after_hit, after_moving, battle_capped, battle_of, full_pools, lemma_slots_keep_round, opening,
    over, plan, played_out, position_after, recorded, round_step, slot_step, slots_step,
    variance_terms, Action, BattleView, FleetView,
};
use crate::damage::{damage, stack_fits};
use crate::laws::lemma_fight_bounded;
use crate::pool_laws::{
    lemma_capped_pool_stack, lemma_opening_capped, lemma_slot_keeps_pools, lemma_slots_keep_pools,
};
use crate::moves::{log_move, log_shoot, Move};
use crate::outcome::{any_fielded, count_losses, fleet_dead, outcome_of, FightResult};
use crate::ship::{catalog_usable, Ship, MAX_ROUNDS, MAX_SHIPS};
use crate::targeting::select_target;

verus! {

/// One side of a running battle.
pub struct Fleet {
    /// Fitting of each slot.
    pub variants: [u8; MAX_SHIPS],
    /// Attack bonus of each slot.
    pub variance: [u16; MAX_SHIPS],
    /// Board coordinate of each slot.
    pub positions: [i8; MAX_SHIPS],
    /// Hit points of each slot.
    pub pools: [i32; MAX_SHIPS],
}

impl View for Fleet {
    type V = FleetView;

    open spec fn view(&self) -> FleetView {
        FleetView {
            variants: self.variants@,
            variance: self.variance@,
            positions: self.positions@,
            pools: self.pools@,
        }
    }
}

/// A running battle. A side's log is kept only where it was asked for.
pub struct Battle {
    pub attacker: Fleet,
    pub defender: Fleet,
    pub attacker_log: Option<Vec<Move>>,
    pub defender_log: Option<Vec<Move>>,
    pub rounds: u8,
}

impl Battle {
    /// Whether this battle stands where `view` does: the fleets and the round
    /// count agree, and each log that is kept holds the moves made so far.
    pub open spec fn tracks(&self, view: BattleView) -> bool {
        &&& self.attacker@ == view.attacker
        &&& self.defender@ == view.defender
        &&& self.rounds == view.rounds
        &&& self.attacker_log matches Some(log) ==> log@ == view.attacker_moves
        &&& self.defender_log matches Some(log) ==> log@ == view.defender_moves
    }
}

/// Decides what the slot `slot` of `own` does against `enemy`. The stack of
/// a slot that is alive can be counted in sixteen bits.
pub fn plan_action(ships: &[Ship], own: &Fleet, enemy: &Fleet, slot: u8) -> (action: Action)
    requires
        catalog_usable(ships@),
        slot < MAX_SHIPS,
        own.pools@[slot as int] > 0 ==> stack_fits(
            own.pools@[slot as int] as u32,
            ships@[slot as int].hp,
        ),
    ensures
        action == plan(ships@, own@, enemy@, slot as int),
        action matches Action::Shoot { target, .. } ==> target < MAX_SHIPS,
{
    let index: usize = slot as usize;
    if own.pools[index] <= 0 {
        return Action::Idle;
    }
    match select_target(ships, slot, &own.positions, &enemy.positions, &enemy.pools) {
        None => Action::Reposition,
        Some((target, advance)) => {
            let dealt: u32 = damage(
                &own.variance,
                &own.variants,
                &enemy.variants,
                ships,
                slot,
                target,
                own.pools[index] as u32,
            );
            Action::Shoot { target, advance, damage: dealt }
        },
    }
}

/// Moves the slot `slot` of `fleet` as `action` says and returns where it
/// then stands.
fn carry_out(
    ships: &[Ship],
    fleet: &mut Fleet,
    slot: u8,
    action: Action,
    towards_negative: bool,
) -> (now: i8)
    requires
        slot < MAX_SHIPS,
        slot < ships@.len(),
    ensures
        final(fleet)@ == after_moving(ships@, old(fleet)@, slot as int, action, towards_negative),
        now == position_after(
            ships@[slot as int],
            old(fleet)@.positions[slot as int],
            action,
            towards_negative,
        ),
{
    let index: usize = slot as usize;
    let step: u8 = match action {
        Action::Idle => 0,
        Action::Reposition => ships[index].speed,
        Action::Shoot { advance, .. } => advance,
    };
    let now: i8 = shifted(fleet.positions[index], step, towards_negative);
    fleet.positions[index] = now;
    now
}

/// Lets an enemy `action` land on `fleet`.
fn take_hit(fleet: &mut Fleet, action: Action)
    requires
        action matches Action::Shoot { target, .. } ==> target < MAX_SHIPS,
    ensures
        final(fleet)@ == after_hit(old(fleet)@, action),
{
    match action {
        Action::Shoot { target, damage, .. } => {
            let index: usize = target as usize;
            let left: i32 = drained(fleet.pools[index], damage);
            fleet.pools[index] = left;
        },
        _ => {},
    }
}

/// Appends to `log`, where one is kept, what `action` of the slot `slot`
/// leaves in it.
fn record(
    log: &mut Option<Vec<Move>>,
    round: u8,
    slot: u8,
    action: Action,
    now: i8,
    Ghost(ship): Ghost<Ship>,
    Ghost(position): Ghost<i8>,
    Ghost(towards_negative): Ghost<bool>,
)
    requires
        now == position_after(ship, position, action, towards_negative),
    ensures
        *old(log) is Some <==> *final(log) is Some,
        *final(log) matches Some(moves) ==> moves@ == old(log)->0@ + recorded(
            ship,
            position,
            slot as int,
            action,
            towards_negative,
            round as nat,
        ),
{
    match log {
        Some(moves) => {
            match action {
                Action::Idle => {
                    assert(moves@ =~= moves@ + Seq::<Move>::empty());
                },
                Action::Reposition => {
                    let ghost before = moves@;
                    log_move(round, moves, slot, now);
                    assert(moves@ =~= before + recorded(
                        ship,
                        position,
                        slot as int,
                        action,
                        towards_negative,
                        round as nat,
                    ));
                },
                Action::Shoot { target, damage, .. } => {
                    let ghost before = moves@;
                    log_shoot(round, moves, slot, target, damage, now);
                    assert(moves@ =~= before + recorded(
                        ship,
                        position,
                        slot as int,
                        action,
                        towards_negative,
                        round as nat,
                    ));
                },
            }
        },
        None => {},
    }
}

/// Gives the slot `slot` of both sides its turn.
///
/// The attacker plans first; the defender then plans and acts, and the
/// attacker acts last. Since both plan before either acts, the order of the
/// two actions does not show in the state that results.
fn resolve_slot(
    ships: &[Ship],
    battle: &mut Battle,
    slot: u8,
    Ghost(before): Ghost<BattleView>,
    Ghost(selection_lhs): Ghost<Seq<u8>>,
    Ghost(selection_rhs): Ghost<Seq<u8>>,
)
    requires
        catalog_usable(ships@),
        slot < MAX_SHIPS,
        old(battle).tracks(before),
        battle_capped(ships@, selection_lhs, selection_rhs, before),
    ensures
        final(battle).tracks(slot_step(ships@, before, slot as int)),
        battle_capped(
            ships@,
            selection_lhs,
            selection_rhs,
            slot_step(ships@, before, slot as int),
        ),
        final(battle).attacker_log is Some <==> old(battle).attacker_log is Some,
        final(battle).defender_log is Some <==> old(battle).defender_log is Some,
{
    let round: u8 = battle.rounds;
    proof {
        lemma_slot_keeps_pools(ships@, selection_lhs, selection_rhs, before, slot as int);
        if before.attacker.pools[slot as int] > 0 {
            lemma_capped_pool_stack(
                ships@[slot as int],
                selection_lhs[slot as int],
                before.attacker.pools[slot as int],
            );
        }
        if before.defender.pools[slot as int] > 0 {
            lemma_capped_pool_stack(
                ships@[slot as int],
                selection_rhs[slot as int],
                before.defender.pools[slot as int],
            );
        }
    }
    let attack: Action = plan_action(ships, &battle.attacker, &battle.defender, slot);
    let defence: Action = plan_action(ships, &battle.defender, &battle.attacker, slot);
    let ghost attacker_stood: i8 = battle.attacker.positions@[slot as int];
    let ghost defender_stood: i8 = battle.defender.positions@[slot as int];

    take_hit(&mut battle.attacker, defence);
    let defender_now: i8 = carry_out(ships, &mut battle.defender, slot, defence, false);
    record(
        &mut battle.defender_log,
        round,
        slot,
        defence,
        defender_now,
        Ghost(ships@[slot as int]),
        Ghost(defender_stood),
        Ghost(false),
    );

    take_hit(&mut battle.defender, attack);
    let attacker_now: i8 = carry_out(ships, &mut battle.attacker, slot, attack, true);
    record(
        &mut battle.attacker_log,
        round,
        slot,
        attack,
        attacker_now,
        Ghost(ships@[slot as int]),
        Ghost(attacker_stood),
        Ghost(true),
    );
    proof {
        let after = slot_step(ships@, before, slot as int);
        assert(battle.attacker@.positions =~= after.attacker.positions);
        assert(battle.attacker@.pools =~= after.attacker.pools);
        assert(battle.defender@.positions =~= after.defender.positions);
        assert(battle.defender@.pools =~= after.defender.pools);
    }
}

/// Plays one round: every slot has its turn, lowest first.
fn play_round(
    ships: &[Ship],
    battle: &mut Battle,
    Ghost(before): Ghost<BattleView>,
    Ghost(selection_lhs): Ghost<Seq<u8>>,
    Ghost(selection_rhs): Ghost<Seq<u8>>,
)
    requires
        catalog_usable(ships@),
        old(battle).tracks(before),
        old(battle).rounds < MAX_ROUNDS,
        battle_capped(ships@, selection_lhs, selection_rhs, before),
    ensures
        final(battle).tracks(round_step(ships@, before)),
        battle_capped(ships@, selection_lhs, selection_rhs, round_step(ships@, before)),
        final(battle).attacker_log is Some <==> old(battle).attacker_log is Some,
        final(battle).defender_log is Some <==> old(battle).defender_log is Some,
{
    let mut slot: u8 = 0;
    while slot < MAX_SHIPS as u8
        invariant
            slot <= MAX_SHIPS,
            catalog_usable(ships@),
            battle.rounds < MAX_ROUNDS,
            battle.tracks(slots_step(ships@, before, slot as int)),
            battle_capped(
                ships@,
                selection_lhs,
                selection_rhs,
                slots_step(ships@, before, slot as int),
            ),
            battle.attacker_log is Some <==> old(battle).attacker_log is Some,
            battle.defender_log is Some <==> old(battle).defender_log is Some,
        decreases MAX_SHIPS - slot,
    {
        resolve_slot(
            ships,
            battle,
            slot,
            Ghost(slots_step(ships@, before, slot as int)),
            Ghost(selection_lhs),
            Ghost(selection_rhs),
        );
        slot = slot + 1;
    }
    proof {
        lemma_slots_keep_round(ships@, before, MAX_SHIPS as int);
        lemma_slots_keep_pools(ships@, selection_lhs, selection_rhs, before, MAX_SHIPS as int);
    }
    battle.rounds = battle.rounds + 1;
}

/// Draws the attack bonus of each slot from `draw`.
fn draw_variance(ships: &[Ship], draw: u64) -> (terms: [u16; MAX_SHIPS])
    requires
        catalog_usable(ships@),
    ensures
        terms@ == variance_terms(ships@, draw),
{
    let mut terms: [u16; MAX_SHIPS] = [0; MAX_SHIPS];
    let mut i: usize = 0;
    while i < MAX_SHIPS
        invariant
            i <= MAX_SHIPS,
            catalog_usable(ships@),
            forall|j: int|
                0 <= j < i ==> terms@[j] == (draw as int % ships@[j].attack_variable as int) as u16,
        decreases MAX_SHIPS - i,
    {
        let term: u64 = draw % (ships[i].attack_variable as u64);
        terms[i] = term as u16;
        i += 1;
    }
    terms
}

/// Fills the pools of a fleet with the hit points of all its fielded units.
fn fill_pools(ships: &[Ship], selection: &[u8; MAX_SHIPS]) -> (pools: [i32; MAX_SHIPS])
    requires
        ships@.len() >= MAX_SHIPS,
    ensures
        pools@ == full_pools(ships@, selection@),
{
    let mut pools: [i32; MAX_SHIPS] = [0; MAX_SHIPS];
    let mut i: usize = 0;
    while i < MAX_SHIPS
        invariant
            i <= MAX_SHIPS,
            ships@.len() >= MAX_SHIPS,
            forall|j: int| 0 <= j < i ==> pools@[j] == (ships@[j].hp * selection@[j]) as i32,
        decreases MAX_SHIPS - i,
    {
        assert(ships@[i as int].hp * selection@[i as int] <= 0xffff * 0xff) by (nonlinear_arith)
            requires
                0 <= ships@[i as int].hp <= 0xffff,
                0 <= selection@[i as int] <= 0xff,
        ;
        pools[i] = (ships[i].hp as i32) * (selection[i] as i32);
        i += 1;
    }
    pools
}

/// Whether `out` is what a battle on these inputs returns: the result that
/// the inputs define and, where `log_moves` is set, the moves of both sides
/// in the order in which they were made; no log at all where it is not.
pub open spec fn fought(
    seed: u64,
    log_moves: bool,
    ships: Seq<Ship>,
    selection_lhs: Seq<u8>,
    selection_rhs: Seq<u8>,
    variants_lhs: Seq<u8>,
    variants_rhs: Seq<u8>,
    commander_lhs: u8,
    commander_rhs: u8,
    out: (FightResult, Option<Vec<Move>>, Option<Vec<Move>>),
) -> bool {
    let end = battle_of(ships, seed, selection_lhs, selection_rhs, variants_lhs, variants_rhs);
    &&& out.0@ == outcome_of(
        ships,
        seed,
        selection_lhs,
        selection_rhs,
        variants_lhs,
        variants_rhs,
        commander_lhs,
        commander_rhs,
    )
    &&& log_moves ==> out.1 is Some && out.1->0@ == end.attacker_moves
    &&& log_moves ==> out.2 is Some && out.2->0@ == end.defender_moves
    &&& !log_moves ==> out.1 is None && out.2 is None
}

/// Whether `out` is within the bounds of every battle: at most `MAX_ROUNDS`
/// rounds, and in each log at most `MAX_SHIPS` moves for each round played.
pub open spec fn bounded(out: (FightResult, Option<Vec<Move>>, Option<Vec<Move>>)) -> bool {
    &&& out.0.rounds <= MAX_ROUNDS
    &&& out.1 matches Some(moves) ==> moves@.len() <= out.0.rounds * MAX_SHIPS
    &&& out.2 matches Some(moves) ==> moves@.len() <= out.0.rounds * MAX_SHIPS
}

/// Whether no slot of `result` is reported to have lost more units than
/// its side fielded.
pub open spec fn losses_within(
    result: FightResult,
    selection_lhs: Seq<u8>,
    selection_rhs: Seq<u8>,
) -> bool {
    &&& forall|i: int|
        0 <= i < MAX_SHIPS ==> (#[trigger] result.ships_lost_lhs@[i]) <= selection_lhs[i]
    &&& forall|i: int|
        0 <= i < MAX_SHIPS ==> (#[trigger] result.ships_lost_rhs@[i]) <= selection_rhs[i]
}

/// Fights a battle.
///
/// The two fleets fight with the catalog `ships` until one of them is dead
/// or `MAX_ROUNDS` rounds have been played. The result depends on nothing but
/// the arguments.
pub fn fight(
    seed: u64,
    log_moves: bool,
    ships: &[Ship],
    selection_lhs: [u8; MAX_SHIPS],
    selection_rhs: [u8; MAX_SHIPS],
    variants_lhs: [u8; MAX_SHIPS],
    variants_rhs: [u8; MAX_SHIPS],
    commander_lhs: u8,
    commander_rhs: u8,
) -> (out: (FightResult, Option<Vec<Move>>, Option<Vec<Move>>))
    requires
        catalog_usable(ships@),
    ensures
        fought(
            seed,
            log_moves,
            ships@,
            selection_lhs@,
            selection_rhs@,
            variants_lhs@,
            variants_rhs@,
            commander_lhs,
            commander_rhs,
            out,
        ),
        bounded(out),
        losses_within(out.0, selection_lhs@, selection_rhs@),
{
    let ghost start = opening(
        ships@,
        seed,
        selection_lhs@,
        selection_rhs@,
        variants_lhs@,
        variants_rhs@,
    );
    let mut battle = Battle {
        attacker: Fleet {
            variants: variants_lhs,
            variance: draw_variance(ships, seed),
            positions: [10, 11, 12, 13],
            pools: fill_pools(ships, &selection_lhs),
        },
        defender: Fleet {
            variants: variants_rhs,
            variance: draw_variance(ships, seed / 2),
            positions: [-10, -11, -12, -13],
            pools: fill_pools(ships, &selection_rhs),
        },
        attacker_log: if log_moves {
            Some(Vec::new())
        } else {
            None
        },
        defender_log: if log_moves {
            Some(Vec::new())
        } else {
            None
        },
        rounds: 0,
    };
    assert(battle.attacker@.positions =~= start.attacker.positions);
    assert(battle.defender@.positions =~= start.defender.positions);
    proof {
        lemma_opening_capped(
            ships@,
            seed,
            selection_lhs@,
            selection_rhs@,
            variants_lhs@,
            variants_rhs@,
        );
    }
    let ghost mut current = start;
    while battle.rounds < MAX_ROUNDS as u8
        invariant
            catalog_usable(ships@),
            battle.tracks(current),
            battle_capped(ships@, selection_lhs@, selection_rhs@, current),
            battle.attacker_log is Some <==> log_moves,
            battle.defender_log is Some <==> log_moves,
            played_out(ships@, current) == played_out(ships@, start),
        ensures
            over(current),
        decreases MAX_ROUNDS - battle.rounds,
    {
        if fleet_dead(&battle.attacker.pools) || fleet_dead(&battle.defender.pools) {
            break;
        }
        play_round(
            ships,
            &mut battle,
            Ghost(current),
            Ghost(selection_lhs@),
            Ghost(selection_rhs@),
        );
        proof {
            current = round_step(ships@, current);
        }
    }
    proof {
        lemma_fight_bounded(
            ships@,
            seed,
            selection_lhs@,
            selection_rhs@,
            variants_lhs@,
            variants_rhs@,
        );
    }
    let result = FightResult {
        selection_lhs,
        selection_rhs,
        variants_lhs,
        variants_rhs,
        commander_lhs,
        commander_rhs,
        lhs_dead: any_fielded(&selection_rhs) && fleet_dead(&battle.attacker.pools),
        rhs_dead: fleet_dead(&battle.defender.pools),
        rounds: battle.rounds,
        seed,
        ships_lost_lhs: count_losses(ships, &selection_lhs, &battle.attacker.pools),
        ships_lost_rhs: count_losses(ships, &selection_rhs, &battle.defender.pools),
    };
    (result, battle.attacker_log, battle.defender_log)
}

} // verus!
