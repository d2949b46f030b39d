//! Deterministic resolution of turn-based battles between two fleets.
//!
//! A battle is a function of a seed, a catalog of ship types and what the two
//! sides field: the same arguments always give the same result and the same
//! moves, within a fixed number of rounds. [`simulator::fight`] plays a
//! battle; [`battle`] says what a battle is; [`laws`] and [`pool_laws`] state
//! what holds of every battle. [`engine::NewOmega`] and
//! [`game_engine::GameEngineLibrary`] offer the simulator as engines over a
//! catalog in a vector and in an array.
//!
//! Around the simulator stand the rules of the game that is played with it:
//! the catalog of a game ([`game`]), ranked fights ([`ranked`]), loot crates
//! ([`rewarder`]), the ledger of player progress ([`ledger`]) and the
//! withdrawal of funds ([`withdraw`]).

pub mod arith;
pub mod battle;
pub mod damage;
pub mod engine;
pub mod fitting;
pub mod game;
pub mod game_engine;
pub mod laws;
pub mod ledger;
pub mod moves;
pub mod outcome;
pub mod pool_laws;
pub mod ranked;
pub mod rewarder;
pub mod ship;
pub mod simulator;
pub mod targeting;
pub mod withdraw;

pub use engine::NewOmega;
pub use game::NewOmegaGame;
pub use game_engine::GameEngineLibrary;
pub use ledger::{CommanderData, PlayerData};
pub use moves::Move;
pub use outcome::FightResult;
pub use ranked::PlayerDefence;
pub use ship::{prepare_ships, Ship, MAX_SHIPS};
pub use withdraw::RewardWithdrawError;
