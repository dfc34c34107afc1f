//! The rules of a small role-playing game whose every action is paid for.
//!
//! A game, its players and their monsters are records at addresses that
//! anyone can derive from what the record is a record of. Every action of a
//! player is charged to the player's owner; what was charged is held by the
//! player's record until a settlement sweeps it to the treasury of the game.
//!
//! - `address`: addresses, the seeds of each kind of record, and the
//!   derivation of an address from seeds.
//! - `state`, `status`: the records.
//! - `account`: a record with its address and the balance behind it.
//! - `economy`: charging a player, and settling with the treasury.
//! - `game`, `player`, `monster`, `combat`: what each operation makes of the
//!   accounts it is handed.
//! - `ledger`: a store of records and balances, and what holds of it whatever
//!   was done.
//! - `program`: the five operations on a ledger, each all or nothing.
//! - `laws`: what follows of the operations, proved.
//! - `addressing`: what the seeds tell apart, and what holds where every
//!   record is at the address that its seeds give, proved.

pub mod account;
pub mod address;
pub mod addressing;
pub mod combat;
pub mod economy;
pub mod error;
pub mod game;
pub mod laws;
pub mod ledger;
pub mod monster;
pub mod player;
pub mod program;
pub mod state;
pub mod status;

pub use crate::account::{Account, Wallet};
pub use crate::address::Address;
pub use crate::combat::{run_attack_monster, AttackMonster};
pub use crate::economy::{run_collect_action_points, spend_action_points, CollectActionPoints};
pub use crate::error::EngineError;
pub use crate::game::{run_create_game, CreateGame};
pub use crate::ledger::Ledger;
pub use crate::monster::{run_spawn_monster, CreateMonster};
pub use crate::player::{run_create_player, CreatePlayer};
pub use crate::program::{
    attack_monster, create_game, create_player, deposit_action_points, spawn_monster,
};
pub use crate::state::{Game, GameConfig, InventoryItem, Monster, Player};
pub use crate::status::StatusFlags;
