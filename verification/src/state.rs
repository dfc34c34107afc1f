use crate::address::Address;
use crate::status::StatusFlags;
use vstd::prelude::*;

verus! {

/// The configuration of a game, fixed when the game is created.
#[derive(Clone, Copy, Debug, PartialEq, Eq)]
pub struct GameConfig {
    /// How many items the inventory of a player of this game may hold.
    pub max_items_per_player: u8,
    /// Padding that keeps the record's layout stable; no operation reads it.
    pub for_future_use: [u64; 16],
}

/// A game: who made it, who receives what its players spend, and how much has
/// been received so far.
#[derive(Clone, Copy, Debug, PartialEq, Eq)]
pub struct Game {
    pub game_master: Address,
    pub treasury: Address,
    /// The sum of all settlements so far.
    pub action_points_collected: u64,
    pub game_config: GameConfig,
}

/// One kind of item in a player's inventory.
#[derive(Clone, Copy, Debug, PartialEq, Eq)]
pub struct InventoryItem {
    pub name: [u8; 32],
    pub amount: u64,
    /// Padding that keeps the record's layout stable; no operation reads it.
    pub for_future_use: [u8; 128],
}

/// A player: one owner in one game.
#[derive(Debug, PartialEq, Eq)]
pub struct Player {
    /// The owner of this player.
    pub player: Address,
    pub game: Address,
    /// All action points this player was ever charged.
    pub action_points_spent: u64,
    /// The part of them that no settlement has swept yet.
    pub action_points_to_be_collected: u64,
    pub status_flag: StatusFlags,
    pub experience: u64,
    pub kills: u64,
    /// The index that the next monster of this player gets.
    pub next_monster_index: u64,
    /// Padding that keeps the record's layout stable; no operation reads it.
    pub for_future_use: [u8; 256],
    pub inventory: Vec<InventoryItem>,
}

/// What a player record says, the inventory taken as the sequence of its items.
pub struct PlayerView {
    pub player: Address,
    pub game: Address,
    pub action_points_spent: u64,
    pub action_points_to_be_collected: u64,
    pub status_flag: StatusFlags,
    pub experience: u64,
    pub kills: u64,
    pub next_monster_index: u64,
    pub for_future_use: [u8; 256],
    pub inventory: Seq<InventoryItem>,
}

/// A monster: it belongs to one player of one game.
#[derive(Clone, Copy, Debug, PartialEq, Eq)]
pub struct Monster {
    /// The owner of the player this monster belongs to.
    pub player: Address,
    pub game: Address,
    /// Never below zero: a dead monster stays at zero.
    pub hitpoints: u64,
}

/// The hitpoints of a monster when it is spawned.
pub const SPAWN_HITPOINTS: u64 = 100;

impl GameConfig {
    /// The configuration in a freshly allocated record: all zero.
    pub open spec fn spec_blank() -> GameConfig {
        GameConfig {
            max_items_per_player: 0,
            for_future_use: vstd::array::spec_array_fill_for_copy_type::<u64, 16>(0u64),
        }
    }
}

impl Game {
    /// A game record as it is allocated, before a game is written to it: all
    /// zero.
    pub open spec fn spec_blank() -> Game {
        Game {
            game_master: Address::spec_zero(),
            treasury: Address::spec_zero(),
            action_points_collected: 0,
            game_config: GameConfig::spec_blank(),
        }
    }

    pub fn blank() -> (r: Game)
        ensures
            r == Game::spec_blank(),
    {
        Game {
            game_master: Address::zero(),
            treasury: Address::zero(),
            action_points_collected: 0,
            game_config: GameConfig { max_items_per_player: 0, for_future_use: [0u64; 16] },
        }
    }
}

impl PlayerView {
    /// What is spent covers what is still to be collected.
    pub open spec fn well_formed(self) -> bool {
        self.action_points_spent >= self.action_points_to_be_collected
    }

    /// A player as it enters a game: nothing spent, no experience, no kills, no
    /// monster yet, no status effect, an empty inventory.
    pub open spec fn entering(owner: Address, game: Address, for_future_use: [u8; 256]) -> PlayerView {
        PlayerView {
            player: owner,
            game,
            action_points_spent: 0,
            action_points_to_be_collected: 0,
            status_flag: StatusFlags::spec_none(),
            experience: 0,
            kills: 0,
            next_monster_index: 0,
            for_future_use,
            inventory: Seq::empty(),
        }
    }

    /// A player record as it is allocated, before a player is written to it:
    /// all zero, the inventory empty.
    pub open spec fn blank() -> PlayerView {
        PlayerView::entering(
            Address::spec_zero(),
            Address::spec_zero(),
            vstd::array::spec_array_fill_for_copy_type::<u8, 256>(0u8),
        )
    }
}

impl View for Player {
    type V = PlayerView;

    open spec fn view(&self) -> PlayerView {
        PlayerView {
            player: self.player,
            game: self.game,
            action_points_spent: self.action_points_spent,
            action_points_to_be_collected: self.action_points_to_be_collected,
            status_flag: self.status_flag,
            experience: self.experience,
            kills: self.kills,
            next_monster_index: self.next_monster_index,
            for_future_use: self.for_future_use,
            inventory: self.inventory@,
        }
    }
}

impl Player {
    /// What is spent covers what is still to be collected.
    pub open spec fn well_formed(&self) -> bool {
        self@.well_formed()
    }

    pub fn blank() -> (r: Player)
        ensures
            r@ == PlayerView::blank(),
    {
        Player {
            player: Address::zero(),
            game: Address::zero(),
            action_points_spent: 0,
            action_points_to_be_collected: 0,
            status_flag: StatusFlags::none(),
            experience: 0,
            kills: 0,
            next_monster_index: 0,
            for_future_use: [0u8; 256],
            inventory: Vec::new(),
        }
    }
}

impl Monster {
    /// A monster record as it is allocated, before a monster is written to it:
    /// all zero.
    pub open spec fn spec_blank() -> Monster {
        Monster { player: Address::spec_zero(), game: Address::spec_zero(), hitpoints: 0 }
    }

    pub fn blank() -> (r: Monster)
        ensures
            r == Monster::spec_blank(),
    {
        Monster { player: Address::zero(), game: Address::zero(), hitpoints: 0 }
    }
}

} // verus!
