use crate::account::Account;
use crate::address::Address;
use crate::error::EngineError;
use crate::state::{Game, GameConfig};
use vstd::prelude::*;

verus! {

/// The accounts of the creation of a game: the record that will hold it, who
/// creates it, and the treasury that will receive what its players spend.
#[derive(Debug)]
pub struct CreateGame {
    pub game: Account<Game>,
    pub game_master: Address,
    pub treasury: Address,
}

impl CreateGame {
    /// The accounts after the creation: the record names the master and the
    /// treasury, has collected nothing, and allows each player
    /// `max_items_per_player` items. The padding is as it was.
    pub open spec fn created(self, max_items_per_player: u8) -> CreateGame {
        CreateGame {
            game: Account {
                key: self.game.key,
                lamports: self.game.lamports,
                data: Game {
                    game_master: self.game_master,
                    treasury: self.treasury,
                    action_points_collected: 0,
                    game_config: GameConfig {
                        max_items_per_player,
                        for_future_use: self.game.data.game_config.for_future_use,
                    },
                },
            },
            game_master: self.game_master,
            treasury: self.treasury,
        }
    }
}

/// Writes a new game to its record. Every value of `max_items_per_player` is
/// accepted, and nothing is charged: this never fails.
pub fn run_create_game(ctx: &mut CreateGame, max_items_per_player: u8) -> (r: Result<
    (),
    EngineError,
>)
    ensures
        r is Ok,
        *final(ctx) == old(ctx).created(max_items_per_player),
{
    ctx.game.data.game_master = ctx.game_master;
    ctx.game.data.treasury = ctx.treasury;
    ctx.game.data.action_points_collected = 0;
    ctx.game.data.game_config.max_items_per_player = max_items_per_player;
    Ok(())
}

} // verus!
