use crate::account::{Account, Wallet};
use crate::economy::{charged_payer, spend_action_points, spend_refusal, CREATE_PLAYER_COST};
use crate::error::EngineError;
use crate::state::{Game, Player, PlayerView};
use crate::status::StatusFlags;
use vstd::prelude::*;

verus! {

/// The accounts of the creation of a player: the game, the record that will
/// hold the player, and the owner, who pays.
#[derive(Debug)]
pub struct CreatePlayer {
    pub game: Account<Game>,
    pub player_account: Account<Player>,
    pub player: Wallet,
}

/// What the accounts of the creation of a player say.
pub struct CreatePlayerView {
    pub game: Account<Game>,
    pub player_account: Account<PlayerView>,
    pub player: Wallet,
}

impl View for CreatePlayer {
    type V = CreatePlayerView;

    open spec fn view(&self) -> CreatePlayerView {
        CreatePlayerView {
            game: self.game,
            player_account: self.player_account@,
            player: self.player,
        }
    }
}

impl CreatePlayerView {
    /// Why the creation does not go through, if it does not: the owner cannot
    /// pay for it, or the record's balance cannot take the payment.
    pub open spec fn refusal(self) -> Option<EngineError> {
        spend_refusal(CREATE_PLAYER_COST, 0, 0, self.player.lamports, self.player_account.lamports)
    }

    /// The accounts after the creation: the record holds a player of this
    /// owner in this game, as it enters, and the owner has been charged
    /// `CREATE_PLAYER_COST`, which the record holds as pending. The padding is
    /// as it was.
    pub open spec fn enrolled(self) -> CreatePlayerView {
        CreatePlayerView {
            game: self.game,
            player_account: Account {
                key: self.player_account.key,
                lamports: (self.player_account.lamports + CREATE_PLAYER_COST) as u64,
                data: PlayerView {
                    action_points_spent: CREATE_PLAYER_COST,
                    action_points_to_be_collected: CREATE_PLAYER_COST,
                    ..PlayerView::entering(
                        self.player.key,
                        self.game.key,
                        self.player_account.data.for_future_use,
                    )
                },
            },
            player: charged_payer(CREATE_PLAYER_COST, self.player),
        }
    }
}

/// Writes a new player to its record and charges the owner
/// `CREATE_PLAYER_COST`, which the record then holds as pending. All or
/// nothing: where the charge is refused every account is as it was.
pub fn run_create_player(ctx: &mut CreatePlayer) -> (r: Result<(), EngineError>)
    ensures
        match old(ctx)@.refusal() {
            Some(e) => r == Err::<(), EngineError>(e) && *final(ctx) == *old(ctx),
            None => r is Ok && final(ctx)@ == old(ctx)@.enrolled(),
        },
        r is Ok ==> final(ctx).player_account.data.well_formed(),
{
    let mut staged: Account<Player> = Account {
        key: ctx.player_account.key,
        lamports: ctx.player_account.lamports,
        data: Player {
            player: ctx.player.key,
            game: ctx.game.key,
            action_points_spent: 0,
            action_points_to_be_collected: 0,
            status_flag: StatusFlags::none(),
            experience: 0,
            kills: 0,
            next_monster_index: 0,
            for_future_use: ctx.player_account.data.for_future_use,
            inventory: Vec::new(),
        },
    };
    let mut payer: Wallet = ctx.player;
    match spend_action_points(CREATE_PLAYER_COST, &mut staged, &mut payer) {
        Ok(()) => {
            ctx.player_account = staged;
            ctx.player = payer;
            Ok(())
        },
        Err(e) => Err(e),
    }
}

} // verus!
