use crate::account::{Account, Wallet};
use crate::error::EngineError;
use crate::state::{Game, Player, PlayerView};
use vstd::prelude::*;

verus! {

/// What it costs to create a player.
pub const CREATE_PLAYER_COST: u64 = 100;

/// What it costs to spawn a monster.
pub const SPAWN_MONSTER_COST: u64 = 5;

/// What one attack costs, whether or not it does any damage.
pub const ATTACK_COST: u64 = 1;

/// Why a charge of `amount` does not go through, if it does not, to a player
/// who has spent `spent`, of which `pending` is not collected yet, whose record
/// is backed by a balance of `escrow`, and whose payer holds `paying`. The
/// counters are looked at before the balances.
pub open spec fn spend_refusal(amount: u64, spent: u64, pending: u64, paying: u64, escrow: u64) -> Option<
    EngineError,
> {
    if spent + amount > u64::MAX {
        Some(EngineError::ArithmeticOverflow)
    } else if pending + amount > u64::MAX {
        Some(EngineError::ArithmeticOverflow)
    } else if paying < amount {
        Some(EngineError::InsufficientFunds)
    } else if escrow + amount > u64::MAX {
        Some(EngineError::ArithmeticOverflow)
    } else {
        None
    }
}

/// `spend_refusal` of a player's account and its payer.
pub open spec fn charge_refusal(amount: u64, account: Account<PlayerView>, payer: Wallet) -> Option<
    EngineError,
> {
    spend_refusal(
        amount,
        account.data.action_points_spent,
        account.data.action_points_to_be_collected,
        payer.lamports,
        account.lamports,
    )
}

/// The player's account after a charge of `amount`: both counters and the
/// backing balance are up by `amount`, nothing else has changed.
pub open spec fn charged_account(amount: u64, account: Account<PlayerView>) -> Account<
    PlayerView,
> {
    Account {
        key: account.key,
        lamports: (account.lamports + amount) as u64,
        data: PlayerView {
            action_points_spent: (account.data.action_points_spent + amount) as u64,
            action_points_to_be_collected: (account.data.action_points_to_be_collected
                + amount) as u64,
            ..account.data
        },
    }
}

/// The payer after a charge of `amount`.
pub open spec fn charged_payer(amount: u64, payer: Wallet) -> Wallet {
    Wallet { key: payer.key, lamports: (payer.lamports - amount) as u64 }
}

/// Charges `action_points` to a player: they leave the balance of `player`, who
/// pays, and are held by `player_account` until a settlement sweeps them. All or
/// nothing: a charge that is refused changes neither.
pub fn spend_action_points(
    action_points: u64,
    player_account: &mut Account<Player>,
    player: &mut Wallet,
) -> (r: Result<(), EngineError>)
    ensures
        match charge_refusal(action_points, old(player_account)@, *old(player)) {
            Some(e) => {
                &&& r == Err::<(), EngineError>(e)
                &&& *final(player_account) == *old(player_account)
                &&& *final(player) == *old(player)
            },
            None => {
                &&& r is Ok
                &&& final(player_account)@ == charged_account(action_points, old(player_account)@)
                &&& *final(player) == charged_payer(action_points, *old(player))
            },
        },
        old(player_account).data.well_formed() ==> final(player_account).data.well_formed(),
{
    let spent: u64 = match player_account.data.action_points_spent.checked_add(action_points) {
        Some(v) => v,
        None => {
            return Err(EngineError::ArithmeticOverflow);
        },
    };
    let pending: u64 = match player_account.data.action_points_to_be_collected.checked_add(
        action_points,
    ) {
        Some(v) => v,
        None => {
            return Err(EngineError::ArithmeticOverflow);
        },
    };
    if player.lamports < action_points {
        return Err(EngineError::InsufficientFunds);
    }
    let escrow: u64 = match player_account.lamports.checked_add(action_points) {
        Some(v) => v,
        None => {
            return Err(EngineError::ArithmeticOverflow);
        },
    };
    player_account.data.action_points_spent = spent;
    player_account.data.action_points_to_be_collected = pending;
    player.lamports = player.lamports - action_points;
    player_account.lamports = escrow;
    Ok(())
}

/// The accounts of one settlement: the game, one of its players, and the
/// treasury that the game names.
#[derive(Debug)]
pub struct CollectActionPoints {
    pub game: Account<Game>,
    pub player: Account<Player>,
    pub treasury: Wallet,
}

/// What the accounts of a settlement say.
pub struct CollectActionPointsView {
    pub game: Account<Game>,
    pub player: Account<PlayerView>,
    pub treasury: Wallet,
}

impl View for CollectActionPoints {
    type V = CollectActionPointsView;

    open spec fn view(&self) -> CollectActionPointsView {
        CollectActionPointsView { game: self.game, player: self.player@, treasury: self.treasury }
    }
}

impl CollectActionPointsView {
    /// The treasury is the one the game names, and the player is a player of
    /// this game.
    pub open spec fn relations_hold(self) -> bool {
        &&& self.game.data.treasury == self.treasury.key
        &&& self.player.data.game == self.game.key
    }

    /// What the settlement sweeps: all that the player has pending.
    pub open spec fn amount(self) -> u64 {
        self.player.data.action_points_to_be_collected
    }

    /// Why the settlement does not go through, if it does not.
    pub open spec fn refusal(self) -> Option<EngineError> {
        if !self.relations_hold() {
            Some(EngineError::ConstraintViolation)
        } else if self.player.lamports < self.amount() {
            Some(EngineError::InsufficientFunds)
        } else if self.treasury.lamports + self.amount() > u64::MAX {
            Some(EngineError::ArithmeticOverflow)
        } else if self.game.data.action_points_collected + self.amount() > u64::MAX {
            Some(EngineError::ArithmeticOverflow)
        } else {
            None
        }
    }

    /// The accounts after the settlement: the pending amount has moved from the
    /// player's balance to the treasury's, the player has nothing pending, and
    /// the game has collected that much more.
    pub open spec fn settled(self) -> CollectActionPointsView {
        CollectActionPointsView {
            game: Account {
                key: self.game.key,
                lamports: self.game.lamports,
                data: Game {
                    action_points_collected: (self.game.data.action_points_collected
                        + self.amount()) as u64,
                    ..self.game.data
                },
            },
            player: Account {
                key: self.player.key,
                lamports: (self.player.lamports - self.amount()) as u64,
                data: PlayerView { action_points_to_be_collected: 0, ..self.player.data },
            },
            treasury: Wallet {
                key: self.treasury.key,
                lamports: (self.treasury.lamports + self.amount()) as u64,
            },
        }
    }
}

/// Sweeps what a player has pending to the treasury of the player's game.
/// Anyone may ask for it. With nothing pending it moves nothing and succeeds.
/// All or nothing: a settlement that is refused changes no account.
pub fn run_collect_action_points(ctx: &mut CollectActionPoints) -> (r: Result<(), EngineError>)
    ensures
        match old(ctx)@.refusal() {
            Some(e) => r == Err::<(), EngineError>(e) && *final(ctx) == *old(ctx),
            None => r is Ok && final(ctx)@ == old(ctx)@.settled(),
        },
        old(ctx).player.data.well_formed() ==> final(ctx).player.data.well_formed(),
        final(ctx).game.data.action_points_collected >= old(ctx).game.data.action_points_collected,
{
    if !(ctx.game.data.treasury == ctx.treasury.key) || !(ctx.player.data.game == ctx.game.key) {
        return Err(EngineError::ConstraintViolation);
    }
    let transfer_amount: u64 = ctx.player.data.action_points_to_be_collected;
    if ctx.player.lamports < transfer_amount {
        return Err(EngineError::InsufficientFunds);
    }
    let treasury_balance: u64 = match ctx.treasury.lamports.checked_add(transfer_amount) {
        Some(v) => v,
        None => {
            return Err(EngineError::ArithmeticOverflow);
        },
    };
    let collected: u64 = match ctx.game.data.action_points_collected.checked_add(transfer_amount) {
        Some(v) => v,
        None => {
            return Err(EngineError::ArithmeticOverflow);
        },
    };
    ctx.player.lamports = ctx.player.lamports - transfer_amount;
    ctx.treasury.lamports = treasury_balance;
    ctx.player.data.action_points_to_be_collected = 0;
    ctx.game.data.action_points_collected = collected;
    Ok(())
}

} // verus!
