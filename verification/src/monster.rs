use crate::account::{Account, Wallet};
use crate::economy::{
    charge_refusal, charged_account, charged_payer, spend_action_points, SPAWN_MONSTER_COST,
};
use crate::error::EngineError;
use crate::state::{Game, Monster, Player, PlayerView, SPAWN_HITPOINTS};
use vstd::prelude::*;

verus! {

/// The accounts of the spawning of a monster: the game, the player that spawns
/// it, the record that will hold the monster, and the player's owner, who pays.
#[derive(Debug)]
pub struct CreateMonster {
    pub game: Account<Game>,
    pub player_account: Account<Player>,
    pub monster: Account<Monster>,
    pub player: Wallet,
}

/// What the accounts of the spawning of a monster say.
pub struct CreateMonsterView {
    pub game: Account<Game>,
    pub player_account: Account<PlayerView>,
    pub monster: Account<Monster>,
    pub player: Wallet,
}

impl View for CreateMonster {
    type V = CreateMonsterView;

    open spec fn view(&self) -> CreateMonsterView {
        CreateMonsterView {
            game: self.game,
            player_account: self.player_account@,
            monster: self.monster,
            player: self.player,
        }
    }
}

impl CreateMonsterView {
    /// The player is a player of this game, and who pays is its owner.
    pub open spec fn relations_hold(self) -> bool {
        &&& self.player_account.data.game == self.game.key
        &&& self.player_account.data.player == self.player.key
    }

    /// The player's account once the monster has its index, before the charge.
    pub open spec fn indexed(self) -> Account<PlayerView> {
        Account {
            key: self.player_account.key,
            lamports: self.player_account.lamports,
            data: PlayerView {
                next_monster_index: (self.player_account.data.next_monster_index + 1) as u64,
                ..self.player_account.data
            },
        }
    }

    /// Why the spawning does not go through, if it does not.
    pub open spec fn refusal(self) -> Option<EngineError> {
        if !self.relations_hold() {
            Some(EngineError::ConstraintViolation)
        } else if self.player_account.data.next_monster_index + 1 > u64::MAX {
            Some(EngineError::ArithmeticOverflow)
        } else {
            charge_refusal(SPAWN_MONSTER_COST, self.indexed(), self.player)
        }
    }

    /// The accounts after the spawning: the record holds a monster of this
    /// owner in this game at `SPAWN_HITPOINTS`, the player's next index is one
    /// higher, and the owner has been charged `SPAWN_MONSTER_COST`.
    pub open spec fn spawned(self) -> CreateMonsterView {
        CreateMonsterView {
            game: self.game,
            player_account: charged_account(SPAWN_MONSTER_COST, self.indexed()),
            monster: Account {
                key: self.monster.key,
                lamports: self.monster.lamports,
                data: Monster {
                    player: self.player.key,
                    game: self.game.key,
                    hitpoints: SPAWN_HITPOINTS,
                },
            },
            player: charged_payer(SPAWN_MONSTER_COST, self.player),
        }
    }
}

/// Writes a new monster to its record, moves the player's next index up by
/// one and charges the owner `SPAWN_MONSTER_COST`. All or nothing: where it is
/// refused every account is as it was.
pub fn run_spawn_monster(ctx: &mut CreateMonster) -> (r: Result<(), EngineError>)
    ensures
        match old(ctx)@.refusal() {
            Some(e) => r == Err::<(), EngineError>(e) && *final(ctx) == *old(ctx),
            None => r is Ok && final(ctx)@ == old(ctx)@.spawned(),
        },
        old(ctx).player_account.data.well_formed() ==> final(ctx).player_account.data.well_formed(),
        final(ctx).player_account.data.next_monster_index >= old(
            ctx,
        ).player_account.data.next_monster_index,
{
    if !(ctx.player_account.data.game == ctx.game.key) || !(ctx.player_account.data.player
        == ctx.player.key) {
        return Err(EngineError::ConstraintViolation);
    }
    let index_before: u64 = ctx.player_account.data.next_monster_index;
    let index_after: u64 = match index_before.checked_add(1) {
        Some(v) => v,
        None => {
            return Err(EngineError::ArithmeticOverflow);
        },
    };
    ctx.player_account.data.next_monster_index = index_after;
    match spend_action_points(SPAWN_MONSTER_COST, &mut ctx.player_account, &mut ctx.player) {
        Ok(()) => {
            ctx.monster.data.player = ctx.player.key;
            ctx.monster.data.game = ctx.game.key;
            ctx.monster.data.hitpoints = SPAWN_HITPOINTS;
            Ok(())
        },
        Err(e) => {
            ctx.player_account.data.next_monster_index = index_before;
            Err(e)
        },
    }
}

} // verus!
