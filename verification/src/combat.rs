use crate::account::{Account, Wallet};
use crate::economy::{
    charge_refusal, charged_account, charged_payer, spend_action_points, ATTACK_COST,
};
use crate::error::EngineError;
use crate::state::{Monster, Player, PlayerView};
use vstd::prelude::*;

verus! {

/// The accounts of one attack: the attacking player, the monster, and the
/// player's owner, who pays.
#[derive(Debug)]
pub struct AttackMonster {
    pub player_account: Account<Player>,
    pub monster: Account<Monster>,
    pub player: Wallet,
}

/// The hitpoints that an attack leaves of `before`: one less, never below zero.
pub open spec fn hitpoints_after(before: u64) -> u64 {
    if before == 0 {
        0
    } else {
        (before - 1) as u64
    }
}

/// Whether an attack on a monster at `before` hitpoints kills it: it was alive
/// and is not any more.
pub open spec fn is_kill(before: u64) -> bool {
    before > 0 && hitpoints_after(before) == 0
}

/// `x + 1`, or the largest value of the type where that does not fit.
pub open spec fn saturating_increment(x: u64) -> u64 {
    if x == u64::MAX {
        x
    } else {
        (x + 1) as u64
    }
}

/// What the accounts of an attack say.
pub struct AttackMonsterView {
    pub player_account: Account<PlayerView>,
    pub monster: Account<Monster>,
    pub player: Wallet,
}

impl View for AttackMonster {
    type V = AttackMonsterView;

    open spec fn view(&self) -> AttackMonsterView {
        AttackMonsterView {
            player_account: self.player_account@,
            monster: self.monster,
            player: self.player,
        }
    }
}

impl AttackMonsterView {
    /// The monster belongs to the owner of the player and to the player's game,
    /// and who pays is that owner.
    pub open spec fn relations_hold(self) -> bool {
        &&& self.player_account.data.player == self.player.key
        &&& self.monster.data.player == self.player_account.data.player
        &&& self.monster.data.game == self.player_account.data.game
    }

    /// The accounts after the blow and before the charge: the monster has lost
    /// what the attack takes, the player has one more experience and, if the
    /// monster died of it, one more kill.
    pub open spec fn struck(self) -> AttackMonsterView {
        AttackMonsterView {
            player_account: Account {
                key: self.player_account.key,
                lamports: self.player_account.lamports,
                data: PlayerView {
                    experience: saturating_increment(self.player_account.data.experience),
                    kills: if is_kill(self.monster.data.hitpoints) {
                        saturating_increment(self.player_account.data.kills)
                    } else {
                        self.player_account.data.kills
                    },
                    ..self.player_account.data
                },
            },
            monster: Account {
                key: self.monster.key,
                lamports: self.monster.lamports,
                data: Monster {
                    hitpoints: hitpoints_after(self.monster.data.hitpoints),
                    ..self.monster.data
                },
            },
            player: self.player,
        }
    }

    /// What an attack makes of these accounts, or why it is refused.
    pub open spec fn outcome(self) -> Result<AttackMonsterView, EngineError> {
        if !self.relations_hold() {
            Err(EngineError::ConstraintViolation)
        } else {
            let hit = self.struck();
            match charge_refusal(ATTACK_COST, hit.player_account, hit.player) {
                Some(e) => Err(e),
                None => Ok(
                    AttackMonsterView {
                        player_account: charged_account(ATTACK_COST, hit.player_account),
                        monster: hit.monster,
                        player: charged_payer(ATTACK_COST, hit.player),
                    },
                ),
            }
        }
    }
}

/// Resolves one attack: the monster loses a hitpoint unless it is dead already,
/// the player gains one experience and, for a kill, one kill, and the owner
/// is charged `ATTACK_COST`. A refused attack leaves every account as it was.
pub fn run_attack_monster(ctx: &mut AttackMonster) -> (r: Result<(), EngineError>)
    ensures
        match old(ctx)@.outcome() {
            Ok(next) => r is Ok && final(ctx)@ == next,
            Err(e) => r == Err::<(), EngineError>(e) && *final(ctx) == *old(ctx),
        },
        old(ctx).player_account.data.well_formed() ==> final(ctx).player_account.data.well_formed(),
{
    if !(ctx.player_account.data.player == ctx.player.key) || !(ctx.monster.data.player
        == ctx.player_account.data.player) || !(ctx.monster.data.game
        == ctx.player_account.data.game) {
        return Err(EngineError::ConstraintViolation);
    }
    let hp_before_attack: u64 = ctx.monster.data.hitpoints;
    let experience_before: u64 = ctx.player_account.data.experience;
    let kills_before: u64 = ctx.player_account.data.kills;

    let hp_after_attack: u64 = hp_before_attack.saturating_sub(1);
    ctx.monster.data.hitpoints = hp_after_attack;
    let did_kill: bool = hp_before_attack > 0 && hp_after_attack == 0;

    ctx.player_account.data.experience = experience_before.saturating_add(1);
    if did_kill {
        ctx.player_account.data.kills = kills_before.saturating_add(1);
    }
    match spend_action_points(ATTACK_COST, &mut ctx.player_account, &mut ctx.player) {
        Ok(()) => Ok(()),
        Err(e) => {
            ctx.monster.data.hitpoints = hp_before_attack;
            ctx.player_account.data.experience = experience_before;
            ctx.player_account.data.kills = kills_before;
            Err(e)
        },
    }
}

} // verus!
