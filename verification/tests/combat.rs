use solana_rpg_engine::{
    run_attack_monster, Account, Address, AttackMonster, EngineError, Monster, Player, Wallet,
};

fn addr(b: u8) -> Address {
    Address { bytes: [b; 32] }
}

fn attack_ctx(hitpoints: u64, funds: u64) -> AttackMonster {
    let mut p = Player::blank();
    p.player = addr(3);
    p.game = addr(4);
    p.action_points_spent = 105;
    p.action_points_to_be_collected = 105;
    AttackMonster {
        player_account: Account { key: addr(5), lamports: 105, data: p },
        monster: Account {
            key: addr(6),
            lamports: 0,
            data: Monster { player: addr(3), game: addr(4), hitpoints },
        },
        player: Wallet { key: addr(3), lamports: funds },
    }
}

#[test]
fn attack_takes_one_hitpoint() {
    let mut ctx = attack_ctx(100, 10);
    assert_eq!(run_attack_monster(&mut ctx), Ok(()));
    assert_eq!(ctx.monster.data.hitpoints, 99);
    assert_eq!(ctx.player_account.data.experience, 1);
    assert_eq!(ctx.player_account.data.kills, 0);
    assert_eq!(ctx.player_account.data.action_points_spent, 106);
    assert_eq!(ctx.player_account.data.action_points_to_be_collected, 106);
    assert_eq!(ctx.player_account.lamports, 106);
    assert_eq!(ctx.player.lamports, 9);
}

#[test]
fn attack_that_takes_the_last_hitpoint_kills() {
    let mut ctx = attack_ctx(1, 10);
    assert_eq!(run_attack_monster(&mut ctx), Ok(()));
    assert_eq!(ctx.monster.data.hitpoints, 0);
    assert_eq!(ctx.player_account.data.kills, 1);
    assert_eq!(ctx.player_account.data.experience, 1);
}

#[test]
fn attack_on_the_dead_does_no_damage_and_still_costs() {
    let mut ctx = attack_ctx(0, 10);
    ctx.player_account.data.kills = 1;
    ctx.player_account.data.experience = 100;
    assert_eq!(run_attack_monster(&mut ctx), Ok(()));
    assert_eq!(ctx.monster.data.hitpoints, 0);
    assert_eq!(ctx.player_account.data.kills, 1);
    assert_eq!(ctx.player_account.data.experience, 101);
    assert_eq!(ctx.player_account.data.action_points_to_be_collected, 106);
    assert_eq!(ctx.player.lamports, 9);
}

#[test]
fn attack_experience_goes_up_by_one_kill_or_not() {
    for hitpoints in [0u64, 1, 2, 100] {
        let mut ctx = attack_ctx(hitpoints, 10);
        ctx.player_account.data.experience = 41;
        assert_eq!(run_attack_monster(&mut ctx), Ok(()));
        assert_eq!(ctx.player_account.data.experience, 42);
    }
}

#[test]
fn attack_experience_saturates() {
    let mut ctx = attack_ctx(5, 10);
    ctx.player_account.data.experience = u64::MAX;
    assert_eq!(run_attack_monster(&mut ctx), Ok(()));
    assert_eq!(ctx.player_account.data.experience, u64::MAX);
    assert_eq!(ctx.monster.data.hitpoints, 4);
}

#[test]
fn attack_kills_saturate() {
    let mut ctx = attack_ctx(1, 10);
    ctx.player_account.data.kills = u64::MAX;
    assert_eq!(run_attack_monster(&mut ctx), Ok(()));
    assert_eq!(ctx.player_account.data.kills, u64::MAX);
    assert_eq!(ctx.monster.data.hitpoints, 0);
}

#[test]
fn attack_on_the_monster_of_another_owner_is_refused() {
    let mut ctx = attack_ctx(100, 10);
    ctx.monster.data.player = addr(8);
    assert_eq!(run_attack_monster(&mut ctx), Err(EngineError::ConstraintViolation));
    assert_eq!(ctx.monster.data.hitpoints, 100);
    assert_eq!(ctx.player_account.data.experience, 0);
    assert_eq!(ctx.player.lamports, 10);
}

#[test]
fn attack_on_a_monster_of_another_game_is_refused() {
    let mut ctx = attack_ctx(100, 10);
    ctx.monster.data.game = addr(8);
    assert_eq!(run_attack_monster(&mut ctx), Err(EngineError::ConstraintViolation));
    assert_eq!(ctx.monster.data.hitpoints, 100);
    assert_eq!(ctx.player_account.data.experience, 0);
}

#[test]
fn attack_paid_by_another_than_the_owner_is_refused() {
    let mut ctx = attack_ctx(100, 10);
    ctx.player.key = addr(8);
    assert_eq!(run_attack_monster(&mut ctx), Err(EngineError::ConstraintViolation));
    assert_eq!(ctx.monster.data.hitpoints, 100);
    assert_eq!(ctx.player.lamports, 10);
}

#[test]
fn attack_short_of_funds_is_rolled_back() {
    let mut ctx = attack_ctx(1, 0);
    ctx.player_account.data.experience = 7;
    ctx.player_account.data.kills = 2;
    assert_eq!(run_attack_monster(&mut ctx), Err(EngineError::InsufficientFunds));
    assert_eq!(ctx.monster.data.hitpoints, 1);
    assert_eq!(ctx.player_account.data.experience, 7);
    assert_eq!(ctx.player_account.data.kills, 2);
    assert_eq!(ctx.player_account.data.action_points_spent, 105);
    assert_eq!(ctx.player_account.data.action_points_to_be_collected, 105);
    assert_eq!(ctx.player_account.lamports, 105);
    assert_eq!(ctx.player.lamports, 0);
}

#[test]
fn attack_past_the_spent_counter_is_rolled_back() {
    let mut ctx = attack_ctx(1, 10);
    ctx.player_account.data.action_points_spent = u64::MAX;
    assert_eq!(run_attack_monster(&mut ctx), Err(EngineError::ArithmeticOverflow));
    assert_eq!(ctx.monster.data.hitpoints, 1);
    assert_eq!(ctx.player_account.data.experience, 0);
    assert_eq!(ctx.player_account.data.kills, 0);
    assert_eq!(ctx.player_account.data.action_points_spent, u64::MAX);
    assert_eq!(ctx.player.lamports, 10);
}
