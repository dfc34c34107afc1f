use solana_rpg_engine::{
    run_collect_action_points, spend_action_points, Account, Address, CollectActionPoints,
    EngineError, Game, Player, Wallet,
};

fn addr(b: u8) -> Address {
    Address { bytes: [b; 32] }
}

fn player_account(spent: u64, pending: u64, lamports: u64) -> Account<Player> {
    let mut p = Player::blank();
    p.player = addr(3);
    p.game = addr(4);
    p.action_points_spent = spent;
    p.action_points_to_be_collected = pending;
    Account { key: addr(5), lamports, data: p }
}

fn game_account(collected: u64) -> Account<Game> {
    let mut g = Game::blank();
    g.game_master = addr(1);
    g.treasury = addr(2);
    g.action_points_collected = collected;
    Account { key: addr(4), lamports: 11, data: g }
}

#[test]
fn spend_moves_counters_and_balance() {
    let mut account = player_account(10, 4, 4);
    let mut payer = Wallet { key: addr(3), lamports: 30 };
    assert_eq!(spend_action_points(7, &mut account, &mut payer), Ok(()));
    assert_eq!(account.data.action_points_spent, 17);
    assert_eq!(account.data.action_points_to_be_collected, 11);
    assert_eq!(account.lamports, 11);
    assert_eq!(payer.lamports, 23);
}

#[test]
fn spend_of_nothing_changes_nothing() {
    let mut account = player_account(10, 4, 4);
    let mut payer = Wallet { key: addr(3), lamports: 0 };
    assert_eq!(spend_action_points(0, &mut account, &mut payer), Ok(()));
    assert_eq!(account.data.action_points_spent, 10);
    assert_eq!(account.data.action_points_to_be_collected, 4);
    assert_eq!(account.lamports, 4);
    assert_eq!(payer.lamports, 0);
}

#[test]
fn spend_keeps_spent_above_pending() {
    let mut account = player_account(10, 4, 4);
    let mut payer = Wallet { key: addr(3), lamports: 1000 };
    for amount in [1u64, 5, 100, 0, 33] {
        assert_eq!(spend_action_points(amount, &mut account, &mut payer), Ok(()));
        assert!(account.data.action_points_spent >= account.data.action_points_to_be_collected);
    }
    assert_eq!(account.data.action_points_spent, 149);
    assert_eq!(account.data.action_points_to_be_collected, 143);
}

#[test]
fn spend_short_of_funds_increments_no_counter() {
    let mut account = player_account(10, 4, 4);
    let mut payer = Wallet { key: addr(3), lamports: 6 };
    assert_eq!(
        spend_action_points(7, &mut account, &mut payer),
        Err(EngineError::InsufficientFunds)
    );
    assert_eq!(account.data.action_points_spent, 10);
    assert_eq!(account.data.action_points_to_be_collected, 4);
    assert_eq!(account.lamports, 4);
    assert_eq!(payer.lamports, 6);
}

#[test]
fn spend_past_the_spent_counter_overflows() {
    let mut account = player_account(u64::MAX - 1, 0, 0);
    let mut payer = Wallet { key: addr(3), lamports: 10 };
    assert_eq!(
        spend_action_points(2, &mut account, &mut payer),
        Err(EngineError::ArithmeticOverflow)
    );
    assert_eq!(account.data.action_points_spent, u64::MAX - 1);
    assert_eq!(account.data.action_points_to_be_collected, 0);
    assert_eq!(payer.lamports, 10);
    assert_eq!(spend_action_points(1, &mut account, &mut payer), Ok(()));
    assert_eq!(account.data.action_points_spent, u64::MAX);
}

#[test]
fn spend_past_the_pending_counter_overflows() {
    let mut account = player_account(5, u64::MAX, 0);
    let mut payer = Wallet { key: addr(3), lamports: 10 };
    assert_eq!(
        spend_action_points(1, &mut account, &mut payer),
        Err(EngineError::ArithmeticOverflow)
    );
    assert_eq!(account.data.action_points_spent, 5);
    assert_eq!(account.data.action_points_to_be_collected, u64::MAX);
}

#[test]
fn spend_overflow_of_a_counter_comes_before_want_of_funds() {
    let mut account = player_account(u64::MAX, 0, 0);
    let mut payer = Wallet { key: addr(3), lamports: 0 };
    assert_eq!(
        spend_action_points(1, &mut account, &mut payer),
        Err(EngineError::ArithmeticOverflow)
    );
}

#[test]
fn spend_into_a_full_balance_overflows() {
    let mut account = player_account(0, 0, u64::MAX);
    let mut payer = Wallet { key: addr(3), lamports: 10 };
    assert_eq!(
        spend_action_points(1, &mut account, &mut payer),
        Err(EngineError::ArithmeticOverflow)
    );
    assert_eq!(account.lamports, u64::MAX);
    assert_eq!(account.data.action_points_spent, 0);
    assert_eq!(payer.lamports, 10);
}

#[test]
fn collect_sweeps_what_is_pending() {
    let mut ctx = CollectActionPoints {
        game: game_account(40),
        player: player_account(300, 206, 250),
        treasury: Wallet { key: addr(2), lamports: 5 },
    };
    assert_eq!(run_collect_action_points(&mut ctx), Ok(()));
    assert_eq!(ctx.player.data.action_points_to_be_collected, 0);
    assert_eq!(ctx.player.data.action_points_spent, 300);
    assert_eq!(ctx.player.lamports, 44);
    assert_eq!(ctx.treasury.lamports, 211);
    assert_eq!(ctx.game.data.action_points_collected, 246);
    assert_eq!(ctx.game.lamports, 11);
}

#[test]
fn collect_of_nothing_pending_is_a_no_op() {
    let mut ctx = CollectActionPoints {
        game: game_account(40),
        player: player_account(300, 0, 0),
        treasury: Wallet { key: addr(2), lamports: 5 },
    };
    assert_eq!(run_collect_action_points(&mut ctx), Ok(()));
    assert_eq!(ctx.player.data.action_points_to_be_collected, 0);
    assert_eq!(ctx.player.lamports, 0);
    assert_eq!(ctx.treasury.lamports, 5);
    assert_eq!(ctx.game.data.action_points_collected, 40);
}

#[test]
fn collect_twice_collects_once() {
    let mut ctx = CollectActionPoints {
        game: game_account(0),
        player: player_account(9, 9, 9),
        treasury: Wallet { key: addr(2), lamports: 0 },
    };
    assert_eq!(run_collect_action_points(&mut ctx), Ok(()));
    assert_eq!(run_collect_action_points(&mut ctx), Ok(()));
    assert_eq!(ctx.game.data.action_points_collected, 9);
    assert_eq!(ctx.treasury.lamports, 9);
}

#[test]
fn collect_for_another_treasury_is_refused() {
    let mut ctx = CollectActionPoints {
        game: game_account(40),
        player: player_account(300, 206, 250),
        treasury: Wallet { key: addr(8), lamports: 5 },
    };
    assert_eq!(run_collect_action_points(&mut ctx), Err(EngineError::ConstraintViolation));
    assert_eq!(ctx.player.data.action_points_to_be_collected, 206);
    assert_eq!(ctx.player.lamports, 250);
    assert_eq!(ctx.treasury.lamports, 5);
    assert_eq!(ctx.game.data.action_points_collected, 40);
}

#[test]
fn collect_from_a_player_of_another_game_is_refused() {
    let mut ctx = CollectActionPoints {
        game: game_account(40),
        player: player_account(300, 206, 250),
        treasury: Wallet { key: addr(2), lamports: 5 },
    };
    ctx.player.data.game = addr(8);
    assert_eq!(run_collect_action_points(&mut ctx), Err(EngineError::ConstraintViolation));
    assert_eq!(ctx.player.data.action_points_to_be_collected, 206);
    assert_eq!(ctx.game.data.action_points_collected, 40);
}

#[test]
fn collect_from_a_short_balance_is_refused() {
    let mut ctx = CollectActionPoints {
        game: game_account(40),
        player: player_account(300, 206, 205),
        treasury: Wallet { key: addr(2), lamports: 5 },
    };
    assert_eq!(run_collect_action_points(&mut ctx), Err(EngineError::InsufficientFunds));
    assert_eq!(ctx.player.data.action_points_to_be_collected, 206);
    assert_eq!(ctx.player.lamports, 205);
    assert_eq!(ctx.treasury.lamports, 5);
}

#[test]
fn collect_past_the_collected_counter_overflows() {
    let mut ctx = CollectActionPoints {
        game: game_account(u64::MAX - 5),
        player: player_account(300, 6, 6),
        treasury: Wallet { key: addr(2), lamports: 5 },
    };
    assert_eq!(run_collect_action_points(&mut ctx), Err(EngineError::ArithmeticOverflow));
    assert_eq!(ctx.player.data.action_points_to_be_collected, 6);
    assert_eq!(ctx.player.lamports, 6);
    assert_eq!(ctx.treasury.lamports, 5);
    assert_eq!(ctx.game.data.action_points_collected, u64::MAX - 5);
}

#[test]
fn collect_into_a_full_treasury_overflows() {
    let mut ctx = CollectActionPoints {
        game: game_account(0),
        player: player_account(300, 6, 6),
        treasury: Wallet { key: addr(2), lamports: u64::MAX - 5 },
    };
    assert_eq!(run_collect_action_points(&mut ctx), Err(EngineError::ArithmeticOverflow));
    assert_eq!(ctx.player.data.action_points_to_be_collected, 6);
    assert_eq!(ctx.treasury.lamports, u64::MAX - 5);
}
