use crate::account::{Account, Wallet};
use crate::address::{
    derived_address, game_address, game_seeds, monster_address, monster_seeds, player_address,
    player_seeds, Address,
};
use crate::combat::{run_attack_monster, AttackMonster, AttackMonsterView};
use crate::economy::{run_collect_action_points, CollectActionPoints, CollectActionPointsView};
use crate::error::EngineError;
use crate::game::{run_create_game, CreateGame};
use crate::ledger::{
    evolves, is_player_of, lemma_kept, Ledger, Record, RecordView, Slot, SlotView, State,
};
use crate::monster::{run_spawn_monster, CreateMonster, CreateMonsterView};
use crate::player::{run_create_player, CreatePlayer, CreatePlayerView};
use crate::state::{Game, GameConfig, Monster, Player, PlayerView};
use vstd::prelude::*;

verus! {

/// Whether an operation that answered `r` and turned the state `before` into
/// `after` did what `outcome` asks: it went through and left the state that
/// `outcome` gives, or it was refused with the error that `outcome` gives and
/// left every address as it was.
pub open spec fn carried_out(
    outcome: Result<State, EngineError>,
    r: Result<(), EngineError>,
    before: State,
    after: State,
) -> bool {
    match outcome {
        Ok(next) => r is Ok && after == next,
        Err(e) => r == Err::<(), EngineError>(e) && after == before,
    }
}

/// What an operation comes to that does `outcome` at the address `derived`:
/// without an address it is refused.
pub open spec fn at_derived(
    derived: Option<Address>,
    outcome: spec_fn(Address) -> Result<State, EngineError>,
) -> Result<State, EngineError> {
    match derived {
        Some(at) => outcome(at),
        None => Err(EngineError::AddressUnavailable),
    }
}

/// The address that a derivation gave, or the refusal that stands for its
/// giving none.
pub fn derived_or_refused(derived: Option<Address>) -> (r: Result<Address, EngineError>)
    ensures
        match derived {
            Some(at) => r == Ok::<Address, EngineError>(at),
            None => r == Err::<Address, EngineError>(EngineError::AddressUnavailable),
        },
{
    match derived {
        Some(at) => Ok(at),
        None => Err(EngineError::AddressUnavailable),
    }
}

/// The record of a new game.
pub open spec fn new_game(game_master: Address, treasury: Address, max_items_per_player: u8) -> Game {
    Game {
        game_master,
        treasury,
        action_points_collected: 0,
        game_config: GameConfig {
            max_items_per_player,
            for_future_use: GameConfig::spec_blank().for_future_use,
        },
    }
}

/// What the creation of a game at `at` makes of the state `m`: refused where
/// `at` holds a record already; else `at` holds the new game and keeps its
/// balance.
pub open spec fn create_game_outcome(
    m: State,
    at: Address,
    game_master: Address,
    treasury: Address,
    max_items_per_player: u8,
) -> Result<State, EngineError> {
    if !(m[at].record is Vacant) {
        Err(EngineError::AlreadyExists)
    } else {
        Ok(
            m.insert(
                at,
                SlotView {
                    lamports: m[at].lamports,
                    record: RecordView::Game(new_game(game_master, treasury, max_items_per_player)),
                },
            ),
        )
    }
}

/// Creates the game of `treasury`, made by `game_master`, at the address `at`,
/// if that address holds no record yet. Nothing is charged.
pub fn create_game_at(
    ledger: &mut Ledger,
    at: &Address,
    game_master: Address,
    treasury: Address,
    max_items_per_player: u8,
) -> (r: Result<(), EngineError>)
    requires
        old(ledger).well_formed(),
    ensures
        final(ledger).well_formed(),
        final(ledger).spec_program_id() == old(ledger).spec_program_id(),
        evolves(old(ledger)@, final(ledger)@),
        carried_out(
            create_game_outcome(old(ledger)@, *at, game_master, treasury, max_items_per_player),
            r,
            old(ledger)@,
            final(ledger)@,
        ),
{
    if !ledger.is_vacant(at) {
        return Err(EngineError::AlreadyExists);
    }
    let mut ctx = CreateGame {
        game: Account { key: *at, lamports: ledger.balance(at), data: Game::blank() },
        game_master,
        treasury,
    };
    let r = run_create_game(&mut ctx, max_items_per_player);
    ledger.put(at, Slot { lamports: ctx.game.lamports, record: Record::Game(ctx.game.data) });
    proof {
        lemma_kept(old(ledger)@, ledger@);
    }
    r
}

/// Creates the game of `treasury`, made by `game_master`, at the address that
/// the game's seeds give. Nothing is charged. There is one game to a treasury:
/// the seeds of a second one give the same address, which is taken.
pub fn create_game(
    ledger: &mut Ledger,
    game_master: Address,
    treasury: Address,
    max_items_per_player: u8,
) -> (r: Result<(), EngineError>)
    requires
        old(ledger).well_formed(),
    ensures
        final(ledger).well_formed(),
        final(ledger).spec_program_id() == old(ledger).spec_program_id(),
        evolves(old(ledger)@, final(ledger)@),
        carried_out(
            at_derived(
                derived_address(game_seeds(treasury), old(ledger).spec_program_id()),
                |at: Address|
                    create_game_outcome(
                        old(ledger)@,
                        at,
                        game_master,
                        treasury,
                        max_items_per_player,
                    ),
            ),
            r,
            old(ledger)@,
            final(ledger)@,
        ),
{
    let program_id = ledger.program_id();
    match derived_or_refused(game_address(&program_id, &treasury)) {
        Ok(at) => create_game_at(ledger, &at, game_master, treasury, max_items_per_player),
        Err(e) => Err(e),
    }
}

/// The accounts that the creation of a player at `at` works on.
pub open spec fn create_player_accounts(m: State, at: Address, game: Address, owner: Address) -> CreatePlayerView {
    CreatePlayerView {
        game: Account { key: game, lamports: m[game].lamports, data: m[game].record->Game_0 },
        player_account: Account { key: at, lamports: m[at].lamports, data: PlayerView::blank() },
        player: Wallet { key: owner, lamports: m[owner].lamports },
    }
}

/// What the creation of a player at `at` makes of the state `m`. It is refused
/// where `game` holds no game, where `owner` is no identity that can pay (it
/// holds a record, or is `at` itself), where `at` holds a record already, and
/// where the charge is refused. Else `at` holds the new player and the charge
/// has moved from the owner's balance to that of `at`.
pub open spec fn create_player_outcome(m: State, at: Address, game: Address, owner: Address) -> Result<
    State,
    EngineError,
> {
    let accounts = create_player_accounts(m, at, game, owner);
    if !(m[game].record is Game) {
        Err(EngineError::ConstraintViolation)
    } else if !(m[owner].record is Vacant) || owner == at {
        Err(EngineError::ConstraintViolation)
    } else if !(m[at].record is Vacant) {
        Err(EngineError::AlreadyExists)
    } else {
        match accounts.refusal() {
            Some(e) => Err(e),
            None => {
                let done = accounts.enrolled();
                Ok(
                    m.insert(
                        owner,
                        SlotView { lamports: done.player.lamports, record: RecordView::Vacant },
                    ).insert(
                        at,
                        SlotView {
                            lamports: done.player_account.lamports,
                            record: RecordView::Player(done.player_account.data),
                        },
                    ),
                )
            },
        }
    }
}

/// Creates the player of `owner` in `game` at the address `at` and charges the
/// owner for it.
pub fn create_player_at(ledger: &mut Ledger, at: &Address, game: &Address, owner: Address) -> (r:
    Result<(), EngineError>)
    requires
        old(ledger).well_formed(),
    ensures
        final(ledger).well_formed(),
        final(ledger).spec_program_id() == old(ledger).spec_program_id(),
        evolves(old(ledger)@, final(ledger)@),
        carried_out(
            create_player_outcome(old(ledger)@, *at, *game, owner),
            r,
            old(ledger)@,
            final(ledger)@,
        ),
{
    let game_data: Game = match ledger.game(game) {
        Some(g) => g,
        None => {
            return Err(EngineError::ConstraintViolation);
        },
    };
    if !ledger.is_vacant(&owner) || owner == *at {
        return Err(EngineError::ConstraintViolation);
    }
    if !ledger.is_vacant(at) {
        return Err(EngineError::AlreadyExists);
    }
    let mut ctx = CreatePlayer {
        game: Account { key: *game, lamports: ledger.balance(game), data: game_data },
        player_account: Account { key: *at, lamports: ledger.balance(at), data: Player::blank() },
        player: Wallet { key: owner, lamports: ledger.balance(&owner) },
    };
    match run_create_player(&mut ctx) {
        Ok(()) => {
            ledger.put(&owner, Slot { lamports: ctx.player.lamports, record: Record::Vacant });
            ledger.put(
                at,
                Slot {
                    lamports: ctx.player_account.lamports,
                    record: Record::Player(ctx.player_account.data),
                },
            );
            proof {
                lemma_kept(old(ledger)@, ledger@);
            }
            Ok(())
        },
        Err(e) => Err(e),
    }
}

/// Creates the player of `owner` in `game` at the address that the player's
/// seeds give, and charges the owner for it. There is one player to an owner
/// and a game: the seeds of a second one give the same address, which is taken.
pub fn create_player(ledger: &mut Ledger, game: &Address, owner: Address) -> (r: Result<
    (),
    EngineError,
>)
    requires
        old(ledger).well_formed(),
    ensures
        final(ledger).well_formed(),
        final(ledger).spec_program_id() == old(ledger).spec_program_id(),
        evolves(old(ledger)@, final(ledger)@),
        carried_out(
            at_derived(
                derived_address(player_seeds(*game, owner), old(ledger).spec_program_id()),
                |at: Address| create_player_outcome(old(ledger)@, at, *game, owner),
            ),
            r,
            old(ledger)@,
            final(ledger)@,
        ),
{
    let program_id = ledger.program_id();
    match derived_or_refused(player_address(&program_id, game, &owner)) {
        Ok(at) => create_player_at(ledger, &at, game, owner),
        Err(e) => Err(e),
    }
}

/// The accounts that the spawning of a monster at `at` works on.
pub open spec fn spawn_monster_accounts(
    m: State,
    at: Address,
    game: Address,
    player_account: Address,
    owner: Address,
) -> CreateMonsterView {
    CreateMonsterView {
        game: Account { key: game, lamports: m[game].lamports, data: m[game].record->Game_0 },
        player_account: Account {
            key: player_account,
            lamports: m[player_account].lamports,
            data: m[player_account].record->Player_0,
        },
        monster: Account { key: at, lamports: m[at].lamports, data: Monster::spec_blank() },
        player: Wallet { key: owner, lamports: m[owner].lamports },
    }
}

/// What the spawning of a monster at `at` makes of the state `m`. It is refused
/// where `player_account` holds no player or `game` no game, where `owner` is
/// no identity that can pay (it holds a record, or is `at` itself), where the
/// player is not the player of `owner` in `game`, where `at` holds a record
/// already, where the player's next index would not fit, and where the charge
/// is refused, in this order. Else `at` holds the new monster, the player's next
/// index is one higher, and the charge has moved from the owner's balance to
/// the player's.
pub open spec fn spawn_monster_outcome(
    m: State,
    at: Address,
    game: Address,
    player_account: Address,
    owner: Address,
) -> Result<State, EngineError> {
    let accounts = spawn_monster_accounts(m, at, game, player_account, owner);
    if !(m[player_account].record is Player) || !(m[game].record is Game) {
        Err(EngineError::ConstraintViolation)
    } else if !(m[owner].record is Vacant) || owner == at {
        Err(EngineError::ConstraintViolation)
    } else if !accounts.relations_hold() {
        Err(EngineError::ConstraintViolation)
    } else if !(m[at].record is Vacant) {
        Err(EngineError::AlreadyExists)
    } else {
        match accounts.refusal() {
            Some(e) => Err(e),
            None => {
                let done = accounts.spawned();
                Ok(
                    m.insert(
                        owner,
                        SlotView { lamports: done.player.lamports, record: RecordView::Vacant },
                    ).insert(
                        player_account,
                        SlotView {
                            lamports: done.player_account.lamports,
                            record: RecordView::Player(done.player_account.data),
                        },
                    ).insert(
                        at,
                        SlotView {
                            lamports: done.monster.lamports,
                            record: RecordView::Monster(done.monster.data),
                        },
                    ),
                )
            },
        }
    }
}

/// Spawns a monster of the player at `player_account`, who is the player of
/// `owner` in `game`, at the address `at`, and charges the owner for it.
pub fn spawn_monster_at(
    ledger: &mut Ledger,
    at: &Address,
    game: &Address,
    player_account: &Address,
    owner: Address,
) -> (r: Result<(), EngineError>)
    requires
        old(ledger).well_formed(),
    ensures
        final(ledger).well_formed(),
        final(ledger).spec_program_id() == old(ledger).spec_program_id(),
        evolves(old(ledger)@, final(ledger)@),
        carried_out(
            spawn_monster_outcome(old(ledger)@, *at, *game, *player_account, owner),
            r,
            old(ledger)@,
            final(ledger)@,
        ),
{
    let (player_game, player_owner) = match ledger.player(player_account) {
        Some(p) => (p.game, p.player),
        None => {
            return Err(EngineError::ConstraintViolation);
        },
    };
    let game_data: Game = match ledger.game(game) {
        Some(g) => g,
        None => {
            return Err(EngineError::ConstraintViolation);
        },
    };
    if !ledger.is_vacant(&owner) || owner == *at {
        return Err(EngineError::ConstraintViolation);
    }
    if !(player_game == *game) || !(player_owner == owner) {
        return Err(EngineError::ConstraintViolation);
    }
    if !ledger.is_vacant(at) {
        return Err(EngineError::AlreadyExists);
    }
    let game_balance: u64 = ledger.balance(game);
    let monster_balance: u64 = ledger.balance(at);
    let owner_balance: u64 = ledger.balance(&owner);
    let slot = ledger.take(player_account);
    match slot.record {
        Record::Player(p) => {
            let mut ctx = CreateMonster {
                game: Account { key: *game, lamports: game_balance, data: game_data },
                player_account: Account { key: *player_account, lamports: slot.lamports, data: p },
                monster: Account { key: *at, lamports: monster_balance, data: Monster::blank() },
                player: Wallet { key: owner, lamports: owner_balance },
            };
            let r = run_spawn_monster(&mut ctx);
            ledger.put(
                player_account,
                Slot {
                    lamports: ctx.player_account.lamports,
                    record: Record::Player(ctx.player_account.data),
                },
            );
            match r {
                Ok(()) => {
                    ledger.put(
                        &owner,
                        Slot { lamports: ctx.player.lamports, record: Record::Vacant },
                    );
                    ledger.put(
                        at,
                        Slot {
                            lamports: ctx.monster.lamports,
                            record: Record::Monster(ctx.monster.data),
                        },
                    );
                    proof {
                        let next = spawn_monster_outcome(
                            old(ledger)@,
                            *at,
                            *game,
                            *player_account,
                            owner,
                        )->Ok_0;
                        assert(ledger@ =~= next);
                        let spawned = ledger@[*at].record->Monster_0;
                        assert(is_player_of(
                            ledger@,
                            *player_account,
                            spawned.player,
                            spawned.game,
                        ));
                        lemma_kept(old(ledger)@, ledger@);
                    }
                },
                Err(_) => {
                    proof {
                        assert(ledger@ =~= old(ledger)@);
                    }
                },
            }
            r
        },
        other => {
            ledger.put(player_account, Slot { lamports: slot.lamports, record: other });
            Err(EngineError::ConstraintViolation)
        },
    }
}

/// What the spawning of a monster makes of the state `m` under `program_id`:
/// what `spawn_monster_outcome` says, at the address that the seeds of the
/// monster give, its index being the player's next.
pub open spec fn spawn_monster_derived_outcome(
    m: State,
    program_id: Address,
    game: Address,
    player_account: Address,
    owner: Address,
) -> Result<State, EngineError> {
    if !(m[player_account].record is Player) {
        Err(EngineError::ConstraintViolation)
    } else {
        at_derived(
            derived_address(
                monster_seeds(game, owner, m[player_account].record->Player_0.next_monster_index),
                program_id,
            ),
            |at: Address| spawn_monster_outcome(m, at, game, player_account, owner),
        )
    }
}

/// Spawns a monster of the player at `player_account`, who is the player of
/// `owner` in `game`, at the address that the monster's seeds give, and
/// charges the owner for it. The monster's index is the player's next, which
/// is one higher afterwards: no two monsters of a player have the same.
pub fn spawn_monster(
    ledger: &mut Ledger,
    game: &Address,
    player_account: &Address,
    owner: Address,
) -> (r: Result<(), EngineError>)
    requires
        old(ledger).well_formed(),
    ensures
        final(ledger).well_formed(),
        final(ledger).spec_program_id() == old(ledger).spec_program_id(),
        evolves(old(ledger)@, final(ledger)@),
        carried_out(
            spawn_monster_derived_outcome(
                old(ledger)@,
                old(ledger).spec_program_id(),
                *game,
                *player_account,
                owner,
            ),
            r,
            old(ledger)@,
            final(ledger)@,
        ),
{
    let index: u64 = match ledger.player(player_account) {
        Some(p) => p.next_monster_index,
        None => {
            return Err(EngineError::ConstraintViolation);
        },
    };
    let program_id = ledger.program_id();
    match derived_or_refused(monster_address(&program_id, game, &owner, index)) {
        Ok(at) => spawn_monster_at(ledger, &at, game, player_account, owner),
        Err(e) => Err(e),
    }
}

/// The accounts that an attack works on. Who pays is the owner of the player.
pub open spec fn attack_monster_accounts(m: State, player_account: Address, monster: Address) -> AttackMonsterView {
    let owner = m[player_account].record->Player_0.player;
    AttackMonsterView {
        player_account: Account {
            key: player_account,
            lamports: m[player_account].lamports,
            data: m[player_account].record->Player_0,
        },
        monster: Account {
            key: monster,
            lamports: m[monster].lamports,
            data: m[monster].record->Monster_0,
        },
        player: Wallet { key: owner, lamports: m[owner].lamports },
    }
}

/// What an attack of the player at `player_account` on the monster at
/// `monster` makes of the state `m`. It is refused where `player_account`
/// holds no player or `monster` no monster, where the player's owner is no
/// identity that can pay, and where the attack on these accounts is refused.
/// Else the three of them are as the attack leaves them.
pub open spec fn attack_monster_outcome(m: State, player_account: Address, monster: Address) -> Result<
    State,
    EngineError,
> {
    let accounts = attack_monster_accounts(m, player_account, monster);
    if !(m[player_account].record is Player) || !(m[monster].record is Monster) {
        Err(EngineError::ConstraintViolation)
    } else if !(m[accounts.player.key].record is Vacant) {
        Err(EngineError::ConstraintViolation)
    } else {
        match accounts.outcome() {
            Err(e) => Err(e),
            Ok(done) => Ok(
                m.insert(
                    done.player.key,
                    SlotView { lamports: done.player.lamports, record: RecordView::Vacant },
                ).insert(
                    player_account,
                    SlotView {
                        lamports: done.player_account.lamports,
                        record: RecordView::Player(done.player_account.data),
                    },
                ).insert(
                    monster,
                    SlotView {
                        lamports: done.monster.lamports,
                        record: RecordView::Monster(done.monster.data),
                    },
                ),
            ),
        }
    }
}

/// The player at `player_account` attacks the monster at `monster`, and the
/// player's owner is charged for it, whether or not the monster is still alive.
pub fn attack_monster(ledger: &mut Ledger, player_account: &Address, monster: &Address) -> (r:
    Result<(), EngineError>)
    requires
        old(ledger).well_formed(),
    ensures
        final(ledger).well_formed(),
        final(ledger).spec_program_id() == old(ledger).spec_program_id(),
        evolves(old(ledger)@, final(ledger)@),
        carried_out(
            attack_monster_outcome(old(ledger)@, *player_account, *monster),
            r,
            old(ledger)@,
            final(ledger)@,
        ),
{
    let owner: Address = match ledger.player(player_account) {
        Some(p) => p.player,
        None => {
            return Err(EngineError::ConstraintViolation);
        },
    };
    let monster_data: Monster = match ledger.monster(monster) {
        Some(m) => m,
        None => {
            return Err(EngineError::ConstraintViolation);
        },
    };
    if !ledger.is_vacant(&owner) {
        return Err(EngineError::ConstraintViolation);
    }
    let monster_balance: u64 = ledger.balance(monster);
    let owner_balance: u64 = ledger.balance(&owner);
    let slot = ledger.take(player_account);
    match slot.record {
        Record::Player(p) => {
            let mut ctx = AttackMonster {
                player_account: Account { key: *player_account, lamports: slot.lamports, data: p },
                monster: Account { key: *monster, lamports: monster_balance, data: monster_data },
                player: Wallet { key: owner, lamports: owner_balance },
            };
            let r = run_attack_monster(&mut ctx);
            ledger.put(
                player_account,
                Slot {
                    lamports: ctx.player_account.lamports,
                    record: Record::Player(ctx.player_account.data),
                },
            );
            match r {
                Ok(()) => {
                    ledger.put(
                        &owner,
                        Slot { lamports: ctx.player.lamports, record: Record::Vacant },
                    );
                    ledger.put(
                        monster,
                        Slot {
                            lamports: ctx.monster.lamports,
                            record: Record::Monster(ctx.monster.data),
                        },
                    );
                    proof {
                        let next = attack_monster_outcome(
                            old(ledger)@,
                            *player_account,
                            *monster,
                        )->Ok_0;
                        assert(ledger@ =~= next);
                        lemma_kept(old(ledger)@, ledger@);
                    }
                },
                Err(_) => {
                    proof {
                        assert(ledger@ =~= old(ledger)@);
                    }
                },
            }
            r
        },
        other => {
            ledger.put(player_account, Slot { lamports: slot.lamports, record: other });
            Err(EngineError::ConstraintViolation)
        },
    }
}

/// The accounts that a settlement works on.
pub open spec fn deposit_accounts(m: State, game: Address, player: Address, treasury: Address) -> CollectActionPointsView {
    CollectActionPointsView {
        game: Account { key: game, lamports: m[game].lamports, data: m[game].record->Game_0 },
        player: Account {
            key: player,
            lamports: m[player].lamports,
            data: m[player].record->Player_0,
        },
        treasury: Wallet { key: treasury, lamports: m[treasury].lamports },
    }
}

/// What a settlement of the player at `player` with the game at `game` and its
/// treasury makes of the state `m`. It is refused where `game` holds no game
/// or `player` no player, where `treasury` is no identity that can be paid (it
/// holds a record), and where the settlement on these accounts is refused. Else
/// the three of them are as the settlement leaves them.
pub open spec fn deposit_outcome(m: State, game: Address, player: Address, treasury: Address) -> Result<
    State,
    EngineError,
> {
    let accounts = deposit_accounts(m, game, player, treasury);
    if !(m[game].record is Game) || !(m[player].record is Player) {
        Err(EngineError::ConstraintViolation)
    } else if !(m[treasury].record is Vacant) {
        Err(EngineError::ConstraintViolation)
    } else {
        match accounts.refusal() {
            Some(e) => Err(e),
            None => {
                let done = accounts.settled();
                Ok(
                    m.insert(
                        treasury,
                        SlotView { lamports: done.treasury.lamports, record: RecordView::Vacant },
                    ).insert(
                        player,
                        SlotView {
                            lamports: done.player.lamports,
                            record: RecordView::Player(done.player.data),
                        },
                    ).insert(
                        game,
                        SlotView {
                            lamports: done.game.lamports,
                            record: RecordView::Game(done.game.data),
                        },
                    ),
                )
            },
        }
    }
}

/// Sweeps what the player at `player` has pending to `treasury`, the treasury
/// of the player's game at `game`. Anyone may ask for it, for any player.
pub fn deposit_action_points(
    ledger: &mut Ledger,
    game: &Address,
    player: &Address,
    treasury: &Address,
) -> (r: Result<(), EngineError>)
    requires
        old(ledger).well_formed(),
    ensures
        final(ledger).well_formed(),
        final(ledger).spec_program_id() == old(ledger).spec_program_id(),
        evolves(old(ledger)@, final(ledger)@),
        carried_out(
            deposit_outcome(old(ledger)@, *game, *player, *treasury),
            r,
            old(ledger)@,
            final(ledger)@,
        ),
{
    let game_data: Game = match ledger.game(game) {
        Some(g) => g,
        None => {
            return Err(EngineError::ConstraintViolation);
        },
    };
    if ledger.player(player).is_none() {
        return Err(EngineError::ConstraintViolation);
    }
    if !ledger.is_vacant(treasury) {
        return Err(EngineError::ConstraintViolation);
    }
    let game_balance: u64 = ledger.balance(game);
    let treasury_balance: u64 = ledger.balance(treasury);
    let slot = ledger.take(player);
    match slot.record {
        Record::Player(p) => {
            let mut ctx = CollectActionPoints {
                game: Account { key: *game, lamports: game_balance, data: game_data },
                player: Account { key: *player, lamports: slot.lamports, data: p },
                treasury: Wallet { key: *treasury, lamports: treasury_balance },
            };
            let r = run_collect_action_points(&mut ctx);
            ledger.put(
                player,
                Slot { lamports: ctx.player.lamports, record: Record::Player(ctx.player.data) },
            );
            match r {
                Ok(()) => {
                    ledger.put(
                        treasury,
                        Slot { lamports: ctx.treasury.lamports, record: Record::Vacant },
                    );
                    ledger.put(
                        game,
                        Slot { lamports: ctx.game.lamports, record: Record::Game(ctx.game.data) },
                    );
                    proof {
                        let next = deposit_outcome(old(ledger)@, *game, *player, *treasury)->Ok_0;
                        assert(ledger@ =~= next);
                        lemma_kept(old(ledger)@, ledger@);
                    }
                },
                Err(_) => {
                    proof {
                        assert(ledger@ =~= old(ledger)@);
                    }
                },
            }
            r
        },
        other => {
            ledger.put(player, Slot { lamports: slot.lamports, record: other });
            Err(EngineError::ConstraintViolation)
        },
    }
}

} // verus!
