use crate::address::{derived_address, player_seeds, Address};
use crate::combat::AttackMonsterView;
use crate::economy::{CollectActionPointsView, ATTACK_COST};
use crate::error::EngineError;
use crate::ledger::{consistent, evolves, record_evolves, State};
use crate::monster::CreateMonsterView;
use crate::program::{
    at_derived, attack_monster_outcome, create_game_outcome, create_player_outcome,
    deposit_outcome, spawn_monster_outcome,
};
use vstd::prelude::*;

verus! {

/// In a consistent state every player has spent at least what it has pending.
pub proof fn lemma_spent_covers_pending(m: State, k: Address)
    requires
        consistent(m),
        m[k].record is Player,
    ensures
        m[k].record->Player_0.action_points_spent
            >= m[k].record->Player_0.action_points_to_be_collected,
{
}

/// In a consistent state the balance behind a player's record covers what the
/// player has pending: a settlement never finds it short.
pub proof fn lemma_pending_is_backed(m: State, k: Address)
    requires
        consistent(m),
        m[k].record is Player,
    ensures
        m[k].lamports >= m[k].record->Player_0.action_points_to_be_collected,
{
}

/// In a consistent state the game of every player exists, and no inventory
/// holds more items than that game allows a player.
pub proof fn lemma_inventory_within_capacity(m: State, k: Address)
    requires
        consistent(m),
        m[k].record is Player,
    ensures
        m[m[k].record->Player_0.game].record is Game,
        m[k].record->Player_0.inventory.len() <= m[m[k].record->Player_0.game].record->Game_0
            .game_config.max_items_per_player,
{
}

/// A state has evolved from itself.
pub proof fn lemma_evolves_reflexive(m: State)
    ensures
        evolves(m, m),
{
}

/// What has evolved from a state that has evolved from a first one has evolved
/// from the first: over any run of operations no record is destroyed, no game
/// changes its master, treasury or configuration, no player its owner or game,
/// no monster its owner or game; what a game has collected, and what a player
/// has spent, its experience, its kills and its next monster index never go
/// down, and the hitpoints of a monster never go up.
pub proof fn lemma_evolves_transitive(a: State, b: State, c: State)
    requires
        evolves(a, b),
        evolves(b, c),
    ensures
        evolves(a, c),
{
    assert forall|k: Address| record_evolves((#[trigger] a[k]).record, c[k].record) by {
        assert(record_evolves(b[k].record, c[k].record));
    }
}

/// A monster that is spawned gets the player's next index, and the next index
/// is then exactly one higher: no later monster of the player gets the same.
pub proof fn lemma_spawn_moves_index_up(accounts: CreateMonsterView)
    requires
        accounts.refusal() is None,
    ensures
        accounts.spawned().player_account.data.next_monster_index
            == accounts.player_account.data.next_monster_index + 1,
{
}

/// A monster is spawned at an address that held no record, and every other
/// address holds the record it held: no two monsters share an address.
pub proof fn lemma_spawn_takes_a_free_address(
    m: State,
    at: Address,
    game: Address,
    player_account: Address,
    owner: Address,
)
    requires
        spawn_monster_outcome(m, at, game, player_account, owner) is Ok,
    ensures
        m[at].record is Vacant,
        spawn_monster_outcome(m, at, game, player_account, owner)->Ok_0[at].record is Monster,
        forall|k: Address|
            k != at && (#[trigger] m[k]).record is Monster ==> spawn_monster_outcome(
                m,
                at,
                game,
                player_account,
                owner,
            )->Ok_0[k].record == m[k].record,
{
}

/// After a monster was spawned for a player, the player's next index is above
/// the index of that monster in every state that evolves from there: the next
/// index of a player goes strictly up from monster to monster, and no later
/// monster of the player gets an index that was given before.
pub proof fn lemma_index_is_never_given_again(
    m: State,
    at: Address,
    game: Address,
    player_account: Address,
    owner: Address,
    later: State,
)
    requires
        spawn_monster_outcome(m, at, game, player_account, owner) is Ok,
        evolves(spawn_monster_outcome(m, at, game, player_account, owner)->Ok_0, later),
    ensures
        later[player_account].record is Player,
        later[player_account].record->Player_0.next_monster_index
            > m[player_account].record->Player_0.next_monster_index,
{
    let next = spawn_monster_outcome(m, at, game, player_account, owner)->Ok_0;
    assert(record_evolves(next[player_account].record, later[player_account].record));
}

/// A settlement adds to what the game has collected exactly what the player
/// had pending, and leaves the player with nothing pending.
pub proof fn lemma_settlement_adds_pending(accounts: CollectActionPointsView)
    requires
        accounts.refusal() is None,
    ensures
        accounts.settled().game.data.action_points_collected
            == accounts.game.data.action_points_collected
            + accounts.player.data.action_points_to_be_collected,
        accounts.settled().player.data.action_points_to_be_collected == 0,
        accounts.settled().treasury.lamports == accounts.treasury.lamports
            + accounts.player.data.action_points_to_be_collected,
        accounts.settled().player.lamports == accounts.player.lamports
            - accounts.player.data.action_points_to_be_collected,
{
}

/// A settlement that goes through adds to what the game at `game` has
/// collected exactly what the player at `player` had pending, leaves that
/// player with nothing pending, and moves that much from the balance of
/// `player` to that of `treasury`.
pub proof fn lemma_settlement_sweeps_pending(m: State, game: Address, player: Address, treasury: Address)
    requires
        deposit_outcome(m, game, player, treasury) is Ok,
    ensures
        ({
            let next = deposit_outcome(m, game, player, treasury)->Ok_0;
            let swept = m[player].record->Player_0.action_points_to_be_collected;
            &&& next[game].record->Game_0.action_points_collected
                == m[game].record->Game_0.action_points_collected + swept
            &&& next[player].record->Player_0.action_points_to_be_collected == 0
            &&& next[player].lamports == m[player].lamports - swept
            &&& next[treasury].lamports == m[treasury].lamports + swept
        }),
{
}

/// In a consistent state a settlement is never refused for want of funds.
pub proof fn lemma_settlement_is_funded(m: State, game: Address, player: Address, treasury: Address)
    requires
        consistent(m),
    ensures
        deposit_outcome(m, game, player, treasury) != Err::<State, EngineError>(
            EngineError::InsufficientFunds,
        ),
{
    if m[player].record is Player {
        lemma_pending_is_backed(m, player);
    }
}

/// An attack on a monster that is dead already does no damage and counts no
/// kill, and still costs `ATTACK_COST`.
pub proof fn lemma_attack_on_the_dead(accounts: AttackMonsterView)
    requires
        accounts.monster.data.hitpoints == 0,
        accounts.outcome() is Ok,
    ensures
        accounts.outcome()->Ok_0.monster.data.hitpoints == 0,
        accounts.outcome()->Ok_0.player_account.data.kills == accounts.player_account.data.kills,
        accounts.outcome()->Ok_0.player_account.data.action_points_to_be_collected
            == accounts.player_account.data.action_points_to_be_collected + ATTACK_COST,
        accounts.outcome()->Ok_0.player_account.data.action_points_spent
            == accounts.player_account.data.action_points_spent + ATTACK_COST,
        accounts.outcome()->Ok_0.player.lamports == accounts.player.lamports - ATTACK_COST,
{
}

/// An attack that goes through adds exactly one to the player's experience,
/// whether or not it kills, as long as the experience is not at the largest
/// value of its type, where it stays.
pub proof fn lemma_attack_gives_one_experience(accounts: AttackMonsterView)
    requires
        accounts.outcome() is Ok,
        accounts.player_account.data.experience < u64::MAX,
    ensures
        accounts.outcome()->Ok_0.player_account.data.experience
            == accounts.player_account.data.experience + 1,
{
}

/// An attack that goes through takes one hitpoint off a living monster, and
/// counts a kill exactly when that was its last.
pub proof fn lemma_attack_on_the_living(accounts: AttackMonsterView)
    requires
        accounts.monster.data.hitpoints > 0,
        accounts.outcome() is Ok,
        accounts.player_account.data.kills < u64::MAX,
    ensures
        accounts.outcome()->Ok_0.monster.data.hitpoints == accounts.monster.data.hitpoints - 1,
        accounts.outcome()->Ok_0.player_account.data.kills == accounts.player_account.data.kills
            + if accounts.monster.data.hitpoints == 1 {
            1int
        } else {
            0int
        },
{
}

/// Once a game is created at an address, a second creation there is refused
/// as `AlreadyExists`, whoever asks and with whatever configuration.
pub proof fn lemma_game_is_created_once(
    m: State,
    at: Address,
    game_master: Address,
    treasury: Address,
    max_items_per_player: u8,
    second_master: Address,
    second_max_items: u8,
)
    requires
        create_game_outcome(m, at, game_master, treasury, max_items_per_player) is Ok,
    ensures
        create_game_outcome(
            create_game_outcome(m, at, game_master, treasury, max_items_per_player)->Ok_0,
            at,
            second_master,
            treasury,
            second_max_items,
        ) == Err::<State, EngineError>(EngineError::AlreadyExists),
{
}

/// Once the player of an owner in a game is created, a second creation for
/// the same owner and game is refused as `AlreadyExists`, under any program
/// id: its seeds give the same address. A refused operation changes no
/// balance.
pub proof fn lemma_player_is_created_once(m: State, program_id: Address, game: Address, owner: Address)
    requires
        at_derived(
            derived_address(player_seeds(game, owner), program_id),
            |at: Address| create_player_outcome(m, at, game, owner),
        ) is Ok,
    ensures
        at_derived(
            derived_address(player_seeds(game, owner), program_id),
            |at: Address|
                create_player_outcome(
                    at_derived(
                        derived_address(player_seeds(game, owner), program_id),
                        |at: Address| create_player_outcome(m, at, game, owner),
                    )->Ok_0,
                    at,
                    game,
                    owner,
                ),
        ) == Err::<State, EngineError>(EngineError::AlreadyExists),
{
}

/// A monster cannot be spawned for a player in another game than the
/// player's: that is refused as a `ConstraintViolation`, which leaves the
/// player's next index, like everything else, as it was.
pub proof fn lemma_spawn_in_another_game(
    m: State,
    at: Address,
    game: Address,
    player_account: Address,
    owner: Address,
)
    requires
        m[player_account].record is Player,
        m[player_account].record->Player_0.game != game,
    ensures
        spawn_monster_outcome(m, at, game, player_account, owner) == Err::<State, EngineError>(
            EngineError::ConstraintViolation,
        ),
{
}

/// An attack changes nothing but the player, the monster and the owner's
/// balance.
pub proof fn lemma_attack_touches_three(m: State, player_account: Address, monster: Address, k: Address)
    requires
        attack_monster_outcome(m, player_account, monster) is Ok,
        m[player_account].record is Player,
        k != player_account,
        k != monster,
        k != m[player_account].record->Player_0.player,
    ensures
        attack_monster_outcome(m, player_account, monster)->Ok_0[k] == m[k],
{
}

/// Only an attack changes a monster: the creation of a game or of a player,
/// the spawning of another monster and a settlement leave every monster that
/// there is as it was.
pub proof fn lemma_only_attacks_change_monsters(
    m: State,
    at: Address,
    game: Address,
    player_account: Address,
    owner: Address,
    game_master: Address,
    treasury: Address,
    max_items_per_player: u8,
    k: Address,
)
    requires
        m[k].record is Monster,
    ensures
        create_game_outcome(m, at, game_master, treasury, max_items_per_player) matches Ok(next)
            ==> next[k].record == m[k].record,
        create_player_outcome(m, at, game, owner) matches Ok(next) ==> next[k].record
            == m[k].record,
        spawn_monster_outcome(m, at, game, player_account, owner) matches Ok(next)
            ==> next[k].record == m[k].record,
        deposit_outcome(m, game, player_account, treasury) matches Ok(next) ==> next[k].record
            == m[k].record,
{
}

/// Only a settlement lowers what a player has pending: the creation of a
/// game or of another player, the spawning of a monster and an attack leave
/// every player that there is with at least as much pending as before.
pub proof fn lemma_only_settlements_lower_pending(
    m: State,
    at: Address,
    game: Address,
    player_account: Address,
    monster: Address,
    owner: Address,
    game_master: Address,
    treasury: Address,
    max_items_per_player: u8,
    k: Address,
)
    requires
        m[k].record is Player,
    ensures
        create_game_outcome(m, at, game_master, treasury, max_items_per_player) matches Ok(next)
            ==> next[k].record == m[k].record,
        create_player_outcome(m, at, game, owner) matches Ok(next) ==> next[k].record
            == m[k].record,
        spawn_monster_outcome(m, at, game, player_account, owner) matches Ok(next) ==> next[k]
            .record is Player && next[k].record->Player_0.action_points_to_be_collected
            >= m[k].record->Player_0.action_points_to_be_collected,
        attack_monster_outcome(m, player_account, monster) matches Ok(next) ==> next[k].record
            is Player && next[k].record->Player_0.action_points_to_be_collected
            >= m[k].record->Player_0.action_points_to_be_collected,
{
}

} // verus!
