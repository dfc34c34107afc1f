use crate::address::{
    derived_address, game_seeds, game_tag, monster_seeds, monster_tag, player_seeds, player_tag,
    Address,
};
use crate::ledger::State;
use crate::program::{
    at_derived, attack_monster_outcome, create_game_outcome, create_player_outcome,
    deposit_outcome, spawn_monster_derived_outcome, spawn_monster_outcome,
};
use vstd::prelude::*;

verus! {

/// The seeds of two monsters of one player differ where their indices do.
pub proof fn lemma_monster_seeds_tell_indices_apart(
    game: Address,
    owner: Address,
    first: u64,
    second: u64,
)
    ensures
        monster_seeds(game, owner, first) == monster_seeds(game, owner, second) ==> first
            == second,
{
    if monster_seeds(game, owner, first) == monster_seeds(game, owner, second) {
        vstd::bytes::lemma_auto_spec_u64_to_from_le_bytes();
        assert(monster_seeds(game, owner, first)[3] == monster_seeds(game, owner, second)[3]);
    }
}

/// The seeds of a record say what it is a record of: two games with the same
/// seeds have the same treasury, two players with the same seeds the same game
/// and owner, two monsters with the same seeds the same game, owner and index;
/// and no two records of different kinds have the same seeds.
pub proof fn lemma_seeds_tell_records_apart(
    game_a: Address,
    owner_a: Address,
    index_a: u64,
    game_b: Address,
    owner_b: Address,
    index_b: u64,
)
    ensures
        game_seeds(owner_a) == game_seeds(owner_b) ==> owner_a == owner_b,
        player_seeds(game_a, owner_a) == player_seeds(game_b, owner_b) ==> game_a == game_b
            && owner_a == owner_b,
        monster_seeds(game_a, owner_a, index_a) == monster_seeds(game_b, owner_b, index_b)
            ==> game_a == game_b && owner_a == owner_b && index_a == index_b,
        game_seeds(owner_a) != player_seeds(game_b, owner_b),
        game_seeds(owner_a) != monster_seeds(game_b, owner_b, index_b),
        player_seeds(game_a, owner_a) != monster_seeds(game_b, owner_b, index_b),
{
    if game_seeds(owner_a) == game_seeds(owner_b) {
        Address::lemma_view_injective(owner_a, owner_b);
    }
    if player_seeds(game_a, owner_a) == player_seeds(game_b, owner_b) {
        Address::lemma_view_injective(game_a, game_b);
        Address::lemma_view_injective(owner_a, owner_b);
    }
    if monster_seeds(game_a, owner_a, index_a) == monster_seeds(game_b, owner_b, index_b) {
        Address::lemma_view_injective(game_a, game_b);
        Address::lemma_view_injective(owner_a, owner_b);
        lemma_monster_seeds_tell_indices_apart(game_a, owner_a, index_a, index_b);
    }
}

/// The bytes of the seeds one after the other: all that a derivation sees of
/// them that takes them in turn.
pub open spec fn seed_bytes(seeds: Seq<Seq<u8>>) -> Seq<u8> {
    seeds.flatten()
}

proof fn lemma_seed_bytes_of_game(treasury: Address)
    ensures
        seed_bytes(game_seeds(treasury)) == game_tag() + treasury@,
        seed_bytes(game_seeds(treasury)).len() == 36,
{
    let tag = game_tag();
    let none = Seq::<Seq<u8>>::empty();
    none.lemma_flatten_push(tag);
    none.push(tag).lemma_flatten_push(treasury@);
    assert(game_seeds(treasury) =~= none.push(tag).push(treasury@));
}

proof fn lemma_seed_bytes_of_player(game: Address, owner: Address)
    ensures
        seed_bytes(player_seeds(game, owner)) == player_tag() + game@ + owner@,
        seed_bytes(player_seeds(game, owner)).len() == 70,
{
    let tag = player_tag();
    let none = Seq::<Seq<u8>>::empty();
    none.lemma_flatten_push(tag);
    none.push(tag).lemma_flatten_push(game@);
    none.push(tag).push(game@).lemma_flatten_push(owner@);
    assert(player_seeds(game, owner) =~= none.push(tag).push(game@).push(owner@));
}

proof fn lemma_seed_bytes_of_monster(game: Address, owner: Address, index: u64)
    ensures
        seed_bytes(monster_seeds(game, owner, index)) == monster_tag() + game@
            + owner@ + vstd::bytes::spec_u64_to_le_bytes(index),
        seed_bytes(monster_seeds(game, owner, index)).len() == 79,
{
    vstd::bytes::lemma_auto_spec_u64_to_from_le_bytes();
    let tag = monster_tag();
    let last = vstd::bytes::spec_u64_to_le_bytes(index);
    let none = Seq::<Seq<u8>>::empty();
    none.lemma_flatten_push(tag);
    none.push(tag).lemma_flatten_push(game@);
    none.push(tag).push(game@).lemma_flatten_push(owner@);
    none.push(tag).push(game@).push(owner@).lemma_flatten_push(last);
    assert(monster_seeds(game, owner, index) =~= none.push(tag).push(game@).push(owner@).push(
        last,
    ));
}

/// The bytes of a record's seeds, one after the other, still say what it is a
/// record of: taking the seeds in turn, without a mark between them, confuses
/// no two records of this program.
pub proof fn lemma_seed_bytes_tell_records_apart(
    game_a: Address,
    owner_a: Address,
    index_a: u64,
    game_b: Address,
    owner_b: Address,
    index_b: u64,
)
    ensures
        seed_bytes(game_seeds(owner_a)) == seed_bytes(game_seeds(owner_b)) ==> owner_a == owner_b,
        seed_bytes(player_seeds(game_a, owner_a)) == seed_bytes(player_seeds(game_b, owner_b))
            ==> game_a == game_b && owner_a == owner_b,
        seed_bytes(monster_seeds(game_a, owner_a, index_a)) == seed_bytes(
            monster_seeds(game_b, owner_b, index_b),
        ) ==> game_a == game_b && owner_a == owner_b && index_a == index_b,
        seed_bytes(game_seeds(owner_a)) != seed_bytes(player_seeds(game_b, owner_b)),
        seed_bytes(game_seeds(owner_a)) != seed_bytes(monster_seeds(game_b, owner_b, index_b)),
        seed_bytes(player_seeds(game_a, owner_a)) != seed_bytes(
            monster_seeds(game_b, owner_b, index_b),
        ),
{
    lemma_seed_bytes_of_game(owner_a);
    lemma_seed_bytes_of_game(owner_b);
    lemma_seed_bytes_of_player(game_a, owner_a);
    lemma_seed_bytes_of_player(game_b, owner_b);
    lemma_seed_bytes_of_monster(game_a, owner_a, index_a);
    lemma_seed_bytes_of_monster(game_b, owner_b, index_b);
    vstd::bytes::lemma_auto_spec_u64_to_from_le_bytes();
    let ga = seed_bytes(game_seeds(owner_a));
    let gb = seed_bytes(game_seeds(owner_b));
    if ga == gb {
        assert(ga.subrange(4, 36) =~= owner_a@);
        assert(gb.subrange(4, 36) =~= owner_b@);
        Address::lemma_view_injective(owner_a, owner_b);
    }
    let pa = seed_bytes(player_seeds(game_a, owner_a));
    let pb = seed_bytes(player_seeds(game_b, owner_b));
    if pa == pb {
        assert(pa.subrange(6, 38) =~= game_a@);
        assert(pb.subrange(6, 38) =~= game_b@);
        assert(pa.subrange(38, 70) =~= owner_a@);
        assert(pb.subrange(38, 70) =~= owner_b@);
        Address::lemma_view_injective(game_a, game_b);
        Address::lemma_view_injective(owner_a, owner_b);
    }
    let ma = seed_bytes(monster_seeds(game_a, owner_a, index_a));
    let mb = seed_bytes(monster_seeds(game_b, owner_b, index_b));
    if ma == mb {
        assert(ma.subrange(7, 39) =~= game_a@);
        assert(mb.subrange(7, 39) =~= game_b@);
        assert(ma.subrange(39, 71) =~= owner_a@);
        assert(mb.subrange(39, 71) =~= owner_b@);
        assert(ma.subrange(71, 79) =~= vstd::bytes::spec_u64_to_le_bytes(index_a));
        assert(mb.subrange(71, 79) =~= vstd::bytes::spec_u64_to_le_bytes(index_b));
        Address::lemma_view_injective(game_a, game_b);
        Address::lemma_view_injective(owner_a, owner_b);
    }
}

/// Whether the monster at `k` is the one that `owner` spawned in `game` at
/// `index`: its seeds give `k`.
pub open spec fn is_monster_at(
    program_id: Address,
    game: Address,
    owner: Address,
    index: u64,
    k: Address,
) -> bool {
    derived_address(monster_seeds(game, owner, index), program_id) == Some(k)
}

/// The next monster index of the player of `owner` in `game`, looked up at the
/// address that the player's seeds give; zero where there is no such player.
pub open spec fn next_index_of(m: State, program_id: Address, game: Address, owner: Address) -> int {
    match derived_address(player_seeds(game, owner), program_id) {
        Some(k) => if m[k].record is Player {
            m[k].record->Player_0.next_monster_index as int
        } else {
            0
        },
        None => 0,
    }
}

/// Whether every record is where its seeds say: a game at the address of its
/// treasury's game, a player at the address of its owner's player in its
/// game, and a monster at the address of one of its owner's monsters in its
/// game, with an index below the next index of its player.
pub open spec fn addressed(m: State, program_id: Address) -> bool {
    &&& forall|k: Address|
        (#[trigger] m[k]).record is Game ==> derived_address(
            game_seeds(m[k].record->Game_0.treasury),
            program_id,
        ) == Some(k)
    &&& forall|k: Address|
        (#[trigger] m[k]).record is Player ==> derived_address(
            player_seeds(m[k].record->Player_0.game, m[k].record->Player_0.player),
            program_id,
        ) == Some(k)
    &&& forall|k: Address|
        (#[trigger] m[k]).record is Monster ==> has_index(
            m,
            program_id,
            m[k].record->Monster_0.game,
            m[k].record->Monster_0.player,
            k,
        )
}

/// Whether the monster at `k` has an index that its player has given out.
pub open spec fn has_index(m: State, program_id: Address, game: Address, owner: Address, k: Address) -> bool {
    exists|index: u64|
        #[trigger] is_monster_at(program_id, game, owner, index, k) && index < next_index_of(
            m,
            program_id,
            game,
            owner,
        )
}

/// A state in which no address holds a record is addressed.
pub proof fn lemma_nothing_is_addressed(m: State, program_id: Address)
    requires
        forall|k: Address| (#[trigger] m[k]).record is Vacant,
    ensures
        addressed(m, program_id),
{
}

/// The creation of a game at the address that its seeds give keeps a state
/// addressed.
pub proof fn lemma_create_game_keeps_addressed(
    m: State,
    program_id: Address,
    game_master: Address,
    treasury: Address,
    max_items_per_player: u8,
)
    requires
        addressed(m, program_id),
        at_derived(
            derived_address(game_seeds(treasury), program_id),
            |at: Address| create_game_outcome(m, at, game_master, treasury, max_items_per_player),
        ) is Ok,
    ensures
        addressed(
            at_derived(
                derived_address(game_seeds(treasury), program_id),
                |at: Address|
                    create_game_outcome(m, at, game_master, treasury, max_items_per_player),
            )->Ok_0,
            program_id,
        ),
{
    let at = derived_address(game_seeds(treasury), program_id)->0;
    let next = create_game_outcome(m, at, game_master, treasury, max_items_per_player)->Ok_0;
    lemma_indices_stay(m, next, program_id);
}

/// The creation of a player at the address that its seeds give keeps a state
/// addressed.
pub proof fn lemma_create_player_keeps_addressed(
    m: State,
    program_id: Address,
    game: Address,
    owner: Address,
)
    requires
        addressed(m, program_id),
        at_derived(
            derived_address(player_seeds(game, owner), program_id),
            |at: Address| create_player_outcome(m, at, game, owner),
        ) is Ok,
    ensures
        addressed(
            at_derived(
                derived_address(player_seeds(game, owner), program_id),
                |at: Address| create_player_outcome(m, at, game, owner),
            )->Ok_0,
            program_id,
        ),
{
    let at = derived_address(player_seeds(game, owner), program_id)->0;
    let next = create_player_outcome(m, at, game, owner)->Ok_0;
    lemma_indices_stay(m, next, program_id);
}

/// The spawning of a monster at the address that its seeds give keeps a state
/// addressed: the new monster has the index that was the player's next, and
/// the player's next index is now above it.
pub proof fn lemma_spawn_monster_keeps_addressed(
    m: State,
    program_id: Address,
    game: Address,
    player_account: Address,
    owner: Address,
)
    requires
        addressed(m, program_id),
        spawn_monster_derived_outcome(m, program_id, game, player_account, owner) is Ok,
    ensures
        addressed(
            spawn_monster_derived_outcome(m, program_id, game, player_account, owner)->Ok_0,
            program_id,
        ),
{
    let index = m[player_account].record->Player_0.next_monster_index;
    let at = derived_address(monster_seeds(game, owner, index), program_id)->0;
    let next = spawn_monster_outcome(m, at, game, player_account, owner)->Ok_0;
    lemma_indices_stay(m, next, program_id);
    assert(is_monster_at(program_id, game, owner, index, at));
}

/// An attack keeps a state addressed.
pub proof fn lemma_attack_keeps_addressed(
    m: State,
    program_id: Address,
    player_account: Address,
    monster: Address,
)
    requires
        addressed(m, program_id),
        attack_monster_outcome(m, player_account, monster) is Ok,
    ensures
        addressed(attack_monster_outcome(m, player_account, monster)->Ok_0, program_id),
{
    lemma_indices_stay(m, attack_monster_outcome(m, player_account, monster)->Ok_0, program_id);
}

/// A settlement keeps a state addressed.
pub proof fn lemma_settlement_keeps_addressed(
    m: State,
    program_id: Address,
    game: Address,
    player: Address,
    treasury: Address,
)
    requires
        addressed(m, program_id),
        deposit_outcome(m, game, player, treasury) is Ok,
    ensures
        addressed(deposit_outcome(m, game, player, treasury)->Ok_0, program_id),
{
    lemma_indices_stay(m, deposit_outcome(m, game, player, treasury)->Ok_0, program_id);
}

/// A change of balances alone keeps a state addressed.
pub proof fn lemma_balances_keep_addressed(m: State, next: State, program_id: Address)
    requires
        addressed(m, program_id),
        forall|k: Address| (#[trigger] next[k]).record == m[k].record,
    ensures
        addressed(next, program_id),
{
    lemma_indices_stay(m, next, program_id);
}

/// In a state that has evolved from another, every monster of the earlier
/// state that had an index there still has it.
proof fn lemma_indices_stay(before: State, after: State, program_id: Address)
    requires
        forall|k: Address|
            (#[trigger] before[k]).record is Player ==> after[k].record is Player
                && after[k].record->Player_0.next_monster_index
                >= before[k].record->Player_0.next_monster_index,
    ensures
        forall|game: Address, owner: Address, k: Address| #[trigger]
            has_index(before, program_id, game, owner, k) ==> has_index(
                after,
                program_id,
                game,
                owner,
                k,
            ),
{
    assert forall|game: Address, owner: Address, k: Address| #[trigger]
        has_index(before, program_id, game, owner, k) implies has_index(
        after,
        program_id,
        game,
        owner,
        k,
    ) by {
        let index = choose|index: u64|
            #[trigger] is_monster_at(program_id, game, owner, index, k) && index < next_index_of(
                before,
                program_id,
                game,
                owner,
            );
        assert(is_monster_at(program_id, game, owner, index, k) && index < next_index_of(
            after,
            program_id,
            game,
            owner,
        ));
    }
}

/// In an addressed state there is one game to a treasury and one player to an
/// owner and a game: two records of the same are one record.
pub proof fn lemma_one_record_of_each(m: State, program_id: Address, first: Address, second: Address)
    requires
        addressed(m, program_id),
    ensures
        m[first].record is Game && m[second].record is Game && m[first].record->Game_0.treasury
            == m[second].record->Game_0.treasury ==> first == second,
        m[first].record is Player && m[second].record is Player
            && m[first].record->Player_0.game == m[second].record->Player_0.game
            && m[first].record->Player_0.player == m[second].record->Player_0.player ==> first
            == second,
{
}

/// In an addressed state every monster has an index below the next index of
/// its player, and two monsters of one player never have the same: an index
/// says which monster it is.
pub proof fn lemma_monsters_have_their_own_indices(
    m: State,
    program_id: Address,
    first: Address,
    second: Address,
    index: u64,
)
    requires
        addressed(m, program_id),
        m[first].record is Monster,
        m[second].record is Monster,
        first != second,
    ensures
        has_index(
            m,
            program_id,
            m[first].record->Monster_0.game,
            m[first].record->Monster_0.player,
            first,
        ),
        !(is_monster_at(
            program_id,
            m[first].record->Monster_0.game,
            m[first].record->Monster_0.player,
            index,
            first,
        ) && is_monster_at(
            program_id,
            m[first].record->Monster_0.game,
            m[first].record->Monster_0.player,
            index,
            second,
        )),
{
}

} // verus!
