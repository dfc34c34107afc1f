use anchor_lang::prelude::Pubkey;
use solana_rpg_engine::address::{
    derive_address, game_address, monster_address, player_address,
};
use solana_rpg_engine::Address;

fn addr(b: u8) -> Address {
    Address { bytes: [b; 32] }
}

fn key(b: u8) -> Pubkey {
    Pubkey::new_from_array([b; 32])
}

#[test]
fn derive_agrees_with_find_program_address() {
    let seeds: Vec<Vec<u8>> = vec![b"GAME".to_vec(), vec![9u8; 32]];
    let got = derive_address(&seeds, &addr(7)).expect("an address");
    let (want, _) = Pubkey::find_program_address(&[b"GAME", &[9u8; 32]], &key(7));
    assert_eq!(got.bytes, want.to_bytes());
    assert_ne!(got, addr(7));
    assert_ne!(got, addr(9));
}

#[test]
fn derive_is_deterministic() {
    let seeds: Vec<Vec<u8>> = vec![vec![1, 2, 3], vec![4, 5]];
    assert_eq!(derive_address(&seeds, &addr(7)), derive_address(&seeds, &addr(7)));
}

#[test]
fn derive_depends_on_the_program() {
    let seeds: Vec<Vec<u8>> = vec![vec![1, 2, 3]];
    assert_ne!(derive_address(&seeds, &addr(7)), derive_address(&seeds, &addr(8)));
}

#[test]
fn derive_gives_nothing_for_too_many_seeds() {
    let seeds: Vec<Vec<u8>> = vec![vec![1u8]; 16];
    assert_eq!(derive_address(&seeds, &addr(7)), None);
}

#[test]
fn derive_gives_nothing_for_a_seed_too_long() {
    let seeds: Vec<Vec<u8>> = vec![vec![1u8; 33]];
    assert_eq!(derive_address(&seeds, &addr(7)), None);
}

#[test]
fn derive_takes_fifteen_seeds() {
    let seeds: Vec<Vec<u8>> = vec![vec![1u8]; 15];
    assert!(derive_address(&seeds, &addr(7)).is_some());
}

#[test]
fn game_address_uses_tag_and_treasury() {
    let got = game_address(&addr(7), &addr(2)).expect("an address");
    let (want, _) = Pubkey::find_program_address(&[b"GAME", key(2).as_ref()], &key(7));
    assert_eq!(got.bytes, want.to_bytes());
}

#[test]
fn player_address_uses_tag_game_and_owner() {
    let got = player_address(&addr(7), &addr(4), &addr(3)).expect("an address");
    let (want, _) =
        Pubkey::find_program_address(&[b"PLAYER", key(4).as_ref(), key(3).as_ref()], &key(7));
    assert_eq!(got.bytes, want.to_bytes());
}

#[test]
fn monster_address_uses_tag_game_owner_and_index() {
    let index: u64 = 0x0102_0304_0506_0708;
    let got = monster_address(&addr(7), &addr(4), &addr(3), index).expect("an address");
    let (want, _) = Pubkey::find_program_address(
        &[b"MONSTER", key(4).as_ref(), key(3).as_ref(), index.to_le_bytes().as_ref()],
        &key(7),
    );
    assert_eq!(got.bytes, want.to_bytes());
}

#[test]
fn monster_addresses_differ_by_index() {
    let first = monster_address(&addr(7), &addr(4), &addr(3), 0).expect("an address");
    let second = monster_address(&addr(7), &addr(4), &addr(3), 1).expect("an address");
    assert_ne!(first, second);
}

#[test]
fn addresses_of_different_kinds_differ() {
    let game = game_address(&addr(7), &addr(3)).expect("an address");
    let player = player_address(&addr(7), &addr(3), &addr(3)).expect("an address");
    let monster = monster_address(&addr(7), &addr(3), &addr(3), 0).expect("an address");
    assert_ne!(game, player);
    assert_ne!(game, monster);
    assert_ne!(player, monster);
}

#[test]
fn addresses_compare_by_their_bytes() {
    let mut other = addr(5);
    assert_eq!(addr(5), other);
    other.bytes[31] = 6;
    assert_ne!(addr(5), other);
    assert_eq!(Address::zero(), addr(0));
}
