use vstd::prelude::*;
use vstd::std_specs::cmp::PartialEqSpecImpl;

verus! {

/// A 32-byte account address.
#[derive(Clone, Copy, Debug)]
pub struct Address {
    pub bytes: [u8; 32],
}

impl View for Address {
    type V = Seq<u8>;

    open spec fn view(&self) -> Seq<u8> {
        self.bytes@
    }
}

impl Address {
    /// The address whose bytes are all zero.
    pub open spec fn spec_zero() -> Address {
        Address { bytes: vstd::array::spec_array_fill_for_copy_type::<u8, 32>(0u8) }
    }

    pub fn zero() -> (r: Address)
        ensures
            r == Address::spec_zero(),
    {
        Address { bytes: [0u8; 32] }
    }

    /// Two addresses with the same bytes are the same address.
    pub proof fn lemma_view_injective(a: Address, b: Address)
        ensures
            (a@ == b@) <==> (a == b),
    {
        if a@ == b@ {
            assert(a.bytes =~= b.bytes);
        }
    }
}

impl PartialEq for Address {
    fn eq(&self, other: &Address) -> (r: bool) {
        let mut i: usize = 0;
        while i < 32
            invariant
                0 <= i <= 32,
                forall|j: int| 0 <= j < i ==> self.bytes[j] == other.bytes[j],
            decreases 32 - i,
        {
            if self.bytes[i] != other.bytes[i] {
                return false;
            }
            i += 1;
        }
        proof {
            assert(self.bytes =~= other.bytes);
        }
        true
    }
}

impl Eq for Address {}

impl PartialEqSpecImpl for Address {
    open spec fn obeys_eq_spec() -> bool {
        true
    }

    open spec fn eq_spec(&self, other: &Address) -> bool {
        *self == *other
    }
}

/// The program-derived address of a list of seeds under a program id, as
/// `Pubkey::try_find_program_address` of anchor_lang finds it, where it finds
/// one. Nothing is stated of it but that it is a function of its arguments.
pub uninterp spec fn program_address(seeds: Seq<Seq<u8>>, program_id: Seq<u8>) -> Option<Seq<u8>>;

/// The bytes of each seed, in order.
pub open spec fn seeds_view(seeds: Seq<Vec<u8>>) -> Seq<Seq<u8>> {
    seeds.map_values(|s: Vec<u8>| s@)
}

/// Calls `Pubkey::try_find_program_address` of anchor_lang on the seeds and the
/// program id, and keeps the address of the pair it returns. The call hashes
/// its arguments and reads nothing else, so what it returns is
/// `program_address` of them; that is believed, not proved. It returns nothing
/// for sixteen seeds or more, for a seed of more than 32 bytes, and where none
/// of its 255 tries gives an address off the curve; it never panics.
#[verifier::external_body]
fn find_program_address(seeds: &Vec<Vec<u8>>, program_id: &Address) -> (r: Option<Address>)
    ensures
        program_address(seeds_view(seeds@), program_id@) == (match r {
            Some(found) => Some(found@),
            None => None::<Seq<u8>>,
        }),
{
    let parts: Vec<&[u8]> = seeds.iter().map(|s| s.as_slice()).collect();
    let program = anchor_lang::prelude::Pubkey::new_from_array(program_id.bytes);
    match anchor_lang::prelude::Pubkey::try_find_program_address(&parts, &program) {
        Some((found, _)) => Some(Address { bytes: found.to_bytes() }),
        None => None,
    }
}

/// Whether `r` is what the derivation gives for `seeds` under `program_id`:
/// the address it yields, or nothing where it yields none.
pub open spec fn is_derived(seeds: Seq<Seq<u8>>, program_id: Address, r: Option<Address>) -> bool {
    match r {
        Some(a) => program_address(seeds, program_id@) == Some(a@),
        None => program_address(seeds, program_id@) is None,
    }
}

/// The address that the derivation gives for `seeds` under `program_id`, where
/// it gives one.
pub open spec fn derived_address(seeds: Seq<Seq<u8>>, program_id: Address) -> Option<Address> {
    choose|r: Option<Address>| is_derived(seeds, program_id, r)
}

/// The derivation gives at most one address: whatever `is_derived` holds of is
/// the `derived_address`.
pub proof fn lemma_derived_address(seeds: Seq<Seq<u8>>, program_id: Address, r: Option<Address>)
    requires
        is_derived(seeds, program_id, r),
    ensures
        derived_address(seeds, program_id) == r,
{
    let d = derived_address(seeds, program_id);
    if r is Some {
        Address::lemma_view_injective(r->0, d->0);
    }
}

/// The tag of a game's address: the bytes of `GAME`.
pub open spec fn game_tag() -> Seq<u8> {
    seq![71u8, 65u8, 77u8, 69u8]
}

/// The tag of a player's address: the bytes of `PLAYER`.
pub open spec fn player_tag() -> Seq<u8> {
    seq![80u8, 76u8, 65u8, 89u8, 69u8, 82u8]
}

/// The tag of a monster's address: the bytes of `MONSTER`.
pub open spec fn monster_tag() -> Seq<u8> {
    seq![77u8, 79u8, 78u8, 83u8, 84u8, 69u8, 82u8]
}

/// The seeds of a game: its tag and its treasury.
pub open spec fn game_seeds(treasury: Address) -> Seq<Seq<u8>> {
    seq![game_tag(), treasury@]
}

/// The seeds of a player: its tag, its game and its owner.
pub open spec fn player_seeds(game: Address, owner: Address) -> Seq<Seq<u8>> {
    seq![player_tag(), game@, owner@]
}

/// The seeds of a monster: its tag, its game, its owner, and its index among
/// the owner's monsters in that game, as eight bytes, lowest first.
pub open spec fn monster_seeds(game: Address, owner: Address, index: u64) -> Seq<Seq<u8>> {
    seq![monster_tag(), game@, owner@, vstd::bytes::spec_u64_to_le_bytes(index)]
}

fn address_bytes(a: &Address) -> (r: Vec<u8>)
    ensures
        r@ == a@,
{
    let mut r: Vec<u8> = Vec::new();
    let mut i: usize = 0;
    while i < 32
        invariant
            0 <= i <= 32,
            r@ == a@.subrange(0, i as int),
        decreases 32 - i,
    {
        r.push(a.bytes[i]);
        i += 1;
    }
    r
}

/// The address of the record that `seeds` name under `program_id`, where there
/// is one. The same seeds under the same program id always give the same
/// address.
pub fn derive_address(seeds: &Vec<Vec<u8>>, program_id: &Address) -> (r: Option<Address>)
    ensures
        is_derived(seeds_view(seeds@), *program_id, r),
        r == derived_address(seeds_view(seeds@), *program_id),
{
    let r = find_program_address(seeds, program_id);
    proof {
        lemma_derived_address(seeds_view(seeds@), *program_id, r);
    }
    r
}

/// The address of the game of `treasury`.
pub fn game_address(program_id: &Address, treasury: &Address) -> (r: Option<Address>)
    ensures
        r == derived_address(game_seeds(*treasury), *program_id),
{
    let mut tag: Vec<u8> = Vec::new();
    tag.push(71u8);
    tag.push(65u8);
    tag.push(77u8);
    tag.push(69u8);
    let mut seeds: Vec<Vec<u8>> = Vec::new();
    seeds.push(tag);
    seeds.push(address_bytes(treasury));
    assert(seeds_view(seeds@) =~= game_seeds(*treasury)) by {
        assert(seeds@[0]@ =~= game_tag());
    }
    derive_address(&seeds, program_id)
}

/// The address of the player of `owner` in `game`.
pub fn player_address(program_id: &Address, game: &Address, owner: &Address) -> (r: Option<
    Address,
>)
    ensures
        r == derived_address(player_seeds(*game, *owner), *program_id),
{
    let mut tag: Vec<u8> = Vec::new();
    tag.push(80u8);
    tag.push(76u8);
    tag.push(65u8);
    tag.push(89u8);
    tag.push(69u8);
    tag.push(82u8);
    let mut seeds: Vec<Vec<u8>> = Vec::new();
    seeds.push(tag);
    seeds.push(address_bytes(game));
    seeds.push(address_bytes(owner));
    assert(seeds_view(seeds@) =~= player_seeds(*game, *owner)) by {
        assert(seeds@[0]@ =~= player_tag());
    }
    derive_address(&seeds, program_id)
}

/// The address of the monster that `owner` spawned in `game` at `index`.
pub fn monster_address(program_id: &Address, game: &Address, owner: &Address, index: u64) -> (r:
    Option<Address>)
    ensures
        r == derived_address(monster_seeds(*game, *owner, index), *program_id),
{
    let mut tag: Vec<u8> = Vec::new();
    tag.push(77u8);
    tag.push(79u8);
    tag.push(78u8);
    tag.push(83u8);
    tag.push(84u8);
    tag.push(69u8);
    tag.push(82u8);
    let mut seeds: Vec<Vec<u8>> = Vec::new();
    seeds.push(tag);
    seeds.push(address_bytes(game));
    seeds.push(address_bytes(owner));
    seeds.push(vstd::bytes::u64_to_le_bytes(index));
    assert(seeds_view(seeds@) =~= monster_seeds(*game, *owner, index)) by {
        assert(seeds@[0]@ =~= monster_tag());
    }
    derive_address(&seeds, program_id)
}

} // verus!
