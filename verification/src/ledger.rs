use crate::address::Address;
use crate::error::EngineError;
use crate::state::{Game, Monster, Player, PlayerView};
use vstd::prelude::*;

verus! {

/// What an address holds besides its balance.
#[derive(Debug)]
pub enum Record {
    /// No record: the address of an identity, or one that nothing was created
    /// at yet.
    Vacant,
    Game(Game),
    Player(Player),
    Monster(Monster),
}

/// What a record says.
pub enum RecordView {
    Vacant,
    Game(Game),
    Player(PlayerView),
    Monster(Monster),
}

impl View for Record {
    type V = RecordView;

    open spec fn view(&self) -> RecordView {
        match *self {
            Record::Vacant => RecordView::Vacant,
            Record::Game(g) => RecordView::Game(g),
            Record::Player(p) => RecordView::Player(p@),
            Record::Monster(m) => RecordView::Monster(m),
        }
    }
}

/// The state of one address: its native balance and its record.
#[derive(Debug)]
pub struct Slot {
    pub lamports: u64,
    pub record: Record,
}

/// What the state of an address says.
pub struct SlotView {
    pub lamports: u64,
    pub record: RecordView,
}

impl View for Slot {
    type V = SlotView;

    open spec fn view(&self) -> SlotView {
        SlotView { lamports: self.lamports, record: self.record@ }
    }
}

impl SlotView {
    /// The state of an address that nothing has touched.
    pub open spec fn empty() -> SlotView {
        SlotView { lamports: 0, record: RecordView::Vacant }
    }
}

impl Slot {
    pub fn empty() -> (r: Slot)
        ensures
            r@ == SlotView::empty(),
    {
        Slot { lamports: 0, record: Record::Vacant }
    }
}

/// The state of all addresses.
pub type State = Map<Address, SlotView>;

/// What holds of the state of all addresses together, whatever was done: a
/// player has spent at least what it has pending, its record's balance covers
/// what it has pending, its game exists and allows at least as many items as
/// its inventory holds; and a monster has its player.
pub open spec fn consistent(m: State) -> bool {
    &&& forall|k: Address| (#[trigger] m[k]).record matches RecordView::Player(p) ==> player_in_order(m, k, p)
    &&& forall|k: Address| (#[trigger] m[k]).record matches RecordView::Monster(mo) ==> has_player(m, mo)
}

/// What `consistent` asks of the player `p` at `k`.
pub open spec fn player_in_order(m: State, k: Address, p: PlayerView) -> bool {
    &&& p.well_formed()
    &&& m[k].lamports >= p.action_points_to_be_collected
    &&& m[p.game].record matches RecordView::Game(g) && p.inventory.len()
        <= g.game_config.max_items_per_player
}

/// Whether some player record is the player of `owner` in `game`.
pub open spec fn is_player_of(m: State, k: Address, owner: Address, game: Address) -> bool {
    m[k].record matches RecordView::Player(p) && p.player == owner && p.game == game
}

/// What `consistent` asks of a monster: the player it belongs to exists.
pub open spec fn has_player(m: State, mo: Monster) -> bool {
    exists|k: Address| #[trigger] is_player_of(m, k, mo.player, mo.game)
}

/// Whether a record may have become `after` where it was `before`. Nothing is
/// ever destroyed. A game keeps its master, its treasury and its
/// configuration, and what it has collected never goes down. A player keeps
/// its owner, its game and its inventory; what it has spent, its experience,
/// its kills and its next monster index never go down. A monster keeps its owner
/// and its game, and its hitpoints never go up.
pub open spec fn record_evolves(before: RecordView, after: RecordView) -> bool {
    match before {
        RecordView::Vacant => true,
        RecordView::Game(g) => {
            &&& after matches RecordView::Game(h)
            &&& h.game_master == g.game_master
            &&& h.treasury == g.treasury
            &&& h.game_config == g.game_config
            &&& h.action_points_collected >= g.action_points_collected
        },
        RecordView::Player(p) => {
            &&& after matches RecordView::Player(q)
            &&& q.player == p.player
            &&& q.game == p.game
            &&& q.status_flag == p.status_flag
            &&& q.for_future_use == p.for_future_use
            &&& q.inventory == p.inventory
            &&& q.action_points_spent >= p.action_points_spent
            &&& q.experience >= p.experience
            &&& q.kills >= p.kills
            &&& q.next_monster_index >= p.next_monster_index
        },
        RecordView::Monster(mo) => {
            &&& after matches RecordView::Monster(n)
            &&& n.player == mo.player
            &&& n.game == mo.game
            &&& n.hitpoints <= mo.hitpoints
        },
    }
}

/// Whether the state `after` may have come out of the state `before`: every
/// record has evolved as `record_evolves` allows.
pub open spec fn evolves(before: State, after: State) -> bool {
    forall|k: Address| record_evolves((#[trigger] before[k]).record, after[k].record)
}

/// A state that has evolved from a consistent one is consistent, if each of
/// its players is in order or is a player from before whose balance still
/// covers what it has pending, and each of its monsters has its player or is a
/// monster from before.
pub(crate) proof fn lemma_kept(before: State, after: State)
    requires
        consistent(before),
        evolves(before, after),
        forall|k: Address|
            (#[trigger] after[k]).record is Player ==> {
                let p = after[k].record->Player_0;
                &&& p.well_formed()
                &&& after[k].lamports >= p.action_points_to_be_collected
                &&& before[k].record is Player || (after[p.game].record matches RecordView::Game(g)
                    && p.inventory.len() <= g.game_config.max_items_per_player)
            },
        forall|k: Address|
            (#[trigger] after[k]).record is Monster ==> before[k].record is Monster || has_player(
                after,
                after[k].record->Monster_0,
            ),
    ensures
        consistent(after),
{
    assert forall|k: Address| (#[trigger] after[k]).record is Monster implies has_player(
        after,
        after[k].record->Monster_0,
    ) by {
        let mo = after[k].record->Monster_0;
        if before[k].record is Monster {
            let old_mo = before[k].record->Monster_0;
            let w = choose|w: Address| #[trigger]
                is_player_of(before, w, old_mo.player, old_mo.game);
            assert(is_player_of(after, w, mo.player, mo.game));
        }
    }
}

/// A state that differs from a consistent one only in balances that have
/// not gone down is consistent, and has evolved from it.
pub(crate) proof fn lemma_kept_records(before: State, after: State)
    requires
        consistent(before),
        forall|k: Address|
            (#[trigger] after[k]).record == before[k].record && after[k].lamports
                >= before[k].lamports,
    ensures
        consistent(after),
        evolves(before, after),
{
    assert forall|k: Address| record_evolves((#[trigger] before[k]).record, after[k].record) by {}
    assert forall|k: Address| (#[trigger] after[k]).record is Player implies before[k].record is Player
        && after[k].record->Player_0.well_formed() && after[k].lamports
        >= after[k].record->Player_0.action_points_to_be_collected by {}
    lemma_kept(before, after);
}

struct Entry {
    key: Address,
    slot: Slot,
}

/// The record store: for every address its balance and its record. An address
/// that nothing has touched has no balance and no record.
pub struct Ledger {
    program_id: Address,
    entries: Vec<Entry>,
}

spec fn holds(entries: Seq<Entry>, key: Address) -> bool {
    exists|i: int| 0 <= i < entries.len() && #[trigger] entries[i].key == key
}

spec fn position(entries: Seq<Entry>, key: Address) -> int {
    choose|i: int| 0 <= i < entries.len() && #[trigger] entries[i].key == key
}

spec fn slot_of(entries: Seq<Entry>, key: Address) -> SlotView {
    if holds(entries, key) {
        entries[position(entries, key)].slot@
    } else {
        SlotView::empty()
    }
}

spec fn distinct(entries: Seq<Entry>) -> bool {
    forall|i: int, j: int|
        0 <= i < j < entries.len() ==> #[trigger] entries[i].key != #[trigger] entries[j].key
}

proof fn lemma_slot_at(entries: Seq<Entry>, i: int)
    requires
        distinct(entries),
        0 <= i < entries.len(),
    ensures
        holds(entries, entries[i].key),
        slot_of(entries, entries[i].key) == entries[i].slot@,
{
}

proof fn lemma_push(entries: Seq<Entry>, e: Entry)
    requires
        distinct(entries),
        !holds(entries, e.key),
    ensures
        distinct(entries.push(e)),
        forall|k: Address|
            #[trigger] slot_of(entries.push(e), k) == if k == e.key {
                e.slot@
            } else {
                slot_of(entries, k)
            },
{
    let next = entries.push(e);
    assert forall|k: Address|
        #[trigger] slot_of(next, k) == if k == e.key {
            e.slot@
        } else {
            slot_of(entries, k)
        } by {
        if k == e.key {
            lemma_slot_at(next, entries.len() as int);
        } else if holds(entries, k) {
            let p = position(entries, k);
            lemma_slot_at(next, p);
            lemma_slot_at(entries, p);
        }
    }
}

proof fn lemma_update(entries: Seq<Entry>, i: int, e: Entry)
    requires
        distinct(entries),
        0 <= i < entries.len(),
        e.key == entries[i].key,
    ensures
        distinct(entries.update(i, e)),
        forall|k: Address|
            #[trigger] slot_of(entries.update(i, e), k) == if k == e.key {
                e.slot@
            } else {
                slot_of(entries, k)
            },
{
    let next = entries.update(i, e);
    assert forall|k: Address|
        #[trigger] slot_of(next, k) == if k == e.key {
            e.slot@
        } else {
            slot_of(entries, k)
        } by {
        if k == e.key {
            lemma_slot_at(next, i);
        } else if holds(entries, k) {
            let p = position(entries, k);
            lemma_slot_at(next, p);
            lemma_slot_at(entries, p);
        }
    }
}

impl View for Ledger {
    type V = State;

    /// The state of every address.
    closed spec fn view(&self) -> State {
        Map::total(|k: Address| slot_of(self.entries@, k))
    }
}

impl Ledger {
    /// No address is listed twice.
    pub closed spec fn coherent(&self) -> bool {
        distinct(self.entries@)
    }

    /// No address is listed twice, every address has a state, and the state
    /// of the addresses is `consistent`.
    pub open spec fn well_formed(&self) -> bool {
        &&& self.coherent()
        &&& forall|k: Address| #[trigger] self@.dom().contains(k)
        &&& consistent(self@)
    }

    /// The id of the program that the addresses of its records are derived
    /// under.
    pub closed spec fn spec_program_id(&self) -> Address {
        self.program_id
    }

    /// A store in which no address has a balance or a record.
    pub fn new(program_id: Address) -> (r: Ledger)
        ensures
            r.well_formed(),
            r.spec_program_id() == program_id,
            r@ == Map::total(|k: Address| SlotView::empty()),
    {
        let r = Ledger { program_id, entries: Vec::new() };
        r
    }

    #[verifier::when_used_as_spec(spec_program_id)]
    pub fn program_id(&self) -> (r: Address)
        ensures
            r == self.spec_program_id(),
    {
        self.program_id
    }

    fn find(&self, key: &Address) -> (r: Option<usize>)
        ensures
            match r {
                Some(i) => i < self.entries@.len() && self.entries@[i as int].key == *key,
                None => !holds(self.entries@, *key),
            },
    {
        let mut i: usize = 0;
        while i < self.entries.len()
            invariant
                0 <= i <= self.entries@.len(),
                forall|j: int| 0 <= j < i ==> self.entries@[j].key != *key,
            decreases self.entries@.len() - i,
        {
            if self.entries[i].key == *key {
                return Some(i);
            }
            i += 1;
        }
        None
    }

    /// The state of an address, where the store lists it.
    fn slot(&self, key: &Address) -> (r: Option<&Slot>)
        requires
            self.coherent(),
        ensures
            match r {
                Some(s) => s@ == self@[*key],
                None => self@[*key] == SlotView::empty(),
            },
    {
        match self.find(key) {
            Some(i) => {
                proof {
                    lemma_slot_at(self.entries@, i as int);
                }
                Some(&self.entries[i].slot)
            },
            None => None,
        }
    }

    /// The native balance of an address.
    pub fn balance(&self, key: &Address) -> (r: u64)
        requires
            self.well_formed(),
        ensures
            r == self@[*key].lamports,
    {
        match self.slot(key) {
            Some(s) => s.lamports,
            None => 0,
        }
    }

    /// Whether an address holds no record.
    pub fn is_vacant(&self, key: &Address) -> (r: bool)
        requires
            self.well_formed(),
        ensures
            r == (self@[*key].record is Vacant),
    {
        match self.slot(key) {
            Some(s) => match s.record {
                Record::Vacant => true,
                _ => false,
            },
            None => true,
        }
    }

    /// The game that an address holds, if it holds one.
    pub fn game(&self, key: &Address) -> (r: Option<Game>)
        requires
            self.well_formed(),
        ensures
            match r {
                Some(g) => self@[*key].record == RecordView::Game(g),
                None => !(self@[*key].record is Game),
            },
    {
        match self.slot(key) {
            Some(s) => match s.record {
                Record::Game(g) => Some(g),
                _ => None,
            },
            None => None,
        }
    }

    /// The player that an address holds, if it holds one.
    pub fn player(&self, key: &Address) -> (r: Option<&Player>)
        requires
            self.well_formed(),
        ensures
            match r {
                Some(p) => self@[*key].record == RecordView::Player(p@),
                None => !(self@[*key].record is Player),
            },
    {
        match self.slot(key) {
            Some(s) => match &s.record {
                Record::Player(p) => Some(p),
                _ => None,
            },
            None => None,
        }
    }

    /// The monster that an address holds, if it holds one.
    pub fn monster(&self, key: &Address) -> (r: Option<Monster>)
        requires
            self.well_formed(),
        ensures
            match r {
                Some(m) => self@[*key].record == RecordView::Monster(m),
                None => !(self@[*key].record is Monster),
            },
    {
        match self.slot(key) {
            Some(s) => match s.record {
                Record::Monster(m) => Some(m),
                _ => None,
            },
            None => None,
        }
    }

    /// Adds `amount` to the native balance of an address: balance that comes
    /// from outside the game. Refused where the balance cannot take it.
    pub fn credit(&mut self, key: &Address, amount: u64) -> (r: Result<(), EngineError>)
        requires
            old(self).well_formed(),
        ensures
            final(self).well_formed(),
            final(self).spec_program_id() == old(self).spec_program_id(),
            evolves(old(self)@, final(self)@),
            if old(self)@[*key].lamports + amount > u64::MAX {
                r == Err::<(), EngineError>(EngineError::ArithmeticOverflow) && final(self)@ == old(
                    self,
                )@
            } else {
                r is Ok && final(self)@ == old(self)@.insert(
                    *key,
                    SlotView {
                        lamports: (old(self)@[*key].lamports + amount) as u64,
                        record: old(self)@[*key].record,
                    },
                )
            },
    {
        let before: u64 = self.balance(key);
        match before.checked_add(amount) {
            Some(after) => {
                let slot = self.take(key);
                self.put(key, Slot { lamports: after, record: slot.record });
                proof {
                    lemma_kept_records(old(self)@, self@);
                }
                Ok(())
            },
            None => Err(EngineError::ArithmeticOverflow),
        }
    }

    /// Takes the state of an address out of the store and leaves the address
    /// empty.
    pub(crate) fn take(&mut self, key: &Address) -> (r: Slot)
        requires
            old(self).coherent(),
        ensures
            final(self).coherent(),
            final(self).spec_program_id() == old(self).spec_program_id(),
            r@ == old(self)@[*key],
            final(self)@ == old(self)@.insert(*key, SlotView::empty()),
    {
        match self.find(key) {
            Some(i) => {
                proof {
                    lemma_slot_at(self.entries@, i as int);
                }
                let blank = Entry { key: *key, slot: Slot::empty() };
                self.entries.push(blank);
                let taken = self.entries.swap_remove(i);
                proof {
                    let before = old(self).entries@;
                    assert(self.entries@ =~= before.update(i as int, blank));
                    lemma_update(before, i as int, blank);
                }
                taken.slot
            },
            None => Slot::empty(),
        }
    }

    /// Gives an address a new state.
    pub(crate) fn put(&mut self, key: &Address, slot: Slot)
        requires
            old(self).coherent(),
        ensures
            final(self).coherent(),
            final(self).spec_program_id() == old(self).spec_program_id(),
            final(self)@ == old(self)@.insert(*key, slot@),
    {
        let entry = Entry { key: *key, slot };
        match self.find(key) {
            Some(i) => {
                self.entries.push(entry);
                let _ = self.entries.swap_remove(i);
                proof {
                    let before = old(self).entries@;
                    assert(self.entries@ =~= before.update(i as int, entry));
                    lemma_update(before, i as int, entry);
                }
            },
            None => {
                self.entries.push(entry);
                proof {
                    lemma_push(old(self).entries@, entry);
                }
            },
        }
    }
}

} // verus!
