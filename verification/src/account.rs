use crate::address::Address;
use crate::state::{Player, PlayerView};
use vstd::prelude::*;

verus! {

/// A record together with the place it lives at and the native balance that
/// backs it.
#[derive(Debug)]
pub struct Account<T> {
    pub key: Address,
    pub lamports: u64,
    pub data: T,
}

/// An identity that holds native balance and no record: someone who pays, or
/// who is paid.
#[derive(Clone, Copy, Debug, PartialEq, Eq)]
pub struct Wallet {
    pub key: Address,
    pub lamports: u64,
}

impl View for Account<Player> {
    type V = Account<PlayerView>;

    open spec fn view(&self) -> Account<PlayerView> {
        Account { key: self.key, lamports: self.lamports, data: self.data@ }
    }
}

} // verus!
