//! The system pallet: the block counter and the nonce of every account.

use vstd::prelude::*;

use crate::arithmetic::{one_u32, zero_u32};
use crate::storage::StorageMap;
use crate::types::{AccountId, BlockNumber, Nonce};

verus! {

/// What the system pallet holds, as plain mathematics.
pub struct SystemState {
    /// The number of blocks handed to the runtime so far.
    pub block_number: BlockNumber,
    /// The recorded nonces; an account without an entry has nonce 0.
    pub nonces: Map<Seq<char>, Nonce>,
}

impl SystemState {
    /// The state before any block: block 0 and no nonce recorded.
    pub open spec fn genesis() -> SystemState {
        SystemState { block_number: 0, nonces: Map::empty() }
    }

    /// The nonce of `who`: 0 until an extrinsic of theirs is counted.
    pub open spec fn nonce_of(self, who: Seq<char>) -> Nonce {
        if self.nonces.contains_key(who) {
            self.nonces[who]
        } else {
            0
        }
    }

    /// The state with the block counter advanced by one.
    pub open spec fn next_block(self) -> SystemState {
        SystemState { block_number: (self.block_number + 1) as BlockNumber, nonces: self.nonces }
    }

    /// The state with the nonce of `who` advanced by one.
    pub open spec fn next_nonce(self, who: Seq<char>) -> SystemState {
        SystemState {
            block_number: self.block_number,
            nonces: self.nonces.insert(who, (self.nonce_of(who) + 1) as Nonce),
        }
    }
}

/// Advancing the nonce of one account raises it by exactly one and leaves
/// the nonce of every other account, and the block counter, as they were.
pub proof fn lemma_nonces_are_independent(state: SystemState, who: Seq<char>, other: Seq<char>)
    requires
        state.nonce_of(who) < Nonce::MAX,
    ensures
        state.next_nonce(who).nonce_of(who) == state.nonce_of(who) + 1,
        other != who ==> state.next_nonce(who).nonce_of(other) == state.nonce_of(other),
        state.next_nonce(who).block_number == state.block_number,
{
}

/// Advancing the block counter raises it by exactly one and leaves every
/// nonce as it was.
pub proof fn lemma_block_counter_steps_by_one(state: SystemState, who: Seq<char>)
    requires
        state.block_number < BlockNumber::MAX,
    ensures
        state.next_block().block_number == state.block_number + 1,
        state.next_block().nonce_of(who) == state.nonce_of(who),
{
}

/// The system pallet. It handles the low level state of the chain.
#[derive(Debug)]
pub struct Pallet {
    /// The current block number.
    block_number: BlockNumber,
    /// A map from an account to their nonce.
    nonce: StorageMap<Nonce>,
}

impl View for Pallet {
    type V = SystemState;

    closed spec fn view(&self) -> SystemState {
        SystemState { block_number: self.block_number, nonces: self.nonce@ }
    }
}

impl Pallet {
    /// Create a new instance of the system pallet, at genesis.
    pub fn new() -> (pallet: Self)
        ensures
            pallet@ == SystemState::genesis(),
    {
        Pallet { block_number: zero_u32(), nonce: StorageMap::new() }
    }

    /// Get the current block number.
    pub fn block_number(&self) -> (number: BlockNumber)
        ensures
            number == self@.block_number,
    {
        self.block_number
    }

    /// Get the nonce of `who`; 0 for an account that has none recorded.
    pub fn get_nonce(&self, who: &AccountId) -> (nonce: Nonce)
        ensures
            nonce == self@.nonce_of(who@),
    {
        match self.nonce.get(who) {
            Some(nonce) => *nonce,
            None => zero_u32(),
        }
    }

    /// Increase the block number by one.
    ///
    /// The counter must not be exhausted: a chain never lives long enough
    /// to reach the last block number, and there is none after it.
    pub fn inc_block_number(&mut self)
        requires
            old(self)@.block_number < BlockNumber::MAX,
        ensures
            final(self)@ == old(self)@.next_block(),
    {
        self.block_number = self.block_number + one_u32();
    }

    /// Increment the nonce of `who`, which counts the extrinsics they have
    /// submitted.
    ///
    /// The nonce must not be exhausted.
    pub fn inc_nonce(&mut self, who: &AccountId)
        requires
            old(self)@.nonce_of(who@) < Nonce::MAX,
        ensures
            final(self)@ == old(self)@.next_nonce(who@),
    {
        let nonce: Nonce = self.get_nonce(who);
        self.nonce.insert(who.clone(), nonce + one_u32());
    }
}

} // verus!
