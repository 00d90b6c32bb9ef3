//! The system pallet: the block counter and the nonce of every account.

use crate::account_map::AccountMap;
use crate::error::Error;
use crate::types::{AccountId, BlockNumber, Nonce};
use num::{CheckedAdd, One, Zero};
use vstd::prelude::*;

verus! {

/// What the system pallet holds, as mathematics: the height of the last
/// block and the nonces that were stored. An account without a stored
/// nonce has nonce 0.
pub struct State {
    pub block_number: BlockNumber,
    pub nonce: Map<Seq<char>, Nonce>,
}

impl State {
    /// The state before any block: height 0 and no stored nonce.
    pub open spec fn initial() -> State {
        State { block_number: 0, nonce: Map::empty() }
    }

    /// The nonce of `who`: what is stored for it, and 0 where nothing is.
    pub open spec fn nonce_of(self, who: Seq<char>) -> Nonce {
        if self.nonce.contains_key(who) {
            self.nonce[who]
        } else {
            0
        }
    }

    /// The nonce of `who` after it submits `submissions` more extrinsics: it
    /// grows by one with each, up to the largest nonce, where it stays.
    pub open spec fn nonce_after(self, who: Seq<char>, submissions: nat) -> int {
        if self.nonce_of(who) + submissions <= Nonce::MAX {
            self.nonce_of(who) + submissions
        } else {
            Nonce::MAX as int
        }
    }

    /// Whether the block counter can advance.
    pub open spec fn can_advance(self) -> bool {
        self.block_number < BlockNumber::MAX
    }

    /// The state with the block counter advanced by one, where it can
    /// advance; the same state where it cannot.
    pub open spec fn next_block(self) -> State {
        if self.can_advance() {
            State { block_number: (self.block_number + 1) as BlockNumber, ..self }
        } else {
            self
        }
    }

    /// Whether the nonce of `who` can advance.
    pub open spec fn can_bump(self, who: Seq<char>) -> bool {
        self.nonce_of(who) < Nonce::MAX
    }

    /// The state with the nonce of `who` advanced by one, where it can
    /// advance; the same state where it cannot.
    pub open spec fn bump_nonce(self, who: Seq<char>) -> State {
        if self.can_bump(who) {
            State { nonce: self.nonce.insert(who, (self.nonce_of(who) + 1) as Nonce), ..self }
        } else {
            self
        }
    }
}

/// The system pallet.
#[derive(Debug)]
pub struct Pallet {
    block_number: BlockNumber,
    nonce: AccountMap<Nonce>,
}

impl View for Pallet {
    type V = State;

    closed spec fn view(&self) -> State {
        State { block_number: self.block_number, nonce: self.nonce@ }
    }
}

impl Pallet {
    /// A pallet at height 0 in which every account has nonce 0.
    pub fn new() -> (pallet: Self)
        ensures
            pallet@ == State::initial(),
            pallet@.block_number == 0,
            forall|who: Seq<char>| pallet@.nonce_of(who) == 0,
    {
        Pallet { block_number: Zero::zero(), nonce: AccountMap::new() }
    }

    /// The height of the last block.
    pub fn block_number(&self) -> (number: BlockNumber)
        ensures
            number == self@.block_number,
    {
        self.block_number
    }

    /// Advances the block counter by one. At the largest height it fails
    /// and changes nothing.
    pub fn inc_block_number(&mut self) -> (result: Result<(), Error>)
        ensures
            final(self)@ == old(self)@.next_block(),
            final(self)@.nonce == old(self)@.nonce,
            old(self)@.can_advance() ==> result.is_ok(),
            old(self)@.can_advance() ==> final(self)@.block_number == old(self)@.block_number + 1,
            !old(self)@.can_advance() ==> final(self)@ == old(self)@,
            !old(self)@.can_advance() ==> result == Err::<(), Error>(
                Error::BlockNumberOverflow { block_number: old(self)@.block_number },
            ),
    {
        let one: BlockNumber = One::one();
        match CheckedAdd::checked_add(&self.block_number, &one) {
            Some(next) => {
                self.block_number = next;
                Ok(())
            },
            None => Err(Error::BlockNumberOverflow { block_number: self.block_number }),
        }
    }

    /// The nonce of `who`: 0 for an account that never submitted anything.
    pub fn nonce(&self, who: &AccountId) -> (nonce: Nonce)
        ensures
            nonce == self@.nonce_of(who@),
    {
        match self.nonce.get(who) {
            Some(nonce) => nonce,
            None => Zero::zero(),
        }
    }

    /// Advances the nonce of `who` by one. At the largest nonce it fails and
    /// changes nothing.
    pub fn inc_nonce(&mut self, who: AccountId) -> (result: Result<(), Error>)
        ensures
            final(self)@ == old(self)@.bump_nonce(who@),
            final(self)@.block_number == old(self)@.block_number,
            forall|other: Seq<char>|
                other != who@ ==> final(self)@.nonce_of(other) == old(self)@.nonce_of(other),
            old(self)@.can_bump(who@) ==> result.is_ok(),
            old(self)@.can_bump(who@) ==> final(self)@.nonce_of(who@) == old(self)@.nonce_of(who@)
                + 1,
            !old(self)@.can_bump(who@) ==> final(self)@ == old(self)@,
            !old(self)@.can_bump(who@) ==> result == Err::<(), Error>(
                Error::NonceOverflow { nonce: old(self)@.nonce_of(who@), who },
            ),
    {
        let current_nonce = self.nonce(&who);
        let one: Nonce = One::one();
        match CheckedAdd::checked_add(&current_nonce, &one) {
            Some(new_nonce) => {
                self.nonce.insert(who, new_nonce);
                Ok(())
            },
            None => Err(Error::NonceOverflow { nonce: current_nonce, who }),
        }
    }
}

} // verus!
