//! The balances pallet: what every account holds, and the checked transfer
//! between two accounts.

use crate::account_map::AccountMap;
use crate::error::{DispatchResult, Error};
use crate::issuance::{lemma_total_of_empty, total};
use crate::laws::{lemma_set_changes_issuance, lemma_transfer_conserves_issuance};
use crate::types::{AccountId, Balance};
use num::{CheckedAdd, CheckedSub, Zero};
use vstd::prelude::*;

verus! {

/// What the balances pallet holds, as mathematics: the balances that were
/// stored. An account without a stored balance holds 0.
pub struct State {
    pub balances: Map<Seq<char>, Balance>,
}

impl State {
    /// The state in which nothing is stored: every account holds 0.
    pub open spec fn initial() -> State {
        State { balances: Map::empty() }
    }

    /// What `who` holds: what is stored for it, and 0 where nothing is.
    pub open spec fn balance_of(self, who: Seq<char>) -> Balance {
        if self.balances.contains_key(who) {
            self.balances[who]
        } else {
            0
        }
    }

    /// The state in which `who` holds `amount` and every other account holds
    /// what it held.
    pub open spec fn set(self, who: Seq<char>, amount: Balance) -> State {
        State { balances: self.balances.insert(who, amount) }
    }

    /// Whether balances are stored for finitely many accounts only. This
    /// holds of every pallet.
    pub open spec fn finite(self) -> bool {
        self.balances.dom().finite()
    }

    /// The sum of what all accounts hold.
    pub open spec fn total_issuance(self) -> nat {
        total(self.balances)
    }

    /// Whether `caller` holds at least `amount`.
    pub open spec fn can_pay(self, caller: Seq<char>, amount: Balance) -> bool {
        self.balance_of(caller) >= amount
    }

    /// Whether `to` can be credited `amount` by `caller` without exceeding the
    /// largest balance. An account that pays itself is credited what it was
    /// debited, so it always can.
    pub open spec fn can_receive(self, caller: Seq<char>, to: Seq<char>, amount: Balance) -> bool {
        caller == to || self.balance_of(to) + amount <= Balance::MAX
    }

    /// Whether a transfer of `amount` from `caller` to `to` succeeds.
    pub open spec fn can_transfer(self, caller: Seq<char>, to: Seq<char>, amount: Balance) -> bool {
        self.can_pay(caller, amount) && self.can_receive(caller, to, amount)
    }

    /// The state after `caller` tries to transfer `amount` to `to`. Where the
    /// transfer fails this is the same state. Where it succeeds between two
    /// accounts, `caller` holds `amount` less and `to` holds `amount` more;
    /// where an account pays itself, it holds what it held.
    pub open spec fn transfer(self, caller: Seq<char>, to: Seq<char>, amount: Balance) -> State {
        if !self.can_transfer(caller, to, amount) {
            self
        } else if caller == to {
            self.set(caller, self.balance_of(caller))
        } else {
            self.set(caller, (self.balance_of(caller) - amount) as Balance).set(
                to,
                (self.balance_of(to) + amount) as Balance,
            )
        }
    }

    /// What a transfer of `amount` from `caller` to `to` returns: the payer's
    /// shortfall is reported before the receiver's overflow.
    pub open spec fn transfer_result(
        self,
        caller: AccountId,
        to: AccountId,
        amount: Balance,
    ) -> DispatchResult {
        if !self.can_pay(caller@, amount) {
            Err(Error::InsufficientBalance { caller, amount, to })
        } else if !self.can_receive(caller@, to@, amount) {
            Err(Error::BalanceOverflow { to, amount, caller })
        } else {
            Ok(())
        }
    }

    /// The state after `caller` submits `call`.
    pub open spec fn apply(self, caller: AccountId, call: Call) -> State {
        match call {
            Call::Transfer { to, amount } => self.transfer(caller@, to@, amount),
        }
    }

    /// What `call`, submitted by `caller`, returns.
    pub open spec fn apply_result(self, caller: AccountId, call: Call) -> DispatchResult {
        match call {
            Call::Transfer { to, amount } => self.transfer_result(caller, to, amount),
        }
    }
}

/// The operations of the balances pallet that an extrinsic can ask for.
#[derive(Debug, PartialEq, Eq)]
pub enum Call {
    /// Move `amount` from the caller to `to`.
    Transfer { to: AccountId, amount: Balance },
}

/// The balances pallet.
#[derive(Debug)]
pub struct Pallet {
    balances: AccountMap<Balance>,
}

impl View for Pallet {
    type V = State;

    closed spec fn view(&self) -> State {
        State { balances: self.balances@ }
    }
}

impl Pallet {
    /// A pallet stores balances for finitely many accounts.
    pub proof fn lemma_finite(self)
        ensures
            self@.finite(),
    {
        self.balances.lemma_finite();
    }

    /// A pallet in which every account holds 0.
    pub fn new() -> (pallet: Self)
        ensures
            pallet@ == State::initial(),
            forall|who: Seq<char>| pallet@.balance_of(who) == 0,
            pallet@.total_issuance() == 0,
    {
        proof {
            lemma_total_of_empty();
        }
        Pallet { balances: AccountMap::new() }
    }

    /// Makes `who` hold `amount`, whatever it held before.
    pub fn set_balance(&mut self, who: AccountId, amount: Balance)
        ensures
            final(self)@ == old(self)@.set(who@, amount),
            final(self)@.balance_of(who@) == amount,
            forall|other: Seq<char>|
                other != who@ ==> final(self)@.balance_of(other) == old(self)@.balance_of(other),
            final(self)@.total_issuance() == old(self)@.total_issuance()
                - old(self)@.balance_of(who@) + amount,
    {
        proof {
            self.lemma_finite();
            lemma_set_changes_issuance(self@, who@, amount);
        }
        self.balances.insert(who, amount);
    }

    /// What `who` holds: 0 for an account that was never credited.
    pub fn balance(&self, who: &AccountId) -> (balance: Balance)
        ensures
            balance == self@.balance_of(who@),
    {
        match self.balances.get(who) {
            Some(balance) => balance,
            None => Zero::zero(),
        }
    }

    /// Moves `amount` from `caller` to `to`.
    ///
    /// Both new balances are computed before either is written, so a
    /// transfer that fails leaves every balance as it was. It fails with
    /// `InsufficientBalance` where `caller` holds less than `amount`, and
    /// otherwise with `BalanceOverflow` where crediting `to` would exceed the
    /// largest balance. An account that pays itself is credited what it was
    /// debited and ends with what it held.
    pub fn transfer(&mut self, caller: AccountId, to: AccountId, amount: Balance) -> (result:
        DispatchResult)
        ensures
            final(self)@ == old(self)@.transfer(caller@, to@, amount),
            result == old(self)@.transfer_result(caller, to, amount),
            result.is_ok() <==> old(self)@.can_transfer(caller@, to@, amount),
            result.is_err() ==> final(self)@ == old(self)@,
            !old(self)@.can_pay(caller@, amount) ==> result == Err::<(), Error>(
                Error::InsufficientBalance { caller, amount, to },
            ),
            result.is_ok() && caller@ != to@ ==> final(self)@.balance_of(caller@)
                == old(self)@.balance_of(caller@) - amount,
            result.is_ok() && caller@ != to@ ==> final(self)@.balance_of(to@)
                == old(self)@.balance_of(to@) + amount,
            result.is_ok() && caller@ == to@ ==> final(self)@.balance_of(caller@)
                == old(self)@.balance_of(caller@),
            final(self)@.balance_of(caller@) + final(self)@.balance_of(to@)
                == old(self)@.balance_of(caller@) + old(self)@.balance_of(to@),
            forall|other: Seq<char>|
                other != caller@ && other != to@ ==> final(self)@.balance_of(other)
                    == old(self)@.balance_of(other),
            final(self)@.total_issuance() == old(self)@.total_issuance(),
    {
        proof {
            self.lemma_finite();
            lemma_transfer_conserves_issuance(self@, caller@, to@, amount);
        }
        let caller_balance = self.balance(&caller);
        let to_balance = self.balance(&to);

        let new_caller_balance = match CheckedSub::checked_sub(&caller_balance, &amount) {
            Some(balance) => balance,
            None => {
                return Err(Error::InsufficientBalance { caller, amount, to });
            },
        };
        // An account that pays itself is credited on top of what is left
        // after the debit, not on top of what it held before.
        let credited_balance = if caller == to {
            new_caller_balance
        } else {
            to_balance
        };
        let new_to_balance = match CheckedAdd::checked_add(&credited_balance, &amount) {
            Some(balance) => balance,
            None => {
                return Err(Error::BalanceOverflow { to, amount, caller });
            },
        };

        self.set_balance(caller, new_caller_balance);
        self.set_balance(to, new_to_balance);
        assert(self@.balances =~= old(self)@.transfer(caller@, to@, amount).balances);
        Ok(())
    }
}

} // verus!
