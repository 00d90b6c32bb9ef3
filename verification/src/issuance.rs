//! The sum of all balances in a ledger, and how one stored balance bears on it.

use crate::types::Balance;
use vstd::prelude::*;

verus! {

/// The sum of the balances stored in a ledger with finitely many accounts.
pub open spec fn total(balances: Map<Seq<char>, Balance>) -> nat
    decreases balances.dom().len(),
    when balances.dom().finite()
    via total_decreases
{
    if balances.dom().len() == 0 {
        0
    } else {
        let who = balances.dom().choose();
        balances[who] as nat + total(balances.remove(who))
    }
}

#[via_fn]
proof fn total_decreases(balances: Map<Seq<char>, Balance>) {
    if balances.dom().len() != 0 {
        let who = balances.dom().choose();
        assert(balances.dom().contains(who)) by {
            if balances.dom().is_empty() {
                assert(balances.dom() =~= Set::<Seq<char>>::empty());
            }
        }
        balances.lemma_remove_key_len(who);
    }
}

/// A ledger without accounts sums to nothing.
pub proof fn lemma_total_of_empty()
    ensures
        total(Map::<Seq<char>, Balance>::empty()) == 0,
{
    assert(Map::<Seq<char>, Balance>::empty().dom() =~= Set::<Seq<char>>::empty());
}

/// The sum is the balance of any one stored account plus the sum of the others.
pub proof fn lemma_total_splits_at(balances: Map<Seq<char>, Balance>, who: Seq<char>)
    requires
        balances.dom().finite(),
        balances.contains_key(who),
    ensures
        total(balances) == balances[who] + total(balances.remove(who)),
    decreases balances.dom().len(),
{
    assert(balances.dom().len() != 0) by {
        if balances.dom().len() == 0 {
            assert(balances.dom() =~= Set::<Seq<char>>::empty());
        }
    }
    let chosen = balances.dom().choose();
    if chosen != who {
        balances.lemma_remove_key_len(chosen);
        balances.lemma_remove_key_len(who);
        lemma_total_splits_at(balances.remove(chosen), who);
        lemma_total_splits_at(balances.remove(who), chosen);
        assert(balances.remove(chosen).remove(who) =~= balances.remove(who).remove(chosen));
    }
}

/// Storing a balance changes the sum by the difference between what is
/// stored and what the account held before.
pub proof fn lemma_total_after_insert(
    balances: Map<Seq<char>, Balance>,
    who: Seq<char>,
    amount: Balance,
)
    requires
        balances.dom().finite(),
    ensures
        balances.insert(who, amount).dom().finite(),
        total(balances.insert(who, amount)) == total(balances) - (if balances.contains_key(who) {
            balances[who]
        } else {
            0
        }) + amount,
{
    let stored = balances.insert(who, amount);
    lemma_total_splits_at(stored, who);
    assert(stored.remove(who) =~= balances.remove(who));
    if balances.contains_key(who) {
        lemma_total_splits_at(balances, who);
    } else {
        assert(balances.remove(who) =~= balances);
    }
}

} // verus!
