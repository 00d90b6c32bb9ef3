//! What holds of the ledger, whatever it holds and whatever it is asked to
//! do. Every statement here is proved from the definitions of the pallets'
//! and the runtime's states, which are what the executable functions are
//! proved to compute.

use crate::balances;
use crate::error::Error;
use crate::issuance::lemma_total_after_insert;
use crate::runtime;
use crate::runtime::{involves, submissions, RuntimeCall};
use crate::types::{AccountId, Balance, Block, Extrinsic};
use vstd::prelude::*;

verus! {

// Balances

/// Before anything has happened, every account holds 0 and has nonce 0, and
/// no block has been executed.
pub proof fn lemma_initial_state_is_zero(who: Seq<char>)
    ensures
        runtime::State::initial().balances.balance_of(who) == 0,
        runtime::State::initial().system.nonce_of(who) == 0,
        runtime::State::initial().system.block_number == 0,
{
}

/// After a balance is set the account holds exactly that, and every other
/// account holds what it held.
pub proof fn lemma_set_then_read(
    state: balances::State,
    who: Seq<char>,
    amount: Balance,
    other: Seq<char>,
)
    requires
        other != who,
    ensures
        state.set(who, amount).balance_of(who) == amount,
        state.set(who, amount).balance_of(other) == state.balance_of(other),
{
}

/// A caller that holds less than the amount cannot transfer it: the transfer
/// fails with `InsufficientBalance`, and every account, the caller and the
/// receiver among them, holds what it held.
pub proof fn lemma_uncovered_transfer_fails(
    state: balances::State,
    caller: AccountId,
    to: AccountId,
    amount: Balance,
)
    requires
        state.balance_of(caller@) < amount,
    ensures
        state.transfer_result(caller, to, amount) == Err::<(), Error>(
            Error::InsufficientBalance { caller, amount, to },
        ),
        state.transfer(caller@, to@, amount) == state,
{
}

/// A caller that holds at least the amount can transfer it, to itself or to
/// a receiver whose balance has room for it: the transfer succeeds. Between
/// two accounts the caller then holds the amount less and the receiver the
/// amount more; an account that pays itself holds what it held. Either way
/// the two hold together what they held together.
pub proof fn lemma_covered_transfer_succeeds(
    state: balances::State,
    caller: AccountId,
    to: AccountId,
    amount: Balance,
)
    requires
        state.balance_of(caller@) >= amount,
        caller@ != to@ ==> state.balance_of(to@) + amount <= Balance::MAX,
    ensures
        state.transfer_result(caller, to, amount).is_ok(),
        caller@ != to@ ==> state.transfer(caller@, to@, amount).balance_of(caller@)
            == state.balance_of(caller@) - amount,
        caller@ != to@ ==> state.transfer(caller@, to@, amount).balance_of(to@)
            == state.balance_of(to@) + amount,
        caller@ == to@ ==> state.transfer(caller@, to@, amount).balance_of(caller@)
            == state.balance_of(caller@),
        state.transfer(caller@, to@, amount).balance_of(caller@) + state.transfer(
            caller@,
            to@,
            amount,
        ).balance_of(to@) == state.balance_of(caller@) + state.balance_of(to@),
{
}

/// A transfer moves funds between two accounts and creates or destroys none:
/// whether it succeeds or fails, and also where an account pays itself, what
/// the two accounts hold together is what they held together before.
pub proof fn lemma_transfer_conserves(
    state: balances::State,
    caller: Seq<char>,
    to: Seq<char>,
    amount: Balance,
)
    ensures
        state.transfer(caller, to, amount).balance_of(caller) + state.transfer(
            caller,
            to,
            amount,
        ).balance_of(to) == state.balance_of(caller) + state.balance_of(to),
{
}

/// A transfer touches its two accounts only: every other account holds what
/// it held before.
pub proof fn lemma_transfer_frame(
    state: balances::State,
    caller: Seq<char>,
    to: Seq<char>,
    amount: Balance,
    other: Seq<char>,
)
    requires
        other != caller,
        other != to,
    ensures
        state.transfer(caller, to, amount).balance_of(other) == state.balance_of(other),
{
}

/// A transfer is all or nothing: one that fails, for whichever reason,
/// leaves every balance as it was.
pub proof fn lemma_failed_transfer_changes_nothing(
    state: balances::State,
    caller: AccountId,
    to: AccountId,
    amount: Balance,
)
    requires
        state.transfer_result(caller, to, amount).is_err(),
    ensures
        state.transfer(caller@, to@, amount) == state,
{
}

/// Setting a balance changes the total issuance by the difference between
/// the new balance and the old one.
pub proof fn lemma_set_changes_issuance(state: balances::State, who: Seq<char>, amount: Balance)
    requires
        state.finite(),
    ensures
        state.set(who, amount).finite(),
        state.set(who, amount).total_issuance() == state.total_issuance() - state.balance_of(who)
            + amount,
{
    lemma_total_after_insert(state.balances, who, amount);
}

/// A transfer conserves the total issuance: whether it succeeds or fails,
/// the sum of what all accounts hold is what it was.
pub proof fn lemma_transfer_conserves_issuance(
    state: balances::State,
    caller: Seq<char>,
    to: Seq<char>,
    amount: Balance,
)
    requires
        state.finite(),
    ensures
        state.transfer(caller, to, amount).finite(),
        state.transfer(caller, to, amount).total_issuance() == state.total_issuance(),
{
    if state.can_transfer(caller, to, amount) {
        if caller == to {
            lemma_set_changes_issuance(state, caller, state.balance_of(caller));
        } else {
            let debit = (state.balance_of(caller) - amount) as Balance;
            let credit = (state.balance_of(to) + amount) as Balance;
            lemma_set_changes_issuance(state, caller, debit);
            lemma_set_changes_issuance(state.set(caller, debit), to, credit);
        }
    }
}

// Extrinsics

/// Applying extrinsics never moves the block counter.
pub proof fn lemma_extrinsics_keep_block_number(state: runtime::State, extrinsics: Seq<Extrinsic>)
    ensures
        state.apply_all(extrinsics).system.block_number == state.system.block_number,
    decreases extrinsics.len(),
{
    if extrinsics.len() > 0 {
        lemma_extrinsics_keep_block_number(state, extrinsics.drop_last());
    }
}

/// The nonce of an account counts the extrinsics that it submitted, whether
/// their calls succeeded or failed: after a run of extrinsics it has grown by
/// the number of them that the account submitted, up to the largest nonce,
/// where it stays.
pub proof fn lemma_nonce_counts_submissions(
    state: runtime::State,
    extrinsics: Seq<Extrinsic>,
    who: Seq<char>,
)
    ensures
        state.apply_all(extrinsics).system.nonce_of(who) == state.system.nonce_after(
            who,
            submissions(extrinsics, who),
        ),
    decreases extrinsics.len(),
{
    if extrinsics.len() > 0 {
        lemma_nonce_counts_submissions(state, extrinsics.drop_last(), who);
    }
}

/// An account that had nonce 0 and submitted exactly one of the extrinsics
/// has nonce 1 after them, whether the call of that extrinsic succeeded or
/// failed.
pub proof fn lemma_one_submission_gives_nonce_one(
    state: runtime::State,
    extrinsics: Seq<Extrinsic>,
    who: Seq<char>,
)
    requires
        state.system.nonce_of(who) == 0,
        submissions(extrinsics, who) == 1,
    ensures
        state.apply_all(extrinsics).system.nonce_of(who) == 1,
{
    lemma_nonce_counts_submissions(state, extrinsics, who);
}

/// A nonce never goes down.
pub proof fn lemma_nonce_never_decreases(
    state: runtime::State,
    extrinsics: Seq<Extrinsic>,
    who: Seq<char>,
)
    ensures
        state.apply_all(extrinsics).system.nonce_of(who) >= state.system.nonce_of(who),
{
    lemma_nonce_counts_submissions(state, extrinsics, who);
}

/// An account that is neither the caller nor the receiver of any of the
/// extrinsics holds after them what it held before them, and has the nonce
/// that it had.
pub proof fn lemma_uninvolved_account_is_untouched(
    state: runtime::State,
    extrinsics: Seq<Extrinsic>,
    who: Seq<char>,
)
    requires
        forall|i: int| 0 <= i < extrinsics.len() ==> !involves(#[trigger] extrinsics[i], who),
    ensures
        state.apply_all(extrinsics).balances.balance_of(who) == state.balances.balance_of(who),
        state.apply_all(extrinsics).system.nonce_of(who) == state.system.nonce_of(who),
    decreases extrinsics.len(),
{
    if extrinsics.len() > 0 {
        let earlier = extrinsics.drop_last();
        assert forall|i: int| 0 <= i < earlier.len() implies !involves(
            #[trigger] earlier[i],
            who,
        ) by {
            assert(earlier[i] == extrinsics[i]);
        }
        lemma_uninvolved_account_is_untouched(state, earlier, who);
        assert(!involves(extrinsics[extrinsics.len() - 1], who));
    }
}

/// Extrinsics move funds and create or destroy none: after any run of them,
/// with whatever mix of successes and failures, the total issuance is what it
/// was.
pub proof fn lemma_extrinsics_conserve_issuance(state: runtime::State, extrinsics: Seq<Extrinsic>)
    requires
        state.balances.finite(),
    ensures
        state.apply_all(extrinsics).balances.finite(),
        state.apply_all(extrinsics).balances.total_issuance() == state.balances.total_issuance(),
    decreases extrinsics.len(),
{
    if extrinsics.len() > 0 {
        lemma_extrinsics_conserve_issuance(state, extrinsics.drop_last());
        let before = state.apply_all(extrinsics.drop_last());
        match extrinsics.last().call {
            RuntimeCall::Balances(balances::Call::Transfer { to, amount }) => {
                lemma_transfer_conserves_issuance(
                    before.balances,
                    extrinsics.last().caller@,
                    to@,
                    amount,
                );
            },
        }
    }
}

/// Every failure that a run of extrinsics records carries the block number
/// of the state and the position of one of the extrinsics, and the failures
/// stand in the order of the extrinsics.
pub proof fn lemma_failures_are_positioned(state: runtime::State, extrinsics: Seq<Extrinsic>)
    requires
        extrinsics.len() <= usize::MAX,
    ensures
        forall|k: int|
            0 <= k < state.failures_of_all(extrinsics).len() ==> (#[trigger] state.failures_of_all(
                extrinsics,
            )[k]).block_number == state.system.block_number,
        forall|k: int|
            0 <= k < state.failures_of_all(extrinsics).len() ==> (#[trigger] state.failures_of_all(
                extrinsics,
            )[k]).extrinsic_index < extrinsics.len(),
        forall|j: int, k: int|
            0 <= j <= k < state.failures_of_all(extrinsics).len() ==> (
            #[trigger] state.failures_of_all(extrinsics)[j]).extrinsic_index <= (
            #[trigger] state.failures_of_all(extrinsics)[k]).extrinsic_index,
    decreases extrinsics.len(),
{
    if extrinsics.len() > 0 {
        let earlier = extrinsics.drop_last();
        lemma_failures_are_positioned(state, earlier);
        lemma_extrinsics_keep_block_number(state, earlier);
        let before = state.failures_of_all(earlier);
        let added = state.apply_all(earlier).failures_of(extrinsics.len() - 1, extrinsics.last());
        let all = state.failures_of_all(extrinsics);
        assert(all == before + added);
        assert forall|k: int| 0 <= k < all.len() implies (#[trigger] all[k]).block_number
            == state.system.block_number && all[k].extrinsic_index < extrinsics.len()
            && (k >= before.len() ==> all[k].extrinsic_index == extrinsics.len() - 1) by {
            if k < before.len() {
                assert(all[k] == before[k]);
            } else {
                assert(all[k] == added[k - before.len()]);
            }
        }
        assert forall|j: int, k: int| 0 <= j <= k < all.len() implies (
        #[trigger] all[j]).extrinsic_index <= (#[trigger] all[k]).extrinsic_index by {
            if k < before.len() {
                assert(all[j] == before[j]);
                assert(all[k] == before[k]);
            }
        }
    }
}

// Blocks

/// A block executes if and only if the block counter can advance and the
/// block carries the number that is then due. What its extrinsics do has no
/// part in it.
pub proof fn lemma_block_is_judged_by_its_number(state: runtime::State, block: Block)
    ensures
        state.execute_block_result(block).is_ok() <==> state.system.can_advance() && state.expects(
            block,
        ),
{
}

/// Executing a block advances the block counter by exactly one, whatever the
/// block holds and whether or not it carries the number that is due, unless
/// the counter is at the largest height.
pub proof fn lemma_block_advances_counter_once(state: runtime::State, block: Block)
    requires
        state.system.can_advance(),
    ensures
        state.execute_block(block).system.block_number == state.system.block_number + 1,
{
    lemma_extrinsics_keep_block_number(state.begin_block(), block.extrinsics@);
}

/// A block that is refused (because the counter cannot advance, or because
/// the block carries another number than the one that is due) applies no
/// extrinsic: every balance and every nonce is what it was. Where the counter
/// could not advance, nothing at all has changed.
pub proof fn lemma_refused_block_applies_nothing(state: runtime::State, block: Block)
    requires
        state.execute_block_result(block).is_err(),
    ensures
        state.execute_block(block).balances == state.balances,
        state.execute_block(block).system.nonce == state.system.nonce,
        !state.system.can_advance() ==> state.execute_block(block) == state,
{
}

/// Executing a block conserves the total issuance, whether the block is
/// executed or refused.
pub proof fn lemma_block_conserves_issuance(state: runtime::State, block: Block)
    requires
        state.balances.finite(),
    ensures
        state.execute_block(block).balances.finite(),
        state.execute_block(block).balances.total_issuance() == state.balances.total_issuance(),
{
    lemma_extrinsics_conserve_issuance(state.begin_block(), block.extrinsics@);
}

} // verus!
