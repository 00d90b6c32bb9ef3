//! The runtime: one system pallet and one balances pallet, the routing of
//! calls to them, and the execution of blocks.

use crate::balances;
use crate::error::{DispatchResult, Error};
use crate::laws::{
    lemma_block_conserves_issuance, lemma_extrinsics_keep_block_number,
    lemma_nonce_counts_submissions,
};
use crate::support::Dispatch;
use crate::system;
use crate::types::{AccountId, Block, BlockNumber, Extrinsic};
use vstd::prelude::*;

verus! {

/// Every call that an extrinsic can carry, tagged with the pallet that owns it.
#[derive(Debug, PartialEq, Eq)]
pub enum RuntimeCall {
    Balances(balances::Call),
}

/// What the runtime holds, as mathematics.
pub struct State {
    pub system: system::State,
    pub balances: balances::State,
}

impl State {
    /// The state of a new runtime: height 0, and every account with nonce 0
    /// and balance 0.
    pub open spec fn initial() -> State {
        State { system: system::State::initial(), balances: balances::State::initial() }
    }

    /// The state after `call`, made by `caller`, was routed to its pallet.
    pub open spec fn dispatch(self, caller: AccountId, call: RuntimeCall) -> State {
        match call {
            RuntimeCall::Balances(call) => State {
                balances: self.balances.apply(caller, call),
                ..self
            },
        }
    }

    /// What routing `call`, made by `caller`, returns.
    pub open spec fn dispatch_result(self, caller: AccountId, call: RuntimeCall) -> DispatchResult {
        match call {
            RuntimeCall::Balances(call) => self.balances.apply_result(caller, call),
        }
    }

    /// The state with the nonce of `who` advanced, where it can advance.
    pub open spec fn bump_nonce(self, who: Seq<char>) -> State {
        State { system: self.system.bump_nonce(who), ..self }
    }

    /// The state after one extrinsic: the caller's nonce advances, then the
    /// call is routed, whether or not the nonce could advance.
    pub open spec fn apply(self, extrinsic: Extrinsic) -> State {
        self.bump_nonce(extrinsic.caller@).dispatch(extrinsic.caller, extrinsic.call)
    }

    /// The failure with which `error` is recorded for the extrinsic at `index`.
    pub open spec fn failure(self, index: int, error: Error) -> DispatchFailure {
        DispatchFailure {
            block_number: self.system.block_number,
            extrinsic_index: index as usize,
            error,
        }
    }

    /// What the extrinsic at `index` records: a nonce that could not advance,
    /// then a call that its pallet refused.
    pub open spec fn failures_of(self, index: int, extrinsic: Extrinsic) -> Seq<DispatchFailure> {
        let who = extrinsic.caller;
        let nonce_failure = if self.system.can_bump(who@) {
            Seq::<DispatchFailure>::empty()
        } else {
            seq![self.failure(index, Error::NonceOverflow { nonce: self.system.nonce_of(who@), who })]
        };
        let dispatch_failure = match self.bump_nonce(who@).dispatch_result(who, extrinsic.call) {
            Ok(_) => Seq::<DispatchFailure>::empty(),
            Err(error) => seq![self.failure(index, error)],
        };
        nonce_failure + dispatch_failure
    }

    /// The state after the extrinsics were applied one after the other.
    pub open spec fn apply_all(self, extrinsics: Seq<Extrinsic>) -> State
        decreases extrinsics.len(),
    {
        if extrinsics.len() == 0 {
            self
        } else {
            self.apply_all(extrinsics.drop_last()).apply(extrinsics.last())
        }
    }

    /// What the extrinsics record when they are applied one after the other,
    /// in their order.
    pub open spec fn failures_of_all(self, extrinsics: Seq<Extrinsic>) -> Seq<DispatchFailure>
        decreases extrinsics.len(),
    {
        if extrinsics.len() == 0 {
            Seq::<DispatchFailure>::empty()
        } else {
            self.failures_of_all(extrinsics.drop_last()) + self.apply_all(
                extrinsics.drop_last(),
            ).failures_of(extrinsics.len() - 1, extrinsics.last())
        }
    }

    /// The state in which a block begins: the block counter has advanced.
    pub open spec fn begin_block(self) -> State {
        State { system: self.system.next_block(), ..self }
    }

    /// Whether `block` carries the number that is due after this state.
    pub open spec fn expects(self, block: Block) -> bool {
        block.header.block_number == self.system.block_number + 1
    }

    /// The state after `block` was executed. At the largest height nothing
    /// changes. Otherwise the block counter advances; the extrinsics are
    /// applied only where the block carries the number that is due.
    pub open spec fn execute_block(self, block: Block) -> State {
        if !self.system.can_advance() {
            self
        } else if !self.expects(block) {
            self.begin_block()
        } else {
            self.begin_block().apply_all(block.extrinsics@)
        }
    }

    /// What executing `block` returns: the fatal error, or what the
    /// extrinsics recorded.
    pub open spec fn execute_block_result(self, block: Block) -> Result<
        Seq<DispatchFailure>,
        Error,
    > {
        if !self.system.can_advance() {
            Err(Error::BlockNumberOverflow { block_number: self.system.block_number })
        } else if !self.expects(block) {
            Err(
                Error::BlockNumberMismatch {
                    expected: (self.system.block_number + 1) as BlockNumber,
                    found: block.header.block_number,
                },
            )
        } else {
            Ok(self.begin_block().failures_of_all(block.extrinsics@))
        }
    }
}

/// How many of the extrinsics were submitted by `who`.
pub open spec fn submissions(extrinsics: Seq<Extrinsic>, who: Seq<char>) -> nat
    decreases extrinsics.len(),
{
    if extrinsics.len() == 0 {
        0
    } else {
        submissions(extrinsics.drop_last(), who) + if extrinsics.last().caller@ == who {
            1nat
        } else {
            0nat
        }
    }
}

/// Whether `who` is the caller or the receiver of `extrinsic`.
pub open spec fn involves(extrinsic: Extrinsic, who: Seq<char>) -> bool {
    extrinsic.caller@ == who || match extrinsic.call {
        RuntimeCall::Balances(balances::Call::Transfer { to, .. }) => to@ == who,
    }
}

/// An extrinsic that failed, with where it stood. It did not stop the block.
#[derive(Debug, PartialEq, Eq)]
pub struct DispatchFailure {
    /// The number of the block that held the extrinsic.
    pub block_number: BlockNumber,
    /// The position of the extrinsic in its block, counted from 0.
    pub extrinsic_index: usize,
    /// What the system pallet or the owning pallet reported.
    pub error: Error,
}

/// What `execute_block` returned, with the failures that it recorded as a
/// sequence.
pub open spec fn recorded(result: Result<Vec<DispatchFailure>, Error>) -> Result<
    Seq<DispatchFailure>,
    Error,
> {
    match result {
        Ok(failures) => Ok(failures@),
        Err(error) => Err(error),
    }
}

/// The runtime.
#[derive(Debug)]
pub struct Runtime {
    pub system: system::Pallet,
    pub balances: balances::Pallet,
}

impl View for Runtime {
    type V = State;

    open spec fn view(&self) -> State {
        State { system: self.system@, balances: self.balances@ }
    }
}

impl Runtime {
    /// A runtime at height 0 in which every account has nonce 0 and holds 0.
    pub fn new() -> (runtime: Self)
        ensures
            runtime@ == State::initial(),
            runtime@.system.block_number == 0,
            forall|who: Seq<char>| runtime@.system.nonce_of(who) == 0,
            forall|who: Seq<char>| runtime@.balances.balance_of(who) == 0,
    {
        Runtime { system: system::Pallet::new(), balances: balances::Pallet::new() }
    }

    /// Executes `block`: advances the block counter, checks the number that
    /// the block declares against it, and applies the extrinsics in order.
    ///
    /// A block counter that cannot advance, or a block with another number
    /// than the one that is due, is fatal: no extrinsic runs. A block with
    /// the wrong number has still advanced the counter. An extrinsic that
    /// fails is recorded and the next one runs; what was recorded is returned
    /// in order.
    pub fn execute_block(&mut self, block: Block) -> (result: Result<Vec<DispatchFailure>, Error>)
        ensures
            final(self)@ == old(self)@.execute_block(block),
            recorded(result) == old(self)@.execute_block_result(block),
            result.is_ok() <==> old(self)@.system.can_advance() && old(self)@.expects(block),
            old(self)@.system.can_advance() ==> final(self)@.system.block_number
                == old(self)@.system.block_number + 1,
            !old(self)@.system.can_advance() ==> final(self)@ == old(self)@,
            result.is_err() ==> final(self)@.balances == old(self)@.balances,
            result.is_err() ==> final(self)@.system.nonce == old(self)@.system.nonce,
            result.is_ok() ==> forall|who: Seq<char>|
                final(self)@.system.nonce_of(who) == old(self)@.system.nonce_after(
                    who,
                    submissions(block.extrinsics@, who),
                ),
            final(self)@.balances.total_issuance() == old(self)@.balances.total_issuance(),
    {
        proof {
            let before = self@;
            self.balances.lemma_finite();
            lemma_block_conserves_issuance(before, block);
            lemma_extrinsics_keep_block_number(before.begin_block(), block.extrinsics@);
            assert forall|who: Seq<char>|
                before.begin_block().apply_all(block.extrinsics@).system.nonce_of(who)
                    == before.system.nonce_after(who, submissions(block.extrinsics@, who)) by {
                lemma_nonce_counts_submissions(before.begin_block(), block.extrinsics@, who);
            }
        }
        match self.system.inc_block_number() {
            Ok(_) => {},
            Err(error) => {
                return Err(error);
            },
        }
        let block_number = self.system.block_number();
        if block.header.block_number != block_number {
            return Err(
                Error::BlockNumberMismatch {
                    expected: block_number,
                    found: block.header.block_number,
                },
            );
        }
        let ghost begun = self@;
        let ghost extrinsics = block.extrinsics@;
        assert(extrinsics.len() == block.extrinsics.len());
        let mut failures: Vec<DispatchFailure> = Vec::new();
        let mut index: usize = 0;
        for extrinsic in iter: block.extrinsics.into_iter()
            invariant
                iter.seq() == extrinsics,
                extrinsics.len() <= usize::MAX,
                index == iter.index(),
                block_number == begun.system.block_number,
                self@ == begun.apply_all(extrinsics.take(iter.index() as int)),
                failures@ == begun.failures_of_all(extrinsics.take(iter.index() as int)),
        {
            proof {
                let done = extrinsics.take(index as int);
                let next = extrinsics.take(index + 1);
                assert(next.drop_last() == done);
                assert(next.last() == extrinsic);
                lemma_extrinsics_keep_block_number(begun, done);
            }
            let Extrinsic { caller, call } = extrinsic;
            match self.system.inc_nonce(caller.clone()) {
                Ok(_) => {},
                Err(error) => {
                    failures.push(DispatchFailure { block_number, extrinsic_index: index, error });
                },
            }
            match self.dispatch(caller, call) {
                Ok(_) => {},
                Err(error) => {
                    failures.push(DispatchFailure { block_number, extrinsic_index: index, error });
                },
            }
            index += 1;
        }
        assert(extrinsics.take(extrinsics.len() as int) == extrinsics);
        Ok(failures)
    }
}

impl Dispatch for Runtime {
    type Caller = AccountId;

    type Call = RuntimeCall;

    /// Routes `runtime_call` to the pallet that owns it and returns what the
    /// pallet returns. The system pallet is not touched.
    fn dispatch(&mut self, caller: AccountId, runtime_call: RuntimeCall) -> (result: DispatchResult)
        ensures
            final(self)@ == old(self)@.dispatch(caller, runtime_call),
            result == old(self)@.dispatch_result(caller, runtime_call),
            final(self)@.system == old(self)@.system,
            result.is_err() ==> final(self)@ == old(self)@,
            final(self)@.balances.total_issuance() == old(self)@.balances.total_issuance(),
    {
        match runtime_call {
            RuntimeCall::Balances(call) => match call {
                balances::Call::Transfer { to, amount } => {
                    self.balances.transfer(caller, to, amount)
                },
            },
        }
    }
}

} // verus!
