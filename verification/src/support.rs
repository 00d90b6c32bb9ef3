//! The containers in which work reaches the runtime, and the interface
//! through which a call reaches the pallet that owns it.

use crate::error::DispatchResult;
use vstd::prelude::*;

verus! {

/// What a block declares of itself.
#[derive(Debug)]
pub struct Header<N> {
    /// The height that the block claims.
    pub block_number: N,
}

/// One submitted operation: who asks, and for what.
#[derive(Debug)]
pub struct Extrinsic<Caller, Call> {
    pub caller: Caller,
    pub call: Call,
}

/// A header and the extrinsics to run under it, in order.
#[derive(Debug)]
pub struct Block<H, E> {
    pub header: H,
    pub extrinsics: Vec<E>,
}

/// Something that routes a call, made by a caller, to the code that
/// carries it out.
pub trait Dispatch {
    /// Who can make a call.
    type Caller;

    /// What can be asked for.
    type Call;

    /// Carries out `call` on behalf of `caller`.
    fn dispatch(&mut self, caller: Self::Caller, call: Self::Call) -> DispatchResult;
}

} // verus!
