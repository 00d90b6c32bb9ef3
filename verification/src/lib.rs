//! A small deterministic state-transition runtime.
//!
//! A ledger of balances and a record of block height and account nonces are
//! kept by two pallets. The runtime executes blocks against them: it checks
//! each block's number, counts every extrinsic against its caller's nonce,
//! and routes every call to the pallet that owns it. A call that fails is
//! recorded and the block goes on; a block with the wrong number is refused
//! whole.
//!
//! Each pallet and the runtime has a mathematical state, and every
//! executable function is proved to compute on it what a function of that
//! state says. What holds of those functions in general is in [`laws`].

pub mod account_map;
pub mod arith;
pub mod balances;
pub mod error;
pub mod issuance;
pub mod laws;
pub mod runtime;
pub mod support;
pub mod system;
pub mod types;
