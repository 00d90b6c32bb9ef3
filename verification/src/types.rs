//! The concrete types that the runtime is assembled from.

use crate::runtime::RuntimeCall;
use crate::support;
use vstd::prelude::*;

verus! {

/// Who owns a balance and submits extrinsics.
pub type AccountId = String;

/// An amount of funds.
pub type Balance = u128;

/// The height of a block.
pub type BlockNumber = u32;

/// How many extrinsics an account has submitted.
pub type Nonce = u32;

/// An extrinsic as the runtime takes it.
pub type Extrinsic = support::Extrinsic<AccountId, RuntimeCall>;

/// A header as the runtime takes it.
pub type Header = support::Header<BlockNumber>;

/// A block as the runtime takes it.
pub type Block = support::Block<Header, Extrinsic>;

} // verus!
