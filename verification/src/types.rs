//! The concrete types this runtime is configured with. Every pallet is
//! written against these aliases, so retargeting the runtime is a matter of
//! changing them in one place.

use vstd::prelude::*;

verus! {

/// The identity an extrinsic is submitted under; the key of every
/// per-account mapping.
pub type AccountId = String;

/// A spendable amount. Absence from the balances mapping means zero.
pub type Balance = u128;

/// The global, strictly increasing block counter.
pub type BlockNumber = u32;

/// The per-account replay-protection counter.
pub type Nonce = u32;

/// A piece of claimable content, mapped to the account that claimed it.
pub type Content = String;

/// One unit of work inside a block, as this runtime consumes it.
pub type Extrinsic = crate::support::Extrinsic<AccountId, crate::RuntimeCall>;

/// The header this runtime's blocks carry.
pub type Header = crate::support::Header<BlockNumber>;

/// A block as this runtime consumes it.
pub type Block = crate::support::Block<Header, Extrinsic>;

} // verus!
