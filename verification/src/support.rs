//! Plain container types consumed by the runtime, and the error taxonomy
//! shared by every dispatchable operation.

use vstd::prelude::*;

verus! {

/// Every way a dispatched operation or a block can fail. All variants are
/// recoverable values: they are returned, never thrown.
#[derive(Clone, Copy, Debug, PartialEq, Eq, Structural)]
pub enum DispatchError {
    /// A transfer asked for more than the caller holds.
    InsufficientBalance,
    /// A transfer would push the recipient's balance past its maximum.
    Overflow,
    /// The content is already claimed, by anyone.
    ClaimAlreadyExists,
    /// The content has no claim to revoke.
    ClaimNotFound,
    /// The claim exists but belongs to someone else.
    NotClaimOwner,
    /// The block's declared number is not the next block number.
    BlockNumberMismatch,
}

impl DispatchError {
    /// A human-readable message for reporting at the extrinsic boundary.
    pub fn as_str(&self) -> (r: &'static str)
        ensures
            r@ == match *self {
                DispatchError::InsufficientBalance => "Insufficient balance"@,
                DispatchError::Overflow => "Overflow when adding to balance"@,
                DispatchError::ClaimAlreadyExists => "Claim already exists"@,
                DispatchError::ClaimNotFound => "Claim does not exist"@,
                DispatchError::NotClaimOwner => "Caller is not the owner of the claim"@,
                DispatchError::BlockNumberMismatch => "Block Number Mismatch"@,
            },
    {
        match *self {
            DispatchError::InsufficientBalance => "Insufficient balance",
            DispatchError::Overflow => "Overflow when adding to balance",
            DispatchError::ClaimAlreadyExists => "Claim already exists",
            DispatchError::ClaimNotFound => "Claim does not exist",
            DispatchError::NotClaimOwner => "Caller is not the owner of the claim",
            DispatchError::BlockNumberMismatch => "Block Number Mismatch",
        }
    }
}

/// The outcome of dispatching one operation.
pub type DispatchResult = Result<(), DispatchError>;

/// One externally submitted unit of work: a caller and the call it makes.
#[derive(Debug)]
pub struct Extrinsic<Caller, Call> {
    pub caller: Caller,
    pub call: Call,
}

/// The part of a block that is not its extrinsics; it declares the number
/// the block expects to be executed at.
#[derive(Debug)]
pub struct Header<BlockNumber> {
    pub block_number: BlockNumber,
}

/// A header plus an ordered sequence of extrinsics, consumed exactly once.
#[derive(Debug)]
pub struct Block<Header, Extrinsic> {
    pub header: Header,
    pub extrinsics: Vec<Extrinsic>,
}

} // verus!
