//! Shared plumbing for the runtime: the error taxonomy, the dispatch result
//! type, and the block / extrinsic schema that the executor consumes.

use crate::runtime::RuntimeCall;
use vstd::prelude::*;

verus! {

/// Reason a single dispatched module operation failed. These errors are
/// per-extrinsic: they are reported to the caller but never abort the
/// enclosing block.
#[derive(Clone, Copy, Debug, PartialEq, Eq, Structural)]
pub enum DispatchError {
    /// A transfer debit would underflow the caller's balance.
    InsufficientBalance,
    /// A transfer credit would overflow the destination balance.
    Overflow,
    /// `create_claim` on content that already has an owner.
    ClaimAlreadyExists,
    /// `revoke_claim` on content that has no owner.
    ClaimNotFound,
    /// `revoke_claim` by an account that does not own the claim.
    NotClaimOwner,
}

/// Reason a whole block was rejected. Block-level errors are fatal for that
/// `execute_block` call, though the runtime remains usable afterwards.
#[derive(Clone, Copy, Debug, PartialEq, Eq, Structural)]
pub enum BlockError {
    /// The block header does not carry the expected next block number.
    BlockNumberMismatch,
}

/// Uniform outcome of routing one call to its owning module.
pub type DispatchResult = Result<(), DispatchError>;

impl DispatchError {
    /// The human-readable reason for this error.
    pub open spec fn message_spec(&self) -> Seq<char> {
        match self {
            DispatchError::InsufficientBalance => "Insufficient balance"@,
            DispatchError::Overflow => "Overflow"@,
            DispatchError::ClaimAlreadyExists => "this content is already claimed"@,
            DispatchError::ClaimNotFound => "claim not found"@,
            DispatchError::NotClaimOwner => "this claim is owned by someone else"@,
        }
    }

    /// Renders the human-readable reason for this error.
    pub fn message(&self) -> (s: String)
        ensures
            s@ == self.message_spec(),
    {
        match self {
            DispatchError::InsufficientBalance => "Insufficient balance".to_owned(),
            DispatchError::Overflow => "Overflow".to_owned(),
            DispatchError::ClaimAlreadyExists => "this content is already claimed".to_owned(),
            DispatchError::ClaimNotFound => "claim not found".to_owned(),
            DispatchError::NotClaimOwner => "this claim is owned by someone else".to_owned(),
        }
    }
}

impl BlockError {
    /// The human-readable reason for this error.
    pub open spec fn message_spec(&self) -> Seq<char> {
        "block number does not match what is expected"@
    }

    /// Renders the human-readable reason for this error.
    pub fn message(&self) -> (s: String)
        ensures
            s@ == self.message_spec(),
    {
        "block number does not match what is expected".to_owned()
    }
}

/// A block header: the position this block asserts in the block sequence.
pub struct Header {
    /// The block number this block claims to be; it must be exactly one
    /// past the runtime's current block number to be accepted.
    pub block_number: u32,
}

/// One externally supplied operation, attributed to the account that
/// authored it. The executor assumes the caller identity has already been
/// validated; it needs no proof of authorization.
pub struct Extrinsic {
    /// The account on whose behalf the call is dispatched.
    pub caller: String,
    /// The module operation to apply.
    pub call: RuntimeCall,
}

/// An ordered batch of extrinsics plus the header asserting its position.
pub struct Block {
    /// Where in the block sequence this block claims to stand.
    pub header: Header,
    /// The extrinsics to apply, in order.
    pub extrinsics: Vec<Extrinsic>,
}

} // verus!
