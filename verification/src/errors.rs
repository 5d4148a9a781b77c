//! The error taxonomy of the engine: every validation failure maps to exactly
//! one named kind, returned before any state mutation for that call.

use vstd::prelude::*;

verus! {

/// Why a call into the engine was rejected. Every guard either passes or
/// aborts the call with one specific kind; no error is ever silently
/// swallowed.
#[derive(Clone, Copy, Debug, PartialEq, Eq, Structural)]
pub enum MultisigError {
    /// A read or a workflow call arrived before `initialize`.
    NotInitialized,
    /// `initialize` was called a second time.
    AlreadyInitialized,
    /// The requested threshold is zero.
    InvalidThreshold,
    /// `initialize` received an empty signer list.
    EmptySignersList,
    /// Two entries of the signer list are identical, or an added signer is
    /// already a member.
    DuplicateSigner,
    /// A named signer is not where it was expected: the target of a removal
    /// is no member, or a revoked approval does not exist.
    SignerNotFound,
    /// The threshold would exceed the signer count.
    ThresholdExceedsSigners,
    /// Reserved for replay checks on the transfer counter.
    InvalidNonce,
    /// The caller-supplied identity is not an authorized signer.
    UnknownSigner,
    /// No transfer proposal carries the given id.
    ProposalNotFound,
    /// The transfer proposal was already executed.
    ProposalAlreadyExecuted,
    /// The current time lies past the transfer proposal's expiry.
    ProposalExpired,
    /// The signer already approved this transfer proposal.
    AlreadyApproved,
    /// The transfer proposal's approvals fall short of the threshold.
    InsufficientApprovals,
    /// The proposal itself is malformed: the amount is not positive.
    InvalidProposal,
    /// No signer-change proposal carries the given id.
    SignerChangeNotFound,
    /// The signer-change proposal was already executed.
    SignerChangeAlreadyExecuted,
    /// The current time lies past the signer-change proposal's expiry.
    SignerChangeExpired,
    /// The signer already approved this signer-change proposal.
    SignerChangeAlreadyApproved,
    /// The signer-change proposal's approvals fall short of the threshold.
    InsufficientSignerChangeApprovals,
    /// The requested time to live lies outside the accepted window.
    InvalidExpiryTime,
}

} // verus!
