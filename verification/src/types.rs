//! The data model: signer identities, account addresses, the two proposal
//! kinds with their approval records, and the transfer action that a
//! successful execution hands back to the host.

use vstd::prelude::*;

verus! {

/// An authorized signer's identity: an opaque fixed-width 32-byte key.
/// The engine trusts that the caller has already been cryptographically
/// proven to control this identity.
#[derive(Clone, Copy, Debug)]
pub struct SignerId {
    pub bytes: [u8; 32],
}

impl SignerId {
    pub fn new(bytes: [u8; 32]) -> (r: SignerId)
        ensures
            r.bytes == bytes,
    {
        SignerId { bytes }
    }
}

impl PartialEq for SignerId {
    fn eq(&self, other: &SignerId) -> (r: bool) {
        let mut i: usize = 0;
        while i < 32
            invariant
                0 <= i <= 32,
                forall|k: int| 0 <= k < i ==> self.bytes@[k] == other.bytes@[k],
            decreases 32 - i,
        {
            if self.bytes[i] != other.bytes[i] {
                return false;
            }
            i += 1;
        }
        proof {
            assert(self.bytes =~= other.bytes);
        }
        true
    }
}

impl vstd::std_specs::cmp::PartialEqSpecImpl for SignerId {
    open spec fn obeys_eq_spec() -> bool {
        true
    }

    open spec fn eq_spec(&self, other: &SignerId) -> bool {
        *self == *other
    }
}

/// An account address, opaque to the engine: it only carries token and
/// recipient addresses from a proposal into the transfer action.
#[derive(Clone, Copy, Debug)]
pub struct Address {
    pub bytes: [u8; 32],
}

impl Address {
    pub fn new(bytes: [u8; 32]) -> (r: Address)
        ensures
            r.bytes == bytes,
    {
        Address { bytes }
    }
}

impl PartialEq for Address {
    fn eq(&self, other: &Address) -> (r: bool) {
        let mut i: usize = 0;
        while i < 32
            invariant
                0 <= i <= 32,
                forall|k: int| 0 <= k < i ==> self.bytes@[k] == other.bytes@[k],
            decreases 32 - i,
        {
            if self.bytes[i] != other.bytes[i] {
                return false;
            }
            i += 1;
        }
        proof {
            assert(self.bytes =~= other.bytes);
        }
        true
    }
}

impl vstd::std_specs::cmp::PartialEqSpecImpl for Address {
    open spec fn obeys_eq_spec() -> bool {
        true
    }

    open spec fn eq_spec(&self, other: &Address) -> bool {
        *self == *other
    }
}

/// Which mutation of the signer set a signer-change proposal requests.
#[derive(Clone, Copy, Debug, PartialEq, Eq, Structural)]
pub enum ChangeKind {
    Add,
    Remove,
}

/// A pending fund-release request. Immutable once created, except for the
/// `executed` flag, which execution sets exactly once.
#[derive(Debug)]
pub struct Proposal {
    /// Sequential id starting at 1, drawn from a counter shared with
    /// signer-change proposals, never reused.
    pub id: u64,
    pub proposer: SignerId,
    pub token_address: Address,
    pub recipient: Address,
    /// Strictly positive amount to release.
    pub amount: i128,
    /// Free text accompanying the request.
    pub reason: String,
    pub created_at: u64,
    /// `created_at` plus the requested time to live.
    pub expires_at: u64,
    pub executed: bool,
}

/// One signer's approval of a transfer proposal: at most one per signer per
/// proposal.
#[derive(Clone, Copy, Debug)]
pub struct ProposalApproval {
    pub signer: SignerId,
    pub approved_at: u64,
}

/// A pending signer-set mutation: same lifecycle as a transfer proposal, but
/// it carries a change kind and a target signer instead of a payment.
#[derive(Debug)]
pub struct SignerChangeProposal {
    /// Sequential id drawn from the counter shared with transfer proposals.
    pub id: u64,
    pub proposer: SignerId,
    pub change_kind: ChangeKind,
    /// The signer to add to or remove from the registry.
    pub signer: SignerId,
    pub created_at: u64,
    pub expires_at: u64,
    pub executed: bool,
}

/// One signer's approval of a signer-change proposal. Kept separate from
/// [`ProposalApproval`]: the two workflows own independent ledgers.
#[derive(Clone, Copy, Debug)]
pub struct SignerChangeApproval {
    pub signer: SignerId,
    pub approved_at: u64,
}

/// The transfer that a successful `execute_proposal` authorizes. The host
/// performs it -- from the governed account to `recipient` for the given
/// token -- within the same atomic call, so that a failed transfer rolls the
/// execution back with it.
#[derive(Clone, Copy, Debug)]
pub struct TransferAction {
    pub token_address: Address,
    pub recipient: Address,
    pub amount: i128,
}

impl PartialEq for TransferAction {
    fn eq(&self, other: &TransferAction) -> (r: bool) {
        self.token_address == other.token_address && self.recipient == other.recipient
            && self.amount == other.amount
    }
}

impl vstd::std_specs::cmp::PartialEqSpecImpl for TransferAction {
    open spec fn obeys_eq_spec() -> bool {
        true
    }

    open spec fn eq_spec(&self, other: &TransferAction) -> bool {
        *self == *other
    }
}

} // verus!
