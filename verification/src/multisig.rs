//! The governance engine itself: the signer registry, the two proposal
//! workflows and their approval ledgers, as one explicitly passed state
//! value.

use vstd::prelude::*;

use crate::errors::MultisigError;
use crate::types::{
    Address, ChangeKind, Proposal, ProposalApproval, SignerChangeApproval, SignerChangeProposal,
    SignerId, TransferAction,
};

verus! {

/// The accepted window for a proposal's time to live: a one-hour floor
/// prevents zero-notice execution.
pub const MIN_EXPIRY_SECONDS: u64 = 3600;

/// A thirty-day ceiling prevents indefinitely live authorizations.
pub const MAX_EXPIRY_SECONDS: u64 = 2_592_000;

/// The whole state of one governance instance. The host owns one value of
/// this type and drives it through a sequence of serialized calls.
///
/// Transfer proposals and signer-change proposals draw their ids from the
/// shared `proposal_count` counter, so an id never names one of each. Each
/// proposal's approvals live at the same index of the parallel approvals
/// vector, so approval bookkeeping never rewrites a proposal body.
pub struct MultiSigContract {
    /// Set exactly once, by `initialize`; every other entry point first
    /// checks it.
    pub initialized: bool,
    /// The authorized signers, pairwise distinct.
    pub signers: Vec<SignerId>,
    /// How many distinct approvals a proposal needs; always between 1 and
    /// the signer count once initialized.
    pub threshold: u32,
    /// Replay counter, advanced only by a successfully executed transfer.
    pub nonce: u64,
    /// The last id handed out to a proposal of either kind.
    pub proposal_count: u64,
    /// Transfer proposals, in creation order.
    pub proposals: Vec<Proposal>,
    /// `proposal_approvals[i]` holds the approvals of `proposals[i]`.
    pub proposal_approvals: Vec<Vec<ProposalApproval>>,
    /// Signer-change proposals, in creation order.
    pub signer_changes: Vec<SignerChangeProposal>,
    /// `signer_change_approvals[i]` holds the approvals of
    /// `signer_changes[i]`.
    pub signer_change_approvals: Vec<Vec<SignerChangeApproval>>,
}

impl MultiSigContract {
    /// A fresh, uninitialized instance: no signers, no proposals, all
    /// counters at zero.
    pub fn new() -> (r: MultiSigContract)
        ensures
            r.wf(),
            !r.initialized,
            r.signers@ =~= Seq::<SignerId>::empty(),
            r.nonce == 0,
            r.proposal_count == 0,
            r.proposals@ =~= Seq::<Proposal>::empty(),
            r.signer_changes@ =~= Seq::<SignerChangeProposal>::empty(),
    {
        MultiSigContract {
            initialized: false,
            signers: Vec::new(),
            threshold: 0,
            nonce: 0,
            proposal_count: 0,
            proposals: Vec::new(),
            proposal_approvals: Vec::new(),
            signer_changes: Vec::new(),
            signer_change_approvals: Vec::new(),
        }
    }

    /// The registry invariant together with the bookkeeping the proposal
    /// stores rely on: every entry point requires it and re-establishes it.
    pub open spec fn wf(&self) -> bool {
        &&& self.initialized ==> {
            &&& 1 <= self.threshold
            &&& self.threshold <= self.signers@.len()
            &&& self.signers@.len() <= u32::MAX
        }
        &&& seq_distinct(self.signers@)
        &&& self.proposals@.len() == self.proposal_approvals@.len()
        &&& self.signer_changes@.len() == self.signer_change_approvals@.len()
        &&& forall|i: int, j: int|
            0 <= i < j < self.proposals@.len() ==> self.proposals@[i].id != self.proposals@[j].id
        &&& forall|i: int, j: int|
            0 <= i < j < self.signer_changes@.len() ==> self.signer_changes@[i].id
                != self.signer_changes@[j].id
        &&& forall|i: int|
            0 <= i < self.proposals@.len() ==> 1 <= #[trigger] self.proposals@[i].id
                <= self.proposal_count
        &&& forall|i: int|
            0 <= i < self.signer_changes@.len() ==> 1 <= #[trigger] self.signer_changes@[i].id
                <= self.proposal_count
        &&& forall|i: int|
            0 <= i < self.proposal_approvals@.len() ==> seq_distinct(
                (#[trigger] self.proposal_approvals@[i])@.map_values(
                    |a: ProposalApproval| a.signer,
                ),
            )
        &&& forall|i: int|
            0 <= i < self.signer_change_approvals@.len() ==> seq_distinct(
                (#[trigger] self.signer_change_approvals@[i])@.map_values(
                    |a: SignerChangeApproval| a.signer,
                ),
            )
    }
}

/// No two entries of the sequence are equal.
pub open spec fn seq_distinct<T>(s: Seq<T>) -> bool {
    forall|i: int, j: int| 0 <= i < j < s.len() ==> s[i] != s[j]
}

/// Removing one entry of a duplicate-free sequence keeps it duplicate-free.
pub proof fn lemma_seq_distinct_remove<T>(s: Seq<T>, at: int)
    requires
        seq_distinct(s),
        0 <= at < s.len(),
    ensures
        seq_distinct(s.remove(at)),
{
    s.remove_ensures(at);
    let t = s.remove(at);
    assert forall|i: int, j: int| 0 <= i < j < t.len() implies t[i] != t[j] by {
        let si: int = if i < at {
            i
        } else {
            i + 1
        };
        let sj: int = if j < at {
            j
        } else {
            j + 1
        };
        assert(t[i] == s[si] && t[j] == s[sj]);
    }
}

/// Some recorded approval of this ledger was made by `x`.
pub open spec fn approvals_contain(s: Seq<ProposalApproval>, x: SignerId) -> bool {
    exists|k: int| 0 <= k < s.len() && s[k].signer == x
}

/// The position of `x`'s approval in the ledger; meaningful whenever
/// `approvals_contain` holds and the ledger is duplicate-free.
pub open spec fn approval_index(s: Seq<ProposalApproval>, x: SignerId) -> int {
    choose|k: int| 0 <= k < s.len() && s[k].signer == x
}

/// Some recorded approval of this signer-change ledger was made by `x`.
pub open spec fn change_approvals_contain(s: Seq<SignerChangeApproval>, x: SignerId) -> bool {
    exists|k: int| 0 <= k < s.len() && s[k].signer == x
}

/// The position of `x` in the signer sequence; meaningful whenever the
/// sequence contains `x` and is duplicate-free.
pub open spec fn signer_index(s: Seq<SignerId>, x: SignerId) -> int {
    choose|k: int| 0 <= k < s.len() && s[k] == x
}

impl MultiSigContract {
    /// `s` is an authorized signer of the registry.
    pub open spec fn spec_is_signer(&self, s: SignerId) -> bool {
        self.signers@.contains(s)
    }

    /// A transfer proposal with this id exists.
    pub open spec fn has_proposal(&self, id: u64) -> bool {
        exists|i: int| 0 <= i < self.proposals@.len() && self.proposals@[i].id == id
    }

    /// The position of the transfer proposal with this id; meaningful
    /// whenever `has_proposal` holds, and then unique by `wf`.
    pub open spec fn proposal_idx(&self, id: u64) -> int {
        choose|i: int| 0 <= i < self.proposals@.len() && self.proposals@[i].id == id
    }

    /// The stored transfer proposal with this id.
    pub open spec fn spec_proposal(&self, id: u64) -> Proposal {
        self.proposals@[self.proposal_idx(id)]
    }

    /// The approval ledger of the transfer proposal with this id.
    pub open spec fn spec_approvals(&self, id: u64) -> Seq<ProposalApproval> {
        self.proposal_approvals@[self.proposal_idx(id)]@
    }

    /// A signer-change proposal with this id exists.
    pub open spec fn has_change(&self, id: u64) -> bool {
        exists|i: int| 0 <= i < self.signer_changes@.len() && self.signer_changes@[i].id == id
    }

    /// The position of the signer-change proposal with this id; meaningful
    /// whenever `has_change` holds, and then unique by `wf`.
    pub open spec fn change_idx(&self, id: u64) -> int {
        choose|i: int| 0 <= i < self.signer_changes@.len() && self.signer_changes@[i].id == id
    }

    /// The stored signer-change proposal with this id.
    pub open spec fn spec_change(&self, id: u64) -> SignerChangeProposal {
        self.signer_changes@[self.change_idx(id)]
    }

    /// The approval ledger of the signer-change proposal with this id.
    pub open spec fn spec_change_approvals(&self, id: u64) -> Seq<SignerChangeApproval> {
        self.signer_change_approvals@[self.change_idx(id)]@
    }

    /// What `initialize` returns, decided over the requested configuration:
    /// the first failing guard names the error, and a valid configuration on
    /// an uninitialized registry is accepted.
    pub open spec fn initialize_outcome(&self, signers: Seq<SignerId>, threshold: u32) -> Result<
        (),
        MultisigError,
    > {
        if self.initialized {
            Err(MultisigError::AlreadyInitialized)
        } else if signers.len() == 0 {
            Err(MultisigError::EmptySignersList)
        } else if threshold == 0 {
            Err(MultisigError::InvalidThreshold)
        } else if (threshold as int) > signers.len() {
            Err(MultisigError::ThresholdExceedsSigners)
        } else if !seq_distinct(signers) {
            Err(MultisigError::DuplicateSigner)
        } else {
            Ok(())
        }
    }

    /// What `create_proposal` returns: either the id the new proposal will
    /// carry, or the first failing guard's error.
    pub open spec fn create_outcome(&self, proposer: SignerId, amount: i128, ttl: u64) -> Result<
        u64,
        MultisigError,
    > {
        if !self.initialized {
            Err(MultisigError::NotInitialized)
        } else if ttl < MIN_EXPIRY_SECONDS {
            Err(MultisigError::InvalidExpiryTime)
        } else if ttl > MAX_EXPIRY_SECONDS {
            Err(MultisigError::InvalidExpiryTime)
        } else if !self.spec_is_signer(proposer) {
            Err(MultisigError::UnknownSigner)
        } else if amount <= 0 {
            Err(MultisigError::InvalidProposal)
        } else {
            Ok((self.proposal_count + 1) as u64)
        }
    }

    /// What `approve_proposal` returns.
    pub open spec fn approve_outcome(&self, id: u64, approver: SignerId, now: u64) -> Result<
        (),
        MultisigError,
    > {
        if !self.initialized {
            Err(MultisigError::NotInitialized)
        } else if !self.spec_is_signer(approver) {
            Err(MultisigError::UnknownSigner)
        } else if !self.has_proposal(id) {
            Err(MultisigError::ProposalNotFound)
        } else if self.spec_proposal(id).executed {
            Err(MultisigError::ProposalAlreadyExecuted)
        } else if now > self.spec_proposal(id).expires_at {
            Err(MultisigError::ProposalExpired)
        } else if approvals_contain(self.spec_approvals(id), approver) {
            Err(MultisigError::AlreadyApproved)
        } else {
            Ok(())
        }
    }

    /// What `revoke_approval` returns. Revocation is not gated on expiry: an
    /// approval of an expired, abandoned proposal can still be withdrawn.
    pub open spec fn revoke_outcome(&self, id: u64, revoker: SignerId) -> Result<
        (),
        MultisigError,
    > {
        if !self.initialized {
            Err(MultisigError::NotInitialized)
        } else if !self.spec_is_signer(revoker) {
            Err(MultisigError::UnknownSigner)
        } else if !self.has_proposal(id) {
            Err(MultisigError::ProposalNotFound)
        } else if self.spec_proposal(id).executed {
            Err(MultisigError::ProposalAlreadyExecuted)
        } else if !approvals_contain(self.spec_approvals(id), revoker) {
            Err(MultisigError::SignerNotFound)
        } else {
            Ok(())
        }
    }

    /// What `execute_proposal` returns: on success, the transfer the host
    /// must now perform. Quorum is exact-threshold, read at execution time.
    pub open spec fn execute_outcome(&self, id: u64, now: u64) -> Result<
        TransferAction,
        MultisigError,
    > {
        if !self.initialized {
            Err(MultisigError::NotInitialized)
        } else if !self.has_proposal(id) {
            Err(MultisigError::ProposalNotFound)
        } else if self.spec_proposal(id).executed {
            Err(MultisigError::ProposalAlreadyExecuted)
        } else if now > self.spec_proposal(id).expires_at {
            Err(MultisigError::ProposalExpired)
        } else if self.spec_approvals(id).len() < self.threshold {
            Err(MultisigError::InsufficientApprovals)
        } else {
            Ok(
                (TransferAction {
                    token_address: self.spec_proposal(id).token_address,
                    recipient: self.spec_proposal(id).recipient,
                    amount: self.spec_proposal(id).amount,
                }),
            )
        }
    }

    /// What `propose_signer_change` returns. An addition must name a
    /// non-member, a removal must name a member whose departure keeps the
    /// threshold reachable.
    pub open spec fn propose_change_outcome(
        &self,
        proposer: SignerId,
        change_kind: ChangeKind,
        signer: SignerId,
        ttl: u64,
    ) -> Result<u64, MultisigError> {
        if !self.initialized {
            Err(MultisigError::NotInitialized)
        } else if ttl < MIN_EXPIRY_SECONDS {
            Err(MultisigError::InvalidExpiryTime)
        } else if ttl > MAX_EXPIRY_SECONDS {
            Err(MultisigError::InvalidExpiryTime)
        } else if !self.spec_is_signer(proposer) {
            Err(MultisigError::UnknownSigner)
        } else if change_kind == ChangeKind::Add && self.spec_is_signer(signer) {
            Err(MultisigError::DuplicateSigner)
        } else if change_kind == ChangeKind::Remove && !self.spec_is_signer(signer) {
            Err(MultisigError::SignerNotFound)
        } else if change_kind == ChangeKind::Remove && self.signers@.len() as int - 1
            < self.threshold as int {
            Err(MultisigError::ThresholdExceedsSigners)
        } else {
            Ok((self.proposal_count + 1) as u64)
        }
    }

    /// What `approve_signer_change` returns.
    pub open spec fn approve_change_outcome(&self, id: u64, approver: SignerId, now: u64) -> Result<
        (),
        MultisigError,
    > {
        if !self.initialized {
            Err(MultisigError::NotInitialized)
        } else if !self.spec_is_signer(approver) {
            Err(MultisigError::UnknownSigner)
        } else if !self.has_change(id) {
            Err(MultisigError::SignerChangeNotFound)
        } else if self.spec_change(id).executed {
            Err(MultisigError::SignerChangeAlreadyExecuted)
        } else if now > self.spec_change(id).expires_at {
            Err(MultisigError::SignerChangeExpired)
        } else if change_approvals_contain(self.spec_change_approvals(id), approver) {
            Err(MultisigError::SignerChangeAlreadyApproved)
        } else {
            Ok(())
        }
    }

    /// What `execute_signer_change` returns. The membership and
    /// threshold-safety guards are re-validated here against the registry as
    /// it stands at execution time: another executed change may have made the
    /// proposal-time check stale, and applying a stale change would break the
    /// registry invariant.
    pub open spec fn execute_change_outcome(&self, id: u64, now: u64) -> Result<
        (),
        MultisigError,
    > {
        if !self.initialized {
            Err(MultisigError::NotInitialized)
        } else if !self.has_change(id) {
            Err(MultisigError::SignerChangeNotFound)
        } else if self.spec_change(id).executed {
            Err(MultisigError::SignerChangeAlreadyExecuted)
        } else if now > self.spec_change(id).expires_at {
            Err(MultisigError::SignerChangeExpired)
        } else if self.spec_change_approvals(id).len() < self.threshold {
            Err(MultisigError::InsufficientSignerChangeApprovals)
        } else if self.spec_change(id).change_kind == ChangeKind::Add && self.spec_is_signer(
            self.spec_change(id).signer,
        ) {
            Err(MultisigError::DuplicateSigner)
        } else if self.spec_change(id).change_kind == ChangeKind::Remove && !self.spec_is_signer(
            self.spec_change(id).signer,
        ) {
            Err(MultisigError::SignerNotFound)
        } else if self.spec_change(id).change_kind == ChangeKind::Remove
            && self.signers@.len() as int - 1 < self.threshold as int {
            Err(MultisigError::ThresholdExceedsSigners)
        } else {
            Ok(())
        }
    }
}

/// How a successful `create_proposal` call changes the state: the new
/// proposal is appended with a fresh empty approval ledger, the id counter
/// advances, and nothing else moves.
pub open spec fn create_post(
    pre: MultiSigContract,
    post: MultiSigContract,
    proposer: SignerId,
    token_address: Address,
    recipient: Address,
    amount: i128,
    reason: String,
    ttl: u64,
    now: u64,
) -> bool {
    let p = (Proposal {
        id: (pre.proposal_count + 1) as u64,
        proposer,
        token_address,
        recipient,
        amount,
        reason,
        created_at: now,
        expires_at: (now + ttl) as u64,
        executed: false,
    });
    &&& post.initialized == pre.initialized
    &&& post.signers == pre.signers
    &&& post.threshold == pre.threshold
    &&& post.nonce == pre.nonce
    &&& post.proposal_count == pre.proposal_count + 1
    &&& post.proposals@ == pre.proposals@.push(p)
    &&& post.proposal_approvals@.len() == pre.proposal_approvals@.len() + 1
    &&& forall|i: int|
        0 <= i < pre.proposal_approvals@.len() ==> post.proposal_approvals@[i]
            == pre.proposal_approvals@[i]
    &&& post.proposal_approvals@[pre.proposal_approvals@.len() as int]@
        == Seq::<ProposalApproval>::empty()
    &&& post.signer_changes == pre.signer_changes
    &&& post.signer_change_approvals == pre.signer_change_approvals
}

/// How a successful `propose_signer_change` call changes the state: the new
/// change proposal is appended with a fresh empty approval ledger, the shared
/// id counter advances, and nothing else moves.
pub open spec fn propose_change_post(
    pre: MultiSigContract,
    post: MultiSigContract,
    proposer: SignerId,
    change_kind: ChangeKind,
    signer: SignerId,
    ttl: u64,
    now: u64,
) -> bool {
    let p = (SignerChangeProposal {
        id: (pre.proposal_count + 1) as u64,
        proposer,
        change_kind,
        signer,
        created_at: now,
        expires_at: (now + ttl) as u64,
        executed: false,
    });
    &&& post.initialized == pre.initialized
    &&& post.signers == pre.signers
    &&& post.threshold == pre.threshold
    &&& post.nonce == pre.nonce
    &&& post.proposal_count == pre.proposal_count + 1
    &&& post.signer_changes@ == pre.signer_changes@.push(p)
    &&& post.signer_change_approvals@.len() == pre.signer_change_approvals@.len() + 1
    &&& forall|i: int|
        0 <= i < pre.signer_change_approvals@.len() ==> post.signer_change_approvals@[i]
            == pre.signer_change_approvals@[i]
    &&& post.signer_change_approvals@[pre.signer_change_approvals@.len() as int]@
        == Seq::<SignerChangeApproval>::empty()
    &&& post.proposals == pre.proposals
    &&& post.proposal_approvals == pre.proposal_approvals
}

/// How a successful `approve_proposal` call changes the state: exactly one
/// approval is appended to exactly one ledger.
pub open spec fn approve_post(
    pre: MultiSigContract,
    post: MultiSigContract,
    id: u64,
    approver: SignerId,
    now: u64,
) -> bool {
    &&& post.initialized == pre.initialized
    &&& post.signers == pre.signers
    &&& post.threshold == pre.threshold
    &&& post.nonce == pre.nonce
    &&& post.proposal_count == pre.proposal_count
    &&& post.proposals == pre.proposals
    &&& post.signer_changes == pre.signer_changes
    &&& post.signer_change_approvals == pre.signer_change_approvals
    &&& post.proposal_approvals@.len() == pre.proposal_approvals@.len()
    &&& post.spec_approvals(id) == pre.spec_approvals(id).push(
        (ProposalApproval { signer: approver, approved_at: now }),
    )
    &&& forall|i: int|
        0 <= i < pre.proposal_approvals@.len() && pre.proposals@[i].id != id
            ==> post.proposal_approvals@[i] == pre.proposal_approvals@[i]
}

/// How a successful `revoke_approval` call changes the state: the revoker's
/// single entry leaves its ledger, the remaining entries keep their insertion
/// order, and nothing else moves.
pub open spec fn revoke_post(
    pre: MultiSigContract,
    post: MultiSigContract,
    id: u64,
    revoker: SignerId,
) -> bool {
    &&& post.initialized == pre.initialized
    &&& post.signers == pre.signers
    &&& post.threshold == pre.threshold
    &&& post.nonce == pre.nonce
    &&& post.proposal_count == pre.proposal_count
    &&& post.proposals == pre.proposals
    &&& post.signer_changes == pre.signer_changes
    &&& post.signer_change_approvals == pre.signer_change_approvals
    &&& post.proposal_approvals@.len() == pre.proposal_approvals@.len()
    &&& post.spec_approvals(id) == pre.spec_approvals(id).remove(
        approval_index(pre.spec_approvals(id), revoker),
    )
    &&& forall|i: int|
        0 <= i < pre.proposal_approvals@.len() && pre.proposals@[i].id != id
            ==> post.proposal_approvals@[i] == pre.proposal_approvals@[i]
}

/// How a successful `approve_signer_change` call changes the state.
pub open spec fn approve_change_post(
    pre: MultiSigContract,
    post: MultiSigContract,
    id: u64,
    approver: SignerId,
    now: u64,
) -> bool {
    &&& post.initialized == pre.initialized
    &&& post.signers == pre.signers
    &&& post.threshold == pre.threshold
    &&& post.nonce == pre.nonce
    &&& post.proposal_count == pre.proposal_count
    &&& post.proposals == pre.proposals
    &&& post.proposal_approvals == pre.proposal_approvals
    &&& post.signer_changes == pre.signer_changes
    &&& post.signer_change_approvals@.len() == pre.signer_change_approvals@.len()
    &&& post.spec_change_approvals(id) == pre.spec_change_approvals(id).push(
        (SignerChangeApproval { signer: approver, approved_at: now }),
    )
    &&& forall|i: int|
        0 <= i < pre.signer_change_approvals@.len() && pre.signer_changes@[i].id != id
            ==> post.signer_change_approvals@[i] == pre.signer_change_approvals@[i]
}

/// How a successful `execute_proposal` call changes the state: the proposal
/// is marked executed, the replay counter advances by one, and everything
/// else -- approvals included -- stays.
pub open spec fn execute_post(pre: MultiSigContract, post: MultiSigContract, id: u64) -> bool {
    &&& post.initialized == pre.initialized
    &&& post.signers == pre.signers
    &&& post.threshold == pre.threshold
    &&& post.nonce == pre.nonce + 1
    &&& post.proposal_count == pre.proposal_count
    &&& post.proposal_approvals == pre.proposal_approvals
    &&& post.signer_changes == pre.signer_changes
    &&& post.signer_change_approvals == pre.signer_change_approvals
    &&& post.proposals@.len() == pre.proposals@.len()
    &&& post.has_proposal(id)
    &&& post.spec_proposal(id) == (Proposal { executed: true, ..pre.spec_proposal(id) })
    &&& forall|i: int|
        0 <= i < pre.proposals@.len() && pre.proposals@[i].id != id ==> post.proposals@[i]
            == pre.proposals@[i]
}

/// How a successful `execute_signer_change` call changes the state: the
/// registry gains or loses the target, the change is marked executed, and the
/// transfer counter is untouched -- only executed transfers advance it.
pub open spec fn execute_change_post(
    pre: MultiSigContract,
    post: MultiSigContract,
    id: u64,
) -> bool {
    let ch = pre.spec_change(id);
    &&& post.initialized == pre.initialized
    &&& post.threshold == pre.threshold
    &&& post.nonce == pre.nonce
    &&& post.proposal_count == pre.proposal_count
    &&& post.proposals == pre.proposals
    &&& post.proposal_approvals == pre.proposal_approvals
    &&& post.signer_change_approvals == pre.signer_change_approvals
    &&& ch.change_kind == ChangeKind::Add ==> post.signers@ == pre.signers@.push(ch.signer)
    &&& ch.change_kind == ChangeKind::Remove ==> post.signers@ == pre.signers@.remove(
        signer_index(pre.signers@, ch.signer),
    )
    &&& post.signer_changes@.len() == pre.signer_changes@.len()
    &&& post.has_change(id)
    &&& post.spec_change(id) == (SignerChangeProposal { executed: true, ..ch })
    &&& forall|i: int|
        0 <= i < pre.signer_changes@.len() && pre.signer_changes@[i].id != id
            ==> post.signer_changes@[i] == pre.signer_changes@[i]
}

/// Linear-scan membership test over the signer list; identifiers are
/// fixed-width, so direct equality suffices.
fn contains_signer(v: &Vec<SignerId>, x: &SignerId) -> (r: bool)
    ensures
        r == v@.contains(*x),
{
    let mut i: usize = 0;
    while i < v.len()
        invariant
            0 <= i <= v@.len(),
            forall|k: int| 0 <= k < i ==> v@[k] != *x,
        decreases v@.len() - i,
    {
        if v[i] == *x {
            assert(v@.contains(*x));
            return true;
        }
        i += 1;
    }
    assert(!v@.contains(*x));
    false
}

/// The position of `x` in the signer list, or `None` when `x` is no member.
fn find_signer(v: &Vec<SignerId>, x: &SignerId) -> (r: Option<usize>)
    ensures
        match r {
            Some(i) => i < v@.len() && v@[i as int] == *x,
            None => !v@.contains(*x),
        },
{
    let mut i: usize = 0;
    while i < v.len()
        invariant
            0 <= i <= v@.len(),
            forall|k: int| 0 <= k < i ==> v@[k] != *x,
        decreases v@.len() - i,
    {
        if v[i] == *x {
            return Some(i);
        }
        i += 1;
    }
    assert(!v@.contains(*x));
    None
}

/// The position of `x`'s approval in a transfer-proposal ledger, scanning in
/// insertion order, or `None` when `x` never approved.
fn find_approval(v: &Vec<ProposalApproval>, x: &SignerId) -> (r: Option<usize>)
    ensures
        match r {
            Some(k) => k < v@.len() && v@[k as int].signer == *x,
            None => !approvals_contain(v@, *x),
        },
{
    let mut i: usize = 0;
    while i < v.len()
        invariant
            0 <= i <= v@.len(),
            forall|k: int| 0 <= k < i ==> v@[k].signer != *x,
        decreases v@.len() - i,
    {
        if v[i].signer == *x {
            return Some(i);
        }
        i += 1;
    }
    None
}

/// The position of `x`'s approval in a signer-change ledger, or `None` when
/// `x` never approved.
fn find_change_approval(v: &Vec<SignerChangeApproval>, x: &SignerId) -> (r: Option<usize>)
    ensures
        match r {
            Some(k) => k < v@.len() && v@[k as int].signer == *x,
            None => !change_approvals_contain(v@, *x),
        },
{
    let mut i: usize = 0;
    while i < v.len()
        invariant
            0 <= i <= v@.len(),
            forall|k: int| 0 <= k < i ==> v@[k].signer != *x,
        decreases v@.len() - i,
    {
        if v[i].signer == *x {
            return Some(i);
        }
        i += 1;
    }
    None
}

impl MultiSigContract {
    /// The position of the transfer proposal carrying `id`, or `None` when no
    /// proposal does. Under `wf` the position is the unique one that the
    /// `proposal_idx` specification names.
    #[verifier::loop_isolation(false)]
    fn find_proposal(&self, id: u64) -> (r: Option<usize>)
        requires
            self.wf(),
        ensures
            match r {
                Some(i) => {
                    &&& i < self.proposals@.len()
                    &&& self.has_proposal(id)
                    &&& self.proposal_idx(id) == i as int
                },
                None => !self.has_proposal(id),
            },
    {
        let mut i: usize = 0;
        while i < self.proposals.len()
            invariant
                0 <= i <= self.proposals@.len(),
                forall|k: int| 0 <= k < i ==> self.proposals@[k].id != id,
            decreases self.proposals@.len() - i,
        {
            if self.proposals[i].id == id {
                proof {
                    assert(self.has_proposal(id));
                    let j = self.proposal_idx(id);
                    assert(0 <= j < self.proposals@.len() && self.proposals@[j].id == id);
                    assert(forall|a: int, b: int|
                        0 <= a < b < self.proposals@.len() ==> self.proposals@[a].id
                            != self.proposals@[b].id);
                    assert(j == i as int);
                }
                return Some(i);
            }
            i += 1;
        }
        None
    }

    /// The position of the signer-change proposal carrying `id`, or `None`
    /// when no proposal does.
    #[verifier::loop_isolation(false)]
    fn find_change(&self, id: u64) -> (r: Option<usize>)
        requires
            self.wf(),
        ensures
            match r {
                Some(i) => {
                    &&& i < self.signer_changes@.len()
                    &&& self.has_change(id)
                    &&& self.change_idx(id) == i as int
                },
                None => !self.has_change(id),
            },
    {
        let mut i: usize = 0;
        while i < self.signer_changes.len()
            invariant
                0 <= i <= self.signer_changes@.len(),
                forall|k: int| 0 <= k < i ==> self.signer_changes@[k].id != id,
            decreases self.signer_changes@.len() - i,
        {
            if self.signer_changes[i].id == id {
                proof {
                    assert(self.has_change(id));
                    let j = self.change_idx(id);
                    assert(0 <= j < self.signer_changes@.len() && self.signer_changes@[j].id == id);
                    assert(j == i as int);
                }
                return Some(i);
            }
            i += 1;
        }
        None
    }

    /// Sets up the registry: records the signer set and threshold and zeroes
    /// the transfer counter. The only writer of `initialized`; a second call
    /// always fails with `AlreadyInitialized`.
    #[verifier::loop_isolation(false)]
    pub fn initialize(&mut self, signers: Vec<SignerId>, threshold: u32) -> (r: Result<
        (),
        MultisigError,
    >)
        requires
            old(self).wf(),
            signers@.len() <= u32::MAX,
        ensures
            final(self).wf(),
            r == old(self).initialize_outcome(signers@, threshold),
            r is Err ==> *final(self) == *old(self),
            r is Ok ==> {
                &&& final(self).initialized
                &&& final(self).signers@ == signers@
                &&& final(self).threshold == threshold
                &&& final(self).nonce == 0
                &&& final(self).proposal_count == old(self).proposal_count
                &&& final(self).proposals == old(self).proposals
                &&& final(self).proposal_approvals == old(self).proposal_approvals
                &&& final(self).signer_changes == old(self).signer_changes
                &&& final(self).signer_change_approvals == old(self).signer_change_approvals
            },
    {
        if self.initialized {
            return Err(MultisigError::AlreadyInitialized);
        }
        if signers.len() == 0 {
            return Err(MultisigError::EmptySignersList);
        }
        if threshold == 0 {
            return Err(MultisigError::InvalidThreshold);
        }
        if threshold as u64 > signers.len() as u64 {
            return Err(MultisigError::ThresholdExceedsSigners);
        }
        let mut i: usize = 0;
        while i < signers.len()
            invariant
                0 <= i <= signers@.len(),
                forall|a: int, b: int| 0 <= a < b < signers@.len() && a < i ==> signers@[a] != signers@[b],
            decreases signers@.len() - i,
        {
            let mut j: usize = i + 1;
            while j < signers.len()
                invariant
                    0 <= i < j <= signers@.len(),
                    forall|b: int| i < b < j ==> signers@[i as int] != signers@[b],
                decreases signers@.len() - j,
            {
                if signers[i] == signers[j] {
                    assert(!seq_distinct(signers@));
                    return Err(MultisigError::DuplicateSigner);
                }
                j += 1;
            }
            i += 1;
        }
        assert(seq_distinct(signers@));
        self.initialized = true;
        self.signers = signers;
        self.threshold = threshold;
        self.nonce = 0;
        Ok(())
    }

    /// Creates a fund-release proposal and returns its id. The proposer must
    /// be a signer, the amount strictly positive, and the time to live within
    /// the accepted window; the proposal starts with an empty approval ledger
    /// and expires `expires_in_seconds` after `now`.
    pub fn create_proposal(
        &mut self,
        proposer: SignerId,
        token_address: Address,
        recipient: Address,
        amount: i128,
        reason: String,
        expires_in_seconds: u64,
        now: u64,
    ) -> (r: Result<u64, MultisigError>)
        requires
            old(self).wf(),
            old(self).proposal_count < u64::MAX,
            MIN_EXPIRY_SECONDS <= expires_in_seconds <= MAX_EXPIRY_SECONDS ==> now
                + expires_in_seconds <= u64::MAX,
        ensures
            final(self).wf(),
            r == old(self).create_outcome(proposer, amount, expires_in_seconds),
            r is Err ==> *final(self) == *old(self),
            r is Ok ==> create_post(
                *old(self),
                *final(self),
                proposer,
                token_address,
                recipient,
                amount,
                reason,
                expires_in_seconds,
                now,
            ),
    {
        if !self.initialized {
            return Err(MultisigError::NotInitialized);
        }
        if expires_in_seconds < MIN_EXPIRY_SECONDS {
            return Err(MultisigError::InvalidExpiryTime);
        }
        if expires_in_seconds > MAX_EXPIRY_SECONDS {
            return Err(MultisigError::InvalidExpiryTime);
        }
        if !contains_signer(&self.signers, &proposer) {
            return Err(MultisigError::UnknownSigner);
        }
        if amount <= 0 {
            return Err(MultisigError::InvalidProposal);
        }
        let proposal_id = self.proposal_count + 1;
        self.proposal_count = proposal_id;
        let proposal = Proposal {
            id: proposal_id,
            proposer,
            token_address,
            recipient,
            amount,
            reason,
            created_at: now,
            expires_at: now + expires_in_seconds,
            executed: false,
        };
        self.proposals.push(proposal);
        self.proposal_approvals.push(Vec::new());
        Ok(proposal_id)
    }

    /// Creates a signer-set change proposal and returns its id. Beyond the
    /// shared guards, an addition must name a non-member, and a removal must
    /// name a member whose departure keeps the threshold reachable with the
    /// count as it stands now.
    pub fn propose_signer_change(
        &mut self,
        proposer: SignerId,
        change_kind: ChangeKind,
        signer: SignerId,
        expires_in_seconds: u64,
        now: u64,
    ) -> (r: Result<u64, MultisigError>)
        requires
            old(self).wf(),
            old(self).proposal_count < u64::MAX,
            MIN_EXPIRY_SECONDS <= expires_in_seconds <= MAX_EXPIRY_SECONDS ==> now
                + expires_in_seconds <= u64::MAX,
        ensures
            final(self).wf(),
            r == old(self).propose_change_outcome(proposer, change_kind, signer, expires_in_seconds),
            r is Err ==> *final(self) == *old(self),
            r is Ok ==> propose_change_post(
                *old(self),
                *final(self),
                proposer,
                change_kind,
                signer,
                expires_in_seconds,
                now,
            ),
    {
        if !self.initialized {
            return Err(MultisigError::NotInitialized);
        }
        if expires_in_seconds < MIN_EXPIRY_SECONDS {
            return Err(MultisigError::InvalidExpiryTime);
        }
        if expires_in_seconds > MAX_EXPIRY_SECONDS {
            return Err(MultisigError::InvalidExpiryTime);
        }
        if !contains_signer(&self.signers, &proposer) {
            return Err(MultisigError::UnknownSigner);
        }
        let target_is_signer = contains_signer(&self.signers, &signer);
        match change_kind {
            ChangeKind::Add => {
                if target_is_signer {
                    return Err(MultisigError::DuplicateSigner);
                }
            },
            ChangeKind::Remove => {
                if !target_is_signer {
                    return Err(MultisigError::SignerNotFound);
                }
                assert(self.signers@.len() > 0);
                if self.signers.len() - 1 < self.threshold as usize {
                    return Err(MultisigError::ThresholdExceedsSigners);
                }
            },
        }
        let proposal_id = self.proposal_count + 1;
        self.proposal_count = proposal_id;
        let proposal = SignerChangeProposal {
            id: proposal_id,
            proposer,
            change_kind,
            signer,
            created_at: now,
            expires_at: now + expires_in_seconds,
            executed: false,
        };
        self.signer_changes.push(proposal);
        self.signer_change_approvals.push(Vec::new());
        Ok(proposal_id)
    }

    /// Records `approver`'s approval of a live transfer proposal: one entry
    /// per signer per proposal, timestamped `now`. Quorum is not checked
    /// here.
    pub fn approve_proposal(&mut self, proposal_id: u64, approver: SignerId, now: u64) -> (r:
        Result<(), MultisigError>)
        requires
            old(self).wf(),
        ensures
            final(self).wf(),
            r == old(self).approve_outcome(proposal_id, approver, now),
            r is Err ==> *final(self) == *old(self),
            r is Ok ==> approve_post(*old(self), *final(self), proposal_id, approver, now),
    {
        if !self.initialized {
            return Err(MultisigError::NotInitialized);
        }
        if !contains_signer(&self.signers, &approver) {
            return Err(MultisigError::UnknownSigner);
        }
        let idx = match self.find_proposal(proposal_id) {
            Some(i) => i,
            None => {
                return Err(MultisigError::ProposalNotFound);
            },
        };
        if self.proposals[idx].executed {
            return Err(MultisigError::ProposalAlreadyExecuted);
        }
        if now > self.proposals[idx].expires_at {
            return Err(MultisigError::ProposalExpired);
        }
        match find_approval(&self.proposal_approvals[idx], &approver) {
            Some(_) => {
                return Err(MultisigError::AlreadyApproved);
            },
            None => {},
        }
        let ghost pre = *self;
        let approval = ProposalApproval { signer: approver, approved_at: now };
        let mut ledger = self.proposal_approvals.remove(idx);
        ledger.push(approval);
        self.proposal_approvals.insert(idx, ledger);
        proof {
            assert(self.proposal_approvals@ =~= pre.proposal_approvals@.update(
                idx as int,
                self.proposal_approvals@[idx as int],
            ));
            assert(self.proposal_approvals@[idx as int]@.map_values(
                |a: ProposalApproval| a.signer,
            ) =~= pre.proposal_approvals@[idx as int]@.map_values(
                |a: ProposalApproval| a.signer,
            ).push(approver));
        }
        Ok(())
    }

    /// Withdraws `revoker`'s earlier approval of a transfer proposal. The
    /// remaining entries keep their insertion order. Expired proposals are
    /// not excluded: an approval can always be withdrawn until execution.
    pub fn revoke_approval(&mut self, proposal_id: u64, revoker: SignerId) -> (r: Result<
        (),
        MultisigError,
    >)
        requires
            old(self).wf(),
        ensures
            final(self).wf(),
            r == old(self).revoke_outcome(proposal_id, revoker),
            r is Err ==> *final(self) == *old(self),
            r is Ok ==> revoke_post(*old(self), *final(self), proposal_id, revoker),
    {
        if !self.initialized {
            return Err(MultisigError::NotInitialized);
        }
        if !contains_signer(&self.signers, &revoker) {
            return Err(MultisigError::UnknownSigner);
        }
        let idx = match self.find_proposal(proposal_id) {
            Some(i) => i,
            None => {
                return Err(MultisigError::ProposalNotFound);
            },
        };
        if self.proposals[idx].executed {
            return Err(MultisigError::ProposalAlreadyExecuted);
        }
        let at = match find_approval(&self.proposal_approvals[idx], &revoker) {
            Some(k) => k,
            None => {
                return Err(MultisigError::SignerNotFound);
            },
        };
        let ghost pre = *self;
        proof {
            let s = pre.spec_approvals(proposal_id);
            let j = approval_index(s, revoker);
            assert(approvals_contain(s, revoker));
            assert(0 <= j < s.len() && s[j].signer == revoker);
            let m = s.map_values(|a: ProposalApproval| a.signer);
            assert(m[j] == revoker && m[at as int] == revoker);
            assert(j == at as int);
        }
        let mut ledger = self.proposal_approvals.remove(idx);
        ledger.remove(at);
        self.proposal_approvals.insert(idx, ledger);
        proof {
            assert(self.proposal_approvals@ =~= pre.proposal_approvals@.update(
                idx as int,
                self.proposal_approvals@[idx as int],
            ));
            assert(self.proposal_approvals@[idx as int]@.map_values(
                |a: ProposalApproval| a.signer,
            ) =~= pre.proposal_approvals@[idx as int]@.map_values(
                |a: ProposalApproval| a.signer,
            ).remove(at as int));
            lemma_seq_distinct_remove(
                pre.proposal_approvals@[idx as int]@.map_values(|a: ProposalApproval| a.signer),
                at as int,
            );
        }
        Ok(())
    }

    /// Records `approver`'s approval of a live signer-change proposal. The
    /// signer-change ledger is independent of the transfer ledger, and offers
    /// no revocation.
    pub fn approve_signer_change(&mut self, proposal_id: u64, approver: SignerId, now: u64) -> (r:
        Result<(), MultisigError>)
        requires
            old(self).wf(),
        ensures
            final(self).wf(),
            r == old(self).approve_change_outcome(proposal_id, approver, now),
            r is Err ==> *final(self) == *old(self),
            r is Ok ==> approve_change_post(*old(self), *final(self), proposal_id, approver, now),
    {
        if !self.initialized {
            return Err(MultisigError::NotInitialized);
        }
        if !contains_signer(&self.signers, &approver) {
            return Err(MultisigError::UnknownSigner);
        }
        let idx = match self.find_change(proposal_id) {
            Some(i) => i,
            None => {
                return Err(MultisigError::SignerChangeNotFound);
            },
        };
        if self.signer_changes[idx].executed {
            return Err(MultisigError::SignerChangeAlreadyExecuted);
        }
        if now > self.signer_changes[idx].expires_at {
            return Err(MultisigError::SignerChangeExpired);
        }
        match find_change_approval(&self.signer_change_approvals[idx], &approver) {
            Some(_) => {
                return Err(MultisigError::SignerChangeAlreadyApproved);
            },
            None => {},
        }
        let ghost pre = *self;
        let approval = SignerChangeApproval { signer: approver, approved_at: now };
        let mut ledger = self.signer_change_approvals.remove(idx);
        ledger.push(approval);
        self.signer_change_approvals.insert(idx, ledger);
        proof {
            assert(self.signer_change_approvals@ =~= pre.signer_change_approvals@.update(
                idx as int,
                self.signer_change_approvals@[idx as int],
            ));
            assert(self.signer_change_approvals@[idx as int]@.map_values(
                |a: SignerChangeApproval| a.signer,
            ) =~= pre.signer_change_approvals@[idx as int]@.map_values(
                |a: SignerChangeApproval| a.signer,
            ).push(approver));
        }
        Ok(())
    }

    /// Executes a transfer proposal that has reached quorum: compares the
    /// approval count against the threshold as it stands now, marks the
    /// proposal executed, advances the replay counter, and returns the
    /// transfer the host must perform within the same atomic call.
    pub fn execute_proposal(&mut self, proposal_id: u64, now: u64) -> (r: Result<
        TransferAction,
        MultisigError,
    >)
        requires
            old(self).wf(),
            old(self).nonce < u64::MAX,
        ensures
            final(self).wf(),
            r == old(self).execute_outcome(proposal_id, now),
            r is Err ==> *final(self) == *old(self),
            r is Ok ==> execute_post(*old(self), *final(self), proposal_id),
    {
        if !self.initialized {
            return Err(MultisigError::NotInitialized);
        }
        let idx = match self.find_proposal(proposal_id) {
            Some(i) => i,
            None => {
                return Err(MultisigError::ProposalNotFound);
            },
        };
        if self.proposals[idx].executed {
            return Err(MultisigError::ProposalAlreadyExecuted);
        }
        if now > self.proposals[idx].expires_at {
            return Err(MultisigError::ProposalExpired);
        }
        if (self.proposal_approvals[idx].len() as u64) < (self.threshold as u64) {
            return Err(MultisigError::InsufficientApprovals);
        }
        let ghost pre = *self;
        let action = TransferAction {
            token_address: self.proposals[idx].token_address,
            recipient: self.proposals[idx].recipient,
            amount: self.proposals[idx].amount,
        };
        let mut executed_proposal = self.proposals.remove(idx);
        executed_proposal.executed = true;
        self.proposals.insert(idx, executed_proposal);
        self.nonce = self.nonce + 1;
        proof {
            assert(self.proposals@ =~= pre.proposals@.update(
                idx as int,
                self.proposals@[idx as int],
            ));
            let j = self.proposal_idx(proposal_id);
            assert(self.proposals@[idx as int].id == proposal_id);
            assert(self.has_proposal(proposal_id));
            assert(0 <= j < self.proposals@.len() && self.proposals@[j].id == proposal_id);
            assert(j == idx as int);
        }
        Ok(action)
    }

    /// Executes a signer-change proposal that has reached quorum: re-checks
    /// the membership and threshold-safety guards against the registry as it
    /// stands now, applies the addition or removal, and marks the change
    /// executed. The transfer replay counter is untouched.
    pub fn execute_signer_change(&mut self, proposal_id: u64, now: u64) -> (r: Result<
        (),
        MultisigError,
    >)
        requires
            old(self).wf(),
            old(self).signers@.len() < u32::MAX,
        ensures
            final(self).wf(),
            r == old(self).execute_change_outcome(proposal_id, now),
            r is Err ==> *final(self) == *old(self),
            r is Ok ==> execute_change_post(*old(self), *final(self), proposal_id),
    {
        if !self.initialized {
            return Err(MultisigError::NotInitialized);
        }
        let idx = match self.find_change(proposal_id) {
            Some(i) => i,
            None => {
                return Err(MultisigError::SignerChangeNotFound);
            },
        };
        if self.signer_changes[idx].executed {
            return Err(MultisigError::SignerChangeAlreadyExecuted);
        }
        if now > self.signer_changes[idx].expires_at {
            return Err(MultisigError::SignerChangeExpired);
        }
        if (self.signer_change_approvals[idx].len() as u64) < (self.threshold as u64) {
            return Err(MultisigError::InsufficientSignerChangeApprovals);
        }
        let ghost pre = *self;
        let target = self.signer_changes[idx].signer;
        match self.signer_changes[idx].change_kind {
            ChangeKind::Add => {
                if contains_signer(&self.signers, &target) {
                    return Err(MultisigError::DuplicateSigner);
                }
                self.signers.push(target);
            },
            ChangeKind::Remove => {
                let at = match find_signer(&self.signers, &target) {
                    Some(k) => k,
                    None => {
                        return Err(MultisigError::SignerNotFound);
                    },
                };
                assert(self.signers@.len() > 0);
                if self.signers.len() - 1 < self.threshold as usize {
                    return Err(MultisigError::ThresholdExceedsSigners);
                }
                proof {
                    let j = signer_index(pre.signers@, target);
                    assert(pre.signers@.contains(target));
                    assert(0 <= j < pre.signers@.len() && pre.signers@[j] == target);
                    assert(j == at as int);
                }
                self.signers.remove(at);
                proof {
                    lemma_seq_distinct_remove(pre.signers@, at as int);
                }
            },
        }
        let mut executed_change = self.signer_changes.remove(idx);
        executed_change.executed = true;
        self.signer_changes.insert(idx, executed_change);
        proof {
            assert(self.signer_changes@ =~= pre.signer_changes@.update(
                idx as int,
                self.signer_changes@[idx as int],
            ));
            let j = self.change_idx(proposal_id);
            assert(self.signer_changes@[idx as int].id == proposal_id);
            assert(self.has_change(proposal_id));
            assert(0 <= j < self.signer_changes@.len() && self.signer_changes@[j].id
                == proposal_id);
            assert(j == idx as int);
        }
        Ok(())
    }

    /// The approval threshold; readable once initialized.
    pub fn threshold(&self) -> (r: Result<u32, MultisigError>)
        ensures
            r == if self.initialized {
                Ok::<u32, MultisigError>(self.threshold)
            } else {
                Err::<u32, MultisigError>(MultisigError::NotInitialized)
            },
    {
        if !self.initialized {
            return Err(MultisigError::NotInitialized);
        }
        Ok(self.threshold)
    }

    /// How many signers the registry holds; readable once initialized.
    pub fn signer_count(&self) -> (r: Result<u32, MultisigError>)
        requires
            self.wf(),
        ensures
            r == if self.initialized {
                Ok::<u32, MultisigError>(self.signers@.len() as u32)
            } else {
                Err::<u32, MultisigError>(MultisigError::NotInitialized)
            },
    {
        if !self.initialized {
            return Err(MultisigError::NotInitialized);
        }
        Ok(self.signers.len() as u32)
    }

    /// The transfer replay counter; readable once initialized.
    pub fn nonce(&self) -> (r: Result<u64, MultisigError>)
        ensures
            r == if self.initialized {
                Ok::<u64, MultisigError>(self.nonce)
            } else {
                Err::<u64, MultisigError>(MultisigError::NotInitialized)
            },
    {
        if !self.initialized {
            return Err(MultisigError::NotInitialized);
        }
        Ok(self.nonce)
    }

    /// Whether `signer` is an authorized member; readable once initialized.
    pub fn is_signer(&self, signer: &SignerId) -> (r: Result<bool, MultisigError>)
        ensures
            r == if self.initialized {
                Ok::<bool, MultisigError>(self.spec_is_signer(*signer))
            } else {
                Err::<bool, MultisigError>(MultisigError::NotInitialized)
            },
    {
        if !self.initialized {
            return Err(MultisigError::NotInitialized);
        }
        Ok(contains_signer(&self.signers, signer))
    }

    /// The stored transfer proposal carrying `proposal_id`.
    pub fn get_proposal(&self, proposal_id: u64) -> (r: Result<&Proposal, MultisigError>)
        requires
            self.wf(),
        ensures
            match r {
                Ok(p) => self.initialized && self.has_proposal(proposal_id) && *p
                    == self.spec_proposal(proposal_id),
                Err(e) => {
                    ||| !self.initialized && e == MultisigError::NotInitialized
                    ||| self.initialized && !self.has_proposal(proposal_id) && e
                        == MultisigError::ProposalNotFound
                },
            },
    {
        if !self.initialized {
            return Err(MultisigError::NotInitialized);
        }
        match self.find_proposal(proposal_id) {
            Some(i) => Ok(&self.proposals[i]),
            None => Err(MultisigError::ProposalNotFound),
        }
    }

    /// A copy of the approval ledger of the transfer proposal carrying
    /// `proposal_id`, in insertion order; empty when no such proposal exists.
    pub fn get_proposal_approvals(&self, proposal_id: u64) -> (r: Result<
        Vec<ProposalApproval>,
        MultisigError,
    >)
        requires
            self.wf(),
        ensures
            match r {
                Ok(v) => self.initialized && v@ == if self.has_proposal(proposal_id) {
                    self.spec_approvals(proposal_id)
                } else {
                    Seq::<ProposalApproval>::empty()
                },
                Err(e) => !self.initialized && e == MultisigError::NotInitialized,
            },
    {
        if !self.initialized {
            return Err(MultisigError::NotInitialized);
        }
        let mut out: Vec<ProposalApproval> = Vec::new();
        let idx = match self.find_proposal(proposal_id) {
            Some(i) => i,
            None => {
                assert(out@ =~= Seq::<ProposalApproval>::empty());
                return Ok(out);
            },
        };
        let ledger = &self.proposal_approvals[idx];
        let mut k: usize = 0;
        while k < ledger.len()
            invariant
                0 <= k <= ledger@.len(),
                out@.len() == k,
                forall|m: int| 0 <= m < k ==> out@[m] == ledger@[m],
            decreases ledger@.len() - k,
        {
            out.push(ledger[k]);
            k += 1;
        }
        assert(out@ =~= ledger@);
        Ok(out)
    }

    /// Whether the transfer proposal carrying `proposal_id` has been
    /// executed; `false` when no such proposal exists.
    pub fn is_proposal_executed(&self, proposal_id: u64) -> (r: Result<bool, MultisigError>)
        requires
            self.wf(),
        ensures
            r == if self.initialized {
                Ok::<bool, MultisigError>(
                    self.has_proposal(proposal_id) && self.spec_proposal(proposal_id).executed,
                )
            } else {
                Err::<bool, MultisigError>(MultisigError::NotInitialized)
            },
    {
        if !self.initialized {
            return Err(MultisigError::NotInitialized);
        }
        match self.find_proposal(proposal_id) {
            Some(i) => Ok(self.proposals[i].executed),
            None => Ok(false),
        }
    }

    /// The stored signer-change proposal carrying `proposal_id`.
    pub fn get_signer_change_proposal(&self, proposal_id: u64) -> (r: Result<
        &SignerChangeProposal,
        MultisigError,
    >)
        requires
            self.wf(),
        ensures
            match r {
                Ok(p) => self.initialized && self.has_change(proposal_id) && *p
                    == self.spec_change(proposal_id),
                Err(e) => {
                    ||| !self.initialized && e == MultisigError::NotInitialized
                    ||| self.initialized && !self.has_change(proposal_id) && e
                        == MultisigError::SignerChangeNotFound
                },
            },
    {
        if !self.initialized {
            return Err(MultisigError::NotInitialized);
        }
        match self.find_change(proposal_id) {
            Some(i) => Ok(&self.signer_changes[i]),
            None => Err(MultisigError::SignerChangeNotFound),
        }
    }

    /// A copy of the approval ledger of the signer-change proposal carrying
    /// `proposal_id`, in insertion order; empty when no such proposal exists.
    pub fn get_signer_change_approvals(&self, proposal_id: u64) -> (r: Result<
        Vec<SignerChangeApproval>,
        MultisigError,
    >)
        requires
            self.wf(),
        ensures
            match r {
                Ok(v) => self.initialized && v@ == if self.has_change(proposal_id) {
                    self.spec_change_approvals(proposal_id)
                } else {
                    Seq::<SignerChangeApproval>::empty()
                },
                Err(e) => !self.initialized && e == MultisigError::NotInitialized,
            },
    {
        if !self.initialized {
            return Err(MultisigError::NotInitialized);
        }
        let mut out: Vec<SignerChangeApproval> = Vec::new();
        let idx = match self.find_change(proposal_id) {
            Some(i) => i,
            None => {
                assert(out@ =~= Seq::<SignerChangeApproval>::empty());
                return Ok(out);
            },
        };
        let ledger = &self.signer_change_approvals[idx];
        let mut k: usize = 0;
        while k < ledger.len()
            invariant
                0 <= k <= ledger@.len(),
                out@.len() == k,
                forall|m: int| 0 <= m < k ==> out@[m] == ledger@[m],
            decreases ledger@.len() - k,
        {
            out.push(ledger[k]);
            k += 1;
        }
        assert(out@ =~= ledger@);
        Ok(out)
    }

    /// Whether the signer-change proposal carrying `proposal_id` has been
    /// executed; `false` when no such proposal exists.
    pub fn is_signer_change_executed(&self, proposal_id: u64) -> (r: Result<bool, MultisigError>)
        requires
            self.wf(),
        ensures
            r == if self.initialized {
                Ok::<bool, MultisigError>(
                    self.has_change(proposal_id) && self.spec_change(proposal_id).executed,
                )
            } else {
                Err::<bool, MultisigError>(MultisigError::NotInitialized)
            },
    {
        if !self.initialized {
            return Err(MultisigError::NotInitialized);
        }
        match self.find_change(proposal_id) {
            Some(i) => Ok(self.signer_changes[i].executed),
            None => Ok(false),
        }
    }

    /// The id most recently handed out to a proposal of either kind;
    /// readable once initialized.
    pub fn get_proposal_count(&self) -> (r: Result<u64, MultisigError>)
        ensures
            r == if self.initialized {
                Ok::<u64, MultisigError>(self.proposal_count)
            } else {
                Err::<u64, MultisigError>(MultisigError::NotInitialized)
            },
    {
        if !self.initialized {
            return Err(MultisigError::NotInitialized);
        }
        Ok(self.proposal_count)
    }
}

} // verus!
