//! The engine's governance laws, stated over the outcome and post-state
//! specifications of [`crate::multisig`] and proved once for all inputs.

use vstd::prelude::*;

use crate::errors::MultisigError;
use crate::multisig::{
    approve_change_post, approve_post, approvals_contain, change_approvals_contain, create_post,
    execute_post, execute_change_post, propose_change_post, seq_distinct, MultiSigContract,
    MAX_EXPIRY_SECONDS, MIN_EXPIRY_SECONDS,
};
use crate::types::{Address, ChangeKind, SignerId, TransferAction};

verus! {

/// A valid configuration -- threshold between one and the signer count, no
/// duplicate entries -- initializes an uninitialized registry successfully,
/// and every initialized registry rejects every further `initialize` call
/// with `AlreadyInitialized`, whatever it is handed.
pub proof fn lemma_initialize_exactly_once(
    pre: MultiSigContract,
    post: MultiSigContract,
    signers: Seq<SignerId>,
    threshold: u32,
    signers2: Seq<SignerId>,
    threshold2: u32,
)
    requires
        !pre.initialized,
        1 <= threshold <= signers.len(),
        seq_distinct(signers),
        post.initialized,
    ensures
        pre.initialize_outcome(signers, threshold) == Ok::<(), MultisigError>(()),
        post.initialize_outcome(signers2, threshold2) == Err::<(), MultisigError>(
            MultisigError::AlreadyInitialized,
        ),
{
}

/// Approval is idempotent-rejecting: once a signer's approval of a transfer
/// proposal is recorded, the same signer approving again is turned away with
/// `AlreadyApproved` for as long as the proposal lives.
pub proof fn lemma_approve_idempotent_rejecting(
    pre: MultiSigContract,
    post: MultiSigContract,
    id: u64,
    approver: SignerId,
    now: u64,
    now2: u64,
)
    requires
        pre.wf(),
        pre.approve_outcome(id, approver, now) == Ok::<(), MultisigError>(()),
        approve_post(pre, post, id, approver, now),
        now2 <= pre.spec_proposal(id).expires_at,
    ensures
        post.approve_outcome(id, approver, now2) == Err::<(), MultisigError>(
            MultisigError::AlreadyApproved,
        ),
{
    let s = post.spec_approvals(id);
    assert(s[s.len() - 1].signer == approver);
    assert(approvals_contain(s, approver));
}

/// The signer-change ledger rejects duplicates the same way: after a
/// recorded approval, the same signer approving the same change again is
/// turned away with `SignerChangeAlreadyApproved`.
pub proof fn lemma_approve_change_idempotent_rejecting(
    pre: MultiSigContract,
    post: MultiSigContract,
    id: u64,
    approver: SignerId,
    now: u64,
    now2: u64,
)
    requires
        pre.wf(),
        pre.approve_change_outcome(id, approver, now) == Ok::<(), MultisigError>(()),
        approve_change_post(pre, post, id, approver, now),
        now2 <= pre.spec_change(id).expires_at,
    ensures
        post.approve_change_outcome(id, approver, now2) == Err::<(), MultisigError>(
            MultisigError::SignerChangeAlreadyApproved,
        ),
{
    let s = post.spec_change_approvals(id);
    assert(s[s.len() - 1].signer == approver);
    assert(change_approvals_contain(s, approver));
}

/// A proposal's approval count never exceeds the signer count, as long as
/// every recorded approver is still an authorized signer: the ledger holds
/// at most one entry per signer.
pub proof fn lemma_approval_count_bounded(s: MultiSigContract, id: u64)
    requires
        s.wf(),
        s.has_proposal(id),
        forall|k: int|
            0 <= k < s.spec_approvals(id).len() ==> s.signers@.contains(
                #[trigger] s.spec_approvals(id)[k].signer,
            ),
    ensures
        s.spec_approvals(id).len() <= s.signers@.len(),
{
    broadcast use vstd::seq_lib::seq_to_set_is_finite;

    let approvers = s.spec_approvals(id).map_values(|a: crate::types::ProposalApproval| a.signer);
    assert(seq_distinct(approvers));
    assert(approvers.no_duplicates());
    approvers.unique_seq_to_set();
    assert(s.signers@.no_duplicates());
    s.signers@.unique_seq_to_set();
    assert forall|x: SignerId| approvers.to_set().contains(x) implies s.signers@.to_set().contains(
        x,
    ) by {
        let k = choose|k: int| 0 <= k < approvers.len() && approvers[k] == x;
        assert(s.spec_approvals(id)[k].signer == x);
    }
    vstd::set_lib::lemma_len_subset(approvers.to_set(), s.signers@.to_set());
}

/// Quorum is exact-threshold, read at execution time: one approval short of
/// the threshold always fails with `InsufficientApprovals`, and reaching the
/// threshold always executes a live, unexecuted transfer proposal.
pub proof fn lemma_quorum_exact_threshold(s: MultiSigContract, id: u64, now: u64)
    requires
        s.wf(),
        s.initialized,
        s.has_proposal(id),
        !s.spec_proposal(id).executed,
        now <= s.spec_proposal(id).expires_at,
    ensures
        s.spec_approvals(id).len() == s.threshold - 1 ==> s.execute_outcome(id, now)
            == Err::<TransferAction, MultisigError>(MultisigError::InsufficientApprovals),
        s.spec_approvals(id).len() >= s.threshold ==> s.execute_outcome(id, now)
            == Ok::<TransferAction, MultisigError>(
            (TransferAction {
                token_address: s.spec_proposal(id).token_address,
                recipient: s.spec_proposal(id).recipient,
                amount: s.spec_proposal(id).amount,
            }),
        ),
        s.has_change(id) && !s.spec_change(id).executed && now <= s.spec_change(id).expires_at
            && s.spec_change_approvals(id).len() == s.threshold - 1 ==> s.execute_change_outcome(
            id,
            now,
        ) == Err::<(), MultisigError>(MultisigError::InsufficientSignerChangeApprovals),
{
}

/// Expiry is permanent for a transfer proposal: at any time past its
/// `expires_at`, approval and execution both fail -- with `ProposalExpired`
/// itself whenever no earlier guard claims the call first. No operation of
/// the engine rewrites `expires_at`, so the proposal never un-expires.
pub proof fn lemma_expiry_permanent(
    s: MultiSigContract,
    id: u64,
    approver: SignerId,
    now: u64,
    later: u64,
)
    requires
        s.wf(),
        s.initialized,
        s.has_proposal(id),
        now > s.spec_proposal(id).expires_at,
        later >= now,
    ensures
        s.approve_outcome(id, approver, later) is Err,
        s.execute_outcome(id, later) is Err,
        s.spec_is_signer(approver) && !s.spec_proposal(id).executed ==> s.approve_outcome(
            id,
            approver,
            later,
        ) == Err::<(), MultisigError>(MultisigError::ProposalExpired),
        !s.spec_proposal(id).executed ==> s.execute_outcome(id, later) == Err::<
            TransferAction,
            MultisigError,
        >(MultisigError::ProposalExpired),
{
}

/// Expiry is permanent for a signer-change proposal in the same way.
pub proof fn lemma_change_expiry_permanent(
    s: MultiSigContract,
    id: u64,
    approver: SignerId,
    now: u64,
    later: u64,
)
    requires
        s.wf(),
        s.initialized,
        s.has_change(id),
        now > s.spec_change(id).expires_at,
        later >= now,
    ensures
        s.approve_change_outcome(id, approver, later) is Err,
        s.execute_change_outcome(id, later) is Err,
        s.spec_is_signer(approver) && !s.spec_change(id).executed ==> s.approve_change_outcome(
            id,
            approver,
            later,
        ) == Err::<(), MultisigError>(MultisigError::SignerChangeExpired),
        !s.spec_change(id).executed ==> s.execute_change_outcome(id, later) == Err::<
            (),
            MultisigError,
        >(MultisigError::SignerChangeExpired),
{
}

/// Execution is exactly-once: after a successful `execute_proposal`, the
/// replay counter advanced by exactly one, and every further execution of
/// the same id fails with `ProposalAlreadyExecuted`, whatever the clock
/// says -- so no transfer is authorized twice.
pub proof fn lemma_execute_exactly_once(
    pre: MultiSigContract,
    post: MultiSigContract,
    id: u64,
    now: u64,
    now2: u64,
)
    requires
        pre.wf(),
        pre.execute_outcome(id, now) is Ok,
        execute_post(pre, post, id),
    ensures
        post.execute_outcome(id, now2) == Err::<TransferAction, MultisigError>(
            MultisigError::ProposalAlreadyExecuted,
        ),
        post.nonce == pre.nonce + 1,
{
}

/// Executing a signer-change proposal is exactly-once in the same way, and
/// never advances the transfer replay counter: a further execution of the
/// same id fails before it could touch the registry again.
pub proof fn lemma_execute_change_exactly_once(
    pre: MultiSigContract,
    post: MultiSigContract,
    id: u64,
    now: u64,
    now2: u64,
)
    requires
        pre.wf(),
        pre.execute_change_outcome(id, now) is Ok,
        execute_change_post(pre, post, id),
    ensures
        post.execute_change_outcome(id, now2) == Err::<(), MultisigError>(
            MultisigError::SignerChangeAlreadyExecuted,
        ),
        post.nonce == pre.nonce,
{
}

/// A removal is rejected with `ThresholdExceedsSigners` exactly when the
/// remaining count would fall below the threshold, and an addition is never
/// rejected for that reason -- neither at proposal time nor at execution
/// time.
pub proof fn lemma_remove_respects_threshold(
    s: MultiSigContract,
    proposer: SignerId,
    target: SignerId,
    ttl: u64,
    id: u64,
    now: u64,
)
    requires
        s.wf(),
    ensures
        s.initialized && MIN_EXPIRY_SECONDS <= ttl <= MAX_EXPIRY_SECONDS && s.spec_is_signer(
            proposer,
        ) && s.spec_is_signer(target) && s.signers@.len() as int - 1 < s.threshold as int
            ==> s.propose_change_outcome(proposer, ChangeKind::Remove, target, ttl) == Err::<
            u64,
            MultisigError,
        >(MultisigError::ThresholdExceedsSigners),
        s.propose_change_outcome(proposer, ChangeKind::Add, target, ttl) != Err::<
            u64,
            MultisigError,
        >(MultisigError::ThresholdExceedsSigners),
        s.has_change(id) && s.spec_change(id).change_kind == ChangeKind::Add
            ==> s.execute_change_outcome(id, now) != Err::<(), MultisigError>(
            MultisigError::ThresholdExceedsSigners,
        ),
{
}

/// Creating a new transfer proposal leaves every existing proposal's record
/// and ledger exactly as they were: fresh ids never collide with stored
/// ones, so in particular an expired proposal stays expired.
pub proof fn lemma_create_preserves_existing(
    pre: MultiSigContract,
    post: MultiSigContract,
    proposer: SignerId,
    token_address: Address,
    recipient: Address,
    amount: i128,
    reason: String,
    ttl: u64,
    now: u64,
    id: u64,
)
    requires
        pre.wf(),
        pre.proposal_count < u64::MAX,
        create_post(pre, post, proposer, token_address, recipient, amount, reason, ttl, now),
        pre.has_proposal(id),
    ensures
        post.has_proposal(id),
        post.spec_proposal(id) == pre.spec_proposal(id),
        post.spec_approvals(id) == pre.spec_approvals(id),
{
    let i = pre.proposal_idx(id);
    assert(0 <= i < pre.proposals@.len() && pre.proposals@[i].id == id);
    assert(post.proposals@[i].id == id);
    assert(post.has_proposal(id));
    let j = post.proposal_idx(id);
    assert(0 <= j < post.proposals@.len() && post.proposals@[j].id == id);
    // The appended proposal carries a fresh id, larger than every stored one.
    assert(j != pre.proposals@.len() as int);
    assert(j == i);
}

/// The same stability for the signer-change store: a new signer-change
/// proposal disturbs no existing one.
pub proof fn lemma_propose_change_preserves_existing(
    pre: MultiSigContract,
    post: MultiSigContract,
    proposer: SignerId,
    change_kind: ChangeKind,
    target: SignerId,
    ttl: u64,
    now: u64,
    id: u64,
)
    requires
        pre.wf(),
        pre.proposal_count < u64::MAX,
        propose_change_post(pre, post, proposer, change_kind, target, ttl, now),
        pre.has_change(id),
    ensures
        post.has_change(id),
        post.spec_change(id) == pre.spec_change(id),
        post.spec_change_approvals(id) == pre.spec_change_approvals(id),
{
    let i = pre.change_idx(id);
    assert(0 <= i < pre.signer_changes@.len() && pre.signer_changes@[i].id == id);
    assert(post.signer_changes@[i].id == id);
    assert(post.has_change(id));
    let j = post.change_idx(id);
    assert(0 <= j < post.signer_changes@.len() && post.signer_changes@[j].id == id);
    assert(j != pre.signer_changes@.len() as int);
    assert(j == i);
}

/// Executing one transfer proposal leaves every other proposal's record and
/// ledger untouched: together with the unchanged-state clauses of the other
/// operations, a proposal's `expires_at` is never rewritten, so expiry is
/// permanent across the whole life of the engine.
pub proof fn lemma_execute_preserves_others(
    pre: MultiSigContract,
    post: MultiSigContract,
    executed_id: u64,
    now: u64,
    id: u64,
)
    requires
        pre.wf(),
        pre.execute_outcome(executed_id, now) is Ok,
        execute_post(pre, post, executed_id),
        pre.has_proposal(id),
        id != executed_id,
    ensures
        post.has_proposal(id),
        post.spec_proposal(id) == pre.spec_proposal(id),
        post.spec_approvals(id) == pre.spec_approvals(id),
{
    let i = pre.proposal_idx(id);
    assert(0 <= i < pre.proposals@.len() && pre.proposals@[i].id == id);
    assert(post.proposals@[i] == pre.proposals@[i]);
    assert(post.has_proposal(id));
    let j = post.proposal_idx(id);
    assert(0 <= j < post.proposals@.len() && post.proposals@[j].id == id);
    let e = pre.proposal_idx(executed_id);
    assert(0 <= e < pre.proposals@.len() && pre.proposals@[e].id == executed_id);
    assert(post.spec_proposal(executed_id).id == executed_id);
    let je = post.proposal_idx(executed_id);
    assert(forall|k: int|
        0 <= k < post.proposals@.len() && k != je ==> post.proposals@[k] == pre.proposals@[k]);
    assert(j == i);
}

/// Executing one signer-change proposal leaves every other change's record
/// and ledger untouched in the same way.
pub proof fn lemma_execute_change_preserves_others(
    pre: MultiSigContract,
    post: MultiSigContract,
    executed_id: u64,
    now: u64,
    id: u64,
)
    requires
        pre.wf(),
        pre.execute_change_outcome(executed_id, now) is Ok,
        execute_change_post(pre, post, executed_id),
        pre.has_change(id),
        id != executed_id,
    ensures
        post.has_change(id),
        post.spec_change(id) == pre.spec_change(id),
        post.spec_change_approvals(id) == pre.spec_change_approvals(id),
{
    let i = pre.change_idx(id);
    assert(0 <= i < pre.signer_changes@.len() && pre.signer_changes@[i].id == id);
    assert(post.signer_changes@[i] == pre.signer_changes@[i]);
    assert(post.has_change(id));
    let j = post.change_idx(id);
    assert(0 <= j < post.signer_changes@.len() && post.signer_changes@[j].id == id);
    let e = pre.change_idx(executed_id);
    assert(0 <= e < pre.signer_changes@.len() && pre.signer_changes@[e].id == executed_id);
    assert(post.spec_change(executed_id).id == executed_id);
    let je = post.change_idx(executed_id);
    assert(forall|k: int|
        0 <= k < post.signer_changes@.len() && k != je ==> post.signer_changes@[k]
            == pre.signer_changes@[k]);
    assert(j == i);
}

} // verus!

