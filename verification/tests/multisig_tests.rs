use multisig::errors::MultisigError;
use multisig::multisig::MultiSigContract;
use multisig::types::{Address, ChangeKind, SignerId};

// Deterministic test keys: signer #i carries i in its first byte.
fn create_test_signers(count: u32) -> Vec<SignerId> {
    let mut signers = Vec::new();
    for i in 0..count {
        let mut key_bytes = [0u8; 32];
        key_bytes[0] = i as u8;
        signers.push(SignerId::new(key_bytes));
    }
    signers
}

fn test_address(tag: u8) -> Address {
    Address::new([tag; 32])
}

fn initialized(count: u32, threshold: u32) -> (MultiSigContract, Vec<SignerId>) {
    let mut m = MultiSigContract::new();
    let signers = create_test_signers(count);
    m.initialize(signers.clone(), threshold).unwrap();
    (m, signers)
}

#[test]
fn test_initialize_success() {
    let (m, _signers) = initialized(3, 2);

    assert_eq!(m.threshold(), Ok(2));
    assert_eq!(m.signer_count(), Ok(3));
    assert_eq!(m.nonce(), Ok(0));
}

#[test]
fn test_initialize_zero_threshold() {
    let mut m = MultiSigContract::new();
    let signers = create_test_signers(3);
    assert_eq!(m.initialize(signers, 0), Err(MultisigError::InvalidThreshold));
}

#[test]
fn test_initialize_threshold_exceeds_signers() {
    let mut m = MultiSigContract::new();
    let signers = create_test_signers(3);
    assert_eq!(m.initialize(signers, 5), Err(MultisigError::ThresholdExceedsSigners));
}

#[test]
fn test_initialize_empty_signers() {
    let mut m = MultiSigContract::new();
    let empty_signers = Vec::new();
    assert_eq!(m.initialize(empty_signers, 1), Err(MultisigError::EmptySignersList));
}

#[test]
fn test_add_signer() {
    let (mut m, signers) = initialized(2, 2);

    let new_signer = SignerId::new([99u8; 32]);
    let proposal_id = m
        .propose_signer_change(signers[0], ChangeKind::Add, new_signer, 3600, 0)
        .unwrap();

    assert_eq!(proposal_id, 1);

    let proposal = m.get_signer_change_proposal(proposal_id).unwrap();
    assert_eq!(proposal.change_kind, ChangeKind::Add);
    assert_eq!(proposal.signer, new_signer);
}

#[test]
fn test_remove_signer() {
    let (mut m, signers) = initialized(3, 2);

    let signer_to_remove = signers[2];
    let proposal_id = m
        .propose_signer_change(signers[0], ChangeKind::Remove, signer_to_remove, 3600, 0)
        .unwrap();

    assert_eq!(proposal_id, 1);

    let proposal = m.get_signer_change_proposal(proposal_id).unwrap();
    assert_eq!(proposal.change_kind, ChangeKind::Remove);
    assert_eq!(proposal.signer, signer_to_remove);
}

#[test]
fn test_approve_signer_change_success() {
    let (mut m, signers) = initialized(3, 2);

    let new_signer = SignerId::new([99u8; 32]);
    let proposal_id = m
        .propose_signer_change(signers[0], ChangeKind::Add, new_signer, 3600, 0)
        .unwrap();

    m.approve_signer_change(proposal_id, signers[1], 0).unwrap();

    let approvals = m.get_signer_change_approvals(proposal_id).unwrap();
    assert_eq!(approvals.len(), 1);
    assert_eq!(approvals[0].signer, signers[1]);
}

#[test]
fn test_approve_signer_change_twice() {
    let (mut m, signers) = initialized(3, 2);

    let new_signer = SignerId::new([99u8; 32]);
    let proposal_id = m
        .propose_signer_change(signers[0], ChangeKind::Add, new_signer, 3600, 0)
        .unwrap();

    m.approve_signer_change(proposal_id, signers[1], 0).unwrap();

    assert_eq!(
        m.approve_signer_change(proposal_id, signers[1], 0),
        Err(MultisigError::SignerChangeAlreadyApproved)
    );
}

#[test]
fn test_execute_signer_change_success() {
    let (mut m, signers) = initialized(3, 2);

    let new_signer = SignerId::new([99u8; 32]);
    let proposal_id = m
        .propose_signer_change(signers[0], ChangeKind::Add, new_signer, 3600, 0)
        .unwrap();

    m.approve_signer_change(proposal_id, signers[1], 0).unwrap();
    m.approve_signer_change(proposal_id, signers[2], 0).unwrap();

    m.execute_signer_change(proposal_id, 0).unwrap();

    assert_eq!(m.is_signer(&new_signer), Ok(true));
    assert_eq!(m.signer_count(), Ok(4));
    assert_eq!(m.is_signer_change_executed(proposal_id), Ok(true));
}

#[test]
fn test_execute_signer_change_insufficient_approvals() {
    let (mut m, signers) = initialized(3, 2);

    let new_signer = SignerId::new([99u8; 32]);
    let proposal_id = m
        .propose_signer_change(signers[0], ChangeKind::Add, new_signer, 3600, 0)
        .unwrap();

    m.approve_signer_change(proposal_id, signers[1], 0).unwrap();

    assert_eq!(
        m.execute_signer_change(proposal_id, 0),
        Err(MultisigError::InsufficientSignerChangeApprovals)
    );
}

#[test]
fn test_execute_signer_change_remove_signer() {
    let (mut m, signers) = initialized(3, 2);

    let signer_to_remove = signers[2];
    let proposal_id = m
        .propose_signer_change(signers[0], ChangeKind::Remove, signer_to_remove, 3600, 0)
        .unwrap();

    m.approve_signer_change(proposal_id, signers[1], 0).unwrap();
    m.approve_signer_change(proposal_id, signers[2], 0).unwrap();

    m.execute_signer_change(proposal_id, 0).unwrap();

    assert_eq!(m.is_signer(&signer_to_remove), Ok(false));
    assert_eq!(m.signer_count(), Ok(2));
    assert_eq!(m.is_signer_change_executed(proposal_id), Ok(true));
}

#[test]
fn test_execute_signer_change_twice() {
    let (mut m, signers) = initialized(3, 2);

    let new_signer = SignerId::new([99u8; 32]);
    let proposal_id = m
        .propose_signer_change(signers[0], ChangeKind::Add, new_signer, 3600, 0)
        .unwrap();

    m.approve_signer_change(proposal_id, signers[1], 0).unwrap();
    m.approve_signer_change(proposal_id, signers[2], 0).unwrap();
    m.execute_signer_change(proposal_id, 0).unwrap();

    assert_eq!(
        m.execute_signer_change(proposal_id, 0),
        Err(MultisigError::SignerChangeAlreadyExecuted)
    );
}

#[test]
fn test_create_proposal() {
    let (mut m, signers) = initialized(3, 2);

    let proposer = signers[0];
    let token_address = test_address(41);
    let recipient = test_address(42);
    let amount = 1000i128;
    let reason = String::from("Payment for services");
    let expires_in_seconds = 3600u64;

    let proposal_id = m
        .create_proposal(
            proposer,
            token_address,
            recipient,
            amount,
            reason.clone(),
            expires_in_seconds,
            0,
        )
        .unwrap();

    assert_eq!(proposal_id, 1);
    assert_eq!(m.get_proposal_count(), Ok(1));

    let proposal = m.get_proposal(proposal_id).unwrap();
    assert_eq!(proposal.id, proposal_id);
    assert_eq!(proposal.proposer, proposer);
    assert_eq!(proposal.token_address, token_address);
    assert_eq!(proposal.recipient, recipient);
    assert_eq!(proposal.amount, amount);
    assert_eq!(proposal.reason, reason);
    assert!(!proposal.executed);
}

#[test]
fn test_create_proposal_unknown_proposer() {
    let (mut m, _signers) = initialized(3, 2);

    let unknown_proposer = SignerId::new([99u8; 32]);
    let result = m.create_proposal(
        unknown_proposer,
        test_address(41),
        test_address(42),
        1000i128,
        String::from("Payment"),
        3600,
        0,
    );
    assert_eq!(result, Err(MultisigError::UnknownSigner));
}

#[test]
fn test_create_proposal_invalid_amount() {
    let (mut m, signers) = initialized(3, 2);

    let result = m.create_proposal(
        signers[0],
        test_address(41),
        test_address(42),
        0i128,
        String::from("Payment"),
        3600,
        0,
    );
    assert_eq!(result, Err(MultisigError::InvalidProposal));
}

#[test]
fn test_approve_proposal() {
    let (mut m, signers) = initialized(3, 2);

    let approver1 = signers[1];
    let approver2 = signers[2];

    let proposal_id = m
        .create_proposal(
            signers[0],
            test_address(41),
            test_address(42),
            1000i128,
            String::from("Payment"),
            3600,
            0,
        )
        .unwrap();

    m.approve_proposal(proposal_id, approver1, 0).unwrap();
    let approvals = m.get_proposal_approvals(proposal_id).unwrap();
    assert_eq!(approvals.len(), 1);
    assert_eq!(approvals[0].signer, approver1);

    m.approve_proposal(proposal_id, approver2, 0).unwrap();
    let approvals = m.get_proposal_approvals(proposal_id).unwrap();
    assert_eq!(approvals.len(), 2);
}

#[test]
fn test_approve_proposal_twice() {
    let (mut m, signers) = initialized(3, 2);

    let approver = signers[1];
    let proposal_id = m
        .create_proposal(
            signers[0],
            test_address(41),
            test_address(42),
            1000i128,
            String::from("Payment"),
            3600,
            0,
        )
        .unwrap();

    m.approve_proposal(proposal_id, approver, 0).unwrap();
    assert_eq!(m.approve_proposal(proposal_id, approver, 0), Err(MultisigError::AlreadyApproved));
}

#[test]
fn test_approve_nonexistent_proposal() {
    let (mut m, signers) = initialized(3, 2);

    assert_eq!(m.approve_proposal(999, signers[0], 0), Err(MultisigError::ProposalNotFound));
}

#[test]
fn test_revoke_approval() {
    let (mut m, signers) = initialized(3, 2);

    let approver1 = signers[1];
    let approver2 = signers[2];

    let proposal_id = m
        .create_proposal(
            signers[0],
            test_address(41),
            test_address(42),
            1000i128,
            String::from("Payment"),
            3600,
            0,
        )
        .unwrap();

    m.approve_proposal(proposal_id, approver1, 0).unwrap();
    m.approve_proposal(proposal_id, approver2, 0).unwrap();

    let approvals = m.get_proposal_approvals(proposal_id).unwrap();
    assert_eq!(approvals.len(), 2);

    m.revoke_approval(proposal_id, approver1).unwrap();

    let approvals = m.get_proposal_approvals(proposal_id).unwrap();
    assert_eq!(approvals.len(), 1);
    assert_eq!(approvals[0].signer, approver2);
}

#[test]
fn test_revoke_nonexistent_approval() {
    let (mut m, signers) = initialized(3, 2);

    let proposal_id = m
        .create_proposal(
            signers[0],
            test_address(41),
            test_address(42),
            1000i128,
            String::from("Payment"),
            3600,
            0,
        )
        .unwrap();

    assert_eq!(m.revoke_approval(proposal_id, signers[1]), Err(MultisigError::SignerNotFound));
}

#[test]
fn test_execute_proposal_insufficient_approvals() {
    let (mut m, signers) = initialized(3, 2);

    let proposal_id = m
        .create_proposal(
            signers[0],
            test_address(41),
            test_address(42),
            1000i128,
            String::from("Payment"),
            3600,
            0,
        )
        .unwrap();

    m.approve_proposal(proposal_id, signers[1], 0).unwrap();

    assert_eq!(m.execute_proposal(proposal_id, 0), Err(MultisigError::InsufficientApprovals));
}

#[test]
fn test_create_proposal_expiry_too_short() {
    let (mut m, signers) = initialized(3, 2);

    // 30 minutes: below the one-hour floor.
    let result = m.create_proposal(
        signers[0],
        test_address(41),
        test_address(42),
        1000i128,
        String::from("Test proposal"),
        1800,
        0,
    );
    assert_eq!(result, Err(MultisigError::InvalidExpiryTime));
}

#[test]
fn test_create_proposal_expiry_too_long() {
    let (mut m, signers) = initialized(3, 2);

    // 60 days: above the 30-day ceiling.
    let result = m.create_proposal(
        signers[0],
        test_address(41),
        test_address(42),
        1000i128,
        String::from("Test proposal"),
        5_184_000,
        0,
    );
    assert_eq!(result, Err(MultisigError::InvalidExpiryTime));
}

#[test]
fn test_create_proposal_valid_expiry() {
    let (mut m, signers) = initialized(3, 2);

    // Two hours: within the window.
    let proposal_id = m
        .create_proposal(
            signers[0],
            test_address(41),
            test_address(42),
            1000i128,
            String::from("Test proposal"),
            7200,
            0,
        )
        .unwrap();
    assert_eq!(proposal_id, 1);
}

#[test]
fn test_propose_signer_change_expiry_too_short() {
    let (mut m, signers) = initialized(3, 2);

    let new_signer = SignerId::new([99u8; 32]);
    assert_eq!(
        m.propose_signer_change(signers[0], ChangeKind::Add, new_signer, 1800, 0),
        Err(MultisigError::InvalidExpiryTime)
    );
}

#[test]
fn test_propose_signer_change_expiry_too_long() {
    let (mut m, signers) = initialized(3, 2);

    let new_signer = SignerId::new([99u8; 32]);
    assert_eq!(
        m.propose_signer_change(signers[0], ChangeKind::Add, new_signer, 5_184_000, 0),
        Err(MultisigError::InvalidExpiryTime)
    );
}

#[test]
fn test_propose_signer_change_valid_expiry() {
    let (mut m, signers) = initialized(3, 2);

    let new_signer = SignerId::new([99u8; 32]);
    let proposal_id = m
        .propose_signer_change(signers[0], ChangeKind::Add, new_signer, 7200, 0)
        .unwrap();
    assert_eq!(proposal_id, 1);
}
