use stellar_lend::governance::{
    add_guardian, approve_proposal, approve_recovery, can_vote, cancel_proposal, create_proposal,
    execute_proposal, execute_recovery, get_admin, get_config, get_guardian_config,
    get_multisig_config, get_proposal, get_proposal_approvals, get_proposals,
    get_recovery_approvals, get_recovery_request, get_vote, initialize, new_state, queue_proposal,
    remove_guardian, set_guardian_threshold, set_multisig_config, start_recovery, vote,
    GovernanceError, GovernanceState, ProposalOutcome, VoteType, DEFAULT_VOTING_PERIOD,
};

fn s(x: &str) -> String {
    String::from(x)
}

fn initialized() -> GovernanceState {
    let mut st = new_state();
    initialize(&mut st, s("admin"), s("token"), None, None, None, None, None, None).unwrap();
    st
}

fn with_proposal(now: u64) -> (GovernanceState, u64) {
    let mut st = initialized();
    let id = create_proposal(&mut st, s("admin"), s("param"), s("raise cap"), None, now).unwrap();
    (st, id)
}

#[test]
fn governance_initialize_applies_defaults() {
    let st = initialized();
    let c = get_config(&st).unwrap();
    assert_eq!(c.admin, "admin");
    assert_eq!(c.vote_token, "token");
    assert_eq!(c.voting_period, 604800);
    assert_eq!(c.execution_delay, 86400);
    assert_eq!(c.quorum_bps, 5000);
    assert_eq!(c.proposal_threshold, 1000);
    assert_eq!(c.timelock_duration, 86400);
    assert_eq!(c.default_voting_threshold, 5000);
    assert_eq!(c.voters, vec![s("admin")]);
    assert_eq!(st.proposal_counter, Some(0));
    assert_eq!(get_admin(&st), Some(s("admin")));
}

#[test]
fn governance_initialize_keeps_given_settings() {
    let mut st = new_state();
    initialize(&mut st, s("a"), s("t"), Some(10), Some(20), Some(30), Some(40), Some(50), Some(60))
        .unwrap();
    let c = get_config(&st).unwrap();
    assert_eq!(
        (c.voting_period, c.execution_delay, c.quorum_bps),
        (10, 20, 30)
    );
    assert_eq!(
        (c.proposal_threshold, c.timelock_duration, c.default_voting_threshold),
        (40, 50, 60)
    );
}

#[test]
fn governance_initialize_twice_rejected() {
    let mut st = initialized();
    let r = initialize(&mut st, s("other"), s("t"), None, None, None, None, None, None);
    assert_eq!(r, Err(GovernanceError::AlreadyInitialized));
    assert_eq!(get_admin(&st), Some(s("admin")));
}

#[test]
fn governance_error_codes_are_stable() {
    let all = [
        GovernanceError::NotInitialized,
        GovernanceError::AlreadyInitialized,
        GovernanceError::Unauthorized,
        GovernanceError::ProposalNotFound,
        GovernanceError::ProposalNotActive,
        GovernanceError::AlreadyVoted,
        GovernanceError::VotingNotOpen,
        GovernanceError::AlreadyExecuted,
        GovernanceError::InvalidConfig,
    ];
    for (i, e) in all.iter().enumerate() {
        assert_eq!(e.code(), i as u32 + 1);
    }
}

#[test]
fn governance_create_requires_initialization_and_membership() {
    let mut st = new_state();
    assert_eq!(
        create_proposal(&mut st, s("admin"), s("p"), s("d"), None, 0),
        Err(GovernanceError::NotInitialized)
    );
    let mut st = initialized();
    assert_eq!(
        create_proposal(&mut st, s("stranger"), s("p"), s("d"), None, 0),
        Err(GovernanceError::Unauthorized)
    );
    assert_eq!(st.proposal_counter, Some(0));
}

#[test]
fn governance_create_assigns_sequential_ids_and_window() {
    let mut st = initialized();
    let a = create_proposal(&mut st, s("admin"), s("p"), s("first"), None, 100).unwrap();
    let b = create_proposal(&mut st, s("admin"), s("p"), s("second"), Some(7), 200).unwrap();
    assert_eq!((a, b), (1, 2));
    let p = get_proposal(&st, 2).unwrap();
    assert_eq!(p.description, "second");
    assert_eq!(p.start_time, 200);
    assert_eq!(p.end_time, 200 + DEFAULT_VOTING_PERIOD);
    assert_eq!((p.yes_votes, p.no_votes), (0, 0));
    assert_eq!(p.outcome, None);
    assert!(get_proposal(&st, 3).is_none());
}

#[test]
fn governance_end_time_saturates() {
    let mut st = initialized();
    let id = create_proposal(&mut st, s("admin"), s("p"), s("d"), None, u64::MAX - 5).unwrap();
    assert_eq!(get_proposal(&st, id).unwrap().end_time, u64::MAX);
}

#[test]
fn governance_get_proposals_pages() {
    let mut st = initialized();
    for i in 0..5u64 {
        create_proposal(&mut st, s("admin"), s("p"), format!("d{i}"), None, 0).unwrap();
    }
    let page: Vec<u64> = get_proposals(&st, 2, 2).iter().map(|p| p.id).collect();
    assert_eq!(page, vec![2, 3]);
    let tail: Vec<u64> = get_proposals(&st, 4, 10).iter().map(|p| p.id).collect();
    assert_eq!(tail, vec![4, 5]);
    assert!(get_proposals(&st, 9, 3).is_empty());
    assert!(get_proposals(&st, 1, 0).is_empty());
    let from_zero: Vec<u64> = get_proposals(&st, 0, 3).iter().map(|p| p.id).collect();
    assert_eq!(from_zero, vec![1, 2]);
}

#[test]
fn governance_cancel_rules() {
    let (mut st, id) = with_proposal(0);
    assert_eq!(cancel_proposal(&mut st, &s("x"), 99), Err(GovernanceError::ProposalNotFound));
    assert_eq!(cancel_proposal(&mut st, &s("mallory"), id), Err(GovernanceError::Unauthorized));
    cancel_proposal(&mut st, &s("admin"), id).unwrap();
    let p = get_proposal(&st, id).unwrap();
    assert!(p.cancelled);
    assert_eq!(p.outcome, Some(ProposalOutcome::Cancelled));
    assert_eq!(
        vote(&mut st, &s("admin"), id, VoteType::Yes, 1),
        Err(GovernanceError::ProposalNotActive)
    );
    assert_eq!(queue_proposal(&mut st, id, 10), Err(GovernanceError::ProposalNotActive));
}

#[test]
fn governance_vote_records_and_counts() {
    let (mut st, id) = with_proposal(0);
    vote(&mut st, &s("admin"), id, VoteType::Yes, 5).unwrap();
    let p = get_proposal(&st, id).unwrap();
    assert_eq!((p.yes_votes, p.no_votes), (1, 0));
    let v = get_vote(&st, id, &s("admin")).unwrap();
    assert_eq!(v.weight, 1);
    assert_eq!(v.timestamp, 5);
    assert_eq!(v.vote_type, VoteType::Yes);
    assert_eq!(
        vote(&mut st, &s("admin"), id, VoteType::No, 6),
        Err(GovernanceError::AlreadyVoted)
    );
    assert_eq!(get_proposal(&st, id).unwrap().no_votes, 0);
}

#[test]
fn governance_vote_eligibility() {
    let (mut st, id) = with_proposal(0);
    assert_eq!(
        vote(&mut st, &s("stranger"), id, VoteType::Yes, 1),
        Err(GovernanceError::Unauthorized)
    );
    add_guardian(&mut st, &s("admin"), s("guard")).unwrap();
    vote(&mut st, &s("guard"), id, VoteType::No, 1).unwrap();
    assert_eq!(get_proposal(&st, id).unwrap().no_votes, 1);
    assert_eq!(
        vote(&mut st, &s("admin"), 42, VoteType::Yes, 1),
        Err(GovernanceError::ProposalNotFound)
    );
}

#[test]
fn governance_vote_after_end_rejected() {
    let (mut st, id) = with_proposal(0);
    let end = get_proposal(&st, id).unwrap().end_time;
    assert!(can_vote(&st, &s("admin"), id, end));
    assert!(!can_vote(&st, &s("admin"), id, end + 1));
    assert_eq!(
        vote(&mut st, &s("admin"), id, VoteType::Yes, end + 1),
        Err(GovernanceError::ProposalNotActive)
    );
    vote(&mut st, &s("admin"), id, VoteType::Yes, end).unwrap();
}

#[test]
fn governance_can_vote_role_matrix() {
    let no_config = new_state();
    assert!(!can_vote(&no_config, &s("admin"), 1, 0));

    let (mut st, id) = with_proposal(0);
    add_guardian(&mut st, &s("admin"), s("guard")).unwrap();
    assert!(can_vote(&st, &s("admin"), id, 0));
    assert!(can_vote(&st, &s("guard"), id, 0));
    assert!(!can_vote(&st, &s("stranger"), id, 0));
    assert!(!can_vote(&st, &s("admin"), id + 1, 0));

    queue_proposal(&mut st, id, 0).unwrap();
    execute_proposal(&mut st, id, 100).unwrap();
    assert!(!can_vote(&st, &s("admin"), id, 0));
    assert!(!can_vote(&st, &s("guard"), id, 0));
}

#[test]
fn governance_queue_then_execute_respects_eta() {
    let (mut st, id) = with_proposal(0);
    assert_eq!(execute_proposal(&mut st, id, 0), Err(GovernanceError::ProposalNotActive));
    assert_eq!(queue_proposal(&mut st, id, 10), Ok(ProposalOutcome::Approved));
    assert_eq!(get_proposal(&st, id).unwrap().eta_ledger, 110);
    assert_eq!(execute_proposal(&mut st, id, 109), Err(GovernanceError::ProposalNotActive));
    execute_proposal(&mut st, id, 110).unwrap();
    assert!(get_proposal(&st, id).unwrap().executed);
    assert_eq!(execute_proposal(&mut st, id, 200), Err(GovernanceError::AlreadyExecuted));
    assert_eq!(cancel_proposal(&mut st, &s("admin"), id), Err(GovernanceError::AlreadyExecuted));
    assert_eq!(queue_proposal(&mut st, id, 300), Err(GovernanceError::ProposalNotActive));
}

#[test]
fn governance_queue_eta_saturates() {
    let (mut st, id) = with_proposal(0);
    queue_proposal(&mut st, id, u32::MAX - 1).unwrap();
    assert_eq!(get_proposal(&st, id).unwrap().eta_ledger, u32::MAX);
}

#[test]
fn governance_approve_proposal_is_yes_vote() {
    let (mut st, id) = with_proposal(0);
    approve_proposal(&mut st, &s("admin"), id, 3).unwrap();
    assert_eq!(get_proposal(&st, id).unwrap().yes_votes, 1);
    assert_eq!(get_vote(&st, id, &s("admin")).unwrap().vote_type, VoteType::Yes);
    assert!(get_proposal_approvals(&st, id).is_none());
}

#[test]
fn governance_multisig_admin_only() {
    let mut st = initialized();
    assert_eq!(
        set_multisig_config(&mut st, &s("x"), vec![s("a")], 1),
        Err(GovernanceError::Unauthorized)
    );
    assert!(get_multisig_config(&st).is_none());
    set_multisig_config(&mut st, &s("admin"), vec![s("a"), s("b")], 2).unwrap();
    let m = get_multisig_config(&st).unwrap();
    assert_eq!(m.admins, vec![s("a"), s("b")]);
    assert_eq!(m.threshold, 2);
}

#[test]
fn governance_guardian_management() {
    let mut st = initialized();
    assert_eq!(add_guardian(&mut st, &s("x"), s("g")), Err(GovernanceError::Unauthorized));
    assert_eq!(
        remove_guardian(&mut st, &s("admin"), &s("g")),
        Err(GovernanceError::Unauthorized)
    );
    add_guardian(&mut st, &s("admin"), s("g1")).unwrap();
    add_guardian(&mut st, &s("admin"), s("g2")).unwrap();
    add_guardian(&mut st, &s("admin"), s("g1")).unwrap();
    let gc = get_guardian_config(&st).unwrap();
    assert_eq!(gc.guardians, vec![s("g1"), s("g2")]);
    assert_eq!(gc.threshold, 1);
    set_guardian_threshold(&mut st, &s("admin"), 2).unwrap();
    remove_guardian(&mut st, &s("admin"), &s("g1")).unwrap();
    let gc = get_guardian_config(&st).unwrap();
    assert_eq!(gc.guardians, vec![s("g2")]);
    assert_eq!(gc.threshold, 2);
}

#[test]
fn governance_recovery_flow() {
    let mut st = initialized();
    assert_eq!(
        start_recovery(&mut st, s("g1"), s("admin"), s("fresh"), 7),
        Err(GovernanceError::Unauthorized)
    );
    add_guardian(&mut st, &s("admin"), s("g1")).unwrap();
    add_guardian(&mut st, &s("admin"), s("g2")).unwrap();
    set_guardian_threshold(&mut st, &s("admin"), 2).unwrap();
    start_recovery(&mut st, s("g1"), s("admin"), s("fresh"), 7).unwrap();
    let q = get_recovery_request(&st).unwrap();
    assert_eq!((q.new_admin.as_str(), q.initiated_at, q.approval_count), ("fresh", 7, 1));
    assert_eq!(execute_recovery(&mut st), Err(GovernanceError::Unauthorized));
    assert_eq!(approve_recovery(&mut st, s("outsider")), Err(GovernanceError::Unauthorized));
    approve_recovery(&mut st, s("g1")).unwrap();
    assert_eq!(get_recovery_approvals(&st).unwrap(), vec![s("g1")]);
    approve_recovery(&mut st, s("g2")).unwrap();
    execute_recovery(&mut st).unwrap();
    assert_eq!(get_admin(&st), Some(s("fresh")));
    assert!(get_recovery_request(&st).is_none());
    assert!(get_recovery_approvals(&st).is_none());
    assert_eq!(execute_recovery(&mut st), Err(GovernanceError::NotInitialized));
}
