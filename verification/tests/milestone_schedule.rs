use stellar_lend::schedule::{VestingContract, VestingError, VestingSchedule};

const NOW: u64 = 1_000;

fn setup_ms() -> (VestingContract, String, String) {
    let mut c = VestingContract::new();
    let admin = String::from("admin");
    let user = String::from("user");
    c.initialize(admin.clone()).unwrap();
    (c, admin, user)
}

fn make_milestones(pairs: &[(u64, i128)]) -> Vec<(u64, i128)> {
    let mut v = Vec::new();
    for (ts, cum) in pairs {
        v.push((*ts, *cum));
    }
    v
}

fn three_step() -> VestingSchedule {
    VestingSchedule::Milestone(make_milestones(&[
        (NOW + 100, 300),
        (NOW + 500, 700),
        (NOW + 1000, 1000),
    ]))
}

#[test]
fn milestone_vested_before_first_is_zero() {
    let (mut c, admin, user) = setup_ms();
    c.add_grant(&admin, &user, 1000, three_step()).unwrap();
    assert_eq!(c.vested_at(&user, NOW + 50).unwrap(), 0);
}

#[test]
fn milestone_vested_exactly_at_first() {
    let (mut c, admin, user) = setup_ms();
    c.add_grant(&admin, &user, 1000, three_step()).unwrap();
    assert_eq!(c.vested_at(&user, NOW + 100).unwrap(), 300);
}

#[test]
fn milestone_vested_between_returns_previous() {
    let (mut c, admin, user) = setup_ms();
    c.add_grant(&admin, &user, 1000, three_step()).unwrap();
    assert_eq!(c.vested_at(&user, NOW + 300).unwrap(), 300);
}

#[test]
fn milestone_vested_after_final_returns_principal() {
    let (mut c, admin, user) = setup_ms();
    c.add_grant(&admin, &user, 1000, three_step()).unwrap();
    assert_eq!(c.vested_at(&user, NOW + 2000).unwrap(), 1000);
}

#[test]
fn milestone_single_before_returns_zero() {
    let (mut c, admin, user) = setup_ms();
    let schedule = VestingSchedule::Milestone(make_milestones(&[(NOW + 500, 1000)]));
    c.add_grant(&admin, &user, 1000, schedule).unwrap();
    assert_eq!(c.vested_at(&user, NOW + 100).unwrap(), 0);
}

#[test]
fn milestone_single_at_returns_full() {
    let (mut c, admin, user) = setup_ms();
    let schedule = VestingSchedule::Milestone(make_milestones(&[(NOW + 500, 1000)]));
    c.add_grant(&admin, &user, 1000, schedule).unwrap();
    assert_eq!(c.vested_at(&user, NOW + 500).unwrap(), 1000);
}

#[test]
fn milestone_single_after_returns_full() {
    let (mut c, admin, user) = setup_ms();
    let schedule = VestingSchedule::Milestone(make_milestones(&[(NOW + 500, 1000)]));
    c.add_grant(&admin, &user, 1000, schedule).unwrap();
    assert_eq!(c.vested_at(&user, NOW + 5000).unwrap(), 1000);
}

#[test]
fn milestone_reject_non_increasing_timestamps() {
    let (mut c, admin, user) = setup_ms();
    let schedule = VestingSchedule::Milestone(make_milestones(&[
        (NOW + 500, 300),
        (NOW + 100, 700),
        (NOW + 1000, 1000),
    ]));
    let r = c.add_grant(&admin, &user, 1000, schedule);
    assert!(r.is_err());
    assert_eq!(r, Err(VestingError::NonIncreasingTimestamps));
}

#[test]
fn milestone_reject_non_increasing_cumulative() {
    let (mut c, admin, user) = setup_ms();
    let schedule = VestingSchedule::Milestone(make_milestones(&[
        (NOW + 100, 700),
        (NOW + 500, 300),
        (NOW + 1000, 1000),
    ]));
    let r = c.add_grant(&admin, &user, 1000, schedule);
    assert!(r.is_err());
    assert_eq!(r, Err(VestingError::NonIncreasingCumulative));
}

#[test]
fn milestone_reject_equal_timestamps() {
    let (mut c, admin, user) = setup_ms();
    let schedule = VestingSchedule::Milestone(make_milestones(&[
        (NOW + 100, 300),
        (NOW + 100, 700),
        (NOW + 1000, 1000),
    ]));
    let r = c.add_grant(&admin, &user, 1000, schedule);
    assert!(r.is_err());
}

#[test]
fn milestone_reject_equal_cumulative() {
    let (mut c, admin, user) = setup_ms();
    let schedule = VestingSchedule::Milestone(make_milestones(&[
        (NOW + 100, 500),
        (NOW + 500, 500),
        (NOW + 1000, 1000),
    ]));
    let r = c.add_grant(&admin, &user, 1000, schedule);
    assert!(r.is_err());
}

#[test]
fn milestone_reject_final_cumulative_not_principal() {
    let (mut c, admin, user) = setup_ms();
    let schedule =
        VestingSchedule::Milestone(make_milestones(&[(NOW + 100, 300), (NOW + 500, 700)]));
    let r = c.add_grant(&admin, &user, 1000, schedule);
    assert!(r.is_err());
    assert_eq!(r, Err(VestingError::FinalCumulativeMismatch));
}

#[test]
fn milestone_reject_empty() {
    let (mut c, admin, user) = setup_ms();
    let schedule = VestingSchedule::Milestone(Vec::new());
    let r = c.add_grant(&admin, &user, 1000, schedule);
    assert!(r.is_err());
    assert_eq!(r, Err(VestingError::NoMilestones));
}

#[test]
fn milestone_reject_cumulative_exceeds_principal() {
    let (mut c, admin, user) = setup_ms();
    let schedule = VestingSchedule::Milestone(make_milestones(&[
        (NOW + 100, 300),
        (NOW + 500, 1200),
        (NOW + 1000, 1200),
    ]));
    let r = c.add_grant(&admin, &user, 1000, schedule);
    assert!(r.is_err());
}

#[test]
fn milestone_claim_full_at_final() {
    let (mut c, admin, user) = setup_ms();
    let schedule =
        VestingSchedule::Milestone(make_milestones(&[(NOW + 100, 400), (NOW + 500, 1000)]));
    c.add_grant(&admin, &user, 1000, schedule).unwrap();
    let now = NOW + 600;
    let grant = c.claim(&user, 1000, now).unwrap();
    assert_eq!(grant.claimed, 1000);
    assert_eq!(c.claimable(&user, now).unwrap(), 0);
}

#[test]
fn milestone_claim_partial_then_remainder() {
    let (mut c, admin, user) = setup_ms();
    let schedule =
        VestingSchedule::Milestone(make_milestones(&[(NOW + 100, 400), (NOW + 500, 1000)]));
    c.add_grant(&admin, &user, 1000, schedule).unwrap();
    let mut now = NOW + 200;
    assert_eq!(c.claimable(&user, now).unwrap(), 400);
    c.claim(&user, 150, now).unwrap();
    assert_eq!(c.claimable(&user, now).unwrap(), 250);
    now += 400;
    assert_eq!(c.claimable(&user, now).unwrap(), 850);
    c.claim(&user, 850, now).unwrap();
    assert_eq!(c.claimable(&user, now).unwrap(), 0);
}

#[test]
fn milestone_claim_more_than_vested_rejected() {
    let (mut c, admin, user) = setup_ms();
    let schedule = VestingSchedule::Milestone(make_milestones(&[(NOW + 100, 400)]));
    // A principal of 1000 against a final milestone of 400: the grant
    // itself is refused, and so is the claim.
    let _ = c.add_grant(&admin, &user, 1000, schedule);
    let r = c.claim(&user, 100, NOW);
    assert!(r.is_err());
}

#[test]
fn milestone_claim_zero_rejected() {
    let (mut c, admin, user) = setup_ms();
    let schedule = VestingSchedule::Milestone(make_milestones(&[(NOW + 100, 1000)]));
    c.add_grant(&admin, &user, 1000, schedule).unwrap();
    let r = c.claim(&user, 0, NOW + 200);
    assert!(r.is_err());
    assert_eq!(r, Err(VestingError::InvalidAmount));
}

#[test]
fn milestone_sync_returns_claimable() {
    let (mut c, admin, user) = setup_ms();
    let schedule =
        VestingSchedule::Milestone(make_milestones(&[(NOW + 100, 500), (NOW + 500, 1000)]));
    c.add_grant(&admin, &user, 1000, schedule).unwrap();
    let now = NOW + 200;
    let s = c.sync(&user, now).unwrap();
    assert_eq!(s, 500);
    c.claim(&user, 200, now).unwrap();
    let s = c.sync(&user, now).unwrap();
    assert_eq!(s, 300);
}

#[test]
fn milestone_many_milestones() {
    let (mut c, admin, user) = setup_ms();
    let count: i128 = 20;
    let step: u64 = 1000;
    let mut pairs: Vec<(u64, i128)> = Vec::new();
    for i in 0..count {
        pairs.push((NOW + (i as u64 + 1) * step, (i + 1) * 50));
    }
    let schedule = VestingSchedule::Milestone(pairs);
    c.add_grant(&admin, &user, count * 50, schedule).unwrap();
    assert_eq!(c.vested_at(&user, NOW + 500).unwrap(), 0);
    let ts = NOW + 10 * step;
    assert_eq!(c.vested_at(&user, ts).unwrap(), 500);
    let ts = NOW + (count as u64) * step + 1;
    assert_eq!(c.vested_at(&user, ts).unwrap(), count * 50);
}

#[test]
fn linear_and_milestone_grants_coexist() {
    let (mut c, admin, user1) = setup_ms();
    let user2 = String::from("user2");
    let linear_schedule = VestingSchedule::Linear(NOW, NOW, NOW + 1000);
    c.add_grant(&admin, &user1, 500, linear_schedule).unwrap();
    let ms_schedule =
        VestingSchedule::Milestone(make_milestones(&[(NOW + 200, 300), (NOW + 800, 700)]));
    c.add_grant(&admin, &user2, 700, ms_schedule).unwrap();
    assert_eq!(c.vested_at(&user1, NOW + 500).unwrap(), 250);
    assert_eq!(c.vested_at(&user2, NOW + 900).unwrap(), 700);
}

#[test]
fn linear_vested_before_cliff_zero() {
    let (mut c, admin, user) = setup_ms();
    let schedule = VestingSchedule::Linear(NOW, NOW + 100, NOW + 1000);
    c.add_grant(&admin, &user, 1000, schedule).unwrap();
    assert_eq!(c.vested_at(&user, NOW + 50).unwrap(), 0);
}

#[test]
fn linear_vested_at_end_full() {
    let (mut c, admin, user) = setup_ms();
    let schedule = VestingSchedule::Linear(NOW, NOW + 100, NOW + 1000);
    c.add_grant(&admin, &user, 1000, schedule).unwrap();
    assert_eq!(c.vested_at(&user, NOW + 1000).unwrap(), 1000);
}

#[test]
fn linear_vested_after_end_capped() {
    let (mut c, admin, user) = setup_ms();
    let schedule = VestingSchedule::Linear(NOW, NOW + 100, NOW + 1000);
    c.add_grant(&admin, &user, 1000, schedule).unwrap();
    assert_eq!(c.vested_at(&user, NOW + 5000).unwrap(), 1000);
}

#[test]
fn linear_claim_multiple_times() {
    let (mut c, admin, user) = setup_ms();
    let schedule = VestingSchedule::Linear(NOW, NOW, NOW + 1000);
    c.add_grant(&admin, &user, 1000, schedule).unwrap();
    let now = NOW + 500;
    c.claim(&user, 200, now).unwrap();
    c.claim(&user, 100, now).unwrap();
    assert_eq!(c.claimable(&user, now).unwrap(), 200);
    let grant = c.get_grant(&user).unwrap();
    assert_eq!(grant.claimed, 300);
}

#[test]
fn schedule_initialize_twice_rejected() {
    let (mut c, _admin, _user) = setup_ms();
    assert_eq!(c.initialize(String::from("other")), Err(VestingError::AlreadyInitialized));
    assert_eq!(c.get_admin(), Some(String::from("admin")));
}

#[test]
fn schedule_grant_before_initialize_rejected() {
    let mut c = VestingContract::new();
    let r = c.add_grant(
        &String::from("admin"),
        &String::from("user"),
        1000,
        VestingSchedule::Linear(0, 0, 10),
    );
    assert_eq!(r, Err(VestingError::NotInitialized));
}

#[test]
fn schedule_grant_by_non_admin_rejected() {
    let (mut c, _admin, user) = setup_ms();
    let r = c.add_grant(&String::from("mallory"), &user, 1000, VestingSchedule::Linear(0, 0, 10));
    assert_eq!(r, Err(VestingError::Unauthorized));
}

#[test]
fn schedule_second_grant_for_recipient_rejected() {
    let (mut c, admin, user) = setup_ms();
    c.add_grant(&admin, &user, 1000, VestingSchedule::Linear(0, 0, 10)).unwrap();
    let r = c.add_grant(&admin, &user, 5, VestingSchedule::Linear(0, 0, 10));
    assert_eq!(r, Err(VestingError::GrantExists));
}

#[test]
fn schedule_invalid_linear_and_principal_rejected() {
    let (mut c, admin, user) = setup_ms();
    assert_eq!(
        c.add_grant(&admin, &user, 0, VestingSchedule::Linear(0, 0, 10)),
        Err(VestingError::InvalidPrincipal)
    );
    assert_eq!(
        c.add_grant(&admin, &user, 10, VestingSchedule::Linear(5, 20, 10)),
        Err(VestingError::InvalidLinearSchedule)
    );
    assert_eq!(
        c.add_grant(&admin, &user, 10, VestingSchedule::Linear(5, 5, 5)),
        Err(VestingError::InvalidLinearSchedule)
    );
}

#[test]
fn schedule_missing_grant_reported() {
    let (c, _admin, _user) = setup_ms();
    let nobody = String::from("nobody");
    assert_eq!(c.vested_at(&nobody, 0), Err(VestingError::NoGrant));
    assert_eq!(c.claimable(&nobody, 0), Err(VestingError::NoGrant));
    assert!(c.get_grant(&nobody).is_err());
}

#[test]
fn schedule_claim_beyond_vested_rejected_and_unchanged() {
    let (mut c, admin, user) = setup_ms();
    c.add_grant(&admin, &user, 1000, VestingSchedule::Linear(NOW, NOW, NOW + 1000)).unwrap();
    assert_eq!(c.claim(&user, 501, NOW + 500), Err(VestingError::InsufficientVested));
    assert_eq!(c.get_grant(&user).unwrap().claimed, 0);
}

#[test]
fn schedule_linear_midpoint_formula() {
    // principal * (t - start) / (end - start), rounded down.
    let (mut c, admin, user) = setup_ms();
    c.add_grant(&admin, &user, 1000, VestingSchedule::Linear(0, 0, 3)).unwrap();
    assert_eq!(c.vested_at(&user, 1).unwrap(), 333);
    assert_eq!(c.vested_at(&user, 2).unwrap(), 666);
}

#[test]
fn schedule_vested_is_monotone_on_samples() {
    let (mut c, admin, user) = setup_ms();
    c.add_grant(&admin, &user, 1000, three_step()).unwrap();
    let mut last = 0;
    for t in (NOW..NOW + 1200).step_by(37) {
        let v = c.vested_at(&user, t).unwrap();
        assert!(v >= last);
        assert!(v <= 1000);
        last = v;
    }
}
