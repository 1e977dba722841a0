//! Vesting grants that unlock along a schedule: either linearly between a
//! start and an end time with nothing before a cliff, or in discrete
//! milestones, each unlocking a cumulative amount at a timestamp. One grant
//! per recipient; the ledger time is passed in by the caller.

use vstd::prelude::*;

verus! {

/// Errors raised by the schedule-based vesting contract.
#[derive(Clone, Copy, Debug, PartialEq, Eq, Structural)]
pub enum VestingError {
    /// The contract already has an admin.
    AlreadyInitialized,
    /// The contract has no admin yet.
    NotInitialized,
    /// The caller is not the admin.
    Unauthorized,
    /// The principal is not positive.
    InvalidPrincipal,
    /// A linear schedule does not satisfy `start <= cliff <= end`, `start < end`.
    InvalidLinearSchedule,
    /// A milestone schedule is empty.
    NoMilestones,
    /// Milestone timestamps are not strictly increasing.
    NonIncreasingTimestamps,
    /// Milestone cumulative amounts are not strictly increasing from zero.
    NonIncreasingCumulative,
    /// A milestone cumulative amount exceeds the principal.
    CumulativeExceedsPrincipal,
    /// The last milestone's cumulative amount differs from the principal.
    FinalCumulativeMismatch,
    /// The recipient already has a grant.
    GrantExists,
    /// The recipient has no grant.
    NoGrant,
    /// The claimed amount is not positive.
    InvalidAmount,
    /// The claimed amount exceeds what is claimable.
    InsufficientVested,
}

/// How a grant unlocks.
#[derive(Clone, Debug, PartialEq, Eq)]
pub enum VestingSchedule {
    /// `Linear(start, cliff, end)`: nothing before `cliff`, everything from
    /// `end`, and in between the share of the principal that the time
    /// elapsed since `start` is of `end - start`.
    Linear(u64, u64, u64),
    /// `(timestamp, cumulative)` pairs: from each timestamp on, the
    /// cumulative amount is vested.
    Milestone(Vec<(u64, i128)>),
}

/// A grant.
#[derive(Clone, Debug, PartialEq, Eq)]
pub struct Grant {
    pub recipient: String,
    pub principal: i128,
    pub schedule: VestingSchedule,
    pub claimed: i128,
}

/// The contract: its admin, once initialised, and the grants.
pub struct VestingContract {
    pub admin: Option<String>,
    pub grants: Vec<Grant>,
}

/// The amount vested at `t` by a linear schedule over `principal`. An
/// intermediate product that does not fit in `i128` yields `0`.
pub open spec fn linear_vested(principal: i128, start: u64, cliff: u64, end: u64, t: u64) -> int {
    if t < cliff {
        0
    } else if t >= end {
        principal as int
    } else if principal * (t - start) > i128::MAX || principal * (t - start) < i128::MIN {
        0
    } else {
        (principal * (t - start)) / ((end - start) as int)
    }
}

/// The cumulative amount of the latest milestone reached at `t`, or `0`.
pub open spec fn milestone_vested(ms: Seq<(u64, i128)>, t: u64) -> int
    decreases ms.len(),
{
    if ms.len() == 0 {
        0
    } else if ms.last().0 <= t {
        ms.last().1 as int
    } else {
        milestone_vested(ms.drop_last(), t)
    }
}

/// The amount a grant has vested at `t`.
pub open spec fn vested(principal: i128, schedule: VestingSchedule, t: u64) -> int {
    match schedule {
        VestingSchedule::Linear(start, cliff, end) => linear_vested(principal, start, cliff, end, t),
        VestingSchedule::Milestone(ms) => milestone_vested(ms@, t),
    }
}

/// The cumulative amount vested just before milestone `i`: that of the
/// previous milestone, or zero before the first.
pub open spec fn previous_cumulative(ms: Seq<(u64, i128)>, i: int) -> int {
    if i == 0 {
        0
    } else {
        ms[i - 1].1 as int
    }
}

/// Milestone `i` comes strictly after milestone `i - 1`.
pub open spec fn timestamp_rises(ms: Seq<(u64, i128)>, i: int) -> bool {
    ms[i].0 > ms[i - 1].0
}

/// Milestone `i` unlocks strictly more than was vested before it.
pub open spec fn cumulative_rises(ms: Seq<(u64, i128)>, i: int) -> bool {
    ms[i].1 > previous_cumulative(ms, i)
}

/// The verdict on a milestone list for `principal`: at least one milestone,
/// timestamps strictly increasing, cumulative amounts strictly increasing
/// from zero, none above the principal, the last equal to it.
pub open spec fn milestones_verdict(ms: Seq<(u64, i128)>, principal: i128) -> Result<(), VestingError> {
    if ms.len() == 0 {
        Err(VestingError::NoMilestones)
    } else if exists|i: int| 0 < i < ms.len() && !#[trigger] timestamp_rises(ms, i) {
        Err(VestingError::NonIncreasingTimestamps)
    } else if exists|i: int| 0 <= i < ms.len() && !#[trigger] cumulative_rises(ms, i) {
        Err(VestingError::NonIncreasingCumulative)
    } else if exists|i: int| #![trigger ms[i]] 0 <= i < ms.len() && ms[i].1 > principal {
        Err(VestingError::CumulativeExceedsPrincipal)
    } else if ms.last().1 != principal {
        Err(VestingError::FinalCumulativeMismatch)
    } else {
        Ok(())
    }
}

/// The verdict on a schedule for `principal`.
pub open spec fn schedule_verdict(principal: i128, schedule: VestingSchedule) -> Result<
    (),
    VestingError,
> {
    if principal <= 0 {
        Err(VestingError::InvalidPrincipal)
    } else {
        match schedule {
            VestingSchedule::Linear(start, cliff, end) => if start <= cliff && cliff <= end && start
                < end {
                Ok(())
            } else {
                Err(VestingError::InvalidLinearSchedule)
            },
            VestingSchedule::Milestone(ms) => milestones_verdict(ms@, principal),
        }
    }
}

/// Index of the first grant to `recipient`, if any.
pub open spec fn grant_index(grants: Seq<Grant>, recipient: Seq<char>) -> Option<int>
    decreases grants.len(),
{
    if grants.len() == 0 {
        None
    } else {
        match grant_index(grants.drop_last(), recipient) {
            Some(i) => Some(i),
            None => if grants.last().recipient@ == recipient {
                Some(grants.len() - 1)
            } else {
                None
            },
        }
    }
}

proof fn lemma_grant_index_bounds(grants: Seq<Grant>, recipient: Seq<char>)
    ensures
        grant_index(grants, recipient) matches Some(i) ==> 0 <= i < grants.len()
            && grants[i].recipient@ == recipient,
        grant_index(grants, recipient) is None ==> forall|j: int|
            0 <= j < grants.len() ==> grants[j].recipient@ != recipient,
    decreases grants.len(),
{
    if grants.len() > 0 {
        lemma_grant_index_bounds(grants.drop_last(), recipient);
        if grant_index(grants, recipient) is None {
            assert forall|j: int| 0 <= j < grants.len() implies grants[j].recipient@ != recipient by {
                if j < grants.len() - 1 {
                    assert(grants.drop_last()[j] == grants[j]);
                }
            }
        }
    }
}

proof fn lemma_grant_index_extends(grants: Seq<Grant>, recipient: Seq<char>, k: int)
    requires
        0 <= k <= grants.len(),
        grant_index(grants.take(k), recipient) is Some,
    ensures
        grant_index(grants, recipient) == grant_index(grants.take(k), recipient),
    decreases grants.len() - k,
{
    if k < grants.len() {
        let n = grants.len() - 1;
        assert(grants.drop_last().take(k) =~= grants.take(k));
        lemma_grant_index_extends(grants.drop_last(), recipient, k);
    } else {
        assert(grants.take(k) =~= grants);
    }
}

fn find_grant(grants: &Vec<Grant>, recipient: &String) -> (r: Option<usize>)
    ensures
        match r {
            Some(i) => grant_index(grants@, recipient@) == Some(i as int) && i < grants@.len(),
            None => grant_index(grants@, recipient@) is None,
        },
{
    let mut i: usize = 0;
    assert(grants@.take(0) =~= Seq::<Grant>::empty());
    while i < grants.len()
        invariant
            i <= grants@.len(),
            grant_index(grants@.take(i as int), recipient@) is None,
        decreases grants@.len() - i,
    {
        assert(grants@.take(i + 1).drop_last() =~= grants@.take(i as int));
        if grants[i].recipient == *recipient {
            proof {
                lemma_grant_index_extends(grants@, recipient@, i + 1);
            }
            return Some(i);
        }
        i = i + 1;
    }
    assert(grants@.take(grants@.len() as int) =~= grants@);
    None
}

/// Two schedules unlock alike: same linear parameters, or the same
/// milestones.
pub open spec fn same_schedule(a: VestingSchedule, b: VestingSchedule) -> bool {
    match (a, b) {
        (VestingSchedule::Linear(s1, c1, e1), VestingSchedule::Linear(s2, c2, e2)) => s1 == s2 && c1
            == c2 && e1 == e2,
        (VestingSchedule::Milestone(m1), VestingSchedule::Milestone(m2)) => m1@ == m2@,
        _ => false,
    }
}

/// Two grants hold the same terms.
pub open spec fn same_grant(a: Grant, b: Grant) -> bool {
    &&& a.recipient == b.recipient
    &&& a.principal == b.principal
    &&& a.claimed == b.claimed
    &&& same_schedule(a.schedule, b.schedule)
}

fn copy_schedule(s: &VestingSchedule) -> (r: VestingSchedule)
    ensures
        same_schedule(r, *s),
{
    match s {
        VestingSchedule::Linear(a, b, c) => VestingSchedule::Linear(*a, *b, *c),
        VestingSchedule::Milestone(ms) => {
            let mut out: Vec<(u64, i128)> = Vec::new();
            let mut i: usize = 0;
            while i < ms.len()
                invariant
                    i <= ms@.len(),
                    out@ =~= ms@.take(i as int),
                decreases ms@.len() - i,
            {
                out.push(ms[i]);
                i = i + 1;
            }
            assert(ms@.take(ms@.len() as int) =~= ms@);
            VestingSchedule::Milestone(out)
        },
    }
}

fn copy_grant(g: &Grant) -> (r: Grant)
    ensures
        same_grant(r, *g),
{
    Grant {
        recipient: g.recipient.clone(),
        principal: g.principal,
        schedule: copy_schedule(&g.schedule),
        claimed: g.claimed,
    }
}

/// Checks a milestone list for `principal`; see [`milestones_verdict`].
pub fn validate_milestones(ms: &Vec<(u64, i128)>, principal: i128) -> (r: Result<(), VestingError>)
    ensures
        r == milestones_verdict(ms@, principal),
{
    if ms.len() == 0 {
        return Err(VestingError::NoMilestones);
    }
    let mut i: usize = 1;
    while i < ms.len()
        invariant
            1 <= i <= ms@.len(),
            forall|j: int| 0 < j < i ==> #[trigger] timestamp_rises(ms@, j),
        decreases ms@.len() - i,
    {
        if ms[i].0 <= ms[i - 1].0 {
            assert(!timestamp_rises(ms@, i as int));
            return Err(VestingError::NonIncreasingTimestamps);
        }
        assert(timestamp_rises(ms@, i as int));
        i = i + 1;
    }
    let mut i: usize = 0;
    while i < ms.len()
        invariant
            i <= ms@.len(),
            ms@.len() > 0,
            forall|j: int| 0 < j < ms@.len() ==> #[trigger] timestamp_rises(ms@, j),
            forall|j: int| 0 <= j < i ==> #[trigger] cumulative_rises(ms@, j),
        decreases ms@.len() - i,
    {
        let previous: i128 = if i == 0 { 0 } else { ms[i - 1].1 };
        if ms[i].1 <= previous {
            assert(!cumulative_rises(ms@, i as int));
            return Err(VestingError::NonIncreasingCumulative);
        }
        assert(cumulative_rises(ms@, i as int));
        i = i + 1;
    }
    let mut i: usize = 0;
    while i < ms.len()
        invariant
            i <= ms@.len(),
            ms@.len() > 0,
            forall|j: int| 0 < j < ms@.len() ==> #[trigger] timestamp_rises(ms@, j),
            forall|j: int| 0 <= j < ms@.len() ==> #[trigger] cumulative_rises(ms@, j),
            forall|j: int| 0 <= j < i ==> ms@[j].1 <= principal,
        decreases ms@.len() - i,
    {
        if ms[i].1 > principal {
            return Err(VestingError::CumulativeExceedsPrincipal);
        }
        i = i + 1;
    }
    if ms[ms.len() - 1].1 != principal {
        return Err(VestingError::FinalCumulativeMismatch);
    }
    Ok(())
}

/// Checks a schedule for `principal`; see [`schedule_verdict`].
pub fn validate_schedule(principal: i128, schedule: &VestingSchedule) -> (r: Result<(), VestingError>)
    ensures
        r == schedule_verdict(principal, *schedule),
{
    if principal <= 0 {
        return Err(VestingError::InvalidPrincipal);
    }
    match schedule {
        VestingSchedule::Linear(start, cliff, end) => {
            if *start <= *cliff && *cliff <= *end && *start < *end {
                Ok(())
            } else {
                Err(VestingError::InvalidLinearSchedule)
            }
        },
        VestingSchedule::Milestone(ms) => validate_milestones(ms, principal),
    }
}

/// The amount vested at `t` by a linear schedule.
pub fn linear_vested_at(principal: i128, start: u64, cliff: u64, end: u64, t: u64) -> (v: i128)
    requires
        principal > 0,
        start <= cliff <= end,
        start < end,
    ensures
        v == linear_vested(principal, start, cliff, end, t),
{
    if t < cliff {
        return 0;
    }
    if t >= end {
        return principal;
    }
    let elapsed = (t - start) as i128;
    let duration = (end - start) as i128;
    match principal.checked_mul(elapsed) {
        Some(p) => p / duration,
        None => 0,
    }
}

/// The amount vested at `t` by a milestone list.
pub fn milestone_vested_at(ms: &Vec<(u64, i128)>, t: u64) -> (v: i128)
    ensures
        v == milestone_vested(ms@, t),
{
    let mut acc: i128 = 0;
    let mut i: usize = 0;
    while i < ms.len()
        invariant
            i <= ms@.len(),
            acc == milestone_vested(ms@.take(i as int), t),
        decreases ms@.len() - i,
    {
        assert(ms@.take(i + 1).drop_last() =~= ms@.take(i as int));
        if ms[i].0 <= t {
            acc = ms[i].1;
        }
        i = i + 1;
    }
    assert(ms@.take(ms@.len() as int) =~= ms@);
    acc
}

/// The amount vested at `t` by a schedule over `principal`.
pub fn vested_amount(principal: i128, schedule: &VestingSchedule, t: u64) -> (v: i128)
    requires
        schedule_verdict(principal, *schedule) is Ok,
    ensures
        v == vested(principal, *schedule, t),
{
    match schedule {
        VestingSchedule::Linear(start, cliff, end) => linear_vested_at(
            principal,
            *start,
            *cliff,
            *end,
            t,
        ),
        VestingSchedule::Milestone(ms) => milestone_vested_at(ms, t),
    }
}

impl VestingContract {
    /// Every grant has a valid schedule, and its claimed amount lies between
    /// zero and what it has vested by the end of its schedule.
    pub open spec fn wf(&self) -> bool {
        forall|i: int|
            0 <= i < self.grants@.len() ==> {
                &&& schedule_verdict(self.grants@[i].principal, self.grants@[i].schedule) is Ok
                &&& 0 <= self.grants@[i].claimed <= self.grants@[i].principal
            }
    }

    /// A contract with no admin and no grant.
    pub fn new() -> (c: VestingContract)
        ensures
            c.admin is None,
            c.grants@.len() == 0,
            c.wf(),
    {
        VestingContract { admin: None, grants: Vec::new() }
    }

    /// One-time admin setup.
    pub fn initialize(&mut self, admin: String) -> (r: Result<(), VestingError>)
        ensures
            old(self).admin is Some ==> r == Err::<(), VestingError>(
                VestingError::AlreadyInitialized,
            ) && *final(self) == *old(self),
            old(self).admin is None ==> r is Ok && final(self).admin == Some(admin)
                && final(self).grants == old(self).grants,
    {
        if self.admin.is_some() {
            return Err(VestingError::AlreadyInitialized);
        }
        self.admin = Some(admin);
        Ok(())
    }

    /// The admin, if initialised.
    pub fn get_admin(&self) -> (r: Option<String>)
        ensures
            r == self.admin,
    {
        match &self.admin {
            Some(a) => Some(a.clone()),
            None => None,
        }
    }

    /// The verdict on `admin` adding a grant of `principal` to `recipient`.
    pub open spec fn add_grant_check(
        &self,
        admin: Seq<char>,
        recipient: Seq<char>,
        principal: i128,
        schedule: VestingSchedule,
    ) -> Result<(), VestingError> {
        match self.admin {
            None => Err(VestingError::NotInitialized),
            Some(a) => if a@ != admin {
                Err(VestingError::Unauthorized)
            } else {
                match schedule_verdict(principal, schedule) {
                    Err(e) => Err(e),
                    Ok(()) => if grant_index(self.grants@, recipient) is Some {
                        Err(VestingError::GrantExists)
                    } else {
                        Ok(())
                    },
                }
            },
        }
    }

    /// Creates a grant of `principal` to `recipient` following `schedule`.
    /// Only the admin may add grants; the schedule must be valid (see
    /// [`schedule_verdict`]) and the recipient must not have a grant yet.
    pub fn add_grant(
        &mut self,
        admin: &String,
        recipient: &String,
        principal: i128,
        schedule: VestingSchedule,
    ) -> (r: Result<(), VestingError>)
        requires
            old(self).wf(),
        ensures
            final(self).wf(),
            r == old(self).add_grant_check(admin@, recipient@, principal, schedule),
            r is Err ==> *final(self) == *old(self),
            r is Ok ==> final(self).admin == old(self).admin && final(self).grants@ == old(
                self,
            ).grants@.push(
                Grant { recipient: *recipient, principal, schedule, claimed: 0 },
            ),
    {
        match &self.admin {
            None => return Err(VestingError::NotInitialized),
            Some(a) => {
                if *a != *admin {
                    return Err(VestingError::Unauthorized);
                }
            },
        }
        match validate_schedule(principal, &schedule) {
            Err(e) => return Err(e),
            Ok(()) => {},
        }
        if find_grant(&self.grants, recipient).is_some() {
            return Err(VestingError::GrantExists);
        }
        self.grants.push(Grant { recipient: recipient.clone(), principal, schedule, claimed: 0 });
        Ok(())
    }

    /// The vested amount of `recipient`'s grant at `t`.
    pub fn vested_at(&self, recipient: &String, t: u64) -> (r: Result<i128, VestingError>)
        requires
            self.wf(),
        ensures
            match grant_index(self.grants@, recipient@) {
                None => r == Err::<i128, VestingError>(VestingError::NoGrant),
                Some(i) => r == Ok::<i128, VestingError>(
                    vested(self.grants@[i].principal, self.grants@[i].schedule, t) as i128,
                ),
            },
    {
        match find_grant(&self.grants, recipient) {
            None => Err(VestingError::NoGrant),
            Some(i) => Ok(vested_amount(self.grants[i].principal, &self.grants[i].schedule, t)),
        }
    }

    /// What `recipient` may claim at `now`: vested minus already claimed.
    pub fn claimable(&self, recipient: &String, now: u64) -> (r: Result<i128, VestingError>)
        requires
            self.wf(),
        ensures
            match grant_index(self.grants@, recipient@) {
                None => r == Err::<i128, VestingError>(VestingError::NoGrant),
                Some(i) => r == Ok::<i128, VestingError>(
                    (vested(self.grants@[i].principal, self.grants@[i].schedule, now)
                        - self.grants@[i].claimed) as i128,
                ),
            },
    {
        match find_grant(&self.grants, recipient) {
            None => Err(VestingError::NoGrant),
            Some(i) => {
                let g = &self.grants[i];
                let v = vested_amount(g.principal, &g.schedule, now);
                proof {
                    law_vested_within_principal(g.principal, g.schedule, now);
                }
                Ok(v - g.claimed)
            },
        }
    }

    /// Alias for [`VestingContract::claimable`].
    pub fn sync(&self, recipient: &String, now: u64) -> (r: Result<i128, VestingError>)
        requires
            self.wf(),
        ensures
            match grant_index(self.grants@, recipient@) {
                None => r == Err::<i128, VestingError>(VestingError::NoGrant),
                Some(i) => r == Ok::<i128, VestingError>(
                    (vested(self.grants@[i].principal, self.grants@[i].schedule, now)
                        - self.grants@[i].claimed) as i128,
                ),
            },
    {
        self.claimable(recipient, now)
    }

    /// The grant of `recipient`.
    pub fn get_grant(&self, recipient: &String) -> (r: Result<Grant, VestingError>)
        ensures
            match grant_index(self.grants@, recipient@) {
                None => r == Err::<Grant, VestingError>(VestingError::NoGrant),
                Some(i) => r matches Ok(g) && same_grant(g, self.grants@[i]),
            },
    {
        match find_grant(&self.grants, recipient) {
            None => Err(VestingError::NoGrant),
            Some(i) => Ok(copy_grant(&self.grants[i])),
        }
    }

    /// Claims `amount` of `recipient`'s vested tokens at `now`. Rejected,
    /// leaving the contract unchanged, when the amount is not positive, the
    /// recipient has no grant, or the amount exceeds what is claimable. On
    /// success the claimed amount grows by `amount` and the updated grant
    /// is returned; moving the tokens is the host's task.
    pub fn claim(&mut self, recipient: &String, amount: i128, now: u64) -> (r: Result<
        Grant,
        VestingError,
    >)
        requires
            old(self).wf(),
        ensures
            final(self).wf(),
            r is Err ==> *final(self) == *old(self),
            amount <= 0 ==> r == Err::<Grant, VestingError>(VestingError::InvalidAmount),
            amount > 0 ==> match grant_index(old(self).grants@, recipient@) {
                None => r == Err::<Grant, VestingError>(VestingError::NoGrant),
                Some(i) => {
                    let g = old(self).grants@[i];
                    if amount > vested(g.principal, g.schedule, now) - g.claimed {
                        r == Err::<Grant, VestingError>(VestingError::InsufficientVested)
                    } else {
                        let g2 = Grant { claimed: (g.claimed + amount) as i128, ..g };
                        &&& r matches Ok(g3) && same_grant(g3, g2)
                        &&& final(self).grants@ == old(self).grants@.update(i, g2)
                        &&& final(self).admin == old(self).admin
                    }
                },
            },
    {
        if amount <= 0 {
            return Err(VestingError::InvalidAmount);
        }
        let i = match find_grant(&self.grants, recipient) {
            None => return Err(VestingError::NoGrant),
            Some(i) => i,
        };
        let v = vested_amount(self.grants[i].principal, &self.grants[i].schedule, now);
        proof {
            law_vested_within_principal(self.grants@[i as int].principal, self.grants@[i as int].schedule, now);
        }
        let claimed = self.grants[i].claimed;
        if amount > v - claimed {
            return Err(VestingError::InsufficientVested);
        }
        let mut g = self.grants.remove(i);
        g.claimed = claimed + amount;
        let out = copy_grant(&g);
        self.grants.insert(i, g);
        Ok(out)
    }
}

/// Law: a valid schedule never vests a negative amount nor more than the
/// principal.
pub proof fn law_vested_within_principal(principal: i128, schedule: VestingSchedule, t: u64)
    requires
        schedule_verdict(principal, schedule) is Ok,
    ensures
        0 <= vested(principal, schedule, t) <= principal,
{
    match schedule {
        VestingSchedule::Linear(start, cliff, end) => {
            if cliff <= t < end {
                let e = (t - start) as int;
                let d = (end - start) as int;
                assert(0 <= e < d);
                assert(0 <= principal * e <= principal * d) by (nonlinear_arith)
                    requires
                        0 <= e < d,
                        principal > 0,
                ;
                assert(0 <= (principal * e) / d <= principal) by (nonlinear_arith)
                    requires
                        0 <= principal * e <= principal * d,
                        d > 0,
                        principal > 0,
                ;
            }
        },
        VestingSchedule::Milestone(ms) => {
            assert forall|i: int| 0 <= i < ms@.len() implies 0 < #[trigger] ms@[i].1 <= principal by {
                lemma_cumulative_positive(ms@, i);
            }
            lemma_milestone_bounds(ms@, t, principal);
        },
    }
}

proof fn lemma_cumulative_positive(ms: Seq<(u64, i128)>, i: int)
    requires
        0 <= i < ms.len(),
        forall|j: int| 0 <= j < ms.len() ==> #[trigger] cumulative_rises(ms, j),
    ensures
        ms[i].1 > 0,
    decreases i,
{
    assert(cumulative_rises(ms, i));
    if i > 0 {
        lemma_cumulative_positive(ms, i - 1);
    }
}

proof fn lemma_milestone_bounds(ms: Seq<(u64, i128)>, t: u64, principal: i128)
    requires
        principal > 0,
        forall|i: int| 0 <= i < ms.len() ==> 0 < #[trigger] ms[i].1 <= principal,
    ensures
        0 <= milestone_vested(ms, t) <= principal,
    decreases ms.len(),
{
    if ms.len() > 0 {
        assert(0 < ms[ms.len() - 1].1 <= principal);
        assert forall|i: int| 0 <= i < ms.drop_last().len() implies 0 < #[trigger] ms.drop_last()[i].1
            <= principal by {
            assert(ms.drop_last()[i] == ms[i]);
        }
        lemma_milestone_bounds(ms.drop_last(), t, principal);
        if ms.last().0 <= t {
            assert(milestone_vested(ms, t) == ms.last().1 as int);
        } else {
            assert(milestone_vested(ms, t) == milestone_vested(ms.drop_last(), t));
        }
    }
}

proof fn lemma_milestone_vested_le_last(ms: Seq<(u64, i128)>, t: u64)
    requires
        ms.len() > 0,
        forall|j: int| 0 <= j < ms.len() ==> #[trigger] cumulative_rises(ms, j),
    ensures
        milestone_vested(ms, t) <= ms.last().1,
    decreases ms.len(),
{
    let p = ms.drop_last();
    if p.len() > 0 {
        assert forall|j: int| 0 <= j < p.len() implies #[trigger] cumulative_rises(p, j) by {
            assert(cumulative_rises(ms, j));
            assert(p[j] == ms[j]);
            if j > 0 {
                assert(p[j - 1] == ms[j - 1]);
            }
        }
        lemma_milestone_vested_le_last(p, t);
        assert(cumulative_rises(ms, ms.len() - 1));
        assert(p.last() == ms[ms.len() - 2]);
    } else {
        assert(cumulative_rises(ms, 0));
        assert(milestone_vested(p, t) == 0);
    }
    if ms.last().0 > t {
        assert(milestone_vested(ms, t) == milestone_vested(p, t));
    }
}

proof fn lemma_milestone_monotone(ms: Seq<(u64, i128)>, t1: u64, t2: u64)
    requires
        t1 <= t2,
        forall|j: int| 0 <= j < ms.len() ==> #[trigger] cumulative_rises(ms, j),
    ensures
        milestone_vested(ms, t1) <= milestone_vested(ms, t2),
    decreases ms.len(),
{
    if ms.len() > 0 {
        let p = ms.drop_last();
        assert forall|j: int| 0 <= j < p.len() implies #[trigger] cumulative_rises(p, j) by {
            assert(cumulative_rises(ms, j));
            assert(p[j] == ms[j]);
            if j > 0 {
                assert(p[j - 1] == ms[j - 1]);
            }
        }
        lemma_milestone_monotone(p, t1, t2);
        if ms.last().0 > t1 && ms.last().0 <= t2 {
            if p.len() > 0 {
                lemma_milestone_vested_le_last(p, t1);
                assert(cumulative_rises(ms, ms.len() - 1));
            } else {
                assert(cumulative_rises(ms, 0));
            }
        }
    }
}

/// Law: vesting never goes backwards in time, provided the linear product
/// `principal * (end - start)` fits in `i128` (beyond that the documented
/// overflow fallback of `0` applies).
pub proof fn law_vested_never_decreases(principal: i128, schedule: VestingSchedule, t1: u64, t2: u64)
    requires
        schedule_verdict(principal, schedule) is Ok,
        t1 <= t2,
        schedule matches VestingSchedule::Linear(start, cliff, end) ==> principal * (end - start)
            <= i128::MAX,
    ensures
        vested(principal, schedule, t1) <= vested(principal, schedule, t2),
{
    law_vested_within_principal(principal, schedule, t1);
    law_vested_within_principal(principal, schedule, t2);
    match schedule {
        VestingSchedule::Linear(start, cliff, end) => {
            if cliff <= t1 && t2 < end {
                let d = (end - start) as int;
                let e1 = (t1 - start) as int;
                let e2 = (t2 - start) as int;
                let p = principal as int;
                assert(0 <= p * e1 <= p * e2 <= p * d) by (nonlinear_arith)
                    requires
                        0 <= e1 <= e2 < d,
                        p > 0,
                ;
                assert((p * e1) / d <= (p * e2) / d) by (nonlinear_arith)
                    requires
                        0 <= p * e1 <= p * e2,
                        d > 0,
                ;
            }
        },
        VestingSchedule::Milestone(ms) => {
            lemma_milestone_monotone(ms@, t1, t2);
        },
    }
}

/// Law: a valid linear schedule vests nothing before its cliff and the
/// whole principal from its end; in between, time counts from the start:
/// the vested amount `v` is the principal's share of the time elapsed since
/// `start` over the whole span `end - start`, rounded down, that is
/// `v * (end - start) <= principal * (t - start) < (v + 1) * (end - start)`
/// (when that product fits in `i128`; beyond it the overflow fallback of
/// `0` applies).
pub proof fn law_linear_vesting_counts_from_start(
    principal: i128,
    start: u64,
    cliff: u64,
    end: u64,
    t: u64,
)
    requires
        schedule_verdict(principal, VestingSchedule::Linear(start, cliff, end)) is Ok,
    ensures
        t < cliff ==> vested(principal, VestingSchedule::Linear(start, cliff, end), t) == 0,
        t >= end ==> vested(principal, VestingSchedule::Linear(start, cliff, end), t)
            == principal,
        cliff <= t < end && principal * (t - start) <= i128::MAX ==> {
            let v = vested(principal, VestingSchedule::Linear(start, cliff, end), t);
            &&& v * (end - start) <= principal * (t - start)
            &&& principal * (t - start) < (v + 1) * (end - start)
        },
{
    if cliff <= t < end && principal * (t - start) <= i128::MAX {
        let v = vested(principal, VestingSchedule::Linear(start, cliff, end), t);
        let p = principal * (t - start);
        let d = (end - start) as int;
        assert(p >= 0) by (nonlinear_arith)
            requires
                principal > 0,
                t - start >= 0,
                p == principal * (t - start),
        ;
        assert(v == p / d);
        assert(v * d <= p < (v + 1) * d) by (nonlinear_arith)
            requires
                d > 0,
                v == p / d,
        ;
    }
}

/// Law: a milestone schedule vests the cumulative amount of the latest
/// milestone whose timestamp has been reached (a milestone counts from its
/// timestamp on, inclusive), and nothing when none has been reached.
pub proof fn law_milestone_vests_latest_reached(ms: Seq<(u64, i128)>, t: u64)
    ensures
        (forall|i: int| 0 <= i < ms.len() ==> (#[trigger] ms[i]).0 > t) ==> milestone_vested(ms, t)
            == 0,
        (exists|i: int| 0 <= i < ms.len() && (#[trigger] ms[i]).0 <= t) ==> exists|j: int|
            0 <= j < ms.len() && (#[trigger] ms[j]).0 <= t && milestone_vested(ms, t) == ms[j].1
                && forall|k: int| j < k < ms.len() ==> (#[trigger] ms[k]).0 > t,
    decreases ms.len(),
{
    if ms.len() > 0 {
        let p = ms.drop_last();
        let n = ms.len() - 1;
        law_milestone_vests_latest_reached(p, t);
        assert forall|i: int| 0 <= i < p.len() implies #[trigger] p[i] == ms[i] by {}
        if ms[n].0 <= t {
            assert(milestone_vested(ms, t) == ms[n].1);
        } else {
            assert(milestone_vested(ms, t) == milestone_vested(p, t));
            if exists|i: int| 0 <= i < ms.len() && (#[trigger] ms[i]).0 <= t {
                let i = choose|i: int| 0 <= i < ms.len() && (#[trigger] ms[i]).0 <= t;
                assert(p[i].0 <= t);
                let j = choose|j: int|
                    0 <= j < p.len() && (#[trigger] p[j]).0 <= t && milestone_vested(p, t)
                        == p[j].1 && forall|k: int| j < k < p.len() ==> (#[trigger] p[k]).0 > t;
                assert(ms[j].0 <= t);
                assert forall|k: int| j < k < ms.len() implies (#[trigger] ms[k]).0 > t by {
                    if k < p.len() {
                        assert(p[k].0 > t);
                    }
                }
            } else {
                assert forall|i: int| 0 <= i < p.len() implies (#[trigger] p[i]).0 > t by {
                    assert(ms[i].0 > t);
                }
            }
        }
    }
}

} // verus!
