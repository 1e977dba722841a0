//! Governance: the proposal lifecycle, one-person-one-vote voting open to
//! the admin, the configured voters and the guardians, guardian management
//! and guardian-driven admin recovery. The host authenticates callers and
//! passes in the ledger time and sequence number.

use vstd::prelude::*;
use std::collections::HashMap;

verus! {

broadcast use vstd::std_specs::hash::group_hash_axioms;

/// Voting period used when none is configured: seven days, in seconds.
pub const DEFAULT_VOTING_PERIOD: u64 = 604800;

/// Execution delay used when none is configured: one day, in seconds.
pub const DEFAULT_EXECUTION_DELAY: u64 = 86400;

/// Quorum used when none is configured, in basis points.
pub const DEFAULT_QUORUM_BPS: u32 = 5000;

/// Proposal threshold used when none is configured.
pub const DEFAULT_PROPOSAL_THRESHOLD: i128 = 1000;

/// Timelock used when none is configured: one day, in seconds.
pub const DEFAULT_TIMELOCK_DURATION: u64 = 86400;

/// Voting threshold used when none is configured, in basis points.
pub const DEFAULT_VOTING_THRESHOLD: i128 = 5000;

/// Ledgers between queueing a proposal and its earliest execution.
pub const QUEUE_DELAY_LEDGERS: u32 = 100;

/// Guardian approval threshold of a guardian set created implicitly.
pub const DEFAULT_GUARDIAN_THRESHOLD: u32 = 1;

/// Errors raised by governance operations.
#[derive(Clone, Copy, Debug, PartialEq, Eq, Structural)]
pub enum GovernanceError {
    NotInitialized,
    AlreadyInitialized,
    Unauthorized,
    ProposalNotFound,
    ProposalNotActive,
    AlreadyVoted,
    VotingNotOpen,
    AlreadyExecuted,
    InvalidConfig,
}

impl GovernanceError {
    /// The stable numeric code of each error.
    pub open spec fn spec_code(self) -> u32 {
        match self {
            GovernanceError::NotInitialized => 1,
            GovernanceError::AlreadyInitialized => 2,
            GovernanceError::Unauthorized => 3,
            GovernanceError::ProposalNotFound => 4,
            GovernanceError::ProposalNotActive => 5,
            GovernanceError::AlreadyVoted => 6,
            GovernanceError::VotingNotOpen => 7,
            GovernanceError::AlreadyExecuted => 8,
            GovernanceError::InvalidConfig => 9,
        }
    }

    /// The stable numeric code of the error.
    pub fn code(&self) -> (c: u32)
        ensures
            c == self.spec_code(),
    {
        match self {
            GovernanceError::NotInitialized => 1,
            GovernanceError::AlreadyInitialized => 2,
            GovernanceError::Unauthorized => 3,
            GovernanceError::ProposalNotFound => 4,
            GovernanceError::ProposalNotActive => 5,
            GovernanceError::AlreadyVoted => 6,
            GovernanceError::VotingNotOpen => 7,
            GovernanceError::AlreadyExecuted => 8,
            GovernanceError::InvalidConfig => 9,
        }
    }
}

/// A ballot.
#[derive(Clone, Copy, Debug, PartialEq, Eq, Structural)]
pub enum VoteType {
    Yes,
    No,
}

/// How a proposal ended up.
#[derive(Clone, Copy, Debug, PartialEq, Eq, Structural)]
pub enum ProposalOutcome {
    Approved,
    Cancelled,
}

/// The governance configuration.
#[derive(Clone, Debug, PartialEq, Eq)]
pub struct GovernanceConfig {
    pub admin: String,
    pub vote_token: String,
    pub voting_period: u64,
    pub execution_delay: u64,
    pub quorum_bps: u32,
    pub proposal_threshold: i128,
    pub timelock_duration: u64,
    pub default_voting_threshold: i128,
    /// Addresses allowed to propose and vote besides the admin.
    pub voters: Vec<String>,
}

/// A proposal. Its type is carried as the host names it; governance never
/// reads it.
#[derive(Clone, Debug, PartialEq, Eq)]
pub struct Proposal {
    pub id: u64,
    pub proposer: String,
    pub proposal_type: String,
    pub description: String,
    pub start_time: u64,
    pub end_time: u64,
    pub executed: bool,
    pub cancelled: bool,
    pub outcome: Option<ProposalOutcome>,
    /// Ledger sequence from which a queued proposal may execute.
    pub eta_ledger: u32,
    pub yes_votes: i128,
    pub no_votes: i128,
}

/// A recorded vote.
#[derive(Clone, Debug, PartialEq, Eq)]
pub struct VoteInfo {
    pub voter: String,
    pub vote_type: VoteType,
    pub weight: i128,
    pub timestamp: u64,
}

/// The multisig configuration.
#[derive(Clone, Debug, PartialEq, Eq)]
pub struct MultisigConfig {
    pub admins: Vec<String>,
    pub threshold: u32,
}

/// The guardians and how many approvals a recovery needs.
#[derive(Clone, Debug, PartialEq, Eq)]
pub struct GuardianConfig {
    pub guardians: Vec<String>,
    pub threshold: u32,
}

/// A pending admin recovery.
#[derive(Clone, Debug, PartialEq, Eq)]
pub struct RecoveryRequest {
    pub old_admin: String,
    pub new_admin: String,
    pub initiated_at: u64,
    pub approval_count: u32,
}

/// Everything governance stores.
pub struct GovernanceState {
    pub config: Option<GovernanceConfig>,
    pub proposal_counter: Option<u64>,
    /// Proposals by id.
    pub proposals: HashMap<u64, Proposal>,
    /// Recorded votes, each with the id of its proposal.
    pub votes: Vec<(u64, VoteInfo)>,
    pub multisig: Option<MultisigConfig>,
    pub guardian_config: Option<GuardianConfig>,
    pub recovery_request: Option<RecoveryRequest>,
    pub recovery_approvals: Option<Vec<String>>,
}

/// Whether some entry of `v` has the text `t`.
pub open spec fn has_text(v: Seq<String>, t: Seq<char>) -> bool {
    exists|i: int| 0 <= i < v.len() && #[trigger] v[i]@ == t
}

/// The first vote recorded by `voter` on proposal `id`, if any.
pub open spec fn vote_in(votes: Seq<(u64, VoteInfo)>, id: u64, voter: Seq<char>) -> Option<VoteInfo>
    decreases votes.len(),
{
    if votes.len() == 0 {
        None
    } else {
        match vote_in(votes.drop_last(), id, voter) {
            Some(v) => Some(v),
            None => if votes.last().0 == id && votes.last().1.voter@ == voter {
                Some(votes.last().1)
            } else {
                None
            },
        }
    }
}

/// `x + 1`, or `x` at `i128::MAX`.
pub open spec fn saturating_inc(x: i128) -> i128 {
    if x == i128::MAX {
        x
    } else {
        (x + 1) as i128
    }
}

/// The proposals with ids from `lo` to `hi`, in id order, skipping ids
/// with no proposal.
pub open spec fn proposals_between(m: Map<u64, Proposal>, lo: int, hi: int) -> Seq<Proposal>
    decreases hi - lo + 1,
{
    if hi < lo {
        Seq::empty()
    } else {
        let before = proposals_between(m, lo, hi - 1);
        if m.contains_key(hi as u64) {
            before.push(m[hi as u64])
        } else {
            before
        }
    }
}

/// The last id listed for a page of `limit` proposals from `start`: the
/// page's last id, or the highest id issued if that is lower.
pub open spec fn page_end(counter: Option<u64>, start: u64, limit: u32) -> int {
    let issued: int = match counter {
        Some(n) => n as int,
        None => 0,
    };
    let span = start.saturating_add((limit - 1) as u64) as int;
    if issued < span {
        issued
    } else {
        span
    }
}

/// Two configurations hold the same settings and voters.
pub open spec fn same_config(a: GovernanceConfig, b: GovernanceConfig) -> bool {
    &&& a.admin == b.admin
    &&& a.vote_token == b.vote_token
    &&& a.voting_period == b.voting_period
    &&& a.execution_delay == b.execution_delay
    &&& a.quorum_bps == b.quorum_bps
    &&& a.proposal_threshold == b.proposal_threshold
    &&& a.timelock_duration == b.timelock_duration
    &&& a.default_voting_threshold == b.default_voting_threshold
    &&& a.voters@ == b.voters@
}

impl GovernanceState {
    /// The proposal stored under `id`, if any.
    pub open spec fn proposal(&self, id: u64) -> Option<Proposal> {
        if self.proposals@.contains_key(id) {
            Some(self.proposals@[id])
        } else {
            None
        }
    }

    /// Whether `a` is a configured guardian.
    pub open spec fn guardian(&self, a: Seq<char>) -> bool {
        self.guardian_config matches Some(gc) && has_text(gc.guardians@, a)
    }

    /// Whether `a` may vote under configuration `c`: the admin, a
    /// configured voter, or a guardian.
    pub open spec fn eligible(&self, c: GovernanceConfig, a: Seq<char>) -> bool {
        a == c.admin@ || has_text(c.voters@, a) || self.guardian(a)
    }

    /// The id the next proposal receives.
    pub open spec fn next_id(&self) -> u64 {
        let n: u64 = match self.proposal_counter {
            Some(n) => n,
            None => 0,
        };
        n.saturating_add(1)
    }

    /// The verdict on `proposer` creating a proposal.
    pub open spec fn create_check(&self, proposer: Seq<char>) -> Result<(), GovernanceError> {
        match self.config {
            None => Err(GovernanceError::NotInitialized),
            Some(c) => if proposer != c.admin@ && !has_text(c.voters@, proposer) {
                Err(GovernanceError::Unauthorized)
            } else {
                Ok(())
            },
        }
    }

    /// The verdict on `caller` cancelling proposal `id`.
    pub open spec fn cancel_check(&self, caller: Seq<char>, id: u64) -> Result<(), GovernanceError> {
        match self.proposal(id) {
            None => Err(GovernanceError::ProposalNotFound),
            Some(p) => match self.config {
                None => Err(GovernanceError::NotInitialized),
                Some(c) => if caller != p.proposer@ && caller != c.admin@ {
                    Err(GovernanceError::Unauthorized)
                } else if p.executed {
                    Err(GovernanceError::AlreadyExecuted)
                } else {
                    Ok(())
                },
            },
        }
    }

    /// The verdict on `voter` voting on proposal `id` at time `now`.
    pub open spec fn vote_check(&self, voter: Seq<char>, id: u64, now: u64) -> Result<
        (),
        GovernanceError,
    > {
        match self.config {
            None => Err(GovernanceError::NotInitialized),
            Some(c) => if !self.eligible(c, voter) {
                Err(GovernanceError::Unauthorized)
            } else {
                match self.proposal(id) {
                    None => Err(GovernanceError::ProposalNotFound),
                    Some(p) => if p.executed || p.cancelled || now > p.end_time {
                        Err(GovernanceError::ProposalNotActive)
                    } else if vote_in(self.votes@, id, voter) is Some {
                        Err(GovernanceError::AlreadyVoted)
                    } else {
                        Ok(())
                    },
                }
            },
        }
    }

    /// Whether `voter` may vote on proposal `id` at time `now`: governance
    /// is initialised, the proposal exists and is active (neither executed
    /// nor cancelled nor past its end), and the voter is eligible.
    pub open spec fn voting_open(&self, voter: Seq<char>, id: u64, now: u64) -> bool {
        match self.config {
            None => false,
            Some(c) => match self.proposal(id) {
                None => false,
                Some(p) => !p.executed && !p.cancelled && now <= p.end_time && self.eligible(
                    c,
                    voter,
                ),
            },
        }
    }

    /// The verdict on an admin-only operation requested by `caller`.
    pub open spec fn admin_check(&self, caller: Seq<char>) -> Result<(), GovernanceError> {
        match self.config {
            None => Err(GovernanceError::NotInitialized),
            Some(c) => if caller != c.admin@ {
                Err(GovernanceError::Unauthorized)
            } else {
                Ok(())
            },
        }
    }

    /// The verdict on queueing proposal `id`.
    pub open spec fn queue_check(&self, id: u64) -> Result<(), GovernanceError> {
        match self.proposal(id) {
            None => Err(GovernanceError::ProposalNotFound),
            Some(p) => if p.executed || p.cancelled {
                Err(GovernanceError::ProposalNotActive)
            } else {
                Ok(())
            },
        }
    }

    /// The verdict on executing proposal `id` at ledger `sequence`.
    pub open spec fn execute_check(&self, id: u64, sequence: u32) -> Result<(), GovernanceError> {
        match self.proposal(id) {
            None => Err(GovernanceError::ProposalNotFound),
            Some(p) => if p.executed {
                Err(GovernanceError::AlreadyExecuted)
            } else if p.outcome != Some(ProposalOutcome::Approved) {
                Err(GovernanceError::ProposalNotActive)
            } else if sequence < p.eta_ledger {
                Err(GovernanceError::ProposalNotActive)
            } else {
                Ok(())
            },
        }
    }

    /// The verdict on `initiator` starting a recovery.
    pub open spec fn recovery_start_check(&self, initiator: Seq<char>) -> Result<
        (),
        GovernanceError,
    > {
        if self.config is None {
            Err(GovernanceError::NotInitialized)
        } else if !self.guardian(initiator) {
            Err(GovernanceError::Unauthorized)
        } else {
            Ok(())
        }
    }

    /// The number of recovery approvals recorded.
    pub open spec fn approval_count(&self) -> nat {
        match self.recovery_approvals {
            Some(a) => a@.len(),
            None => 0,
        }
    }

    /// The verdict on executing the pending recovery.
    pub open spec fn recovery_execute_check(&self) -> Result<(), GovernanceError> {
        match self.recovery_request {
            None => Err(GovernanceError::NotInitialized),
            Some(_) => match self.guardian_config {
                None => Err(GovernanceError::Unauthorized),
                Some(gc) => if self.approval_count() < gc.threshold {
                    Err(GovernanceError::Unauthorized)
                } else if self.config is None {
                    Err(GovernanceError::NotInitialized)
                } else {
                    Ok(())
                },
            },
        }
    }

    /// All fields other than the proposals and votes agree.
    pub open spec fn same_settings(&self, other: &GovernanceState) -> bool {
        &&& self.config == other.config
        &&& self.proposal_counter == other.proposal_counter
        &&& self.multisig == other.multisig
        &&& self.guardian_config == other.guardian_config
        &&& self.recovery_request == other.recovery_request
        &&& self.recovery_approvals == other.recovery_approvals
    }
}

/// An uninitialised governance: nothing stored.
pub fn new_state() -> (s: GovernanceState)
    ensures
        s.config is None,
        s.proposal_counter is None,
        s.proposals@ == Map::<u64, Proposal>::empty(),
        s.votes@.len() == 0,
        s.multisig is None,
        s.guardian_config is None,
        s.recovery_request is None,
        s.recovery_approvals is None,
{
    GovernanceState {
        config: None,
        proposal_counter: None,
        proposals: HashMap::new(),
        votes: Vec::new(),
        multisig: None,
        guardian_config: None,
        recovery_request: None,
        recovery_approvals: None,
    }
}

fn contains_text(v: &Vec<String>, t: &String) -> (r: bool)
    ensures
        r == has_text(v@, t@),
{
    let mut i: usize = 0;
    while i < v.len()
        invariant
            i <= v@.len(),
            forall|j: int| 0 <= j < i ==> v@[j]@ != t@,
        decreases v@.len() - i,
    {
        if v[i] == *t {
            assert(v@[i as int]@ == t@);
            return true;
        }
        i = i + 1;
    }
    false
}

fn copy_texts(v: &Vec<String>) -> (r: Vec<String>)
    ensures
        r@ == v@,
{
    let mut out: Vec<String> = Vec::new();
    let mut i: usize = 0;
    while i < v.len()
        invariant
            i <= v@.len(),
            out@ == v@.take(i as int),
        decreases v@.len() - i,
    {
        out.push(v[i].clone());
        assert(out@ =~= v@.take(i + 1));
        i = i + 1;
    }
    assert(v@.take(v@.len() as int) =~= v@);
    out
}

fn copy_config(c: &GovernanceConfig) -> (r: GovernanceConfig)
    ensures
        same_config(r, *c),
{
    GovernanceConfig {
        admin: c.admin.clone(),
        vote_token: c.vote_token.clone(),
        voting_period: c.voting_period,
        execution_delay: c.execution_delay,
        quorum_bps: c.quorum_bps,
        proposal_threshold: c.proposal_threshold,
        timelock_duration: c.timelock_duration,
        default_voting_threshold: c.default_voting_threshold,
        voters: copy_texts(&c.voters),
    }
}

fn copy_proposal(p: &Proposal) -> (r: Proposal)
    ensures
        r == *p,
{
    Proposal {
        id: p.id,
        proposer: p.proposer.clone(),
        proposal_type: p.proposal_type.clone(),
        description: p.description.clone(),
        start_time: p.start_time,
        end_time: p.end_time,
        executed: p.executed,
        cancelled: p.cancelled,
        outcome: p.outcome,
        eta_ledger: p.eta_ledger,
        yes_votes: p.yes_votes,
        no_votes: p.no_votes,
    }
}

fn copy_vote(v: &VoteInfo) -> (r: VoteInfo)
    ensures
        r == *v,
{
    VoteInfo {
        voter: v.voter.clone(),
        vote_type: v.vote_type,
        weight: v.weight,
        timestamp: v.timestamp,
    }
}

fn copy_request(q: &RecoveryRequest) -> (r: RecoveryRequest)
    ensures
        r == *q,
{
    RecoveryRequest {
        old_admin: q.old_admin.clone(),
        new_admin: q.new_admin.clone(),
        initiated_at: q.initiated_at,
        approval_count: q.approval_count,
    }
}

fn lookup_proposal(state: &GovernanceState, id: u64) -> (r: Option<Proposal>)
    ensures
        r == state.proposal(id),
{
    match state.proposals.get(&id) {
        Some(p) => Some(copy_proposal(p)),
        None => None,
    }
}

/// Whether `address` is a configured guardian.
fn is_guardian(state: &GovernanceState, address: &String) -> (r: bool)
    ensures
        r == state.guardian(address@),
{
    match &state.guardian_config {
        Some(gc) => contains_text(&gc.guardians, address),
        None => false,
    }
}

/// Initialises governance with `admin` as the first voter; each setting
/// left `None` takes its default. Rejected, changing nothing, when already
/// initialised. The proposal counter starts at zero.
pub fn initialize(
    state: &mut GovernanceState,
    admin: String,
    vote_token: String,
    voting_period: Option<u64>,
    execution_delay: Option<u64>,
    quorum_bps: Option<u32>,
    proposal_threshold: Option<i128>,
    timelock_duration: Option<u64>,
    default_voting_threshold: Option<i128>,
) -> (r: Result<(), GovernanceError>)
    ensures
        old(state).config is Some ==> r == Err::<(), GovernanceError>(
            GovernanceError::AlreadyInitialized,
        ) && *final(state) == *old(state),
        old(state).config is None ==> {
            &&& r is Ok
            &&& final(state).config matches Some(c) && {
                &&& c.admin == admin
                &&& c.vote_token == vote_token
                &&& c.voting_period == (match voting_period {
                    Some(v) => v,
                    None => DEFAULT_VOTING_PERIOD,
                })
                &&& c.execution_delay == (match execution_delay {
                    Some(v) => v,
                    None => DEFAULT_EXECUTION_DELAY,
                })
                &&& c.quorum_bps == (match quorum_bps {
                    Some(v) => v,
                    None => DEFAULT_QUORUM_BPS,
                })
                &&& c.proposal_threshold == (match proposal_threshold {
                    Some(v) => v,
                    None => DEFAULT_PROPOSAL_THRESHOLD,
                })
                &&& c.timelock_duration == (match timelock_duration {
                    Some(v) => v,
                    None => DEFAULT_TIMELOCK_DURATION,
                })
                &&& c.default_voting_threshold == (match default_voting_threshold {
                    Some(v) => v,
                    None => DEFAULT_VOTING_THRESHOLD,
                })
                &&& c.voters@ == seq![admin]
            }
            &&& final(state).proposal_counter == Some(0u64)
            &&& final(state).proposals == old(state).proposals
            &&& final(state).votes == old(state).votes
            &&& final(state).multisig == old(state).multisig
            &&& final(state).guardian_config == old(state).guardian_config
            &&& final(state).recovery_request == old(state).recovery_request
            &&& final(state).recovery_approvals == old(state).recovery_approvals
        },
{
    if state.config.is_some() {
        return Err(GovernanceError::AlreadyInitialized);
    }
    let mut voters: Vec<String> = Vec::new();
    voters.push(admin.clone());
    let config = GovernanceConfig {
        admin,
        vote_token,
        voting_period: match voting_period {
            Some(v) => v,
            None => DEFAULT_VOTING_PERIOD,
        },
        execution_delay: match execution_delay {
            Some(v) => v,
            None => DEFAULT_EXECUTION_DELAY,
        },
        quorum_bps: match quorum_bps {
            Some(v) => v,
            None => DEFAULT_QUORUM_BPS,
        },
        proposal_threshold: match proposal_threshold {
            Some(v) => v,
            None => DEFAULT_PROPOSAL_THRESHOLD,
        },
        timelock_duration: match timelock_duration {
            Some(v) => v,
            None => DEFAULT_TIMELOCK_DURATION,
        },
        default_voting_threshold: match default_voting_threshold {
            Some(v) => v,
            None => DEFAULT_VOTING_THRESHOLD,
        },
        voters,
    };
    assert(config.voters@ =~= seq![config.admin]);
    state.config = Some(config);
    state.proposal_counter = Some(0);
    Ok(())
}

/// Creates a proposal by `proposer`, who must be the admin or a configured
/// voter; it opens at `now` and closes a voting period later (saturating).
/// Its id is the counter plus one (saturating), and the counter moves to
/// it. Returns the id. Rejected, changing nothing, when governance is not
/// initialised or the proposer is neither admin nor voter.
pub fn create_proposal(
    state: &mut GovernanceState,
    proposer: String,
    proposal_type: String,
    description: String,
    _voting_threshold: Option<i128>,
    now: u64,
) -> (r: Result<u64, GovernanceError>)
    ensures
        r is Ok <==> old(state).create_check(proposer@) is Ok,
        r matches Err(e) ==> old(state).create_check(proposer@) == Err::<(), GovernanceError>(e)
            && *final(state) == *old(state),
        r matches Ok(id) ==> {
            let c = old(state).config->Some_0;
            &&& id == old(state).next_id()
            &&& final(state).proposal_counter == Some(id)
            &&& final(state).proposals@ == old(state).proposals@.insert(
                id,
                Proposal {
                    id,
                    proposer,
                    proposal_type,
                    description,
                    start_time: now,
                    end_time: now.saturating_add(c.voting_period),
                    executed: false,
                    cancelled: false,
                    outcome: None,
                    eta_ledger: 0,
                    yes_votes: 0,
                    no_votes: 0,
                },
            )
            &&& final(state).config == old(state).config
            &&& final(state).votes == old(state).votes
            &&& final(state).multisig == old(state).multisig
            &&& final(state).guardian_config == old(state).guardian_config
            &&& final(state).recovery_request == old(state).recovery_request
            &&& final(state).recovery_approvals == old(state).recovery_approvals
        },
{
    let voting_period = match &state.config {
        None => return Err(GovernanceError::NotInitialized),
        Some(c) => {
            if proposer != c.admin && !contains_text(&c.voters, &proposer) {
                return Err(GovernanceError::Unauthorized);
            }
            c.voting_period
        },
    };
    let counter: u64 = match state.proposal_counter {
        Some(n) => n,
        None => 0,
    };
    let new_id = counter.saturating_add(1);
    let proposal = Proposal {
        id: new_id,
        proposer,
        proposal_type,
        description,
        start_time: now,
        end_time: now.saturating_add(voting_period),
        executed: false,
        cancelled: false,
        outcome: None,
        eta_ledger: 0,
        yes_votes: 0,
        no_votes: 0,
    };
    state.proposal_counter = Some(new_id);
    state.proposals.insert(new_id, proposal);
    Ok(new_id)
}

/// The proposal stored under `proposal_id`, if any.
pub fn get_proposal(state: &GovernanceState, proposal_id: u64) -> (r: Option<Proposal>)
    ensures
        r == state.proposal(proposal_id),
{
    lookup_proposal(state, proposal_id)
}

/// Up to `limit` proposals in id order, from `start_id` to the highest id
/// issued, skipping ids with no proposal; none when `limit` is zero.
pub fn get_proposals(state: &GovernanceState, start_id: u64, limit: u32) -> (r: Vec<Proposal>)
    ensures
        limit == 0 ==> r@.len() == 0,
        limit > 0 ==> r@ == proposals_between(
            state.proposals@,
            start_id as int,
            page_end(state.proposal_counter, start_id, limit),
        ),
{
    let mut out: Vec<Proposal> = Vec::new();
    if limit == 0 {
        return out;
    }
    let max_id: u64 = match state.proposal_counter {
        Some(n) => n,
        None => 0,
    };
    let span = start_id.saturating_add((limit - 1) as u64);
    let end = if max_id < span {
        max_id
    } else {
        span
    };
    if end < start_id {
        return out;
    }
    let ghost m = state.proposals@;
    let mut id = start_id;
    while id < end
        invariant
            start_id <= id <= end,
            m == state.proposals@,
            out@ == proposals_between(m, start_id as int, id - 1),
        decreases end - id,
    {
        match state.proposals.get(&id) {
            Some(p) => out.push(copy_proposal(p)),
            None => {},
        }
        id = id + 1;
    }
    match state.proposals.get(&id) {
        Some(p) => out.push(copy_proposal(p)),
        None => {},
    }
    out
}

/// Cancels proposal `proposal_id` on behalf of `caller`, its proposer or
/// the admin: it is marked cancelled with outcome `Cancelled`. Rejected,
/// changing nothing, when the proposal does not exist, governance is not
/// initialised, the caller is neither, or the proposal was executed.
pub fn cancel_proposal(state: &mut GovernanceState, caller: &String, proposal_id: u64) -> (r: Result<
    (),
    GovernanceError,
>)
    ensures
        r == old(state).cancel_check(caller@, proposal_id),
        r is Err ==> *final(state) == *old(state),
        r is Ok ==> {
            let p = old(state).proposal(proposal_id)->Some_0;
            &&& final(state).proposals@ == old(state).proposals@.insert(
                proposal_id,
                Proposal { cancelled: true, outcome: Some(ProposalOutcome::Cancelled), ..p },
            )
            &&& final(state).votes == old(state).votes
            &&& final(state).same_settings(&*old(state))
        },
{
    let mut proposal = match lookup_proposal(state, proposal_id) {
        None => return Err(GovernanceError::ProposalNotFound),
        Some(p) => p,
    };
    match &state.config {
        None => return Err(GovernanceError::NotInitialized),
        Some(c) => {
            if *caller != proposal.proposer && *caller != c.admin {
                return Err(GovernanceError::Unauthorized);
            }
        },
    }
    if proposal.executed {
        return Err(GovernanceError::AlreadyExecuted);
    }
    proposal.cancelled = true;
    proposal.outcome = Some(ProposalOutcome::Cancelled);
    state.proposals.insert(proposal_id, proposal);
    Ok(())
}

fn find_vote(votes: &Vec<(u64, VoteInfo)>, id: u64, voter: &String) -> (r: Option<VoteInfo>)
    ensures
        r == vote_in(votes@, id, voter@),
{
    let mut i: usize = 0;
    assert(votes@.take(0) =~= Seq::<(u64, VoteInfo)>::empty());
    while i < votes.len()
        invariant
            i <= votes@.len(),
            vote_in(votes@.take(i as int), id, voter@) is None,
        decreases votes@.len() - i,
    {
        assert(votes@.take(i + 1).drop_last() =~= votes@.take(i as int));
        if votes[i].0 == id && votes[i].1.voter == *voter {
            proof {
                lemma_vote_in_extends(votes@, id, voter@, i + 1);
            }
            return Some(copy_vote(&votes[i].1));
        }
        i = i + 1;
    }
    assert(votes@.take(votes@.len() as int) =~= votes@);
    None
}

proof fn lemma_vote_in_extends(votes: Seq<(u64, VoteInfo)>, id: u64, voter: Seq<char>, k: int)
    requires
        0 <= k <= votes.len(),
        vote_in(votes.take(k), id, voter) is Some,
    ensures
        vote_in(votes, id, voter) == vote_in(votes.take(k), id, voter),
    decreases votes.len() - k,
{
    if k < votes.len() {
        assert(votes.drop_last().take(k) =~= votes.take(k));
        lemma_vote_in_extends(votes.drop_last(), id, voter, k);
    } else {
        assert(votes.take(k) =~= votes);
    }
}

/// Casts `voter`'s ballot on proposal `proposal_id` at `now`, with weight
/// one: the vote is recorded and the matching tally grows by one
/// (saturating). Rejected, changing nothing, when governance is not
/// initialised, the voter is not eligible, the proposal does not exist or
/// is not active, or the voter already voted on it.
pub fn vote(
    state: &mut GovernanceState,
    voter: &String,
    proposal_id: u64,
    vote_type: VoteType,
    now: u64,
) -> (r: Result<(), GovernanceError>)
    ensures
        r == old(state).vote_check(voter@, proposal_id, now),
        r is Err ==> *final(state) == *old(state),
        r is Ok ==> {
            let p = old(state).proposal(proposal_id)->Some_0;
            &&& final(state).votes@ == old(state).votes@.push(
                (proposal_id, VoteInfo { voter: *voter, vote_type, weight: 1, timestamp: now }),
            )
            &&& final(state).proposals@ == old(state).proposals@.insert(
                proposal_id,
                match vote_type {
                    VoteType::Yes => Proposal { yes_votes: saturating_inc(p.yes_votes), ..p },
                    VoteType::No => Proposal { no_votes: saturating_inc(p.no_votes), ..p },
                },
            )
            &&& final(state).same_settings(&*old(state))
        },
{
    match &state.config {
        None => return Err(GovernanceError::NotInitialized),
        Some(c) => {
            if *voter != c.admin && !contains_text(&c.voters, voter) && !is_guardian(state, voter) {
                return Err(GovernanceError::Unauthorized);
            }
        },
    }
    let mut proposal = match lookup_proposal(state, proposal_id) {
        None => return Err(GovernanceError::ProposalNotFound),
        Some(p) => p,
    };
    if proposal.executed || proposal.cancelled {
        return Err(GovernanceError::ProposalNotActive);
    }
    if now > proposal.end_time {
        return Err(GovernanceError::ProposalNotActive);
    }
    if find_vote(&state.votes, proposal_id, voter).is_some() {
        return Err(GovernanceError::AlreadyVoted);
    }
    let weight: i128 = 1;
    state.votes.push(
        (proposal_id, VoteInfo { voter: voter.clone(), vote_type, weight, timestamp: now }),
    );
    match vote_type {
        VoteType::Yes => {
            proposal.yes_votes = if proposal.yes_votes == i128::MAX {
                proposal.yes_votes
            } else {
                proposal.yes_votes + weight
            };
        },
        VoteType::No => {
            proposal.no_votes = if proposal.no_votes == i128::MAX {
                proposal.no_votes
            } else {
                proposal.no_votes + weight
            };
        },
    }
    state.proposals.insert(proposal_id, proposal);
    Ok(())
}

/// The vote `voter` cast on proposal `proposal_id`, if any.
pub fn get_vote(state: &GovernanceState, proposal_id: u64, voter: &String) -> (r: Option<VoteInfo>)
    ensures
        r == vote_in(state.votes@, proposal_id, voter@),
{
    find_vote(&state.votes, proposal_id, voter)
}

/// Whether `voter` may vote on proposal `proposal_id` at `now`; see
/// [`GovernanceState::voting_open`]. Never fails: missing configuration or
/// proposal gives `false`.
pub fn can_vote(state: &GovernanceState, voter: &String, proposal_id: u64, now: u64) -> (r: bool)
    ensures
        r == state.voting_open(voter@, proposal_id, now),
{
    let c = match &state.config {
        Some(c) => c,
        None => return false,
    };
    let proposal = match lookup_proposal(state, proposal_id) {
        Some(p) => p,
        None => return false,
    };
    if proposal.executed || proposal.cancelled {
        return false;
    }
    if now > proposal.end_time {
        return false;
    }
    if *voter == c.admin {
        return true;
    }
    if contains_text(&c.voters, voter) {
        return true;
    }
    if is_guardian(state, voter) {
        return true;
    }
    false
}

/// The governance configuration, if initialised.
pub fn get_config(state: &GovernanceState) -> (r: Option<GovernanceConfig>)
    ensures
        match (r, state.config) {
            (Some(a), Some(b)) => same_config(a, b),
            (None, None) => true,
            _ => false,
        },
{
    match &state.config {
        Some(c) => Some(copy_config(c)),
        None => None,
    }
}

/// The governance admin, if initialised.
pub fn get_admin(state: &GovernanceState) -> (r: Option<String>)
    ensures
        match state.config {
            Some(c) => r == Some(c.admin),
            None => r is None,
        },
{
    match &state.config {
        Some(c) => Some(c.admin.clone()),
        None => None,
    }
}

/// The multisig configuration, if set.
pub fn get_multisig_config(state: &GovernanceState) -> (r: Option<MultisigConfig>)
    ensures
        match (r, state.multisig) {
            (Some(a), Some(b)) => a.admins@ == b.admins@ && a.threshold == b.threshold,
            (None, None) => true,
            _ => false,
        },
{
    match &state.multisig {
        Some(m) => Some(MultisigConfig { admins: copy_texts(&m.admins), threshold: m.threshold }),
        None => None,
    }
}

/// The guardian configuration, if set.
pub fn get_guardian_config(state: &GovernanceState) -> (r: Option<GuardianConfig>)
    ensures
        match (r, state.guardian_config) {
            (Some(a), Some(b)) => a.guardians@ == b.guardians@ && a.threshold == b.threshold,
            (None, None) => true,
            _ => false,
        },
{
    match &state.guardian_config {
        Some(g) => Some(GuardianConfig { guardians: copy_texts(&g.guardians), threshold: g.threshold }),
        None => None,
    }
}

fn require_admin(state: &GovernanceState, caller: &String) -> (r: Result<(), GovernanceError>)
    ensures
        r == state.admin_check(caller@),
{
    match &state.config {
        None => Err(GovernanceError::NotInitialized),
        Some(c) => if *caller != c.admin {
            Err(GovernanceError::Unauthorized)
        } else {
            Ok(())
        },
    }
}

/// Sets the multisig configuration; admin only. Rejected, changing
/// nothing, when governance is not initialised or `caller` is not the admin.
pub fn set_multisig_config(
    state: &mut GovernanceState,
    caller: &String,
    admins: Vec<String>,
    threshold: u32,
) -> (r: Result<(), GovernanceError>)
    ensures
        r == old(state).admin_check(caller@),
        r is Err ==> *final(state) == *old(state),
        r is Ok ==> {
            &&& final(state).multisig matches Some(m) && m.admins == admins && m.threshold
                == threshold
            &&& final(state).config == old(state).config
            &&& final(state).proposal_counter == old(state).proposal_counter
            &&& final(state).proposals == old(state).proposals
            &&& final(state).votes == old(state).votes
            &&& final(state).guardian_config == old(state).guardian_config
            &&& final(state).recovery_request == old(state).recovery_request
            &&& final(state).recovery_approvals == old(state).recovery_approvals
        },
{
    match require_admin(state, caller) {
        Err(e) => return Err(e),
        Ok(()) => {},
    }
    state.multisig = Some(MultisigConfig { admins, threshold });
    Ok(())
}

/// All fields other than the guardian configuration agree.
pub open spec fn same_except_guardians(a: &GovernanceState, b: &GovernanceState) -> bool {
    &&& a.config == b.config
    &&& a.proposal_counter == b.proposal_counter
    &&& a.proposals == b.proposals
    &&& a.votes == b.votes
    &&& a.multisig == b.multisig
    &&& a.recovery_request == b.recovery_request
    &&& a.recovery_approvals == b.recovery_approvals
}

/// The guardian list, or the empty list when no guardian set exists.
pub open spec fn guardian_list(state: &GovernanceState) -> Seq<String> {
    match state.guardian_config {
        Some(gc) => gc.guardians@,
        None => Seq::empty(),
    }
}

/// The guardian threshold, or the default when no guardian set exists.
pub open spec fn guardian_threshold(state: &GovernanceState) -> u32 {
    match state.guardian_config {
        Some(gc) => gc.threshold,
        None => DEFAULT_GUARDIAN_THRESHOLD,
    }
}

/// Adds `guardian`; admin only. A guardian set is created, with the
/// default threshold, if none exists; adding a present guardian changes
/// nothing. Rejected, changing nothing, when governance is not initialised
/// or `caller` is not the admin.
pub fn add_guardian(state: &mut GovernanceState, caller: &String, guardian: String) -> (r: Result<
    (),
    GovernanceError,
>)
    ensures
        r == old(state).admin_check(caller@),
        r is Err ==> *final(state) == *old(state),
        r is Ok && old(state).guardian(guardian@) ==> *final(state) == *old(state),
        r is Ok && !old(state).guardian(guardian@) ==> {
            &&& final(state).guardian_config matches Some(gc) && gc.guardians@ == guardian_list(
                &*old(state),
            ).push(guardian) && gc.threshold == guardian_threshold(&*old(state))
            &&& same_except_guardians(&*final(state), &*old(state))
        },
        r is Ok ==> final(state).guardian(guardian@),
{
    match require_admin(state, caller) {
        Err(e) => return Err(e),
        Ok(()) => {},
    }
    if is_guardian(state, &guardian) {
        return Ok(());
    }
    let ghost g = guardian@;
    let mut gc = match &state.guardian_config {
        Some(gc) => GuardianConfig { guardians: copy_texts(&gc.guardians), threshold: gc.threshold },
        None => GuardianConfig { guardians: Vec::new(), threshold: DEFAULT_GUARDIAN_THRESHOLD },
    };
    let ghost before = gc.guardians@;
    gc.guardians.push(guardian);
    assert(gc.guardians@[before.len() as int]@ == g);
    state.guardian_config = Some(gc);
    Ok(())
}

/// `v` without the entries whose text is `t`, order kept.
pub open spec fn without_text(v: Seq<String>, t: Seq<char>) -> Seq<String> {
    v.filter(|s: String| s@ != t)
}

fn remove_text(v: &Vec<String>, t: &String) -> (r: Vec<String>)
    ensures
        r@ == without_text(v@, t@),
{
    let ghost f = |s: String| s@ != t@;
    let mut out: Vec<String> = Vec::new();
    let mut i: usize = 0;
    assert(v@.take(0).filter(f) =~= Seq::<String>::empty()) by {
        reveal(Seq::filter);
    }
    while i < v.len()
        invariant
            i <= v@.len(),
            f == (|s: String| s@ != t@),
            out@ == v@.take(i as int).filter(f),
        decreases v@.len() - i,
    {
        assert(v@.take(i + 1).drop_last() =~= v@.take(i as int));
        reveal(Seq::filter);
        if v[i] != *t {
            out.push(v[i].clone());
        }
        i = i + 1;
    }
    assert(v@.take(v@.len() as int) =~= v@);
    out
}

/// Removes every entry of `guardian`; admin only. Rejected, changing
/// nothing, when governance is not initialised, `caller` is not the admin,
/// or no guardian set exists (`Unauthorized`).
pub fn remove_guardian(state: &mut GovernanceState, caller: &String, guardian: &String) -> (r:
    Result<(), GovernanceError>)
    ensures
        r == (match old(state).admin_check(caller@) {
            Err(e) => Err(e),
            Ok(()) => if old(state).guardian_config is None {
                Err(GovernanceError::Unauthorized)
            } else {
                Ok(())
            },
        }),
        r is Err ==> *final(state) == *old(state),
        r is Ok ==> {
            &&& final(state).guardian_config matches Some(gc) && gc.guardians@ == without_text(
                guardian_list(&*old(state)),
                guardian@,
            ) && gc.threshold == guardian_threshold(&*old(state))
            &&& !final(state).guardian(guardian@)
            &&& same_except_guardians(&*final(state), &*old(state))
        },
{
    match require_admin(state, caller) {
        Err(e) => return Err(e),
        Ok(()) => {},
    }
    let gc = match &state.guardian_config {
        None => return Err(GovernanceError::Unauthorized),
        Some(gc) => GuardianConfig {
            guardians: remove_text(&gc.guardians, guardian),
            threshold: gc.threshold,
        },
    };
    proof {
        lemma_without_text_lacks(guardian_list(&*state), guardian@);
    }
    state.guardian_config = Some(gc);
    Ok(())
}

proof fn lemma_without_text_lacks(v: Seq<String>, t: Seq<char>)
    ensures
        !has_text(without_text(v, t), t),
{
    let f = |s: String| s@ != t;
    if has_text(without_text(v, t), t) {
        let i = choose|i: int| 0 <= i < v.filter(f).len() && #[trigger] v.filter(f)[i]@ == t;
        v.lemma_filter_pred(f, i);
    }
}

/// Sets the guardian threshold; admin only. A guardian set with no
/// guardian is created if none exists. Rejected, changing nothing, when
/// governance is not initialised or `caller` is not the admin.
pub fn set_guardian_threshold(state: &mut GovernanceState, caller: &String, threshold: u32) -> (r:
    Result<(), GovernanceError>)
    ensures
        r == old(state).admin_check(caller@),
        r is Err ==> *final(state) == *old(state),
        r is Ok ==> {
            &&& final(state).guardian_config matches Some(gc) && gc.guardians@ == guardian_list(
                &*old(state),
            ) && gc.threshold == threshold
            &&& same_except_guardians(&*final(state), &*old(state))
        },
{
    match require_admin(state, caller) {
        Err(e) => return Err(e),
        Ok(()) => {},
    }
    let gc = match &state.guardian_config {
        Some(gc) => GuardianConfig { guardians: copy_texts(&gc.guardians), threshold },
        None => GuardianConfig { guardians: Vec::new(), threshold },
    };
    state.guardian_config = Some(gc);
    Ok(())
}

/// Starts an admin recovery from `old_admin` to `new_admin` at `now`;
/// guardians only. The initiator is recorded as the first approval,
/// replacing any earlier request and approvals. Rejected, changing
/// nothing, when governance is not initialised or `initiator` is not a
/// guardian.
pub fn start_recovery(
    state: &mut GovernanceState,
    initiator: String,
    old_admin: String,
    new_admin: String,
    now: u64,
) -> (r: Result<(), GovernanceError>)
    ensures
        r == old(state).recovery_start_check(initiator@),
        r is Err ==> *final(state) == *old(state),
        r is Ok ==> {
            &&& final(state).recovery_request == Some(
                RecoveryRequest { old_admin, new_admin, initiated_at: now, approval_count: 1 },
            )
            &&& final(state).recovery_approvals matches Some(a) && a@ == seq![initiator]
            &&& final(state).config == old(state).config
            &&& final(state).proposal_counter == old(state).proposal_counter
            &&& final(state).proposals == old(state).proposals
            &&& final(state).votes == old(state).votes
            &&& final(state).multisig == old(state).multisig
            &&& final(state).guardian_config == old(state).guardian_config
        },
{
    if state.config.is_none() {
        return Err(GovernanceError::NotInitialized);
    }
    if !is_guardian(state, &initiator) {
        return Err(GovernanceError::Unauthorized);
    }
    let request = RecoveryRequest { old_admin, new_admin, initiated_at: now, approval_count: 1 };
    let mut approvals: Vec<String> = Vec::new();
    approvals.push(initiator);
    assert(approvals@ =~= seq![approvals@[0]]);
    state.recovery_request = Some(request);
    state.recovery_approvals = Some(approvals);
    Ok(())
}

/// The recorded approvals, or none.
pub open spec fn approval_list(state: &GovernanceState) -> Seq<String> {
    match state.recovery_approvals {
        Some(a) => a@,
        None => Seq::empty(),
    }
}

/// Records `approver`'s approval of the recovery; guardians only. An
/// approver already recorded is not recorded twice. Rejected, changing
/// nothing, when `approver` is not a guardian.
pub fn approve_recovery(state: &mut GovernanceState, approver: String) -> (r: Result<
    (),
    GovernanceError,
>)
    ensures
        r == (if old(state).guardian(approver@) {
            Ok(())
        } else {
            Err(GovernanceError::Unauthorized)
        }),
        r is Err ==> *final(state) == *old(state),
        r is Ok ==> {
            &&& final(state).recovery_approvals matches Some(a) && a@ == (if has_text(
                approval_list(&*old(state)),
                approver@,
            ) {
                approval_list(&*old(state))
            } else {
                approval_list(&*old(state)).push(approver)
            })
            &&& final(state).config == old(state).config
            &&& final(state).proposal_counter == old(state).proposal_counter
            &&& final(state).proposals == old(state).proposals
            &&& final(state).votes == old(state).votes
            &&& final(state).multisig == old(state).multisig
            &&& final(state).guardian_config == old(state).guardian_config
            &&& final(state).recovery_request == old(state).recovery_request
        },
{
    if !is_guardian(state, &approver) {
        return Err(GovernanceError::Unauthorized);
    }
    let mut approvals = match &state.recovery_approvals {
        Some(a) => copy_texts(a),
        None => Vec::new(),
    };
    if !contains_text(&approvals, &approver) {
        approvals.push(approver);
    }
    state.recovery_approvals = Some(approvals);
    Ok(())
}

/// Executes the pending recovery once the guardians' approval threshold is
/// met: the admin becomes the request's new admin and the request and its
/// approvals are cleared. Rejected, changing nothing, when no request is
/// pending (`NotInitialized`), no guardian set exists or too few approvals
/// are recorded (`Unauthorized`), or governance is not initialised.
pub fn execute_recovery(state: &mut GovernanceState) -> (r: Result<(), GovernanceError>)
    ensures
        r == old(state).recovery_execute_check(),
        r is Err ==> *final(state) == *old(state),
        r is Ok ==> {
            let c = old(state).config->Some_0;
            &&& final(state).config matches Some(c2) && same_config(
                c2,
                GovernanceConfig { admin: old(state).recovery_request->Some_0.new_admin, ..c },
            )
            &&& final(state).recovery_request is None
            &&& final(state).recovery_approvals is None
            &&& final(state).proposal_counter == old(state).proposal_counter
            &&& final(state).proposals == old(state).proposals
            &&& final(state).votes == old(state).votes
            &&& final(state).multisig == old(state).multisig
            &&& final(state).guardian_config == old(state).guardian_config
        },
{
    let new_admin = match &state.recovery_request {
        None => return Err(GovernanceError::NotInitialized),
        Some(q) => q.new_admin.clone(),
    };
    let threshold = match &state.guardian_config {
        None => return Err(GovernanceError::Unauthorized),
        Some(gc) => gc.threshold,
    };
    let approvals: usize = match &state.recovery_approvals {
        Some(a) => a.len(),
        None => 0,
    };
    if approvals < threshold as usize {
        return Err(GovernanceError::Unauthorized);
    }
    let config = match &state.config {
        None => return Err(GovernanceError::NotInitialized),
        Some(c) => {
            let mut c2 = copy_config(c);
            c2.admin = new_admin;
            c2
        },
    };
    state.config = Some(config);
    state.recovery_request = None;
    state.recovery_approvals = None;
    Ok(())
}

/// The pending recovery request, if any.
pub fn get_recovery_request(state: &GovernanceState) -> (r: Option<RecoveryRequest>)
    ensures
        r == state.recovery_request,
{
    match &state.recovery_request {
        Some(q) => Some(copy_request(q)),
        None => None,
    }
}

/// The recorded recovery approvals, if any.
pub fn get_recovery_approvals(state: &GovernanceState) -> (r: Option<Vec<String>>)
    ensures
        match (r, state.recovery_approvals) {
            (Some(a), Some(b)) => a@ == b@,
            (None, None) => true,
            _ => false,
        },
{
    match &state.recovery_approvals {
        Some(a) => Some(copy_texts(a)),
        None => None,
    }
}

/// Queues proposal `proposal_id` at ledger `sequence`: its outcome becomes
/// `Approved` and it may execute from `sequence + QUEUE_DELAY_LEDGERS`
/// (saturating). Rejected, changing nothing, when the proposal does not
/// exist or was executed or cancelled.
pub fn queue_proposal(state: &mut GovernanceState, proposal_id: u64, sequence: u32) -> (r: Result<
    ProposalOutcome,
    GovernanceError,
>)
    ensures
        r is Ok <==> old(state).queue_check(proposal_id) is Ok,
        r matches Err(e) ==> old(state).queue_check(proposal_id) == Err::<(), GovernanceError>(e)
            && *final(state) == *old(state),
        r matches Ok(o) ==> {
            let p = old(state).proposal(proposal_id)->Some_0;
            &&& o == ProposalOutcome::Approved
            &&& final(state).proposals@ == old(state).proposals@.insert(
                proposal_id,
                Proposal {
                    outcome: Some(ProposalOutcome::Approved),
                    eta_ledger: sequence.saturating_add(QUEUE_DELAY_LEDGERS),
                    ..p
                },
            )
            &&& final(state).votes == old(state).votes
            &&& final(state).same_settings(&*old(state))
        },
{
    let mut proposal = match lookup_proposal(state, proposal_id) {
        None => return Err(GovernanceError::ProposalNotFound),
        Some(p) => p,
    };
    if proposal.executed || proposal.cancelled {
        return Err(GovernanceError::ProposalNotActive);
    }
    proposal.outcome = Some(ProposalOutcome::Approved);
    proposal.eta_ledger = sequence.saturating_add(QUEUE_DELAY_LEDGERS);
    state.proposals.insert(proposal_id, proposal);
    Ok(ProposalOutcome::Approved)
}

/// Executes proposal `proposal_id` at ledger `sequence`: it is marked
/// executed. Rejected, changing nothing, when it does not exist, was
/// already executed, is not approved, or its execution ledger is not
/// reached.
pub fn execute_proposal(state: &mut GovernanceState, proposal_id: u64, sequence: u32) -> (r: Result<
    (),
    GovernanceError,
>)
    ensures
        r == old(state).execute_check(proposal_id, sequence),
        r is Err ==> *final(state) == *old(state),
        r is Ok ==> {
            let p = old(state).proposal(proposal_id)->Some_0;
            &&& final(state).proposals@ == old(state).proposals@.insert(
                proposal_id,
                Proposal { executed: true, ..p },
            )
            &&& final(state).votes == old(state).votes
            &&& final(state).same_settings(&*old(state))
        },
{
    let mut proposal = match lookup_proposal(state, proposal_id) {
        None => return Err(GovernanceError::ProposalNotFound),
        Some(p) => p,
    };
    if proposal.executed {
        return Err(GovernanceError::AlreadyExecuted);
    }
    if proposal.outcome != Some(ProposalOutcome::Approved) {
        return Err(GovernanceError::ProposalNotActive);
    }
    if sequence < proposal.eta_ledger {
        return Err(GovernanceError::ProposalNotActive);
    }
    proposal.executed = true;
    state.proposals.insert(proposal_id, proposal);
    Ok(())
}

/// Approves proposal `proposal_id` as a multisig admin: a `Yes` vote.
pub fn approve_proposal(state: &mut GovernanceState, approver: &String, proposal_id: u64, now: u64) -> (r:
    Result<(), GovernanceError>)
    ensures
        r == old(state).vote_check(approver@, proposal_id, now),
        r is Err ==> *final(state) == *old(state),
        r is Ok ==> {
            let p = old(state).proposal(proposal_id)->Some_0;
            &&& final(state).votes@ == old(state).votes@.push(
                (
                    proposal_id,
                    VoteInfo {
                        voter: *approver,
                        vote_type: VoteType::Yes,
                        weight: 1,
                        timestamp: now,
                    },
                ),
            )
            &&& final(state).proposals@ == old(state).proposals@.insert(
                proposal_id,
                Proposal { yes_votes: saturating_inc(p.yes_votes), ..p },
            )
            &&& final(state).same_settings(&*old(state))
        },
{
    vote(state, approver, proposal_id, VoteType::Yes, now)
}

/// The approvers of a proposal: approval tracking is not kept, so none.
pub fn get_proposal_approvals(state: &GovernanceState, proposal_id: u64) -> (r: Option<Vec<String>>)
    ensures
        r is None,
{
    None
}

/// Law: `can_vote` answers yes exactly when a vote by the same voter on
/// the same proposal at the same time would be admitted, or refused only
/// because the voter already voted.
pub proof fn law_can_vote_agrees_with_vote(state: GovernanceState, voter: Seq<char>, id: u64, now: u64)
    ensures
        state.voting_open(voter, id, now) <==> (state.vote_check(voter, id, now) is Ok
            || state.vote_check(voter, id, now) == Err::<(), GovernanceError>(
            GovernanceError::AlreadyVoted,
        )),
{
}

/// Law: once a voter's ballot on a proposal is recorded, every further
/// vote by that voter on that proposal is refused. The premise is what
/// `vote` ensures of the votes on success.
pub proof fn law_one_vote_per_voter(
    before: GovernanceState,
    after: GovernanceState,
    id: u64,
    ballot: VoteInfo,
    later: u64,
)
    requires
        after.votes@ == before.votes@.push((id, ballot)),
    ensures
        vote_in(after.votes@, id, ballot.voter@) is Some,
        after.vote_check(ballot.voter@, id, later) is Err,
        !(after.vote_check(ballot.voter@, id, later) is Ok),
{
    assert(after.votes@.drop_last() =~= before.votes@);
}

/// Law: an executed proposal is final: it can no longer be voted on,
/// cancelled, queued or executed again.
pub proof fn law_executed_proposal_is_final(
    state: GovernanceState,
    id: u64,
    who: Seq<char>,
    now: u64,
    sequence: u32,
)
    requires
        state.proposal(id) matches Some(p) && p.executed,
    ensures
        state.vote_check(who, id, now) is Err,
        !state.voting_open(who, id, now),
        state.cancel_check(who, id) is Err,
        state.queue_check(id) == Err::<(), GovernanceError>(GovernanceError::ProposalNotActive),
        state.execute_check(id, sequence) == Err::<(), GovernanceError>(
            GovernanceError::AlreadyExecuted,
        ),
{
}

/// Law: a cancelled proposal (as `cancel_proposal` leaves it: cancelled,
/// with outcome `Cancelled`) can no longer be voted on, queued or executed.
pub proof fn law_cancelled_proposal_is_closed(
    state: GovernanceState,
    id: u64,
    who: Seq<char>,
    now: u64,
    sequence: u32,
)
    requires
        state.proposal(id) matches Some(p) && p.cancelled && p.outcome == Some(
            ProposalOutcome::Cancelled,
        ),
    ensures
        state.vote_check(who, id, now) is Err,
        !state.voting_open(who, id, now),
        state.queue_check(id) is Err,
        state.execute_check(id, sequence) is Err,
{
}

/// Law: votes are looked up by proposal and voter together. A vote of
/// `voter` on proposal `id` is found exactly when some recorded entry is for
/// proposal `id` and cast by `voter`, and what is found is such an entry's
/// ballot.
pub proof fn law_vote_lookup_matches_proposal_and_voter(
    votes: Seq<(u64, VoteInfo)>,
    id: u64,
    voter: Seq<char>,
)
    ensures
        vote_in(votes, id, voter) is Some <==> exists|i: int|
            0 <= i < votes.len() && (#[trigger] votes[i]).0 == id && votes[i].1.voter@ == voter,
        vote_in(votes, id, voter) matches Some(v) ==> exists|i: int|
            0 <= i < votes.len() && (#[trigger] votes[i]).0 == id && votes[i].1.voter@ == voter
                && votes[i].1 == v,
    decreases votes.len(),
{
    if votes.len() > 0 {
        let p = votes.drop_last();
        law_vote_lookup_matches_proposal_and_voter(p, id, voter);
        assert forall|i: int| 0 <= i < p.len() implies #[trigger] p[i] == votes[i] by {}
        if vote_in(votes, id, voter) is None {
            assert forall|i: int|
                0 <= i < votes.len() && (#[trigger] votes[i]).0 == id implies votes[i].1.voter@
                != voter by {
                if i < p.len() {
                    assert(p[i] == votes[i]);
                }
            }
        }
        if let Some(v) = vote_in(p, id, voter) {
            let i = choose|i: int|
                0 <= i < p.len() && (#[trigger] p[i]).0 == id && p[i].1.voter@ == voter && p[i].1
                    == v;
            assert(votes[i] == p[i]);
        } else if vote_in(votes, id, voter) is Some {
            let n = votes.len() - 1;
            assert(votes[n].0 == id && votes[n].1.voter@ == voter);
        }
    }
}

/// Law: a ballot on one proposal has no bearing on any other: after a vote
/// is recorded for proposal `id`, looking up a vote on any other proposal
/// `other` finds what it found before, so a voter who voted on `id` is not
/// refused as `AlreadyVoted` on `other` on that account.
pub proof fn law_ballot_does_not_block_other_proposals(
    before: GovernanceState,
    after: GovernanceState,
    id: u64,
    ballot: VoteInfo,
    other: u64,
    voter: Seq<char>,
)
    requires
        after.votes@ == before.votes@.push((id, ballot)),
        other != id,
    ensures
        vote_in(after.votes@, other, voter) == vote_in(before.votes@, other, voter),
{
    assert(after.votes@.drop_last() =~= before.votes@);
}

/// Law: a vote is refused as `AlreadyVoted` only when that same voter's
/// ballot on that same proposal is already recorded.
pub proof fn law_already_voted_means_same_proposal_and_voter(
    state: GovernanceState,
    voter: Seq<char>,
    id: u64,
    now: u64,
)
    ensures
        state.vote_check(voter, id, now) == Err::<(), GovernanceError>(
            GovernanceError::AlreadyVoted,
        ) ==> exists|i: int|
            0 <= i < state.votes@.len() && (#[trigger] state.votes@[i]).0 == id
                && state.votes@[i].1.voter@ == voter,
{
    law_vote_lookup_matches_proposal_and_voter(state.votes@, id, voter);
}

/// Law: a vote is admitted exactly when governance is initialised, the
/// voter is the admin, one of the configured voters or one of the
/// guardians, the proposal exists, is neither executed nor cancelled and
/// has not passed its end time (the end time itself still counts), and no
/// ballot of that voter on that proposal is recorded.
pub proof fn law_vote_admission(state: GovernanceState, voter: Seq<char>, id: u64, now: u64)
    ensures
        state.vote_check(voter, id, now) is Ok <==> {
            &&& state.config matches Some(c) && {
                ||| voter == c.admin@
                ||| exists|i: int| 0 <= i < c.voters@.len() && (#[trigger] c.voters@[i])@ == voter
                ||| state.guardian_config matches Some(gc) && exists|i: int|
                    0 <= i < gc.guardians@.len() && (#[trigger] gc.guardians@[i])@ == voter
            }
            &&& state.proposals@.contains_key(id)
            &&& !state.proposals@[id].executed
            &&& !state.proposals@[id].cancelled
            &&& now <= state.proposals@[id].end_time
            &&& !exists|i: int|
                0 <= i < state.votes@.len() && (#[trigger] state.votes@[i]).0 == id
                    && state.votes@[i].1.voter@ == voter
        },
{
    law_vote_lookup_matches_proposal_and_voter(state.votes@, id, voter);
}

} // verus!
