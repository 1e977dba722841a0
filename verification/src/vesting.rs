//! Token vesting grants that release linearly over a duration after a
//! cliff. The contract keeps its grants, the running total of still-locked
//! tokens, a simple token ledger and the events it emits; the admin can
//! pause it, accelerate, revoke and transfer grants, and grantees claim
//! what has vested.

use vstd::prelude::*;

verus! {

/// Errors raised by the vesting contract.
#[derive(Clone, Copy, Debug, PartialEq, Eq, Structural)]
pub enum VestingError {
    /// The caller is not the admin.
    Unauthorized,
    /// The contract is paused.
    ContractPaused,
    /// The grantee has no grant.
    NoSuchGrant,
    /// The destination of a transfer already has a grant.
    DestinationAlreadyHasGrant,
    /// A grant of zero tokens.
    ZeroPrincipal,
    /// A grant with a zero duration.
    ZeroDuration,
    /// A grant whose cliff lies beyond its duration.
    CliffExceedsDuration,
    /// A total or a balance would not fit in `u128`.
    ArithmeticOverflow,
    /// The contract's token balance does not cover a payment.
    InsufficientBalance,
}

/// A grant: `total` tokens releasing linearly over `duration_seconds` from
/// `start_seconds`, nothing before `start_seconds + cliff_seconds`.
/// `released` is what has been unlocked so far, `claimed` what the grantee
/// has withdrawn.
#[derive(Clone, Debug, PartialEq, Eq)]
pub struct Grant {
    pub grantee: String,
    pub total: u128,
    pub claimed: u128,
    pub released: u128,
    pub start_seconds: u64,
    pub duration_seconds: u64,
    pub cliff_seconds: u64,
    pub revoked: bool,
}

/// Emitted when the admin accelerates a grantee's grants.
#[derive(Clone, Debug, PartialEq, Eq)]
pub struct GrantAccelerated {
    pub grantee: String,
    pub amount: u128,
    pub timestamp: u64,
}

/// All grants, each carrying its grantee.
#[derive(Clone, Debug)]
pub struct GrantBook {
    pub entries: Vec<Grant>,
}

/// The vesting contract.
pub struct VestingContract {
    pub admin: String,
    pub treasury: String,
    pub paused: bool,
    pub grants: GrantBook,
    /// Tokens granted but not yet released, over the grants not revoked.
    pub total_locked: u128,
    pub events: Vec<GrantAccelerated>,
    /// Token balances by account.
    pub balances: Vec<(String, u128)>,
}

/// The account name under which the contract holds the granted tokens.
pub open spec fn contract_account() -> Seq<char> {
    "contract"@
}

fn contract_account_name() -> (s: String)
    ensures
        s@ == contract_account(),
{
    String::from_str("contract")
}

// ---------------------------------------------------------------------------
// Vesting arithmetic
// ---------------------------------------------------------------------------

/// Tokens of `g` vested at `now`: none before the cliff, all from the end of
/// the duration, and in between the share of `total` that the time elapsed
/// since the start is of the duration (rounded down).
pub open spec fn vested_amount(g: Grant, now: u64) -> int {
    if now < g.start_seconds || now - g.start_seconds < g.cliff_seconds {
        0
    } else if now - g.start_seconds >= g.duration_seconds {
        g.total as int
    } else {
        (g.total * (now - g.start_seconds)) / (g.duration_seconds as int)
    }
}

/// What `g` has released once synced at `now`: released amounts never go
/// back.
pub open spec fn synced_release(g: Grant, now: u64) -> int {
    if vested_amount(g, now) > g.released {
        vested_amount(g, now)
    } else {
        g.released as int
    }
}

proof fn lemma_vested_le_total(g: Grant, now: u64)
    ensures
        0 <= vested_amount(g, now) <= g.total,
{
    if !(now < g.start_seconds || now - g.start_seconds < g.cliff_seconds) && now - g.start_seconds
        < g.duration_seconds {
        let e = (now - g.start_seconds) as int;
        let d = g.duration_seconds as int;
        let t = g.total as int;
        assert(0 <= t * e <= t * d) by (nonlinear_arith)
            requires
                0 <= e < d,
                t >= 0,
        ;
        assert(0 <= (t * e) / d <= t) by (nonlinear_arith)
            requires
                0 <= t * e <= t * d,
                d > 0,
        ;
    }
}

/// Tokens of `g` vested at `now`.
pub fn vested_of(g: &Grant, now: u64) -> (v: u128)
    ensures
        v == vested_amount(*g, now),
{
    if now < g.start_seconds {
        return 0;
    }
    let elapsed = now - g.start_seconds;
    if elapsed < g.cliff_seconds {
        return 0;
    }
    if elapsed >= g.duration_seconds {
        return g.total;
    }
    let d = g.duration_seconds as u128;
    let e = elapsed as u128;
    let q = g.total / d;
    let r = g.total % d;
    proof {
        let t = g.total as int;
        let di = d as int;
        let ei = e as int;
        assert(t == di * (t / di) + t % di) by {
            vstd::arithmetic::div_mod::lemma_fundamental_div_mod(t, di);
        }
        assert(q * ei <= q * di && r * ei < di * di && di * di <= 0xffff_ffff_ffff_ffff * 0xffff_ffff_ffff_ffff && q * di <= t)
            by (nonlinear_arith)
            requires
                0 <= ei < di,
                q >= 0,
                0 <= r < di,
                di <= 0xffff_ffff_ffff_ffff,
                t == di * q + r,
        ;
        vstd::arithmetic::div_mod::lemma_hoist_over_denominator(r * ei, q * ei, di as nat);
        assert(r * ei + (q * ei) * di == t * ei) by (nonlinear_arith)
            requires
                t == di * q + r,
        ;
        assert((r * ei) / di <= r) by (nonlinear_arith)
            requires
                0 <= r * ei,
                0 <= ei < di,
                0 <= r,
        ;
    }
    q * e + (r * e) / d
}

// ---------------------------------------------------------------------------
// Operations applied to a grantee's grants
// ---------------------------------------------------------------------------

/// What the admin or a grantee does to every grant of one grantee.
#[derive(Clone, Debug)]
pub enum GrantOp {
    /// Sync to `now` and pay out everything released but unclaimed.
    Claim,
    /// Release everything that is still locked.
    Accelerate,
    /// Sync to `now`, then cancel what is still locked.
    Revoke,
    /// Hand the grant to another grantee, schedule untouched.
    Transfer(String),
}

/// The effect of `op` at `now` on one grant of the targeted grantee.
pub open spec fn apply_op(op: GrantOp, g: Grant, now: u64) -> Grant {
    match op {
        GrantOp::Claim => if g.revoked {
            Grant { claimed: g.released, ..g }
        } else {
            Grant {
                released: synced_release(g, now) as u128,
                claimed: synced_release(g, now) as u128,
                ..g
            }
        },
        GrantOp::Accelerate => if g.revoked {
            g
        } else {
            Grant { released: g.total, ..g }
        },
        GrantOp::Revoke => if g.revoked {
            g
        } else {
            Grant {
                released: synced_release(g, now) as u128,
                total: synced_release(g, now) as u128,
                revoked: true,
                ..g
            }
        },
        GrantOp::Transfer(to) => Grant { grantee: to, ..g },
    }
}

/// Tokens `op` moves out of the contract for one grant: the payout of a
/// claim, the refund of a revocation.
pub open spec fn op_payment(op: GrantOp, g: Grant, now: u64) -> int {
    match op {
        GrantOp::Claim => apply_op(op, g, now).claimed - g.claimed,
        GrantOp::Revoke => g.total - apply_op(op, g, now).total,
        _ => 0,
    }
}

/// Tokens a grant keeps locked.
pub open spec fn locked(g: Grant) -> int {
    if g.revoked {
        0
    } else {
        g.total - g.released
    }
}

/// Tokens locked over a list of grants.
pub open spec fn locked_sum(s: Seq<Grant>) -> int
    decreases s.len(),
{
    if s.len() == 0 {
        0
    } else {
        locked_sum(s.drop_last()) + locked(s.last())
    }
}

/// Applies `op` to every grant of `name`, leaving the others alone.
pub open spec fn apply_all(op: GrantOp, s: Seq<Grant>, name: Seq<char>, now: u64) -> Seq<Grant>
    decreases s.len(),
{
    if s.len() == 0 {
        s
    } else {
        apply_all(op, s.drop_last(), name, now).push(
            if s.last().grantee@ == name {
                apply_op(op, s.last(), now)
            } else {
                s.last()
            },
        )
    }
}

/// Total tokens `op` moves out of the contract over the grants of `name`.
pub open spec fn payment_sum(op: GrantOp, s: Seq<Grant>, name: Seq<char>, now: u64) -> int
    decreases s.len(),
{
    if s.len() == 0 {
        0
    } else {
        payment_sum(op, s.drop_last(), name, now) + if s.last().grantee@ == name {
            op_payment(op, s.last(), now)
        } else {
            0
        }
    }
}

/// Tokens `op` unlocks over the grants of `name`.
pub open spec fn unlock_sum(op: GrantOp, s: Seq<Grant>, name: Seq<char>, now: u64) -> int
    decreases s.len(),
{
    if s.len() == 0 {
        0
    } else {
        unlock_sum(op, s.drop_last(), name, now) + if s.last().grantee@ == name {
            locked(s.last()) - locked(apply_op(op, s.last(), now))
        } else {
            0
        }
    }
}

/// A grant's amounts are ordered: claimed, then released, then total.
pub open spec fn grant_wf(g: Grant) -> bool {
    g.claimed <= g.released <= g.total
}

/// Whether `name` has a grant in `s`.
pub open spec fn has_grant(s: Seq<Grant>, name: Seq<char>) -> bool {
    exists|i: int| 0 <= i < s.len() && #[trigger] s[i].grantee@ == name
}

proof fn lemma_apply_op_wf(op: GrantOp, g: Grant, now: u64)
    requires
        grant_wf(g),
    ensures
        grant_wf(apply_op(op, g, now)),
        0 <= op_payment(op, g, now),
        0 <= locked(g) - locked(apply_op(op, g, now)),
        locked(apply_op(op, g, now)) >= 0,
{
    lemma_vested_le_total(g, now);
}

proof fn lemma_apply_all_facts(op: GrantOp, s: Seq<Grant>, name: Seq<char>, now: u64)
    requires
        forall|i: int| 0 <= i < s.len() ==> grant_wf(#[trigger] s[i]),
    ensures
        apply_all(op, s, name, now).len() == s.len(),
        forall|i: int|
            0 <= i < s.len() ==> #[trigger] apply_all(op, s, name, now)[i] == (if s[i].grantee@
                == name {
                apply_op(op, s[i], now)
            } else {
                s[i]
            }),
        forall|i: int| 0 <= i < s.len() ==> grant_wf(#[trigger] apply_all(op, s, name, now)[i]),
        locked_sum(apply_all(op, s, name, now)) == locked_sum(s) - unlock_sum(op, s, name, now),
        0 <= unlock_sum(op, s, name, now) <= locked_sum(s),
        0 <= payment_sum(op, s, name, now),
        locked_sum(s) >= 0,
    decreases s.len(),
{
    if s.len() > 0 {
        let p = s.drop_last();
        assert forall|i: int| 0 <= i < p.len() implies grant_wf(#[trigger] p[i]) by {
            assert(p[i] == s[i]);
        }
        lemma_apply_all_facts(op, p, name, now);
        lemma_apply_op_wf(op, s.last(), now);
        let r = apply_all(op, s, name, now);
        assert(r.drop_last() =~= apply_all(op, p, name, now));
        assert forall|i: int| 0 <= i < s.len() implies grant_wf(#[trigger] r[i]) by {
            if i < p.len() {
                assert(r[i] == apply_all(op, p, name, now)[i]);
            }
        }
    }
}

/// The grant list after `op` at `now` on `name`, the tokens moved out and
/// the tokens unlocked; `None` when a running sum does not fit in `u128`.
fn apply_to_grantee(grants: &Vec<Grant>, op: &GrantOp, name: &String, now: u64) -> (r: Option<
    (Vec<Grant>, u128, u128),
>)
    requires
        forall|i: int| 0 <= i < grants@.len() ==> grant_wf(#[trigger] grants@[i]),
        locked_sum(grants@) <= u128::MAX,
    ensures
        match r {
            Some((s, pay, unlock)) => {
                &&& s@ == apply_all(*op, grants@, name@, now)
                &&& pay == payment_sum(*op, grants@, name@, now)
                &&& unlock == unlock_sum(*op, grants@, name@, now)
            },
            None => payment_sum(*op, grants@, name@, now) > u128::MAX,
        },
{
    let mut out: Vec<Grant> = Vec::new();
    let mut pay: u128 = 0;
    let mut unlock: u128 = 0;
    let mut i: usize = 0;
    proof {
        lemma_apply_all_facts(*op, grants@, name@, now);
    }
    assert(grants@.take(0) =~= Seq::<Grant>::empty());
    while i < grants.len()
        invariant
            i <= grants@.len(),
            forall|j: int| 0 <= j < grants@.len() ==> grant_wf(#[trigger] grants@[j]),
            out@ == apply_all(*op, grants@.take(i as int), name@, now),
            pay == payment_sum(*op, grants@.take(i as int), name@, now),
            unlock == unlock_sum(*op, grants@.take(i as int), name@, now),
            unlock_sum(*op, grants@, name@, now) <= locked_sum(grants@),
            locked_sum(grants@) <= u128::MAX,
        decreases grants@.len() - i,
    {
        let g = &grants[i];
        assert(grants@.take(i + 1).drop_last() =~= grants@.take(i as int));
        proof {
            lemma_apply_op_wf(*op, *g, now);
        }
        if g.grantee == *name {
            let ng = step_grant(op, g, now);
            let p = match op {
                GrantOp::Claim => ng.claimed - g.claimed,
                GrantOp::Revoke => g.total - ng.total,
                _ => 0,
            };
            let u: u128 = if g.revoked {
                0
            } else {
                let after: u128 = if ng.revoked { 0 } else { ng.total - ng.released };
                (g.total - g.released) - after
            };
            pay = match pay.checked_add(p) {
                Some(v) => v,
                None => {
                    proof {
                        lemma_payment_prefix(*op, grants@, name@, now, i + 1);
                    }
                    return None;
                },
            };
            proof {
                lemma_unlock_prefix(*op, grants@, name@, now, i + 1);
            }
            unlock = unlock + u;
            out.push(ng);
        } else {
            proof {
                lemma_unlock_prefix(*op, grants@, name@, now, i + 1);
            }
            out.push(copy_grant(g));
        }
        i = i + 1;
    }
    assert(grants@.take(grants@.len() as int) =~= grants@);
    Some((out, pay, unlock))
}

/// A running payment sum over a prefix never exceeds the whole sum.
proof fn lemma_payment_prefix(op: GrantOp, s: Seq<Grant>, name: Seq<char>, now: u64, k: int)
    requires
        0 <= k <= s.len(),
        forall|i: int| 0 <= i < s.len() ==> grant_wf(#[trigger] s[i]),
    ensures
        payment_sum(op, s.take(k), name, now) <= payment_sum(op, s, name, now),
    decreases s.len() - k,
{
    if k < s.len() {
        let p = s.drop_last();
        assert forall|i: int| 0 <= i < p.len() implies grant_wf(#[trigger] p[i]) by {
            assert(p[i] == s[i]);
        }
        assert(p.take(k) =~= s.take(k));
        lemma_payment_prefix(op, p, name, now, k);
        lemma_apply_op_wf(op, s.last(), now);
    } else {
        assert(s.take(k) =~= s);
    }
}

/// A running unlock sum over a prefix never exceeds the whole sum.
proof fn lemma_unlock_prefix(op: GrantOp, s: Seq<Grant>, name: Seq<char>, now: u64, k: int)
    requires
        0 <= k <= s.len(),
        forall|i: int| 0 <= i < s.len() ==> grant_wf(#[trigger] s[i]),
    ensures
        unlock_sum(op, s.take(k), name, now) <= unlock_sum(op, s, name, now),
    decreases s.len() - k,
{
    if k < s.len() {
        let p = s.drop_last();
        assert forall|i: int| 0 <= i < p.len() implies grant_wf(#[trigger] p[i]) by {
            assert(p[i] == s[i]);
        }
        assert(p.take(k) =~= s.take(k));
        lemma_unlock_prefix(op, p, name, now, k);
        lemma_apply_op_wf(op, s.last(), now);
    } else {
        assert(s.take(k) =~= s);
    }
}

fn copy_grant(g: &Grant) -> (r: Grant)
    ensures
        r == *g,
{
    Grant {
        grantee: g.grantee.clone(),
        total: g.total,
        claimed: g.claimed,
        released: g.released,
        start_seconds: g.start_seconds,
        duration_seconds: g.duration_seconds,
        cliff_seconds: g.cliff_seconds,
        revoked: g.revoked,
    }
}

/// The effect of `op` at `now` on one grant.
fn step_grant(op: &GrantOp, g: &Grant, now: u64) -> (r: Grant)
    requires
        grant_wf(*g),
    ensures
        r == apply_op(*op, *g, now),
{
    let mut n = copy_grant(g);
    proof {
        lemma_vested_le_total(*g, now);
    }
    match op {
        GrantOp::Claim => {
            if !g.revoked {
                let v = vested_of(g, now);
                let s = if v > g.released { v } else { g.released };
                n.released = s;
                n.claimed = s;
            } else {
                n.claimed = g.released;
            }
        },
        GrantOp::Accelerate => {
            if !g.revoked {
                n.released = g.total;
            }
        },
        GrantOp::Revoke => {
            if !g.revoked {
                let v = vested_of(g, now);
                let s = if v > g.released { v } else { g.released };
                n.released = s;
                n.total = s;
                n.revoked = true;
            }
        },
        GrantOp::Transfer(to) => {
            n.grantee = to.clone();
        },
    }
    n
}

// ---------------------------------------------------------------------------
// Token ledger
// ---------------------------------------------------------------------------

/// The balance of `who`: the first ledger entry for it, or zero.
pub open spec fn balance_in(ledger: Seq<(String, u128)>, who: Seq<char>) -> u128
    decreases ledger.len(),
{
    if ledger.len() == 0 {
        0
    } else if ledger[0].0@ == who {
        ledger[0].1
    } else {
        balance_in(ledger.drop_first(), who)
    }
}

fn ledger_balance(ledger: &Vec<(String, u128)>, who: &String) -> (b: u128)
    ensures
        b == balance_in(ledger@, who@),
{
    let mut i: usize = 0;
    assert(ledger@.skip(0) =~= ledger@);
    while i < ledger.len()
        invariant
            i <= ledger@.len(),
            balance_in(ledger@, who@) == balance_in(ledger@.skip(i as int), who@),
        decreases ledger@.len() - i,
    {
        assert(ledger@.skip(i as int).drop_first() =~= ledger@.skip(i + 1));
        if ledger[i].0 == *who {
            return ledger[i].1;
        }
        i = i + 1;
    }
    0
}

/// Sets the balance of `who` to `value`, leaving every other balance alone.
fn set_balance(ledger: &mut Vec<(String, u128)>, who: &String, value: u128)
    ensures
        balance_in(final(ledger)@, who@) == value,
        forall|o: Seq<char>| o != who@ ==> balance_in(final(ledger)@, o) == balance_in(old(ledger)@, o),
{
    let mut i: usize = 0;
    while i < ledger.len()
        invariant
            i <= ledger@.len(),
            ledger@ == old(ledger)@,
            forall|j: int| 0 <= j < i ==> ledger@[j].0@ != who@,
        decreases ledger@.len() - i,
    {
        if ledger[i].0 == *who {
            let ghost before = ledger@;
            let entry = (who.clone(), value);
            ledger.set(i, entry);
            proof {
                lemma_balance_after_set(before, i as int, entry, who@);
            }
            return;
        }
        i = i + 1;
    }
    let ghost before = ledger@;
    let entry = (who.clone(), value);
    ledger.push(entry);
    proof {
        lemma_balance_after_push(before, entry, who@);
    }
}

proof fn lemma_balance_after_set(s: Seq<(String, u128)>, i: int, e: (String, u128), who: Seq<char>)
    requires
        0 <= i < s.len(),
        s[i].0@ == who,
        e.0@ == who,
        forall|j: int| 0 <= j < i ==> s[j].0@ != who,
    ensures
        forall|o: Seq<char>|
            #[trigger] balance_in(s.update(i, e), o) == if o == who {
                e.1
            } else {
                balance_in(s, o)
            },
    decreases i,
{
    let t = s.update(i, e);
    if i == 0 {
        assert(t.drop_first() =~= s.drop_first());
        assert forall|o: Seq<char>| #[trigger] balance_in(t, o) == if o == who {
            e.1
        } else {
            balance_in(s, o)
        } by {}
    } else {
        assert forall|j: int| 0 <= j < i - 1 implies s.drop_first()[j].0@ != who by {
            assert(s.drop_first()[j] == s[j + 1]);
        }
        lemma_balance_after_set(s.drop_first(), i - 1, e, who);
        assert(t.drop_first() =~= s.drop_first().update(i - 1, e));
        assert(s[0].0@ != who);
        assert forall|o: Seq<char>| #[trigger] balance_in(t, o) == if o == who {
            e.1
        } else {
            balance_in(s, o)
        } by {
            assert(balance_in(s.drop_first().update(i - 1, e), o) == if o == who {
                e.1
            } else {
                balance_in(s.drop_first(), o)
            });
        }
    }
}

proof fn lemma_balance_after_push(s: Seq<(String, u128)>, e: (String, u128), who: Seq<char>)
    requires
        e.0@ == who,
        forall|j: int| 0 <= j < s.len() ==> s[j].0@ != who,
    ensures
        forall|o: Seq<char>|
            #[trigger] balance_in(s.push(e), o) == if o == who {
                e.1
            } else {
                balance_in(s, o)
            },
    decreases s.len(),
{
    let t = s.push(e);
    if s.len() == 0 {
        assert(t.drop_first() =~= Seq::<(String, u128)>::empty());
        assert forall|o: Seq<char>| #[trigger] balance_in(t, o) == if o == who {
            e.1
        } else {
            balance_in(s, o)
        } by {
            assert(balance_in(t.drop_first(), o) == 0);
            assert(t[0] == e);
        }
    } else {
        assert forall|j: int| 0 <= j < s.drop_first().len() implies s.drop_first()[j].0@ != who by {
            assert(s.drop_first()[j] == s[j + 1]);
        }
        lemma_balance_after_push(s.drop_first(), e, who);
        assert(t.drop_first() =~= s.drop_first().push(e));
        assert(s[0].0@ != who);
        assert forall|o: Seq<char>| #[trigger] balance_in(t, o) == if o == who {
            e.1
        } else {
            balance_in(s, o)
        } by {
            assert(balance_in(s.drop_first().push(e), o) == if o == who {
                e.1
            } else {
                balance_in(s.drop_first(), o)
            });
        }
    }
}

/// Moves `amount` tokens from `from` to `to`; see [`transfer_verdict`].
/// On error the ledger is unchanged.
fn move_tokens(ledger: &mut Vec<(String, u128)>, from: &String, to: &String, amount: u128) -> (r:
    Result<(), VestingError>)
    ensures
        r == transfer_verdict(old(ledger)@, from@, to@, amount as int),
        r is Err || from@ == to@ ==> *final(ledger) == *old(ledger),
        r is Ok && from@ != to@ ==> {
            &&& balance_in(final(ledger)@, from@) == balance_in(old(ledger)@, from@) - amount
            &&& balance_in(final(ledger)@, to@) == balance_in(old(ledger)@, to@) + amount
            &&& forall|o: Seq<char>|
                o != from@ && o != to@ ==> balance_in(final(ledger)@, o) == balance_in(
                    old(ledger)@,
                    o,
                )
        },
{
    let from_balance = ledger_balance(ledger, from);
    if from_balance < amount {
        return Err(VestingError::InsufficientBalance);
    }
    if *from == *to {
        return Ok(());
    }
    let to_balance = ledger_balance(ledger, to);
    let new_to = match to_balance.checked_add(amount) {
        Some(v) => v,
        None => return Err(VestingError::ArithmeticOverflow),
    };
    set_balance(ledger, from, from_balance - amount);
    set_balance(ledger, to, new_to);
    Ok(())
}

/// The verdict on moving `amount` tokens from `from` to `to`: the sender
/// must hold them, and the receiver's balance must stay within `u128`.
pub open spec fn transfer_verdict(ledger: Seq<(String, u128)>, from: Seq<char>, to: Seq<char>, amount: int) -> Result<
    (),
    VestingError,
> {
    if balance_in(ledger, from) < amount {
        Err(VestingError::InsufficientBalance)
    } else if from != to && balance_in(ledger, to) + amount > u128::MAX {
        Err(VestingError::ArithmeticOverflow)
    } else {
        Ok(())
    }
}

/// The grants of `name`, in order.
pub open spec fn grants_of(s: Seq<Grant>, name: Seq<char>) -> Seq<Grant>
    decreases s.len(),
{
    if s.len() == 0 {
        s
    } else if s.last().grantee@ == name {
        grants_of(s.drop_last(), name).push(s.last())
    } else {
        grants_of(s.drop_last(), name)
    }
}

impl Grant {
    /// Released but not yet claimed.
    pub fn claimable(&self) -> (r: u128)
        requires
            self.claimed <= self.released,
        ensures
            r == self.released - self.claimed,
    {
        self.released - self.claimed
    }
}

impl GrantBook {
    /// Whether `grantee` has a grant.
    pub fn contains_key(&self, grantee: &str) -> (r: bool)
        ensures
            r == has_grant(self.entries@, grantee@),
    {
        let name = String::from_str(grantee);
        has_grant_of(&self.entries, &name)
    }
}

fn has_grant_of(entries: &Vec<Grant>, name: &String) -> (r: bool)
    ensures
        r == has_grant(entries@, name@),
{
    let mut i: usize = 0;
    while i < entries.len()
        invariant
            i <= entries@.len(),
            forall|j: int| 0 <= j < i ==> entries@[j].grantee@ != name@,
        decreases entries@.len() - i,
    {
        if entries[i].grantee == *name {
            assert(entries@[i as int].grantee@ == name@);
            return true;
        }
        i = i + 1;
    }
    false
}

impl VestingContract {
    /// The locked total matches the grants, and every grant's amounts are
    /// ordered.
    pub open spec fn wf(&self) -> bool {
        &&& self.total_locked == locked_sum(self.grants.entries@)
        &&& forall|i: int|
            0 <= i < self.grants.entries@.len() ==> grant_wf(#[trigger] self.grants.entries@[i])
    }

    /// The admin check and the pause check, in that order.
    pub open spec fn admin_gate(&self, caller: Seq<char>) -> Result<(), VestingError> {
        if caller != self.admin@ {
            Err(VestingError::Unauthorized)
        } else if self.paused {
            Err(VestingError::ContractPaused)
        } else {
            Ok(())
        }
    }

    /// A contract administered by `admin`, refunding revoked tokens to
    /// `treasury`, with no grant, no balance and no event.
    pub fn new(admin: &str, treasury: &str) -> (c: VestingContract)
        ensures
            c.admin@ == admin@,
            c.treasury@ == treasury@,
            !c.paused,
            c.grants.entries@.len() == 0,
            c.total_locked == 0,
            c.events@.len() == 0,
            c.balances@.len() == 0,
            c.wf(),
    {
        VestingContract {
            admin: String::from_str(admin),
            treasury: String::from_str(treasury),
            paused: false,
            grants: GrantBook { entries: Vec::new() },
            total_locked: 0,
            events: Vec::new(),
            balances: Vec::new(),
        }
    }

    /// Tokens granted and not yet released.
    pub fn total_locked(&self) -> (r: u128)
        ensures
            r == self.total_locked,
    {
        self.total_locked
    }

    /// The token balance of `who`.
    pub fn balance_of(&self, who: &str) -> (r: u128)
        ensures
            r == balance_in(self.balances@, who@),
    {
        let name = String::from_str(who);
        ledger_balance(&self.balances, &name)
    }

    /// Copies of the grants of `grantee`, in order.
    pub fn get_grants(&self, grantee: &str) -> (r: Vec<Grant>)
        ensures
            r@ == grants_of(self.grants.entries@, grantee@),
    {
        let name = String::from_str(grantee);
        let mut out: Vec<Grant> = Vec::new();
        let mut i: usize = 0;
        let ghost s = self.grants.entries@;
        assert(s.take(0) =~= Seq::<Grant>::empty());
        while i < self.grants.entries.len()
            invariant
                i <= s.len(),
                s == self.grants.entries@,
                out@ == grants_of(s.take(i as int), name@),
            decreases s.len() - i,
        {
            assert(s.take(i + 1).drop_last() =~= s.take(i as int));
            let g = &self.grants.entries[i];
            if g.grantee == name {
                out.push(copy_grant(g));
            }
            i = i + 1;
        }
        assert(s.take(s.len() as int) =~= s);
        out
    }

    /// Pauses the contract; only the admin may.
    pub fn pause(&mut self, caller: &str) -> (r: Result<(), VestingError>)
        ensures
            r == (if caller@ != old(self).admin@ {
                Err(VestingError::Unauthorized)
            } else {
                Ok(())
            }),
            r is Ok ==> final(self).paused,
            final(self).admin == old(self).admin,
            final(self).treasury == old(self).treasury,
            final(self).grants.entries == old(self).grants.entries,
            final(self).total_locked == old(self).total_locked,
            final(self).events == old(self).events,
            final(self).balances == old(self).balances,
            r is Err ==> final(self).paused == old(self).paused,
    {
        let c = String::from_str(caller);
        if c != self.admin {
            return Err(VestingError::Unauthorized);
        }
        self.paused = true;
        Ok(())
    }

    /// Adds a grant of `total` tokens to `grantee`, releasing linearly over
    /// `duration_seconds` from `start_seconds` with a cliff of
    /// `cliff_seconds`; the tokens are credited to the contract's account
    /// and counted as locked. Rejected, leaving the contract unchanged, for a
    /// zero total, a zero duration, a cliff beyond the duration, or a locked
    /// total or contract balance that would not fit in `u128`.
    pub fn add_grant(
        &mut self,
        grantee: &str,
        total: u128,
        start_seconds: u64,
        duration_seconds: u64,
        cliff_seconds: u64,
    ) -> (r: Result<(), VestingError>)
        requires
            old(self).wf(),
        ensures
            final(self).wf(),
            r == (if total == 0 {
                Err(VestingError::ZeroPrincipal)
            } else if duration_seconds == 0 {
                Err(VestingError::ZeroDuration)
            } else if cliff_seconds > duration_seconds {
                Err(VestingError::CliffExceedsDuration)
            } else if old(self).total_locked + total > u128::MAX || balance_in(
                old(self).balances@,
                contract_account(),
            ) + total > u128::MAX {
                Err(VestingError::ArithmeticOverflow)
            } else {
                Ok(())
            }),
            r is Err ==> *final(self) == *old(self),
            r is Ok ==> {
                &&& final(self).grants.entries@.len() == old(self).grants.entries@.len() + 1
                &&& final(self).grants.entries@.drop_last() == old(self).grants.entries@
                &&& final(self).grants.entries@.last().grantee@ == grantee@
                &&& final(self).grants.entries@.last().total == total
                &&& final(self).grants.entries@.last().claimed == 0
                &&& final(self).grants.entries@.last().released == 0
                &&& final(self).grants.entries@.last().start_seconds == start_seconds
                &&& final(self).grants.entries@.last().duration_seconds == duration_seconds
                &&& final(self).grants.entries@.last().cliff_seconds == cliff_seconds
                &&& !final(self).grants.entries@.last().revoked
                &&& final(self).total_locked == old(self).total_locked + total
                &&& balance_in(final(self).balances@, contract_account()) == balance_in(
                    old(self).balances@,
                    contract_account(),
                ) + total
                &&& forall|o: Seq<char>|
                    o != contract_account() ==> balance_in(final(self).balances@, o)
                        == balance_in(old(self).balances@, o)
                &&& final(self).admin == old(self).admin
                &&& final(self).treasury == old(self).treasury
                &&& final(self).paused == old(self).paused
                &&& final(self).events == old(self).events
            },
    {
        if total == 0 {
            return Err(VestingError::ZeroPrincipal);
        }
        if duration_seconds == 0 {
            return Err(VestingError::ZeroDuration);
        }
        if cliff_seconds > duration_seconds {
            return Err(VestingError::CliffExceedsDuration);
        }
        let new_locked = match self.total_locked.checked_add(total) {
            Some(v) => v,
            None => return Err(VestingError::ArithmeticOverflow),
        };
        let account = contract_account_name();
        let held = ledger_balance(&self.balances, &account);
        let new_held = match held.checked_add(total) {
            Some(v) => v,
            None => return Err(VestingError::ArithmeticOverflow),
        };
        let ghost before = self.grants.entries@;
        let g = Grant {
            grantee: String::from_str(grantee),
            total,
            claimed: 0,
            released: 0,
            start_seconds,
            duration_seconds,
            cliff_seconds,
            revoked: false,
        };
        self.grants.entries.push(g);
        assert(self.grants.entries@.drop_last() =~= before);
        self.total_locked = new_locked;
        set_balance(&mut self.balances, &account, new_held);
        Ok(())
    }

    /// [`VestingContract::add_grant`] on behalf of `caller`, who must be the
    /// admin: any other caller is rejected with `Unauthorized` before the
    /// grant is looked at, leaving the contract unchanged.
    pub fn add_grant_as(
        &mut self,
        caller: &str,
        grantee: &str,
        total: u128,
        start_seconds: u64,
        duration_seconds: u64,
        cliff_seconds: u64,
    ) -> (r: Result<(), VestingError>)
        requires
            old(self).wf(),
        ensures
            final(self).wf(),
            caller@ != old(self).admin@ ==> r == Err::<(), VestingError>(VestingError::Unauthorized)
                && *final(self) == *old(self),
            caller@ == old(self).admin@ ==> r == (if total == 0 {
                Err(VestingError::ZeroPrincipal)
            } else if duration_seconds == 0 {
                Err(VestingError::ZeroDuration)
            } else if cliff_seconds > duration_seconds {
                Err(VestingError::CliffExceedsDuration)
            } else if old(self).total_locked + total > u128::MAX || balance_in(
                old(self).balances@,
                contract_account(),
            ) + total > u128::MAX {
                Err(VestingError::ArithmeticOverflow)
            } else {
                Ok(())
            }),
            r is Err ==> *final(self) == *old(self),
            r is Ok ==> {
                &&& final(self).grants.entries@.drop_last() == old(self).grants.entries@
                &&& final(self).grants.entries@.last().grantee@ == grantee@
                &&& final(self).grants.entries@.last().total == total
                &&& final(self).grants.entries@.last().claimed == 0
                &&& final(self).grants.entries@.last().released == 0
                &&& final(self).grants.entries@.last().start_seconds == start_seconds
                &&& final(self).grants.entries@.last().duration_seconds == duration_seconds
                &&& final(self).grants.entries@.last().cliff_seconds == cliff_seconds
                &&& !final(self).grants.entries@.last().revoked
                &&& final(self).total_locked == old(self).total_locked + total
                &&& final(self).admin == old(self).admin
                &&& final(self).paused == old(self).paused
                &&& final(self).events == old(self).events
            },
    {
        let c = String::from_str(caller);
        if c != self.admin {
            return Err(VestingError::Unauthorized);
        }
        self.add_grant(grantee, total, start_seconds, duration_seconds, cliff_seconds)
    }

    /// Claims, for `grantee` at `now`, everything released and not yet
    /// claimed: each grant not revoked is first synced to what has vested by
    /// `now` (released amounts never decrease), then the released amount of
    /// every grant of `grantee` counts as claimed, and the sum is paid from
    /// the contract's account to the grantee. Returns the amount paid.
    /// Rejected, leaving the contract unchanged, when `grantee` has no
    /// grant, the payout does not fit in `u128`, or the token move fails.
    pub fn claim(&mut self, grantee: &str, now: u64) -> (r: Result<u128, VestingError>)
        requires
            old(self).wf(),
        ensures
            final(self).wf(),
            r is Err ==> *final(self) == *old(self),
            !has_grant(old(self).grants.entries@, grantee@) ==> r == Err::<u128, VestingError>(
                VestingError::NoSuchGrant,
            ),
            has_grant(old(self).grants.entries@, grantee@) ==> {
                let pay = payment_sum(GrantOp::Claim, old(self).grants.entries@, grantee@, now);
                if pay > u128::MAX {
                    r == Err::<u128, VestingError>(VestingError::ArithmeticOverflow)
                } else {
                    match transfer_verdict(old(self).balances@, contract_account(), grantee@, pay) {
                        Err(e) => r == Err::<u128, VestingError>(e),
                        Ok(()) => {
                            &&& r == Ok::<u128, VestingError>(pay as u128)
                            &&& final(self).grants.entries@ == apply_all(
                                GrantOp::Claim,
                                old(self).grants.entries@,
                                grantee@,
                                now,
                            )
                            &&& final(self).total_locked == old(self).total_locked - unlock_sum(
                                GrantOp::Claim,
                                old(self).grants.entries@,
                                grantee@,
                                now,
                            )
                            &&& grantee@ != contract_account() ==> balance_in(
                                final(self).balances@,
                                grantee@,
                            ) == balance_in(old(self).balances@, grantee@) + pay
                            &&& grantee@ != contract_account() ==> balance_in(
                                final(self).balances@,
                                contract_account(),
                            ) == balance_in(old(self).balances@, contract_account()) - pay
                            &&& final(self).admin == old(self).admin
                            &&& final(self).paused == old(self).paused
                            &&& final(self).events == old(self).events
                        },
                    }
                }
            },
    {
        let name = String::from_str(grantee);
        if !has_grant_of(&self.grants.entries, &name) {
            return Err(VestingError::NoSuchGrant);
        }
        let (entries, pay, unlock) = match apply_to_grantee(
            &self.grants.entries,
            &GrantOp::Claim,
            &name,
            now,
        ) {
            Some(t) => t,
            None => return Err(VestingError::ArithmeticOverflow),
        };
        let account = contract_account_name();
        match move_tokens(&mut self.balances, &account, &name, pay) {
            Ok(()) => {},
            Err(e) => return Err(e),
        }
        proof {
            lemma_apply_all_facts(GrantOp::Claim, self.grants.entries@, name@, now);
        }
        self.grants.entries = entries;
        self.total_locked = self.total_locked - unlock;
        Ok(pay)
    }

    /// Admin-only: releases every still-locked token of `grantee`'s grants
    /// that are not revoked, reduces the locked total accordingly and, when
    /// anything was released, records a `GrantAccelerated` event stamped
    /// `now`. Rejected, leaving the contract unchanged, when the caller is
    /// not the admin, the contract is paused, or `grantee` has no grant.
    pub fn accelerate_grant(&mut self, caller: &str, grantee: &str, now: u64) -> (r: Result<
        (),
        VestingError,
    >)
        requires
            old(self).wf(),
        ensures
            final(self).wf(),
            r == (match old(self).admin_gate(caller@) {
                Err(e) => Err(e),
                Ok(()) => if !has_grant(old(self).grants.entries@, grantee@) {
                    Err(VestingError::NoSuchGrant)
                } else {
                    Ok(())
                },
            }),
            r is Err ==> *final(self) == *old(self),
            r is Ok ==> {
                let unlock = unlock_sum(GrantOp::Accelerate, old(self).grants.entries@, grantee@, now);
                &&& final(self).grants.entries@ == apply_all(
                    GrantOp::Accelerate,
                    old(self).grants.entries@,
                    grantee@,
                    now,
                )
                &&& final(self).total_locked == old(self).total_locked - unlock
                &&& unlock == 0 ==> final(self).events == old(self).events
                &&& unlock > 0 ==> final(self).events@.len() == old(self).events@.len() + 1
                    && final(self).events@.drop_last() == old(self).events@
                    && final(self).events@.last().grantee@ == grantee@
                    && final(self).events@.last().amount == unlock
                    && final(self).events@.last().timestamp == now
                &&& final(self).balances == old(self).balances
                &&& final(self).admin == old(self).admin
                &&& final(self).paused == old(self).paused
            },
    {
        let c = String::from_str(caller);
        if c != self.admin {
            return Err(VestingError::Unauthorized);
        }
        if self.paused {
            return Err(VestingError::ContractPaused);
        }
        let name = String::from_str(grantee);
        if !has_grant_of(&self.grants.entries, &name) {
            return Err(VestingError::NoSuchGrant);
        }
        proof {
            lemma_apply_all_facts(GrantOp::Accelerate, self.grants.entries@, name@, now);
            lemma_accelerate_pays_nothing(self.grants.entries@, name@, now);
        }
        let (entries, _pay, unlock) = match apply_to_grantee(
            &self.grants.entries,
            &GrantOp::Accelerate,
            &name,
            now,
        ) {
            Some(t) => t,
            None => return Err(VestingError::ArithmeticOverflow),
        };
        self.grants.entries = entries;
        self.total_locked = self.total_locked - unlock;
        if unlock > 0 {
            let ghost before = self.events@;
            self.events.push(GrantAccelerated { grantee: name, amount: unlock, timestamp: now });
            assert(self.events@.drop_last() =~= before);
        }
        Ok(())
    }

    /// Admin-only: revokes `grantee`'s grants that are not yet revoked. Each
    /// is synced to `now`; what is still locked is cancelled (the grant's
    /// total shrinks to what it has released) and refunded from the
    /// contract's account to the treasury. Rejected, leaving the contract
    /// unchanged, when the caller is not the admin, the contract is paused,
    /// `grantee` has no grant, the refund does not fit in `u128`, or the
    /// token move fails.
    pub fn revoke(&mut self, caller: &str, grantee: &str, now: u64) -> (r: Result<(), VestingError>)
        requires
            old(self).wf(),
        ensures
            final(self).wf(),
            r is Err ==> *final(self) == *old(self),
            old(self).admin_gate(caller@) matches Err(e) ==> r == Err::<(), VestingError>(e),
            old(self).admin_gate(caller@) is Ok && !has_grant(old(self).grants.entries@, grantee@)
                ==> r == Err::<(), VestingError>(VestingError::NoSuchGrant),
            old(self).admin_gate(caller@) is Ok && has_grant(old(self).grants.entries@, grantee@)
                ==> {
                let refund = payment_sum(GrantOp::Revoke, old(self).grants.entries@, grantee@, now);
                if refund > u128::MAX {
                    r == Err::<(), VestingError>(VestingError::ArithmeticOverflow)
                } else {
                    match transfer_verdict(
                        old(self).balances@,
                        contract_account(),
                        old(self).treasury@,
                        refund,
                    ) {
                        Err(e) => r == Err::<(), VestingError>(e),
                        Ok(()) => {
                            &&& r is Ok
                            &&& final(self).grants.entries@ == apply_all(
                                GrantOp::Revoke,
                                old(self).grants.entries@,
                                grantee@,
                                now,
                            )
                            &&& final(self).total_locked == old(self).total_locked - unlock_sum(
                                GrantOp::Revoke,
                                old(self).grants.entries@,
                                grantee@,
                                now,
                            )
                            &&& old(self).treasury@ != contract_account() ==> balance_in(
                                final(self).balances@,
                                old(self).treasury@,
                            ) == balance_in(old(self).balances@, old(self).treasury@) + refund
                            &&& final(self).admin == old(self).admin
                            &&& final(self).treasury == old(self).treasury
                            &&& final(self).paused == old(self).paused
                            &&& final(self).events == old(self).events
                        },
                    }
                }
            },
    {
        let c = String::from_str(caller);
        if c != self.admin {
            return Err(VestingError::Unauthorized);
        }
        if self.paused {
            return Err(VestingError::ContractPaused);
        }
        let name = String::from_str(grantee);
        if !has_grant_of(&self.grants.entries, &name) {
            return Err(VestingError::NoSuchGrant);
        }
        let (entries, refund, unlock) = match apply_to_grantee(
            &self.grants.entries,
            &GrantOp::Revoke,
            &name,
            now,
        ) {
            Some(t) => t,
            None => return Err(VestingError::ArithmeticOverflow),
        };
        let account = contract_account_name();
        match move_tokens(&mut self.balances, &account, &self.treasury, refund) {
            Ok(()) => {},
            Err(e) => return Err(e),
        }
        proof {
            lemma_apply_all_facts(GrantOp::Revoke, self.grants.entries@, name@, now);
        }
        self.grants.entries = entries;
        self.total_locked = self.total_locked - unlock;
        Ok(())
    }

    /// Admin-only: hands every grant of `from` to `to`, schedules and
    /// amounts untouched. Rejected, leaving the contract unchanged, when the
    /// caller is not the admin, the contract is paused, `from` has no grant,
    /// or `to` already has one.
    pub fn transfer_grant(&mut self, caller: &str, from: &str, to: &str, _now: u64) -> (r: Result<
        (),
        VestingError,
    >)
        requires
            old(self).wf(),
        ensures
            final(self).wf(),
            r == (match old(self).admin_gate(caller@) {
                Err(e) => Err(e),
                Ok(()) => if !has_grant(old(self).grants.entries@, from@) {
                    Err(VestingError::NoSuchGrant)
                } else if has_grant(old(self).grants.entries@, to@) {
                    Err(VestingError::DestinationAlreadyHasGrant)
                } else {
                    Ok(())
                },
            }),
            r is Err ==> *final(self) == *old(self),
            r is Ok ==> {
                &&& final(self).grants.entries@.len() == old(self).grants.entries@.len()
                &&& forall|i: int|
                    0 <= i < old(self).grants.entries@.len() ==> {
                        let g = old(self).grants.entries@[i];
                        #[trigger] final(self).grants.entries@[i] == if g.grantee@ == from@ {
                            Grant { grantee: final(self).grants.entries@[i].grantee, ..g }
                        } else {
                            g
                        }
                    }
                &&& forall|i: int|
                    0 <= i < old(self).grants.entries@.len()
                        && old(self).grants.entries@[i].grantee@ == from@
                        ==> #[trigger] final(self).grants.entries@[i].grantee@ == to@
                &&& final(self).total_locked == old(self).total_locked
                &&& final(self).balances == old(self).balances
                &&& final(self).events == old(self).events
                &&& final(self).admin == old(self).admin
                &&& final(self).paused == old(self).paused
            },
    {
        let c = String::from_str(caller);
        if c != self.admin {
            return Err(VestingError::Unauthorized);
        }
        if self.paused {
            return Err(VestingError::ContractPaused);
        }
        let source = String::from_str(from);
        if !has_grant_of(&self.grants.entries, &source) {
            return Err(VestingError::NoSuchGrant);
        }
        let destination = String::from_str(to);
        if has_grant_of(&self.grants.entries, &destination) {
            return Err(VestingError::DestinationAlreadyHasGrant);
        }
        let op = GrantOp::Transfer(destination);
        proof {
            lemma_apply_all_facts(op, self.grants.entries@, source@, 0);
            lemma_transfer_unlocks_nothing(self.grants.entries@, op, source@, 0);
        }
        let (entries, _pay, unlock) = match apply_to_grantee(&self.grants.entries, &op, &source, 0) {
            Some(t) => t,
            None => return Err(VestingError::ArithmeticOverflow),
        };
        self.grants.entries = entries;
        self.total_locked = self.total_locked - unlock;
        Ok(())
    }
}

proof fn lemma_accelerate_pays_nothing(s: Seq<Grant>, name: Seq<char>, now: u64)
    ensures
        payment_sum(GrantOp::Accelerate, s, name, now) == 0,
    decreases s.len(),
{
    if s.len() > 0 {
        lemma_accelerate_pays_nothing(s.drop_last(), name, now);
    }
}

proof fn lemma_transfer_unlocks_nothing(s: Seq<Grant>, op: GrantOp, name: Seq<char>, now: u64)
    requires
        op is Transfer,
    ensures
        payment_sum(op, s, name, now) == 0,
        unlock_sum(op, s, name, now) == 0,
    decreases s.len(),
{
    if s.len() > 0 {
        lemma_transfer_unlocks_nothing(s.drop_last(), op, name, now);
    }
}

proof fn lemma_apply_all_shape(op: GrantOp, s: Seq<Grant>, name: Seq<char>, now: u64)
    ensures
        apply_all(op, s, name, now).len() == s.len(),
        s.len() > 0 ==> apply_all(op, s, name, now).drop_last() == apply_all(
            op,
            s.drop_last(),
            name,
            now,
        ),
        s.len() > 0 ==> apply_all(op, s, name, now).last() == if s.last().grantee@ == name {
            apply_op(op, s.last(), now)
        } else {
            s.last()
        },
    decreases s.len(),
{
    if s.len() > 0 {
        lemma_apply_all_shape(op, s.drop_last(), name, now);
        assert(apply_all(op, s, name, now).drop_last() =~= apply_all(op, s.drop_last(), name, now));
    }
}

/// Law: after accelerating `name`'s grants, every one of them that is not
/// revoked has released its whole total, so what it has left to claim is
/// its total minus what was claimed; other grantees' grants are untouched.
pub proof fn law_accelerate_releases_everything(s: Seq<Grant>, name: Seq<char>, now: u64)
    requires
        forall|i: int| 0 <= i < s.len() ==> grant_wf(#[trigger] s[i]),
    ensures
        forall|i: int|
            0 <= i < s.len() && s[i].grantee@ == name && !s[i].revoked ==> {
                let g = #[trigger] apply_all(GrantOp::Accelerate, s, name, now)[i];
                &&& g.released == g.total
                &&& g.released - g.claimed == s[i].total - s[i].claimed
            },
        forall|i: int|
            0 <= i < s.len() && s[i].grantee@ != name ==> #[trigger] apply_all(
                GrantOp::Accelerate,
                s,
                name,
                now,
            )[i] == s[i],
{
    lemma_apply_all_facts(GrantOp::Accelerate, s, name, now);
}

/// Law: accelerating twice in a row changes nothing the second time: the
/// grants stay as they are and nothing more is unlocked.
pub proof fn law_accelerate_is_idempotent(s: Seq<Grant>, name: Seq<char>, now: u64, later: u64)
    requires
        forall|i: int| 0 <= i < s.len() ==> grant_wf(#[trigger] s[i]),
    ensures
        apply_all(GrantOp::Accelerate, apply_all(GrantOp::Accelerate, s, name, now), name, later)
            == apply_all(GrantOp::Accelerate, s, name, now),
        unlock_sum(
            GrantOp::Accelerate,
            apply_all(GrantOp::Accelerate, s, name, now),
            name,
            later,
        ) == 0,
    decreases s.len(),
{
    let a = apply_all(GrantOp::Accelerate, s, name, now);
    lemma_apply_all_shape(GrantOp::Accelerate, s, name, now);
    lemma_apply_all_shape(GrantOp::Accelerate, a, name, later);
    if s.len() > 0 {
        let p = s.drop_last();
        assert forall|i: int| 0 <= i < p.len() implies grant_wf(#[trigger] p[i]) by {
            assert(p[i] == s[i]);
        }
        law_accelerate_is_idempotent(p, name, now, later);
        let b = apply_all(GrantOp::Accelerate, a, name, later);
        assert(b =~= a);
    } else {
        assert(apply_all(GrantOp::Accelerate, a, name, later) =~= a);
    }
}

/// Law: a claim leaves nothing to claim at the same moment: claiming again
/// at `now` pays nothing and unlocks nothing.
pub proof fn law_claim_twice_pays_nothing_more(s: Seq<Grant>, name: Seq<char>, now: u64)
    requires
        forall|i: int| 0 <= i < s.len() ==> grant_wf(#[trigger] s[i]),
    ensures
        payment_sum(GrantOp::Claim, apply_all(GrantOp::Claim, s, name, now), name, now) == 0,
        unlock_sum(GrantOp::Claim, apply_all(GrantOp::Claim, s, name, now), name, now) == 0,
    decreases s.len(),
{
    let a = apply_all(GrantOp::Claim, s, name, now);
    lemma_apply_all_shape(GrantOp::Claim, s, name, now);
    if s.len() > 0 {
        let p = s.drop_last();
        assert forall|i: int| 0 <= i < p.len() implies grant_wf(#[trigger] p[i]) by {
            assert(p[i] == s[i]);
        }
        law_claim_twice_pays_nothing_more(p, name, now);
        lemma_vested_le_total(s.last(), now);
        let g = apply_op(GrantOp::Claim, s.last(), now);
        assert(a.drop_last() == apply_all(GrantOp::Claim, p, name, now));
        assert(vested_amount(g, now) == vested_amount(s.last(), now));
    }
}

/// Law: a grant vests nothing before its start plus its cliff; time counts
/// from the start, so between the cliff and the end of the duration the
/// vested amount `v` is the total's share of the time elapsed since the
/// start over the duration, rounded down
/// (`v * duration <= total * (now - start) < (v + 1) * duration`); and the
/// grant is fully vested exactly once the duration (and the cliff) has
/// elapsed since the start.
pub proof fn law_grant_vests_from_its_start(g: Grant, now: u64)
    requires
        g.total > 0,
    ensures
        now < g.start_seconds + g.cliff_seconds ==> vested_amount(g, now) == 0,
        g.start_seconds + g.cliff_seconds <= now < g.start_seconds + g.duration_seconds ==> {
            let v = vested_amount(g, now);
            &&& v * g.duration_seconds <= g.total * (now - g.start_seconds)
            &&& g.total * (now - g.start_seconds) < (v + 1) * g.duration_seconds
        },
        now >= g.start_seconds + g.cliff_seconds ==> (vested_amount(g, now) == g.total
            <==> now >= g.start_seconds + g.duration_seconds),
{
    let e = now - g.start_seconds;
    let d = g.duration_seconds as int;
    let t = g.total as int;
    if g.start_seconds + g.cliff_seconds <= now < g.start_seconds + g.duration_seconds {
        let v = vested_amount(g, now);
        assert(0 <= e < d);
        assert(v == (t * e) / d);
        assert(v * d <= t * e < (v + 1) * d) by (nonlinear_arith)
            requires
                d > 0,
                e >= 0,
                t >= 0,
                v == (t * e) / d,
        ;
        assert(v < t) by (nonlinear_arith)
            requires
                0 <= e < d,
                t > 0,
                v * d <= t * e,
        ;
    }
}

} // verus!
