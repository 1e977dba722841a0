//! Protocol admin handover with safety guards. The stored admin and the
//! contract's own address are what the rules read; authentication of the
//! caller and event publication belong to the host.

use vstd::prelude::*;

verus! {

/// Storage key under which the admin is kept.
#[derive(Clone, Copy, Debug, PartialEq, Eq, Structural)]
pub enum AdminDataKey {
    Admin,
}

/// Errors raised during admin handover.
#[derive(Clone, Copy, Debug, PartialEq, Eq, Structural)]
pub enum AdminError {
    /// Transfer target is the contract's own address.
    CannotTransferToSelf,
    /// Transfer target is the same as the current admin.
    AlreadyAdmin,
    /// Caller is not the current admin.
    Unauthorized,
    /// Admin has not been initialized yet.
    NotInitialized,
}

impl AdminError {
    /// The stable numeric code of each error.
    pub open spec fn spec_code(self) -> u32 {
        match self {
            AdminError::CannotTransferToSelf => 1,
            AdminError::AlreadyAdmin => 2,
            AdminError::Unauthorized => 3,
            AdminError::NotInitialized => 4,
        }
    }

    /// The stable numeric code of the error.
    pub fn code(&self) -> (c: u32)
        ensures
            c == self.spec_code(),
    {
        match self {
            AdminError::CannotTransferToSelf => 1,
            AdminError::AlreadyAdmin => 2,
            AdminError::Unauthorized => 3,
            AdminError::NotInitialized => 4,
        }
    }
}

/// Emitted when the admin is transferred to a new address.
#[derive(Clone, Debug, PartialEq, Eq)]
pub struct AdminTransferredEvent {
    pub old_admin: String,
    pub new_admin: String,
}

/// The admin record of a contract: the stored admin, if initialised, and
/// the contract's own address.
#[derive(Clone, Debug)]
pub struct AdminState {
    pub admin: Option<String>,
    pub contract_address: String,
}

/// Whether `s` holds `Some(x)` with the same text as `t`.
pub open spec fn holds_text(s: Option<String>, t: Seq<char>) -> bool {
    s matches Some(x) && x@ == t
}

/// The verdict on a handover to `new_admin` requested by `caller`.
pub open spec fn handover_check(state: AdminState, new_admin: Seq<char>, caller: Seq<char>) -> Result<
    (),
    AdminError,
> {
    match state.admin {
        None => Err(AdminError::NotInitialized),
        Some(current) => if caller != current@ {
            Err(AdminError::Unauthorized)
        } else if new_admin == state.contract_address@ {
            Err(AdminError::CannotTransferToSelf)
        } else if new_admin == current@ {
            Err(AdminError::AlreadyAdmin)
        } else {
            Ok(())
        },
    }
}

/// Whether an admin is stored.
pub fn has_admin(state: &AdminState) -> (r: bool)
    ensures
        r == state.admin is Some,
{
    state.admin.is_some()
}

/// The stored admin, if any.
pub fn get_admin(state: &AdminState) -> (r: Option<String>)
    ensures
        r == state.admin,
{
    match &state.admin {
        Some(a) => Some(a.clone()),
        None => None,
    }
}

/// Sets or transfers the admin. With `caller == None` (initialisation) the
/// new admin is stored unconditionally and no event is produced. With
/// `caller == Some(c)` the handover is rejected, leaving the record
/// unchanged, when no admin is stored, `c` is not the admin, the target is
/// the contract itself, or the target already is the admin; otherwise the
/// new admin is stored and the transfer event is returned for publication.
/// Authenticating `c` is the host's task.
pub fn set_admin(state: &mut AdminState, new_admin: String, caller: Option<String>) -> (r: Result<
    Option<AdminTransferredEvent>,
    AdminError,
>)
    ensures
        final(state).contract_address == old(state).contract_address,
        caller is None ==> r == Ok::<Option<AdminTransferredEvent>, AdminError>(None)
            && final(state).admin == Some(new_admin),
        caller matches Some(c) ==> {
            &&& r is Ok <==> handover_check(*old(state), new_admin@, c@) is Ok
            &&& r matches Err(e) ==> handover_check(*old(state), new_admin@, c@)
                == Err::<(), AdminError>(e) && *final(state) == *old(state)
            &&& r matches Ok(ev) ==> {
                &&& final(state).admin == Some(new_admin)
                &&& ev matches Some(event)
                &&& holds_text(old(state).admin, event.old_admin@)
                &&& event.new_admin@ == new_admin@
            }
        },
{
    match caller {
        Some(caller) => {
            let current_admin = match &state.admin {
                Some(a) => a.clone(),
                None => return Err(AdminError::NotInitialized),
            };
            if caller != current_admin {
                return Err(AdminError::Unauthorized);
            }
            if new_admin == state.contract_address {
                return Err(AdminError::CannotTransferToSelf);
            }
            if new_admin == current_admin {
                return Err(AdminError::AlreadyAdmin);
            }
            let event = AdminTransferredEvent {
                old_admin: current_admin,
                new_admin: new_admin.clone(),
            };
            state.admin = Some(new_admin);
            Ok(Some(event))
        },
        None => {
            state.admin = Some(new_admin);
            Ok(None)
        },
    }
}

/// Law: after a successful handover from `c` to `n`, the stored admin is
/// `n`, so a further handover requested by `c` is refused as unauthorised,
/// while `n` itself may hand over to any third address other than the
/// contract.
pub proof fn law_handover_moves_authority(
    before: AdminState,
    after: AdminState,
    c: Seq<char>,
    n: Seq<char>,
    next: Seq<char>,
)
    requires
        handover_check(before, n, c) is Ok,
        holds_text(after.admin, n),
        after.contract_address == before.contract_address,
    ensures
        c != n,
        handover_check(after, next, c) == Err::<(), AdminError>(AdminError::Unauthorized),
        next != n && next != after.contract_address@ ==> handover_check(after, next, n) is Ok,
{
}

} // verus!
