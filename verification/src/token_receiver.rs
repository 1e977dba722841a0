//! Validation for the token-aware `receive` entrypoint of the lending
//! contract: which requests are admitted, and in what order the checks are
//! made. The host reads the facts these checks need (registry, pause flags,
//! allowance, balance), authenticates the sender, pulls the tokens and runs
//! the chosen action.

use vstd::prelude::*;

verus! {

/// Current payload version for token receiver operations.
pub const PAYLOAD_VERSION: u32 = 1;

/// Maximum allowed payload length.
pub const MAX_PAYLOAD_LENGTH: u32 = 10;

/// Errors of the lending contract raised by `receive`.
#[derive(Clone, Copy, Debug, PartialEq, Eq, Structural)]
pub enum BorrowError {
    InvalidAmount,
    AssetNotSupported,
    ProtocolPaused,
    Unauthorized,
    UnauthorizedSender,
    MalformedPayload,
    InvalidPayloadVersion,
}

/// A payload entry, as far as the receiver reads it.
#[derive(Clone, Debug, PartialEq, Eq)]
pub enum PayloadValue {
    U32(u32),
    Symbol(String),
    Other,
}

/// The action requested by a payload.
#[derive(Clone, Copy, Debug, PartialEq, Eq, Structural)]
pub enum ReceiveAction {
    Deposit,
    Repay,
}

/// The protocol's pause state as seen by `receive`.
#[derive(Clone, Copy, Debug, PartialEq, Eq, Structural)]
pub struct PauseState {
    pub deposit_paused: bool,
    pub repay_paused: bool,
    pub recovery_mode: bool,
    pub high_risk_blocked: bool,
}

/// What `receive` reads from the ledger before deciding.
#[derive(Clone, Debug)]
pub struct ReceiveContext {
    /// Whether the token contract is registered in the asset registry; an
    /// unregistered one is answered `AssetNotSupported`.
    pub asset_registered: bool,
    pub pause: PauseState,
    /// The lending contract's own address.
    pub contract_address: String,
    /// What `from` has approved the lending contract to spend.
    pub allowance: i128,
    /// The token balance of `from`.
    pub balance: i128,
}

/// The action named by the symbol text `s`, if it is a supported one.
pub open spec fn action_named(s: Seq<char>) -> Option<ReceiveAction> {
    if s == "deposit"@ {
        Some(ReceiveAction::Deposit)
    } else if s == "repay"@ {
        Some(ReceiveAction::Repay)
    } else {
        None
    }
}

/// The verdict on a payload: two to ten entries, version `1` first, then
/// the symbol of a supported action; further entries are ignored.
pub open spec fn payload_verdict(payload: Seq<PayloadValue>) -> Result<ReceiveAction, BorrowError> {
    if payload.len() < 2 || payload.len() > MAX_PAYLOAD_LENGTH {
        Err(BorrowError::MalformedPayload)
    } else {
        match payload[0] {
            PayloadValue::U32(v) => if v != PAYLOAD_VERSION {
                Err(BorrowError::InvalidPayloadVersion)
            } else {
                match payload[1] {
                    PayloadValue::Symbol(s) => match action_named(s@) {
                        Some(a) => Ok(a),
                        None => Err(BorrowError::AssetNotSupported),
                    },
                    _ => Err(BorrowError::MalformedPayload),
                }
            },
            _ => Err(BorrowError::MalformedPayload),
        }
    }
}

/// The verdict on an action under the pause state: deposits stop when
/// deposits are paused or high-risk operations are blocked; repayments stop
/// when repayments are paused, or when high-risk operations are blocked
/// outside recovery mode.
pub open spec fn pause_verdict(action: ReceiveAction, pause: PauseState) -> Result<(), BorrowError> {
    match action {
        ReceiveAction::Deposit => if pause.deposit_paused || pause.high_risk_blocked {
            Err(BorrowError::ProtocolPaused)
        } else {
            Ok(())
        },
        ReceiveAction::Repay => if pause.repay_paused || (!pause.recovery_mode
            && pause.high_risk_blocked) {
            Err(BorrowError::ProtocolPaused)
        } else {
            Ok(())
        },
    }
}

/// The verdict on a `receive` request before the sender is looked at,
/// checks in order: registered asset, positive amount, payload, pause state.
/// An asset missing from the registry is answered `AssetNotSupported`: the
/// registry's own error is not part of this library, and this is its choice.
pub open spec fn screen_verdict(
    asset_registered: bool,
    pause: PauseState,
    amount: i128,
    payload: Seq<PayloadValue>,
) -> Result<ReceiveAction, BorrowError> {
    if !asset_registered {
        Err(BorrowError::AssetNotSupported)
    } else if amount <= 0 {
        Err(BorrowError::InvalidAmount)
    } else {
        match payload_verdict(payload) {
            Err(e) => Err(e),
            Ok(action) => match pause_verdict(action, pause) {
                Err(e) => Err(e),
                Ok(()) => Ok(action),
            },
        }
    }
}

/// The verdict on a `receive` request before any token is read: the checks
/// of [`screen_verdict`], then the sender (neither the token contract nor
/// the lending contract).
pub open spec fn request_verdict(
    asset_registered: bool,
    pause: PauseState,
    contract_address: Seq<char>,
    token_asset: Seq<char>,
    from: Seq<char>,
    amount: i128,
    payload: Seq<PayloadValue>,
) -> Result<ReceiveAction, BorrowError> {
    match screen_verdict(asset_registered, pause, amount, payload) {
        Err(e) => Err(e),
        Ok(action) => if from == token_asset || from == contract_address {
            Err(BorrowError::UnauthorizedSender)
        } else {
            Ok(action)
        },
    }
}

/// The verdict on pulling `amount`: the approved allowance must cover it,
/// then the balance must.
pub open spec fn pull_verdict(allowance: i128, balance: i128, amount: i128) -> Result<(), BorrowError> {
    if allowance < amount {
        Err(BorrowError::Unauthorized)
    } else if balance < amount {
        Err(BorrowError::InvalidAmount)
    } else {
        Ok(())
    }
}

/// The verdict on a whole `receive` request: the request checks of
/// [`request_verdict`], then the pull checks of [`pull_verdict`].
pub open spec fn receive_verdict(
    ctx: ReceiveContext,
    token_asset: Seq<char>,
    from: Seq<char>,
    amount: i128,
    payload: Seq<PayloadValue>,
) -> Result<ReceiveAction, BorrowError> {
    match request_verdict(
        ctx.asset_registered,
        ctx.pause,
        ctx.contract_address@,
        token_asset,
        from,
        amount,
        payload,
    ) {
        Err(e) => Err(e),
        Ok(action) => match pull_verdict(ctx.allowance, ctx.balance, amount) {
            Err(e) => Err(e),
            Ok(()) => Ok(action),
        },
    }
}

fn action_of_symbol(s: &String) -> (r: Option<ReceiveAction>)
    ensures
        r == action_named(s@),
{
    let deposit = String::from_str("deposit");
    let repay = String::from_str("repay");
    if *s == deposit {
        Some(ReceiveAction::Deposit)
    } else if *s == repay {
        Some(ReceiveAction::Repay)
    } else {
        None
    }
}

/// Validates the payload's structure and version and extracts the action.
pub fn validate_and_parse_payload(payload: &Vec<PayloadValue>) -> (r: Result<ReceiveAction, BorrowError>)
    ensures
        r == payload_verdict(payload@),
{
    if payload.len() < 2 {
        return Err(BorrowError::MalformedPayload);
    }
    if payload.len() > MAX_PAYLOAD_LENGTH as usize {
        return Err(BorrowError::MalformedPayload);
    }
    match &payload[0] {
        PayloadValue::U32(v) => {
            if *v != PAYLOAD_VERSION {
                return Err(BorrowError::InvalidPayloadVersion);
            }
        },
        _ => return Err(BorrowError::MalformedPayload),
    }
    match &payload[1] {
        PayloadValue::Symbol(s) => match action_of_symbol(s) {
            Some(a) => Ok(a),
            None => Err(BorrowError::AssetNotSupported),
        },
        _ => Err(BorrowError::MalformedPayload),
    }
}

/// Checks the action against the protocol's pause state.
pub fn validate_action_and_pause_state(action: ReceiveAction, pause: &PauseState) -> (r: Result<
    (),
    BorrowError,
>)
    ensures
        r == pause_verdict(action, *pause),
{
    match action {
        ReceiveAction::Deposit => {
            if pause.deposit_paused || pause.high_risk_blocked {
                return Err(BorrowError::ProtocolPaused);
            }
        },
        ReceiveAction::Repay => {
            if pause.repay_paused || (!pause.recovery_mode && pause.high_risk_blocked) {
                return Err(BorrowError::ProtocolPaused);
            }
        },
    }
    Ok(())
}

/// Rejects a sender that is the token contract itself or the lending
/// contract itself.
pub fn validate_sender(from: &String, token_asset: &String, contract_address: &String) -> (r: Result<
    (),
    BorrowError,
>)
    ensures
        r == (if from@ == token_asset@ || from@ == contract_address@ {
            Err(BorrowError::UnauthorizedSender)
        } else {
            Ok(())
        }),
{
    if *from == *token_asset {
        return Err(BorrowError::UnauthorizedSender);
    }
    if *from == *contract_address {
        return Err(BorrowError::UnauthorizedSender);
    }
    Ok(())
}

/// Checks that `amount` can be pulled: the approved allowance covers it,
/// then the balance covers it.
pub fn check_pull(allowance: i128, balance: i128, amount: i128) -> (r: Result<(), BorrowError>)
    ensures
        r == pull_verdict(allowance, balance, amount),
{
    if allowance < amount {
        return Err(BorrowError::Unauthorized);
    }
    if balance < amount {
        return Err(BorrowError::InvalidAmount);
    }
    Ok(())
}

/// The checks made before the sender is looked at: registered asset,
/// positive amount, payload, pause state. See [`screen_verdict`].
pub fn screen_request(
    asset_registered: bool,
    pause: &PauseState,
    amount: i128,
    payload: &Vec<PayloadValue>,
) -> (r: Result<ReceiveAction, BorrowError>)
    ensures
        r == screen_verdict(asset_registered, *pause, amount, payload@),
{
    if !asset_registered {
        return Err(BorrowError::AssetNotSupported);
    }
    if amount <= 0 {
        return Err(BorrowError::InvalidAmount);
    }
    let action = match validate_and_parse_payload(payload) {
        Ok(a) => a,
        Err(e) => return Err(e),
    };
    match validate_action_and_pause_state(action, pause) {
        Ok(()) => {},
        Err(e) => return Err(e),
    }
    Ok(action)
}

/// The checks made before any token is read: registered asset, positive
/// amount, payload, pause state, sender. See [`request_verdict`].
pub fn admit_request(
    asset_registered: bool,
    pause: &PauseState,
    contract_address: &String,
    token_asset: &String,
    from: &String,
    amount: i128,
    payload: &Vec<PayloadValue>,
) -> (r: Result<ReceiveAction, BorrowError>)
    ensures
        r == request_verdict(
            asset_registered,
            *pause,
            contract_address@,
            token_asset@,
            from@,
            amount,
            payload@,
        ),
{
    let action = match screen_request(asset_registered, pause, amount, payload) {
        Ok(a) => a,
        Err(e) => return Err(e),
    };
    match validate_sender(from, token_asset, contract_address) {
        Ok(()) => {},
        Err(e) => return Err(e),
    }
    Ok(action)
}

/// Decides a `receive` request. On `Ok(action)` the host pulls `amount`
/// from `from` with `transfer_from` and then runs `action`; on an error
/// nothing is pulled. See [`receive_verdict`].
pub fn receive(
    ctx: &ReceiveContext,
    token_asset: &String,
    from: &String,
    amount: i128,
    payload: &Vec<PayloadValue>,
) -> (r: Result<ReceiveAction, BorrowError>)
    ensures
        r == receive_verdict(*ctx, token_asset@, from@, amount, payload@),
{
    let action = match admit_request(
        ctx.asset_registered,
        &ctx.pause,
        &ctx.contract_address,
        token_asset,
        from,
        amount,
        payload,
    ) {
        Ok(a) => a,
        Err(e) => return Err(e),
    };
    match check_pull(ctx.allowance, ctx.balance, amount) {
        Ok(()) => {},
        Err(e) => return Err(e),
    }
    Ok(action)
}

/// Law: an admitted request always carries a positive amount covered by
/// both the allowance and the balance, comes from a sender other than the
/// token and the lending contract, and names an action the pause state
/// allows.
pub proof fn law_admitted_receive_is_fundable(
    ctx: ReceiveContext,
    token_asset: Seq<char>,
    from: Seq<char>,
    amount: i128,
    payload: Seq<PayloadValue>,
)
    requires
        receive_verdict(ctx, token_asset, from, amount, payload) is Ok,
    ensures
        ctx.asset_registered,
        0 < amount <= ctx.allowance,
        amount <= ctx.balance,
        from != token_asset,
        from != ctx.contract_address@,
        payload_verdict(payload) == receive_verdict(ctx, token_asset, from, amount, payload),
        pause_verdict(receive_verdict(ctx, token_asset, from, amount, payload)->Ok_0, ctx.pause)
            is Ok,
{
}

/// Law: the pause state gates each action on its own terms. A deposit is
/// admitted only when deposits are not paused and high-risk operations are
/// not blocked, whatever the recovery mode; a repayment is admitted only when
/// repayments are not paused and, outside recovery mode, high-risk
/// operations are not blocked. So a request that reaches the pause check is
/// refused with `ProtocolPaused` exactly when its action is gated.
pub proof fn law_pause_gates_deposits_and_repayments(
    ctx: ReceiveContext,
    token_asset: Seq<char>,
    from: Seq<char>,
    amount: i128,
    payload: Seq<PayloadValue>,
)
    ensures
        pause_verdict(ReceiveAction::Deposit, ctx.pause) is Ok <==> !ctx.pause.deposit_paused
            && !ctx.pause.high_risk_blocked,
        pause_verdict(ReceiveAction::Repay, ctx.pause) is Ok <==> !ctx.pause.repay_paused && (
        ctx.pause.recovery_mode || !ctx.pause.high_risk_blocked),
        pause_verdict(ReceiveAction::Deposit, ctx.pause) is Err ==> pause_verdict(
            ReceiveAction::Deposit,
            ctx.pause,
        ) == Err::<(), BorrowError>(BorrowError::ProtocolPaused),
        pause_verdict(ReceiveAction::Repay, ctx.pause) is Err ==> pause_verdict(
            ReceiveAction::Repay,
            ctx.pause,
        ) == Err::<(), BorrowError>(BorrowError::ProtocolPaused),
        ctx.asset_registered && amount > 0 && payload_verdict(payload) == Ok::<
            ReceiveAction,
            BorrowError,
        >(ReceiveAction::Deposit) && (ctx.pause.deposit_paused || ctx.pause.high_risk_blocked)
            ==> receive_verdict(ctx, token_asset, from, amount, payload) == Err::<
            ReceiveAction,
            BorrowError,
        >(BorrowError::ProtocolPaused),
        receive_verdict(ctx, token_asset, from, amount, payload) == Ok::<ReceiveAction, BorrowError>(
            ReceiveAction::Deposit,
        ) ==> !ctx.pause.deposit_paused && !ctx.pause.high_risk_blocked,
        receive_verdict(ctx, token_asset, from, amount, payload) == Ok::<ReceiveAction, BorrowError>(
            ReceiveAction::Repay,
        ) ==> !ctx.pause.repay_paused && (ctx.pause.recovery_mode || !ctx.pause.high_risk_blocked),
{
}

} // verus!
