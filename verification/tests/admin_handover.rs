use stellar_lend::admin::{get_admin, has_admin, set_admin, AdminError, AdminState};

const CONTRACT: &str = "CCONTRACTADDRESS";

fn fresh() -> AdminState {
    AdminState { admin: None, contract_address: CONTRACT.to_string() }
}

fn setup() -> (AdminState, String, String) {
    let mut state = fresh();
    let admin = "GADMINADDRESS".to_string();
    let new_admin = "GNEWADMINADDRESS".to_string();
    set_admin(&mut state, admin.clone(), None).unwrap();
    (state, admin, new_admin)
}

#[test]
fn test_transfer_to_valid_new_admin_succeeds() {
    let (mut state, admin, new_admin) = setup();
    assert_eq!(get_admin(&state), Some(admin.clone()));
    let result = set_admin(&mut state, new_admin.clone(), Some(admin.clone()));
    assert!(result.is_ok(), "transfer to valid new admin should succeed");
    assert_eq!(get_admin(&state), Some(new_admin));
}

#[test]
fn test_admin_transferred_event_emitted_on_transfer() {
    let (mut state, admin, new_admin) = setup();
    let result = set_admin(&mut state, new_admin.clone(), Some(admin.clone()));
    let event = result.unwrap().expect("AdminTransferredEvent should have been emitted");
    assert_eq!(event.old_admin, admin);
    assert_eq!(event.new_admin, new_admin);
}

#[test]
fn test_transfer_to_self_contract_rejected() {
    let (mut state, admin, _new_admin) = setup();
    let result = set_admin(&mut state, CONTRACT.to_string(), Some(admin.clone()));
    assert!(
        matches!(result, Err(AdminError::CannotTransferToSelf)),
        "transfer to self-contract should be rejected with CannotTransferToSelf, got {:?}",
        result
    );
    assert_eq!(get_admin(&state), Some(admin));
}

#[test]
fn test_transfer_to_current_admin_rejected() {
    let (mut state, admin, _new_admin) = setup();
    let result = set_admin(&mut state, admin.clone(), Some(admin.clone()));
    assert!(
        matches!(result, Err(AdminError::AlreadyAdmin)),
        "transfer to current admin should be rejected with AlreadyAdmin, got {:?}",
        result
    );
    assert_eq!(get_admin(&state), Some(admin));
}

#[test]
fn test_transfer_before_initialization_rejected() {
    let mut state = fresh();
    let result = set_admin(&mut state, "GNEW".to_string(), Some("GCALLER".to_string()));
    assert!(
        matches!(result, Err(AdminError::NotInitialized)),
        "transfer before init should be rejected with NotInitialized, got {:?}",
        result
    );
}

#[test]
fn test_has_admin_returns_true_after_initialize() {
    let (state, _admin, _new_admin) = setup();
    assert!(has_admin(&state));
}

#[test]
fn test_has_admin_returns_false_before_initialize() {
    let state = fresh();
    assert!(!has_admin(&state));
}

#[test]
fn test_get_admin_returns_none_before_initialize() {
    let state = fresh();
    assert_eq!(get_admin(&state), None);
}

#[test]
fn test_get_admin_returns_admin_after_initialize() {
    let (state, admin, _new_admin) = setup();
    assert_eq!(get_admin(&state), Some(admin));
}

#[test]
fn test_sequential_transfers_allowed() {
    let (mut state, admin, new_admin) = setup();
    let third_admin = "GTHIRDADMIN".to_string();
    let r1 = set_admin(&mut state, new_admin.clone(), Some(admin.clone()));
    assert!(r1.is_ok(), "first transfer should succeed");
    assert_eq!(get_admin(&state), Some(new_admin.clone()));
    let r2 = set_admin(&mut state, third_admin.clone(), Some(new_admin.clone()));
    assert!(r2.is_ok(), "second transfer should succeed");
    assert_eq!(get_admin(&state), Some(third_admin));
}

#[test]
fn test_error_code_stability() {
    assert_eq!(AdminError::CannotTransferToSelf.code(), 1);
    assert_eq!(AdminError::AlreadyAdmin.code(), 2);
    assert_eq!(AdminError::Unauthorized.code(), 3);
    assert_eq!(AdminError::NotInitialized.code(), 4);
}

#[test]
fn former_admin_cannot_transfer_after_handover() {
    let (mut state, admin, new_admin) = setup();
    set_admin(&mut state, new_admin.clone(), Some(admin.clone())).unwrap();
    let result = set_admin(&mut state, "GOTHER".to_string(), Some(admin));
    assert_eq!(result, Err(AdminError::Unauthorized));
    assert_eq!(get_admin(&state), Some(new_admin));
}

#[test]
fn initialization_overwrites_without_checks() {
    let (mut state, _admin, new_admin) = setup();
    assert_eq!(set_admin(&mut state, new_admin.clone(), None), Ok(None));
    assert_eq!(get_admin(&state), Some(new_admin));
}
