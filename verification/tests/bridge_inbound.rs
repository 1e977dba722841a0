use stellar_lend::bridge::{Bridge, BridgeError, ValidatorEvent, ValidatorSet, DEFAULT_INBOUND_WINDOW_SECS};
use stellar_lend::bytes::{concat_prefixed, count_distinct, has_duplicate, without_key};
use stellar_lend::text::{lowercase_hex, push_decimal};

fn keys(n: u8) -> ValidatorSet {
    ValidatorSet { validators: (0..n).map(|i| vec![i; 32]).collect() }
}

fn open_bridge(cap: i128, window: u64, start: u64) -> Bridge {
    let mut b = Bridge::new(keys(4));
    b.set_inbound_cap(cap, window, start).unwrap();
    b
}

#[test]
fn new_bridge_is_fail_closed() {
    let mut b = Bridge::new(keys(3));
    assert_eq!(b.max_per_window, 0);
    assert_eq!(b.window_size, DEFAULT_INBOUND_WINDOW_SECS);
    assert_eq!(b.admit_inbound(1, 0), Err(BridgeError::InboundDisabled));
    assert_eq!(b.admit_inbound(0, 0), Err(BridgeError::InboundDisabled));
}

#[test]
fn set_inbound_cap_rejects_negative_cap_and_zero_window() {
    let mut b = Bridge::new(keys(3));
    assert_eq!(b.set_inbound_cap(-1, 10, 0), Err(BridgeError::NegativeInboundCap));
    assert_eq!(b.set_inbound_cap(5, 0, 0), Err(BridgeError::InvalidWindowSize));
    assert_eq!(b.max_per_window, 0);
    assert_eq!(b.window_size, DEFAULT_INBOUND_WINDOW_SECS);
}

#[test]
fn set_inbound_cap_restarts_window() {
    let mut b = open_bridge(100, 10, 5);
    b.admit_inbound(60, 6).unwrap();
    b.set_inbound_cap(100, 20, 50).unwrap();
    assert_eq!(b.window_start, 50);
    assert_eq!(b.window_inbound_total, 0);
    assert_eq!(b.window_size, 20);
}

#[test]
fn admit_inbound_accumulates_up_to_cap() {
    let mut b = open_bridge(100, 10, 0);
    b.admit_inbound(40, 1).unwrap();
    b.admit_inbound(60, 2).unwrap();
    assert_eq!(b.window_inbound_total, 100);
    assert_eq!(b.admit_inbound(1, 3), Err(BridgeError::InboundCapExceeded));
    assert_eq!(b.window_inbound_total, 100);
    b.admit_inbound(0, 3).unwrap();
}

#[test]
fn admit_inbound_rejects_negative_amount() {
    let mut b = open_bridge(100, 10, 0);
    assert_eq!(b.admit_inbound(-5, 1), Err(BridgeError::NegativeInboundAmount));
    assert_eq!(b.window_inbound_total, 0);
}

#[test]
fn window_rolls_over_after_full_length() {
    let mut b = open_bridge(100, 10, 0);
    b.admit_inbound(100, 5).unwrap();
    assert_eq!(b.admit_inbound(1, 9), Err(BridgeError::InboundCapExceeded));
    b.admit_inbound(70, 10).unwrap();
    assert_eq!(b.window_start, 10);
    assert_eq!(b.window_inbound_total, 70);
    // An idle bridge restarts its window at the current time.
    b.admit_inbound(5, 1_000).unwrap();
    assert_eq!(b.window_start, 1_000);
    assert_eq!(b.window_inbound_total, 5);
}

#[test]
fn clock_moving_backwards_keeps_window() {
    let mut b = open_bridge(100, 10, 50);
    b.admit_inbound(30, 55).unwrap();
    b.admit_inbound(30, 10).unwrap();
    assert_eq!(b.window_start, 50);
    assert_eq!(b.window_inbound_total, 60);
}

#[test]
fn window_end_past_u64_never_rolls() {
    let mut b = open_bridge(100, u64::MAX, 10);
    b.admit_inbound(100, 20).unwrap();
    assert_eq!(b.admit_inbound(1, u64::MAX), Err(BridgeError::InboundCapExceeded));
    assert_eq!(b.window_start, 10);
}

#[test]
fn inbound_total_overflow_is_reported() {
    let mut b = open_bridge(i128::MAX, 10, 0);
    b.admit_inbound(i128::MAX, 1).unwrap();
    assert_eq!(b.admit_inbound(1, 2), Err(BridgeError::InboundTotalOverflow));
}

#[test]
fn inbound_epoch_check() {
    let mut b = Bridge::new(keys(3));
    b.epoch = 4;
    assert_eq!(b.validate_inbound_epoch(3), Err(BridgeError::StaleEpoch));
    assert_eq!(b.validate_inbound_epoch(4), Ok(()));
    assert_eq!(b.validate_inbound_epoch(9), Ok(()));
}

#[test]
fn validator_set_counts_distinct_keys() {
    let mut set = keys(4);
    set.validators.push(vec![1; 32]);
    set.validators.push(vec![2; 32]);
    assert_eq!(set.len(), 4);
    assert_eq!(set.threshold(), 3);
    assert_eq!(keys(0).threshold(), 1);
    assert_eq!(keys(3).threshold(), 3);
    assert_eq!(keys(6).threshold(), 5);
    assert_eq!(keys(32).threshold(), 22);
    assert!(set.contains_pk(&[3; 32]));
    assert!(!set.contains_pk(&[9; 32]));
    assert_eq!(set.to_bytes_vec(), set.validators);
}

fn invalid(n: usize) -> Vec<BridgeError> {
    vec![BridgeError::InvalidQuorumSignature; n]
}

#[test]
fn quorum_from_checks_counts_distinct_active_signers() {
    let mut b = Bridge::new(keys(4));
    let signers = vec![vec![0; 32], vec![0; 32], vec![1; 32], vec![2; 32]];
    assert_eq!(b.quorum_from_checks(&signers, &vec![true, false, true, true], &invalid(4)), Ok(()));
    assert_eq!(
        b.quorum_from_checks(&signers[..3].to_vec(), &vec![true, true, true], &invalid(3)),
        Err(BridgeError::InsufficientQuorum)
    );
    assert_eq!(
        b.quorum_from_checks(&vec![vec![7; 32]], &vec![true], &invalid(1)),
        Err(BridgeError::SignerNotInValidatorSet)
    );
    assert_eq!(
        b.quorum_from_checks(&vec![vec![1; 32], vec![2; 32]], &vec![true, false], &invalid(2)),
        Err(BridgeError::InvalidQuorumSignature)
    );
    assert_eq!(
        b.quorum_from_checks(
            &vec![vec![1; 32], vec![2; 32]],
            &vec![true, false],
            &vec![BridgeError::InvalidQuorumSignature, BridgeError::NonCanonicalQuorumSignature]
        ),
        Err(BridgeError::NonCanonicalQuorumSignature)
    );
    b.paused_validators.push(vec![3; 32]);
    assert_eq!(b.effective_threshold(), 3);
    assert_eq!(
        b.quorum_from_checks(
            &vec![vec![3; 32], vec![0; 32], vec![1; 32], vec![2; 32]],
            &vec![false, true, true, true],
            &invalid(4)
        ),
        Ok(())
    );
}

#[test]
fn rotation_without_proofs_or_with_bad_epoch() {
    let mut b = Bridge::new(keys(4));
    assert_eq!(b.rotate_validators(keys(3), 1, vec![]), Err(BridgeError::EmptyProofs));
    assert_eq!(b.rotate_validators(keys(3), 0, vec![]), Err(BridgeError::InvalidEpoch));
    assert_eq!(b.epoch, 0);
}

#[test]
fn error_messages_render() {
    assert_eq!(
        BridgeError::ValidatorSetTooSmall.message(),
        "ValidatorSetTooSmall: validator set must have at least 3 unique validators"
    );
    assert_eq!(
        BridgeError::InboundCapExceeded.message(),
        "inbound cap exceeded for current window"
    );
    assert_eq!(BridgeError::InvalidEpoch.message(), "invalid epoch: must be current_epoch + 1");
}

#[test]
fn event_rendering_and_hex() {
    let ev = ValidatorEvent::Unpaused { validator: vec![0x00, 0xab, 0x0f], epoch: 12 };
    assert_eq!(ev.describe(), "ValidatorUnpaused(epoch=12, pk=0x00ab0f)");
    assert_eq!(lowercase_hex(&[0xde, 0xad, 0xbe, 0xef]), "deadbeef");
    assert_eq!(lowercase_hex(&[]), "");
    let mut out = String::from("n=");
    push_decimal(&mut out, 0);
    push_decimal(&mut out, 1234567890);
    assert_eq!(out, "n=01234567890");
    let mut max = String::new();
    push_decimal(&mut max, u64::MAX);
    assert_eq!(max, u64::MAX.to_string());
}

#[test]
fn byte_list_helpers() {
    assert_eq!(concat_prefixed(b"AB", b"cd"), b"ABcd".to_vec());
    let v = vec![vec![1u8], vec![2u8], vec![1u8]];
    assert_eq!(count_distinct(&v), 2);
    assert!(has_duplicate(&v));
    assert!(!has_duplicate(&vec![vec![1u8], vec![2u8]]));
    assert_eq!(without_key(&v, &[1u8]), vec![vec![2u8]]);
}
