use ed25519_dalek::{Keypair, SecretKey, Signature, Signer};
use stellar_lend::bridge::{Bridge, BridgeError, ValidatorEvent, ValidatorSet};

fn det_keypair(index: u8) -> Keypair {
    let mut seed = [0u8; 32];
    seed[0] = index.wrapping_add(1);
    for i in 1..32 {
        seed[i] = index.wrapping_mul(7).wrapping_add(i as u8);
    }
    let secret = SecretKey::from_bytes(&seed).expect("valid secret key");
    let public: ed25519_dalek::PublicKey = (&secret).into();
    let mut combined = [0u8; 64];
    combined[..32].copy_from_slice(&seed);
    combined[32..].copy_from_slice(public.as_bytes());
    Keypair::from_bytes(&combined).expect("valid keypair from seed")
}

fn det_keypairs_range(start: u8, end: u8) -> Vec<Keypair> {
    (start..end).map(det_keypair).collect()
}

fn validator_set_from(kps: &[Keypair]) -> ValidatorSet {
    ValidatorSet { validators: kps.iter().map(|kp| kp.public.to_bytes().to_vec()).collect() }
}

fn pk(kp: &Keypair) -> Vec<u8> {
    kp.public.to_bytes().to_vec()
}

fn make_bridge_with_guardian(n_validators: u8, guardian_idx: u8) -> (Bridge, Vec<Keypair>, Keypair) {
    let validators = det_keypairs_range(10, 10 + n_validators);
    let mut bridge = Bridge::new(validator_set_from(&validators));
    let guardian = det_keypair(guardian_idx);
    bridge.set_guardian(pk(&guardian));
    (bridge, validators, guardian)
}

fn payload_for(action: &[u8], pk_bytes: &[u8]) -> Vec<u8> {
    let mut out = Vec::with_capacity(action.len() + pk_bytes.len());
    out.extend_from_slice(action);
    out.extend_from_slice(pk_bytes);
    out
}

fn sign_pause(guardian: &Keypair, target: &[u8]) -> Vec<u8> {
    guardian.sign(&payload_for(b"BRIDGE_PAUSE:", target)).to_bytes().to_vec()
}

fn sign_unpause(guardian: &Keypair, target: &[u8]) -> Vec<u8> {
    guardian.sign(&payload_for(b"BRIDGE_UNPAUSE:", target)).to_bytes().to_vec()
}

fn signed_rotation_entry(kp: &Keypair, new_set: &ValidatorSet, epoch: u64) -> (Vec<u8>, Vec<u8>) {
    let payload = bincode::serialize(&(new_set.to_bytes_vec(), epoch)).unwrap();
    (pk(kp), kp.sign(&payload).to_bytes().to_vec())
}

fn sign_rotation(new_set: &ValidatorSet, epoch: u64, signers: &[&Keypair]) -> Vec<(Vec<u8>, Vec<u8>)> {
    signers.iter().map(|kp| signed_rotation_entry(kp, new_set, epoch)).collect()
}

#[test]
fn fresh_bridge_has_no_guardian_and_empty_paused_set() {
    let bridge = Bridge::new(ValidatorSet { validators: vec![] });
    assert!(bridge.guardian().is_none());
    assert!(bridge.paused_list().is_empty());
    assert_eq!(bridge.active_validator_count(), 0);
    assert_eq!(bridge.effective_threshold(), 1);
}

#[test]
fn pause_rejects_without_configured_guardian() {
    let kps = det_keypairs_range(10, 13);
    let mut bridge = Bridge::new(validator_set_from(&kps));
    let bogus_sig = Signature::from_bytes(&[0u8; 64]).expect("64 zero bytes is a valid signature encoding");
    let err = bridge
        .pause_validator(&pk(&kps[0]), &bogus_sig.to_bytes())
        .expect_err("pause must fail when no guardian is configured");
    assert_eq!(err, BridgeError::NoGuardianConfigured);
    assert!(bridge.paused_list().is_empty(), "no state change on rejection");
}

#[test]
fn unpause_rejects_without_configured_guardian() {
    let kps = det_keypairs_range(10, 13);
    let mut bridge = Bridge::new(validator_set_from(&kps));
    let bogus_sig = Signature::from_bytes(&[0u8; 64]).expect("64 zero bytes is a valid signature encoding");
    let err = bridge
        .unpause_validator(&pk(&kps[0]), &bogus_sig.to_bytes())
        .expect_err("unpause must fail when no guardian is configured");
    assert_eq!(err, BridgeError::NoGuardianConfigured);
}

#[test]
fn pause_rejects_if_signature_does_not_verify_against_guardian() {
    let (mut bridge, validators, _guardian) = make_bridge_with_guardian(4, 200);
    let wrong_signer = &validators[0];
    let target = pk(&validators[1]);
    let bad_sig = wrong_signer.sign(&payload_for(b"BRIDGE_PAUSE:", &target)).to_bytes();
    let err = bridge
        .pause_validator(&target, &bad_sig)
        .expect_err("pause must reject signatures not from the configured guardian");
    assert_eq!(err, BridgeError::InvalidGuardianSignature);
    assert!(bridge.paused_list().is_empty(), "no state change on rejection");
}

#[test]
fn unpause_rejects_if_signature_does_not_verify_against_guardian() {
    let (mut bridge, validators, guardian) = make_bridge_with_guardian(4, 200);
    let target = pk(&validators[1]);
    bridge
        .pause_validator(&target, &sign_pause(&guardian, &target))
        .expect("pause should succeed with valid guardian signature");
    assert!(bridge.is_paused(&target));
    let bad_sig = validators[0].sign(&payload_for(b"BRIDGE_UNPAUSE:", &target)).to_bytes();
    let err = bridge
        .unpause_validator(&target, &bad_sig)
        .expect_err("unpause must reject signatures not from the configured guardian");
    assert_eq!(err, BridgeError::InvalidGuardianSignature);
    assert!(bridge.is_paused(&target), "validator must remain paused after rejected unpause");
}

#[test]
fn pause_signature_cannot_be_replayed_as_unpause() {
    let (mut bridge, validators, guardian) = make_bridge_with_guardian(4, 200);
    let target = pk(&validators[1]);
    bridge.pause_validator(&target, &sign_pause(&guardian, &target)).expect("legitimate pause");
    assert!(bridge.is_paused(&target));
    let replay = sign_pause(&guardian, &target);
    let err = bridge
        .unpause_validator(&target, &replay)
        .expect_err("pause-bound signature must not authorize unpause");
    assert_eq!(err, BridgeError::InvalidGuardianSignature);
    assert!(bridge.is_paused(&target));
}

#[test]
fn pause_signature_for_a_cannot_be_replayed_for_b() {
    let (mut bridge, validators, guardian) = make_bridge_with_guardian(4, 200);
    let a = pk(&validators[1]);
    let b = pk(&validators[2]);
    let sig_for_a = sign_pause(&guardian, &a);
    let err = bridge
        .pause_validator(&b, &sig_for_a)
        .expect_err("pause(A) signature must not authorize pause(B)");
    assert_eq!(err, BridgeError::InvalidGuardianSignature);
    assert!(!bridge.is_paused(&a));
    assert!(!bridge.is_paused(&b));
}

#[test]
fn pause_rejects_when_already_paused() {
    let (mut bridge, validators, guardian) = make_bridge_with_guardian(5, 200);
    let target = pk(&validators[1]);
    bridge.pause_validator(&target, &sign_pause(&guardian, &target)).expect("first pause should succeed");
    let err = bridge
        .pause_validator(&target, &sign_pause(&guardian, &target))
        .expect_err("double pause must be rejected");
    assert_eq!(err, BridgeError::AlreadyPaused);
}

#[test]
fn unpause_rejects_when_not_paused() {
    let (mut bridge, validators, guardian) = make_bridge_with_guardian(5, 200);
    let target = pk(&validators[1]);
    let err = bridge
        .unpause_validator(&target, &sign_unpause(&guardian, &target))
        .expect_err("unpause of non-paused must be rejected");
    assert_eq!(err, BridgeError::NotPaused);
}

#[test]
fn pause_rejects_unknown_validator() {
    let (mut bridge, _validators, guardian) = make_bridge_with_guardian(4, 200);
    let outsider = pk(&det_keypair(99));
    assert!(!bridge.validators.contains_pk(&outsider));
    let err = bridge
        .pause_validator(&outsider, &sign_pause(&guardian, &outsider))
        .expect_err("unknown validator must be rejected");
    assert_eq!(err, BridgeError::UnknownValidator);
}

#[test]
fn unpause_rejects_unknown_validator() {
    let (mut bridge, _validators, guardian) = make_bridge_with_guardian(4, 200);
    let outsider = pk(&det_keypair(99));
    let err = bridge
        .unpause_validator(&outsider, &sign_unpause(&guardian, &outsider))
        .expect_err("unknown validator must be rejected");
    assert_eq!(err, BridgeError::UnknownValidator);
}

#[test]
fn pause_rejected_when_quorum_would_become_unreachable_with_singleton() {
    let (mut bridge, validators, guardian) = make_bridge_with_guardian(1, 200);
    assert_eq!(bridge.validators.threshold(), 1);
    assert_eq!(bridge.active_validator_count(), 1);
    let target = pk(&validators[0]);
    let err = bridge
        .pause_validator(&target, &sign_pause(&guardian, &target))
        .expect_err("pausing the only active validator must be rejected (quorum unreachable)");
    assert_eq!(err, BridgeError::PauseWouldBreakQuorum);
    assert!(!bridge.is_paused(&target));
    assert_eq!(bridge.active_validator_count(), 1);
}

#[test]
fn pause_accepted_when_active_count_meets_new_threshold() {
    let (mut bridge, validators, guardian) = make_bridge_with_guardian(4, 200);
    let target = pk(&validators[0]);
    let event = bridge
        .pause_validator(&target, &sign_pause(&guardian, &target))
        .expect("pausing must succeed when active still reaches new threshold");
    assert_eq!(event, ValidatorEvent::Paused { validator: target.clone(), epoch: 0 });
    assert!(bridge.is_paused(&target));
    assert_eq!(bridge.active_validator_count(), 3);
    assert_eq!(bridge.effective_threshold(), 3);
}

#[test]
fn pause_rejected_only_when_quorum_becomes_unreachable() {
    let (mut bridge, validators, guardian) = make_bridge_with_guardian(4, 200);
    let v: Vec<Vec<u8>> = validators.iter().map(pk).collect();
    bridge.pause_validator(&v[0], &sign_pause(&guardian, &v[0])).expect("first pause allowed");
    bridge
        .pause_validator(&v[1], &sign_pause(&guardian, &v[1]))
        .expect("second pause: active=2, threshold(2)=2, allowed");
    bridge
        .pause_validator(&v[2], &sign_pause(&guardian, &v[2]))
        .expect("third pause: active=1, threshold(1)=1, allowed");
    let err = bridge
        .pause_validator(&v[3], &sign_pause(&guardian, &v[3]))
        .expect_err("pausing the last validator must be rejected");
    assert_eq!(err, BridgeError::PauseWouldBreakQuorum);
    assert!(!bridge.is_paused(&v[3]));
    assert_eq!(bridge.active_validator_count(), 1);
}

#[test]
fn rotation_with_one_paused_validator_uses_new_threshold() {
    let (mut bridge, validators, guardian) = make_bridge_with_guardian(4, 200);
    let paused = pk(&validators[0]);
    bridge.pause_validator(&paused, &sign_pause(&guardian, &paused)).expect("pause ok");
    assert_eq!(bridge.active_validator_count(), 3);
    assert_eq!(bridge.effective_threshold(), 3);
    let next = det_keypairs_range(40, 43);
    let new_set = validator_set_from(&next);
    let signers: Vec<&Keypair> = validators.iter().collect();
    let proofs = sign_rotation(&new_set, 1, &signers);
    bridge.rotate_validators(new_set, 1, proofs).expect("rotation with new threshold must succeed");
    assert_eq!(bridge.epoch, 1);
    assert!(bridge.paused_list().is_empty(), "rotation must reset paused set");
}

#[test]
fn rotation_uses_effective_threshold_for_size_check() {
    let (mut bridge, validators, guardian) = make_bridge_with_guardian(5, 200);
    let v: Vec<Vec<u8>> = validators.iter().map(pk).collect();
    bridge.pause_validator(&v[0], &sign_pause(&guardian, &v[0])).unwrap();
    bridge.pause_validator(&v[1], &sign_pause(&guardian, &v[1])).unwrap();
    assert_eq!(bridge.active_validator_count(), 3);
    assert_eq!(bridge.effective_threshold(), 3);
    let next = det_keypairs_range(50, 53);
    let new_set = validator_set_from(&next);
    let signers: Vec<&Keypair> = validators[2..5].iter().collect();
    let proofs = sign_rotation(&new_set, 1, &signers);
    bridge
        .rotate_validators(new_set, 1, proofs)
        .expect("3 active signatures must meet the new threshold of 3");
    assert_eq!(bridge.epoch, 1);
}

#[test]
fn rotation_rejects_when_active_signers_below_new_threshold() {
    let (mut bridge, validators, guardian) = make_bridge_with_guardian(5, 200);
    let v: Vec<Vec<u8>> = validators.iter().map(pk).collect();
    bridge.pause_validator(&v[0], &sign_pause(&guardian, &v[0])).unwrap();
    bridge.pause_validator(&v[1], &sign_pause(&guardian, &v[1])).unwrap();
    assert_eq!(bridge.effective_threshold(), 3);
    let next = det_keypairs_range(50, 53);
    let new_set = validator_set_from(&next);
    let signers: Vec<&Keypair> = validators[2..4].iter().collect();
    let proofs = sign_rotation(&new_set, 1, &signers);
    let result = bridge.rotate_validators(new_set, 1, proofs);
    assert!(result.is_err(), "2 < new threshold of 3 must fail");
    let msg = result.unwrap_err().message();
    assert!(msg.contains("insufficient quorum"), "got: {msg}");
    assert_eq!(bridge.epoch, 0, "no epoch advance on rejection");
}

#[test]
fn malformed_paused_signature_does_not_break_proof() {
    let (mut bridge, validators, guardian) = make_bridge_with_guardian(4, 200);
    let to_pause = pk(&validators[0]);
    bridge.pause_validator(&to_pause, &sign_pause(&guardian, &to_pause)).unwrap();
    let next = det_keypairs_range(40, 43);
    let new_set = validator_set_from(&next);
    let mut proofs: Vec<(Vec<u8>, Vec<u8>)> = Vec::new();
    let garbage_sig = Signature::from_bytes(&[7u8; 64]).expect("64-byte buffer parses as a Signature<'_> value");
    proofs.push((to_pause.clone(), garbage_sig.to_bytes().to_vec()));
    for kp in &validators[1..4] {
        proofs.push(signed_rotation_entry(kp, &new_set, 1));
    }
    bridge
        .rotate_validators(new_set, 1, proofs)
        .expect("paused-signer garbage must be silently skipped, not poison the proof");
}

#[test]
fn paused_signer_does_not_count_as_unique_vote() {
    let (mut bridge, validators, guardian) = make_bridge_with_guardian(4, 200);
    let paused = pk(&validators[0]);
    bridge.pause_validator(&paused, &sign_pause(&guardian, &paused)).unwrap();
    let next = det_keypairs_range(40, 43);
    let new_set = validator_set_from(&next);
    let mut proofs: Vec<(Vec<u8>, Vec<u8>)> = Vec::new();
    proofs.push(signed_rotation_entry(&validators[0], &new_set, 1));
    proofs.push(signed_rotation_entry(&validators[0], &new_set, 1));
    proofs.push(signed_rotation_entry(&validators[1], &new_set, 1));
    proofs.push(signed_rotation_entry(&validators[1], &new_set, 1));
    proofs.push(signed_rotation_entry(&validators[2], &new_set, 1));
    let result = bridge.rotate_validators(new_set, 1, proofs);
    assert!(result.is_err(), "unique active count of 2 < new threshold 3 must fail");
}

#[test]
fn pause_then_unpause_restores_active_count_and_threshold() {
    let (mut bridge, validators, guardian) = make_bridge_with_guardian(4, 200);
    let target = pk(&validators[0]);
    bridge.pause_validator(&target, &sign_pause(&guardian, &target)).unwrap();
    assert_eq!(bridge.active_validator_count(), 3);
    assert_eq!(bridge.effective_threshold(), 3);
    let event = bridge
        .unpause_validator(&target, &sign_unpause(&guardian, &target))
        .expect("unpause should succeed with valid guardian signature");
    assert_eq!(event, ValidatorEvent::Unpaused { validator: target.clone(), epoch: 0 });
    assert!(!bridge.is_paused(&target));
    assert_eq!(bridge.active_validator_count(), 4);
    assert_eq!(bridge.effective_threshold(), 3);
}

#[test]
fn rotation_clears_paused_set() {
    let (mut bridge, validators, guardian) = make_bridge_with_guardian(4, 200);
    let v: Vec<Vec<u8>> = validators.iter().map(pk).collect();
    bridge.pause_validator(&v[0], &sign_pause(&guardian, &v[0])).unwrap();
    bridge.pause_validator(&v[1], &sign_pause(&guardian, &v[1])).unwrap();
    assert_eq!(bridge.paused_list().len(), 2);
    let next = det_keypairs_range(40, 44);
    let new_set = validator_set_from(&next);
    let active_signers: Vec<&Keypair> = validators[2..4].iter().collect();
    let proofs = sign_rotation(&new_set, 1, &active_signers);
    bridge
        .rotate_validators(new_set, 1, proofs)
        .expect("rotation should succeed with active=2 reaching new threshold=2");
    assert!(bridge.paused_list().is_empty(), "rotation must clear paused flags");
    assert_eq!(bridge.active_validator_count(), bridge.validators.len());
}

#[test]
fn paused_list_returns_byte_encodings_of_paused_keys() {
    let (mut bridge, validators, guardian) = make_bridge_with_guardian(4, 200);
    let a = pk(&validators[0]);
    let b = pk(&validators[2]);
    bridge.pause_validator(&a, &sign_pause(&guardian, &a)).unwrap();
    bridge.pause_validator(&b, &sign_pause(&guardian, &b)).unwrap();
    let listed: std::collections::HashSet<Vec<u8>> = bridge.paused_list().into_iter().collect();
    assert!(listed.contains(&a));
    assert!(listed.contains(&b));
    assert_eq!(listed.len(), 2);
}

#[test]
fn is_active_validator_returns_false_for_paused_or_unknown() {
    let (mut bridge, validators, guardian) = make_bridge_with_guardian(4, 200);
    let v = pk(&validators[0]);
    assert!(bridge.is_active_validator(&v));
    bridge.pause_validator(&v, &sign_pause(&guardian, &v)).unwrap();
    assert!(!bridge.is_active_validator(&v), "paused validator is no longer active");
    let outsider = pk(&det_keypair(99));
    assert!(!bridge.is_active_validator(&outsider), "non-member is not active");
}

#[test]
fn validator_event_display_includes_epoch_and_hex_pk() {
    let kp = det_keypair(0);
    let pk_bytes = pk(&kp);
    let event = ValidatorEvent::Paused { validator: pk_bytes.clone(), epoch: 7 };
    let rendered = event.describe();
    assert!(rendered.starts_with("ValidatorPaused("));
    assert!(rendered.contains("epoch=7"));
    assert!(rendered.contains(&format!("{:02x}", pk_bytes[0])));
}
