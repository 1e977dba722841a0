use ed25519_dalek::{Keypair, Signer};
use rand::rngs::OsRng;
use stellar_lend::bridge::{Bridge, BridgeError, ValidatorSet};

fn make_keypairs(n: usize) -> Vec<Keypair> {
    let mut rng = OsRng;
    (0..n).map(|_| Keypair::generate(&mut rng)).collect()
}

fn set_of(kps: &[Keypair]) -> ValidatorSet {
    ValidatorSet { validators: kps.iter().map(|k| k.public.to_bytes().to_vec()).collect() }
}

fn sign_all(kps: &[Keypair], payload: &[u8]) -> Vec<(Vec<u8>, Vec<u8>)> {
    kps.iter()
        .map(|k| (k.public.to_bytes().to_vec(), k.sign(payload).to_bytes().to_vec()))
        .collect()
}

#[test]
fn test_rotate_success_and_epoch_boundary() {
    let kp_a = make_keypairs(4);
    let mut bridge = Bridge::new(set_of(&kp_a));

    let kp_b = make_keypairs(3);
    let new_set = set_of(&kp_b);

    let epoch = 1u64;
    let payload = bincode::serialize(&(new_set.to_bytes_vec(), epoch)).unwrap();
    let proofs = sign_all(&kp_a[..3], &payload);

    bridge.rotate_validators(new_set.clone(), epoch, proofs).expect("rotation failed");
    assert_eq!(bridge.epoch, 1);

    assert!(bridge.validate_inbound_epoch(0).is_err());
    assert!(bridge.validate_inbound_epoch(1).is_ok());
    assert!(bridge.validate_inbound_epoch(2).is_ok(), "future epochs allowed by this check (policy dependent)");
}

#[test]
fn test_rotate_reject_insufficient_quorum() {
    let kp_a = make_keypairs(5);
    let mut bridge = Bridge::new(set_of(&kp_a));

    let kp_b = make_keypairs(3);
    let new_set = set_of(&kp_b);

    let epoch = 1u64;
    let payload = bincode::serialize(&(new_set.to_bytes_vec(), epoch)).unwrap();
    // threshold of A: (5*2)/3+1 = 4; only 3 signatures
    let proofs = sign_all(&kp_a[..3], &payload);

    assert!(bridge.rotate_validators(new_set, epoch, proofs).is_err());
}

#[test]
fn test_rotate_reject_wrong_epoch() {
    let kp_a = make_keypairs(3);
    let mut bridge = Bridge::new(set_of(&kp_a));

    let kp_b = make_keypairs(2);
    let new_set = set_of(&kp_b);

    let epoch = 2u64;
    let payload = bincode::serialize(&(new_set.to_bytes_vec(), epoch)).unwrap();
    let proofs = sign_all(&kp_a[..2], &payload);

    assert!(bridge.rotate_validators(new_set, epoch, proofs).is_err());
}

#[test]
fn rotation_reports_the_signature_library_rejection() {
    let kp_a = make_keypairs(4);
    let mut bridge = Bridge::new(set_of(&kp_a));
    let new_set = set_of(&make_keypairs(3));
    let epoch = 1u64;
    let payload = bincode::serialize(&(new_set.to_bytes_vec(), epoch)).unwrap();

    // A scalar at or above the group order, with its three top bits clear,
    // decodes as a signature but is refused as non-canonical.
    let mut proofs = sign_all(&kp_a[..3], &payload);
    for b in proofs[0].1[32..].iter_mut() {
        *b = 0xff;
    }
    proofs[0].1[63] = 0x1f;
    assert_eq!(
        bridge.rotate_validators(new_set.clone(), epoch, proofs),
        Err(BridgeError::NonCanonicalQuorumSignature)
    );
    assert_eq!(
        BridgeError::NonCanonicalQuorumSignature.message(),
        "signature error: Cannot use scalar with high-bit set"
    );

    // A well-formed signature over the wrong message fails the equation.
    let mut proofs = sign_all(&kp_a[..3], b"another message");
    proofs.truncate(1);
    assert_eq!(
        bridge.rotate_validators(new_set, epoch, proofs),
        Err(BridgeError::InvalidQuorumSignature)
    );
    assert_eq!(bridge.epoch, 0);
}
