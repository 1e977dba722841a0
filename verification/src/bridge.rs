//! The cross-chain bridge: a validator set that rotates under a
//! supermajority quorum of signatures, guardian-gated pausing of individual
//! validators, and a rolling-window cap on inbound value.

use vstd::prelude::*;
use crate::bytes::{keys_of, contains_key, copy_key_list, count_distinct_outside, count_distinct, copy_bytes, has_duplicate, concat_prefixed, without_key, differs_from};
use crate::text::{hex_text, decimal_text, lowercase_hex, push_decimal};
use crate::crypto::{ed25519_signature_valid, ed25519_rejection_text, rotation_encoding, tagged_rotation_encoding, bincode_u64, lemma_le_bytes_len, lemma_bincode_u64_injective, ed25519_verify, bincode_serialize_rotation, bincode_serialize_tagged_rotation};

verus! {

broadcast use vstd::seq_lib::group_seq_properties, vstd::set::group_set_axioms;

/// Minimum number of distinct validators in a set accepted by rotation.
pub const MIN_VALIDATORS: usize = 3;

/// Maximum number of distinct validators in a set accepted by rotation.
pub const MAX_VALIDATORS: usize = 32;

/// Default rolling window length: one day, in seconds.
pub const DEFAULT_INBOUND_WINDOW_SECS: u64 = 86_400;

/// Purpose tag bound into the quorum proofs of an identified bridge, so a
/// proof gathered for another purpose cannot be replayed as a rotation.
/// The bytes are the ASCII text `stellarlend::bridge::quorum_proof::v1`.
pub const QUORUM_PROOF_DOMAIN: [u8; 37] = [115u8, 116, 101, 108, 108, 97, 114, 108, 101, 110, 100, 58, 58, 98, 114, 105, 100, 103, 101, 58, 58, 113, 117, 111, 114, 117, 109, 95, 112, 114, 111, 111, 102, 58, 58, 118, 49];

/// Errors raised by bridge operations.
#[derive(Clone, Copy, Debug, PartialEq, Eq, Structural)]
pub enum BridgeError {
    /// A rolling window of length 0 was requested.
    InvalidWindowSize,
    /// The new validator set has fewer than `MIN_VALIDATORS` distinct keys.
    ValidatorSetTooSmall,
    /// The new validator set has more than `MAX_VALIDATORS` distinct keys.
    ValidatorSetTooLarge,
    /// The new validator set lists some key more than once.
    DuplicateValidatorKey,
    /// No guardian key is configured.
    NoGuardianConfigured,
    /// The guardian signature does not verify over the action-bound payload.
    InvalidGuardianSignature,
    /// The target validator is not in the current validator set.
    UnknownValidator,
    /// Pausing would leave the active count below the new quorum threshold.
    PauseWouldBreakQuorum,
    /// The target validator is already paused.
    AlreadyPaused,
    /// The target validator is not paused.
    NotPaused,
    /// The rotation epoch is not the current epoch plus one.
    InvalidEpoch,
    /// A rotation was submitted without any quorum proof.
    EmptyProofs,
    /// A quorum proof names a signer outside the current validator set.
    SignerNotInValidatorSet,
    /// A quorum proof signature from an active validator does not satisfy
    /// the verification equation.
    InvalidQuorumSignature,
    /// A quorum proof signature from an active validator carries a scalar
    /// that is not in canonical form.
    NonCanonicalQuorumSignature,
    /// Fewer distinct active signers than the effective threshold.
    InsufficientQuorum,
    /// An inbound message was signed under an epoch older than the current one.
    StaleEpoch,
    /// A negative per-window inbound cap was requested.
    NegativeInboundCap,
    /// A negative inbound amount was submitted.
    NegativeInboundAmount,
    /// The inbound cap is zero: no inbound value is admitted.
    InboundDisabled,
    /// The window's running total would overflow `i128`.
    InboundTotalOverflow,
    /// Admitting the amount would exceed the per-window cap.
    InboundCapExceeded,
}

impl BridgeError {
    /// The human-readable description of each error.
    pub open spec fn text(self) -> Seq<char> {
        match self {
            BridgeError::InvalidWindowSize => "InvalidWindowSize: window_size must be > 0"@,
            BridgeError::ValidatorSetTooSmall =>
                "ValidatorSetTooSmall: validator set must have at least 3 unique validators"@,
            BridgeError::ValidatorSetTooLarge =>
                "ValidatorSetTooLarge: validator set must have at most 32 unique validators"@,
            BridgeError::DuplicateValidatorKey =>
                "DuplicateValidatorKey: new_set contains duplicate public keys"@,
            BridgeError::NoGuardianConfigured =>
                "NoGuardianConfigured: bridge has no guardian key set"@,
            BridgeError::InvalidGuardianSignature =>
                "InvalidGuardianSignature: guardian signature did not verify"@,
            BridgeError::UnknownValidator =>
                "UnknownValidator: target validator not in current validator set"@,
            BridgeError::PauseWouldBreakQuorum =>
                "PauseWouldBreakQuorum: pausing this validator would leave active count below the effective quorum threshold"@,
            BridgeError::AlreadyPaused => "AlreadyPaused: validator is already paused"@,
            BridgeError::NotPaused => "NotPaused: validator is not currently paused"@,
            BridgeError::InvalidEpoch => "invalid epoch: must be current_epoch + 1"@,
            BridgeError::EmptyProofs => "empty proofs"@,
            BridgeError::SignerNotInValidatorSet =>
                "proof contains signer not in current validator set"@,
            BridgeError::InvalidQuorumSignature => "signature error: Verification equation was not satisfied"@,
            BridgeError::NonCanonicalQuorumSignature =>
                "signature error: Cannot use scalar with high-bit set"@,
            BridgeError::InsufficientQuorum => "insufficient quorum in proofs"@,
            BridgeError::StaleEpoch =>
                "message signed by retired validator set (epoch too old)"@,
            BridgeError::NegativeInboundCap => "max_per_window must be >= 0"@,
            BridgeError::NegativeInboundAmount => "inbound amount must be >= 0"@,
            BridgeError::InboundDisabled =>
                "inbound cap is zero (fail-closed): no inbound transfers permitted"@,
            BridgeError::InboundTotalOverflow => "inbound window total overflow"@,
            BridgeError::InboundCapExceeded => "inbound cap exceeded for current window"@,
        }
    }

    /// Renders the error as text.
    pub fn message(&self) -> (r: String)
        ensures
            r@ == self.text(),
    {
        match self {
            BridgeError::InvalidWindowSize => String::from_str(
                "InvalidWindowSize: window_size must be > 0",
            ),
            BridgeError::ValidatorSetTooSmall => String::from_str(
                "ValidatorSetTooSmall: validator set must have at least 3 unique validators",
            ),
            BridgeError::ValidatorSetTooLarge => String::from_str(
                "ValidatorSetTooLarge: validator set must have at most 32 unique validators",
            ),
            BridgeError::DuplicateValidatorKey => String::from_str(
                "DuplicateValidatorKey: new_set contains duplicate public keys",
            ),
            BridgeError::NoGuardianConfigured => String::from_str(
                "NoGuardianConfigured: bridge has no guardian key set",
            ),
            BridgeError::InvalidGuardianSignature => String::from_str(
                "InvalidGuardianSignature: guardian signature did not verify",
            ),
            BridgeError::UnknownValidator => String::from_str(
                "UnknownValidator: target validator not in current validator set",
            ),
            BridgeError::PauseWouldBreakQuorum => String::from_str(
                "PauseWouldBreakQuorum: pausing this validator would leave active count below the effective quorum threshold",
            ),
            BridgeError::AlreadyPaused => String::from_str(
                "AlreadyPaused: validator is already paused",
            ),
            BridgeError::NotPaused => String::from_str(
                "NotPaused: validator is not currently paused",
            ),
            BridgeError::InvalidEpoch => String::from_str(
                "invalid epoch: must be current_epoch + 1",
            ),
            BridgeError::EmptyProofs => String::from_str("empty proofs"),
            BridgeError::SignerNotInValidatorSet => String::from_str(
                "proof contains signer not in current validator set",
            ),
            BridgeError::InvalidQuorumSignature => String::from_str(
                "signature error: Verification equation was not satisfied",
            ),
            BridgeError::NonCanonicalQuorumSignature => String::from_str(
                "signature error: Cannot use scalar with high-bit set",
            ),
            BridgeError::InsufficientQuorum => String::from_str("insufficient quorum in proofs"),
            BridgeError::StaleEpoch => String::from_str(
                "message signed by retired validator set (epoch too old)",
            ),
            BridgeError::NegativeInboundCap => String::from_str("max_per_window must be >= 0"),
            BridgeError::NegativeInboundAmount => String::from_str("inbound amount must be >= 0"),
            BridgeError::InboundDisabled => String::from_str(
                "inbound cap is zero (fail-closed): no inbound transfers permitted",
            ),
            BridgeError::InboundTotalOverflow => String::from_str("inbound window total overflow"),
            BridgeError::InboundCapExceeded => String::from_str(
                "inbound cap exceeded for current window",
            ),
        }
    }
}

/// The strict supermajority threshold of `n` validators: more than two
/// thirds of them.
pub open spec fn supermajority(n: int) -> int {
    (n * 2) / 3 + 1
}

/// Computes `supermajority(n)` without intermediate overflow.
fn supermajority_of(n: usize) -> (t: usize)
    ensures
        t == supermajority(n as int),
{
    let q = n / 3;
    let r = n % 3;
    let extra: usize = if r == 2 { 1 } else { 0 };
    assert((n as int * 2) / 3 == 2 * q + extra && 2 * q + extra < n + 1) by (nonlinear_arith)
        requires
            q == n as int / 3,
            r == n as int % 3,
            extra == (if r == 2 { 1int } else { 0int }),
            n >= 0,
    ;
    q * 2 + extra + 1
}

/// A validator set: the byte encodings of the validators' Ed25519 public keys.
#[derive(Clone, Debug)]
pub struct ValidatorSet {
    pub validators: Vec<Vec<u8>>,
}

impl ValidatorSet {
    /// The keys of the set, in storage order.
    pub open spec fn keys(&self) -> Seq<Seq<u8>> {
        keys_of(self.validators@)
    }

    /// The distinct keys of the set.
    pub open spec fn key_set(&self) -> Set<Seq<u8>> {
        self.keys().to_set()
    }

    /// Number of distinct keys: repeated keys count once.
    pub fn len(&self) -> (n: usize)
        ensures
            n == self.key_set().len(),
    {
        count_distinct(&self.validators)
    }

    /// The strict supermajority threshold over the distinct keys.
    pub fn threshold(&self) -> (t: usize)
        ensures
            t == supermajority(self.key_set().len() as int),
    {
        let n = self.len();
        supermajority_of(n)
    }

    /// Whether `pk` occurs in the raw key list.
    pub fn contains_pk(&self, pk: &[u8]) -> (r: bool)
        ensures
            r == self.keys().contains(pk@),
    {
        contains_key(&self.validators, pk)
    }

    /// The raw key list in storage order.
    pub fn to_bytes_vec(&self) -> (r: Vec<Vec<u8>>)
        ensures
            keys_of(r@) == self.keys(),
    {
        copy_key_list(&self.validators)
    }
}

/// Events returned by guardian-gated pause and unpause operations.
#[derive(Clone, Debug, PartialEq, Eq)]
pub enum ValidatorEvent {
    /// A validator has been paused by the guardian.
    Paused { validator: Vec<u8>, epoch: u64 },
    /// A previously paused validator has been resumed.
    Unpaused { validator: Vec<u8>, epoch: u64 },
}

impl ValidatorEvent {
    /// The textual rendering of the event, e.g.
    /// `ValidatorPaused(epoch=7, pk=0x00ff...)`.
    pub open spec fn text(&self) -> Seq<char> {
        match self {
            ValidatorEvent::Paused { validator, epoch } => "ValidatorPaused(epoch="@ + decimal_text(
                *epoch as nat,
            ) + ", pk=0x"@ + hex_text(validator@) + ")"@,
            ValidatorEvent::Unpaused { validator, epoch } => "ValidatorUnpaused(epoch="@
                + decimal_text(*epoch as nat) + ", pk=0x"@ + hex_text(validator@) + ")"@,
        }
    }

    /// Renders the event as text.
    pub fn describe(&self) -> (r: String)
        ensures
            r@ == self.text(),
    {
        let (mut out, validator, epoch) = match self {
            ValidatorEvent::Paused { validator, epoch } => (
                String::from_str("ValidatorPaused(epoch="),
                validator,
                *epoch,
            ),
            ValidatorEvent::Unpaused { validator, epoch } => (
                String::from_str("ValidatorUnpaused(epoch="),
                validator,
                *epoch,
            ),
        };
        push_decimal(&mut out, epoch);
        out.append(", pk=0x");
        let hex = lowercase_hex(validator.as_slice());
        out.append(hex.as_str());
        out.append(")");
        out
    }
}

/// The bridge state.
#[derive(Clone, Debug)]
pub struct Bridge {
    pub epoch: u64,
    pub validators: ValidatorSet,
    /// Maximum cumulative inbound value admitted within one window; `0`
    /// admits nothing.
    pub max_per_window: i128,
    /// Length of the rolling inbound window, in seconds.
    pub window_size: u64,
    /// Ledger time at which the current window began.
    pub window_start: u64,
    /// Inbound value admitted so far in the current window.
    pub window_inbound_total: i128,
    /// Byte encodings of the paused validators' keys.
    pub paused_validators: Vec<Vec<u8>>,
    /// Byte encoding of the guardian's public key, if one is configured.
    pub guardian: Option<Vec<u8>>,
    /// Identifier of this bridge instance (empty for a bridge built by
    /// [`Bridge::new`]).
    pub bridge_id: Vec<u8>,
    /// Whether quorum proofs are bound to [`QUORUM_PROOF_DOMAIN`] and
    /// `bridge_id` (a bridge built by [`Bridge::new_with_id`]); otherwise
    /// they sign the untagged `(new_set, epoch)` payload.
    pub domain_bound: bool,
}

/// One step of walking quorum proofs in order: `members` are the current
/// validators, `paused` the paused ones, `signers[i]` the key named by proof
/// `i`, `accepted[i]` whether its signature verifies and `faults[i]` the
/// error reported when it does not. A signer outside the set fails the walk;
/// paused signers and signers already counted are skipped; an active signer
/// whose signature does not verify fails the walk with its fault; otherwise
/// the signer is counted.
pub open spec fn tally(
    members: Set<Seq<u8>>,
    paused: Set<Seq<u8>>,
    signers: Seq<Seq<u8>>,
    accepted: Seq<bool>,
    faults: Seq<BridgeError>,
) -> Result<Set<Seq<u8>>, BridgeError>
    decreases signers.len(),
{
    if signers.len() == 0 {
        Ok(Set::empty())
    } else {
        let n = signers.len() - 1;
        match tally(members, paused, signers.take(n), accepted, faults) {
            Err(e) => Err(e),
            Ok(counted) => {
                let k = signers[n];
                if !members.contains(k) {
                    Err(BridgeError::SignerNotInValidatorSet)
                } else if paused.contains(k) || counted.contains(k) {
                    Ok(counted)
                } else if !accepted[n] {
                    Err(faults[n])
                } else {
                    Ok(counted.insert(k))
                }
            },
        }
    }
}

/// The verdict on a walk of quorum proofs against a threshold.
pub open spec fn quorum_verdict(
    members: Set<Seq<u8>>,
    paused: Set<Seq<u8>>,
    signers: Seq<Seq<u8>>,
    accepted: Seq<bool>,
    faults: Seq<BridgeError>,
    threshold: int,
) -> Result<(), BridgeError> {
    match tally(members, paused, signers, accepted, faults) {
        Err(e) => Err(e),
        Ok(counted) => if counted.len() < threshold {
            Err(BridgeError::InsufficientQuorum)
        } else {
            Ok(())
        },
    }
}

/// The signer keys named by a list of proofs.
pub open spec fn proof_signers(proofs: Seq<(Vec<u8>, Vec<u8>)>) -> Seq<Seq<u8>> {
    proofs.map_values(|p: (Vec<u8>, Vec<u8>)| p.0@)
}

/// The text `ed25519-dalek` gives when it rejects a signature whose scalar
/// is not in canonical form.
pub open spec fn non_canonical_scalar_text() -> Seq<char> {
    "signature error: Cannot use scalar with high-bit set"@
}

/// The error reported for a quorum signature that `ed25519-dalek` rejects
/// with the text `text`.
pub open spec fn signature_fault(text: Seq<char>) -> BridgeError {
    if text == non_canonical_scalar_text() {
        BridgeError::NonCanonicalQuorumSignature
    } else {
        BridgeError::InvalidQuorumSignature
    }
}

/// The error each proof's signature would be rejected with over `payload`.
pub open spec fn proof_faults(payload: Seq<u8>, proofs: Seq<(Vec<u8>, Vec<u8>)>) -> Seq<BridgeError> {
    Seq::new(
        proofs.len(),
        |i: int| signature_fault(ed25519_rejection_text(proofs[i].0@, payload, proofs[i].1@)),
    )
}

/// Whether each proof's signature verifies over `payload`.
pub open spec fn proof_acceptance(payload: Seq<u8>, proofs: Seq<(Vec<u8>, Vec<u8>)>) -> Seq<bool> {
    Seq::new(proofs.len(), |i: int| ed25519_signature_valid(proofs[i].0@, payload, proofs[i].1@))
}

proof fn lemma_tally_set_finite(
    members: Set<Seq<u8>>,
    paused: Set<Seq<u8>>,
    signers: Seq<Seq<u8>>,
    accepted: Seq<bool>,
    faults: Seq<BridgeError>,
)
    ensures
        tally(members, paused, signers, accepted, faults) matches Ok(c) ==> c.finite() && c.subset_of(
            members,
        ) && c.disjoint(paused),
    decreases signers.len(),
{
    if signers.len() > 0 {
        lemma_tally_set_finite(members, paused, signers.take(signers.len() - 1), accepted, faults);
    }
}

/// An error in a prefix of the proofs is the error of the whole walk.
proof fn lemma_tally_prefix_error(
    members: Set<Seq<u8>>,
    paused: Set<Seq<u8>>,
    signers: Seq<Seq<u8>>,
    accepted: Seq<bool>,
    faults: Seq<BridgeError>,
    i: int,
)
    requires
        0 <= i <= signers.len(),
        tally(members, paused, signers.take(i), accepted, faults) is Err,
    ensures
        tally(members, paused, signers, accepted, faults) == tally(members, paused, signers.take(i), accepted, faults),
    decreases signers.len() - i,
{
    if i < signers.len() {
        let n = signers.len() - 1;
        assert(signers.take(i) =~= signers.take(n).take(i));
        lemma_tally_prefix_error(members, paused, signers.take(n), accepted, faults, i);
        assert(signers.take(n).take(n) =~= signers.take(n));
    } else {
        assert(signers.take(i) =~= signers);
    }
}

/// Two acceptance vectors that agree on every proof whose signer is an
/// active member give the same walk.
proof fn lemma_tally_depends_on_active_acceptance(
    members: Set<Seq<u8>>,
    paused: Set<Seq<u8>>,
    signers: Seq<Seq<u8>>,
    a1: Seq<bool>,
    a2: Seq<bool>,
    f1: Seq<BridgeError>,
    f2: Seq<BridgeError>,
)
    requires
        forall|i: int|
            0 <= i < signers.len() && members.contains(signers[i]) && !paused.contains(signers[i])
                ==> a1[i] == a2[i] && (!a1[i] ==> f1[i] == f2[i]),
    ensures
        tally(members, paused, signers, a1, f1) == tally(members, paused, signers, a2, f2),
    decreases signers.len(),
{
    if signers.len() > 0 {
        let n = signers.len() - 1;
        lemma_tally_depends_on_active_acceptance(members, paused, signers.take(n), a1, a2, f1, f2);
    }
}

impl Bridge {
    /// The distinct keys of the paused validators.
    pub open spec fn paused_keys(&self) -> Set<Seq<u8>> {
        keys_of(self.paused_validators@).to_set()
    }

    /// The distinct keys of the active (non-paused) validators.
    pub open spec fn active_keys(&self) -> Set<Seq<u8>> {
        self.validators.key_set().difference(self.paused_keys())
    }

    /// The quorum threshold over the active validators.
    pub open spec fn quorum_threshold(&self) -> int {
        supermajority(self.active_keys().len() as int)
    }

    /// The payload quorum proofs must sign to rotate to `new_keys` at
    /// `epoch`: for a domain-bound bridge the encoding of
    /// `(QUORUM_PROOF_DOMAIN, bridge_id, new_keys, epoch)`, otherwise that of
    /// `(new_keys, epoch)`.
    pub open spec fn rotation_payload(&self, new_keys: Seq<Seq<u8>>, epoch: u64) -> Seq<u8> {
        if self.domain_bound {
            tagged_rotation_encoding(quorum_domain(), self.bridge_id@, new_keys, epoch)
        } else {
            rotation_encoding(new_keys, epoch)
        }
    }

    /// The verdict on a list of quorum proofs for rotating to `new_keys` at
    /// `epoch`: there must be at least one proof; then every proof is walked as in [`tally`] with each signature checked over the payload,
    /// and the distinct active signers counted must reach the quorum
    /// threshold.
    pub open spec fn quorum_check(
        &self,
        new_keys: Seq<Seq<u8>>,
        epoch: u64,
        proofs: Seq<(Vec<u8>, Vec<u8>)>,
    ) -> Result<(), BridgeError> {
        if proofs.len() == 0 {
            Err(BridgeError::EmptyProofs)
        } else {
            quorum_verdict(
                self.validators.key_set(),
                self.paused_keys(),
                proof_signers(proofs),
                proof_acceptance(self.rotation_payload(new_keys, epoch), proofs),
                proof_faults(self.rotation_payload(new_keys, epoch), proofs),
                self.quorum_threshold(),
            )
        }
    }

    /// A fresh bridge over `initial`: epoch 0, inbound cap 0 (nothing is
    /// admitted until a cap is set), the default window length, no guardian
    /// and no paused validator. Its quorum proofs sign the untagged
    /// `(new_set, epoch)` payload.
    pub fn new(initial: ValidatorSet) -> (b: Bridge)
        ensures
            b.epoch == 0,
            b.validators == initial,
            b.max_per_window == 0,
            b.window_size == DEFAULT_INBOUND_WINDOW_SECS,
            b.window_start == 0,
            b.window_inbound_total == 0,
            b.paused_validators@.len() == 0,
            b.guardian is None,
            b.bridge_id@.len() == 0,
            !b.domain_bound,
            b.wf(),
    {
        let b = Bridge {
            epoch: 0,
            validators: initial,
            max_per_window: 0,
            window_size: DEFAULT_INBOUND_WINDOW_SECS,
            window_start: 0,
            window_inbound_total: 0,
            paused_validators: Vec::new(),
            guardian: None,
            bridge_id: Vec::new(),
            domain_bound: false,
        };
        assert(keys_of(b.paused_validators@) =~= Seq::<Seq<u8>>::empty());
        b
    }

    /// A fresh bridge like [`Bridge::new`], identified by `bridge_id`: its
    /// quorum proofs must sign the payload bound to [`QUORUM_PROOF_DOMAIN`]
    /// and `bridge_id` (see [`Bridge::quorum_proof_payload`]), so a proof
    /// gathered for another instance, for another purpose or over the
    /// untagged payload does not carry over.
    pub fn new_with_id(initial: ValidatorSet, bridge_id: Vec<u8>) -> (b: Bridge)
        ensures
            b.epoch == 0,
            b.validators == initial,
            b.max_per_window == 0,
            b.window_size == DEFAULT_INBOUND_WINDOW_SECS,
            b.window_start == 0,
            b.window_inbound_total == 0,
            b.paused_validators@.len() == 0,
            b.guardian is None,
            b.bridge_id == bridge_id,
            b.domain_bound,
            b.wf(),
    {
        let b = Bridge {
            epoch: 0,
            validators: initial,
            max_per_window: 0,
            window_size: DEFAULT_INBOUND_WINDOW_SECS,
            window_start: 0,
            window_inbound_total: 0,
            paused_validators: Vec::new(),
            guardian: None,
            bridge_id,
            domain_bound: true,
        };
        assert(keys_of(b.paused_validators@) =~= Seq::<Seq<u8>>::empty());
        b
    }

    /// The payload a quorum of an identified bridge signs to rotate to
    /// `new_set` at `epoch`: the `bincode` encoding of
    /// `(QUORUM_PROOF_DOMAIN, bridge_id, new_set, epoch)`.
    pub fn quorum_proof_payload(bridge_id: &[u8], new_set: &ValidatorSet, epoch: u64) -> (r: Result<
        Vec<u8>,
        BridgeError,
    >)
        ensures
            r matches Ok(p) && p@ == tagged_rotation_encoding(
                quorum_domain(),
                bridge_id@,
                new_set.keys(),
                epoch,
            ),
    {
        Ok(
            bincode_serialize_tagged_rotation(
                QUORUM_PROOF_DOMAIN.as_slice(),
                bridge_id,
                &new_set.validators,
                epoch,
            ).unwrap(),
        )
    }

    /// Configures the guardian key authorised to pause and unpause validators.
    pub fn set_guardian(&mut self, guardian: Vec<u8>)
        ensures
            final(self).guardian == Some(guardian),
            final(self).epoch == old(self).epoch,
            final(self).validators == old(self).validators,
            final(self).max_per_window == old(self).max_per_window,
            final(self).window_size == old(self).window_size,
            final(self).window_start == old(self).window_start,
            final(self).window_inbound_total == old(self).window_inbound_total,
            final(self).paused_validators == old(self).paused_validators,
            final(self).bridge_id == old(self).bridge_id,
            final(self).domain_bound == old(self).domain_bound,
    {
        self.guardian = Some(guardian);
    }

    /// The configured guardian key, if any.
    pub fn guardian(&self) -> (r: Option<&Vec<u8>>)
        ensures
            match r {
                Some(g) => self.guardian == Some(*g),
                None => self.guardian is None,
            },
    {
        self.guardian.as_ref()
    }

    /// Number of distinct active (non-paused) validators.
    pub fn active_validator_count(&self) -> (n: usize)
        ensures
            n == self.active_keys().len(),
    {
        count_distinct_outside(&self.validators.validators, &self.paused_validators)
    }

    /// The supermajority threshold over the active validators.
    pub fn effective_threshold(&self) -> (t: usize)
        ensures
            t == self.quorum_threshold(),
    {
        let n = self.active_validator_count();
        supermajority_of(n)
    }

    /// Whether `pk` is paused.
    pub fn is_paused(&self, pk: &[u8]) -> (r: bool)
        ensures
            r == self.paused_keys().contains(pk@),
    {
        contains_key(&self.paused_validators, pk)
    }

    /// Whether `pk` is in the validator set and not paused.
    pub fn is_active_validator(&self, pk: &[u8]) -> (r: bool)
        ensures
            r == self.active_keys().contains(pk@),
    {
        self.validators.contains_pk(pk) && !self.is_paused(pk)
    }

    /// The byte encodings of the paused validators.
    pub fn paused_list(&self) -> (r: Vec<Vec<u8>>)
        requires
            self.wf(),
        ensures
            keys_of(r@) == keys_of(self.paused_validators@),
            keys_of(r@).no_duplicates(),
            keys_of(r@).to_set() == self.paused_keys(),
    {
        copy_key_list(&self.paused_validators)
    }

    /// Decides a quorum from the outcome of the signature checks:
    /// `accepted[i]` says whether proof `i` (signed by `signers[i]`)
    /// verified, and `faults[i]` the error its rejection is reported with.
    /// See [`tally`] and [`quorum_verdict`].
    pub fn quorum_from_checks(
        &self,
        signers: &Vec<Vec<u8>>,
        accepted: &Vec<bool>,
        faults: &Vec<BridgeError>,
    ) -> (r: Result<(), BridgeError>)
        requires
            signers@.len() == accepted@.len(),
            signers@.len() == faults@.len(),
        ensures
            r == quorum_verdict(
                self.validators.key_set(),
                self.paused_keys(),
                keys_of(signers@),
                accepted@,
                faults@,
                self.quorum_threshold(),
            ),
    {
        let ghost members = self.validators.key_set();
        let ghost paused = self.paused_keys();
        let ghost sk = keys_of(signers@);
        let mut counted: Vec<Vec<u8>> = Vec::new();
        let mut i: usize = 0;
        assert(sk.take(0) =~= Seq::<Seq<u8>>::empty());
        assert(keys_of(counted@).to_set() =~= Set::<Seq<u8>>::empty());
        while i < signers.len()
            invariant
                signers@.len() == accepted@.len(),
                signers@.len() == faults@.len(),
                i <= signers@.len(),
                members == self.validators.key_set(),
                paused == self.paused_keys(),
                sk == keys_of(signers@),
                tally(members, paused, sk.take(i as int), accepted@, faults@) == Ok::<Set<Seq<u8>>, BridgeError>(
                    keys_of(counted@).to_set(),
                ),
            decreases signers@.len() - i,
        {
            let k = signers[i].as_slice();
            assert(sk.take(i + 1).take(i as int) =~= sk.take(i as int));
            assert(sk.take(i + 1)[i as int] == k@);
            if !self.validators.contains_pk(k) {
                proof { lemma_tally_prefix_error(members, paused, sk, accepted@, faults@, i + 1); }
                assert(sk.take(sk.len() as int) =~= sk);
                return Err(BridgeError::SignerNotInValidatorSet);
            }
            if self.is_paused(k) || contains_key(&counted, k) {
            } else if !accepted[i] {
                proof { lemma_tally_prefix_error(members, paused, sk, accepted@, faults@, i + 1); }
                return Err(faults[i]);
            } else {
                let ghost prev = counted@;
                counted.push(copy_bytes(k));
                assert(keys_of(counted@) =~= keys_of(prev).push(k@));
                proof {
                    keys_of(prev).lemma_push_to_set_commute(k@);
                }
            }
            i = i + 1;
        }
        assert(sk.take(signers@.len() as int) =~= sk);
        let ghost c = keys_of(counted@).to_set();
        let n = count_distinct(&counted);
        let t = self.effective_threshold();
        if n < t {
            Err(BridgeError::InsufficientQuorum)
        } else {
            Ok(())
        }
    }

    /// Verifies a quorum proof from the current validator set over the
    /// rotation payload for `(new_set, epoch)`. Paused signers are skipped
    /// without checking their signature.
    fn verify_quorum_proof(
        &self,
        new_set: &ValidatorSet,
        epoch: u64,
        proofs: &Vec<(Vec<u8>, Vec<u8>)>,
    ) -> (r: Result<(), BridgeError>)
        ensures
            r == self.quorum_check(new_set.keys(), epoch, proofs@),
    {
        if proofs.len() == 0 {
            return Err(BridgeError::EmptyProofs);
        }
        let payload = if self.domain_bound {
            Self::quorum_proof_payload(self.bridge_id.as_slice(), new_set, epoch).unwrap()
        } else {
            bincode_serialize_rotation(&new_set.validators, epoch).unwrap()
        };
        let ghost members = self.validators.key_set();
        let ghost paused = self.paused_keys();
        let ghost checks = proof_acceptance(payload@, proofs@);
        let ghost fault_checks = proof_faults(payload@, proofs@);
        let mut signers: Vec<Vec<u8>> = Vec::new();
        let mut accepted: Vec<bool> = Vec::new();
        let mut faults: Vec<BridgeError> = Vec::new();
        let mut i: usize = 0;
        while i < proofs.len()
            invariant
                i <= proofs@.len(),
                signers@.len() == i,
                accepted@.len() == i,
                faults@.len() == i,
                members == self.validators.key_set(),
                paused == self.paused_keys(),
                checks == proof_acceptance(payload@, proofs@),
                fault_checks == proof_faults(payload@, proofs@),
                keys_of(signers@) =~= proof_signers(proofs@).take(i as int),
                forall|j: int|
                    0 <= j < i && members.contains(keys_of(signers@)[j]) && !paused.contains(
                        keys_of(signers@)[j],
                    ) ==> accepted@[j] == checks[j] && (!accepted@[j] ==> faults@[j]
                        == fault_checks[j]),
            decreases proofs@.len() - i,
        {
            let pk = proofs[i].0.as_slice();
            let sig = proofs[i].1.as_slice();
            let (ok, fault) = if self.validators.contains_pk(pk) && !self.is_paused(pk) {
                match ed25519_verify(pk, payload.as_slice(), sig) {
                    Ok(()) => (true, BridgeError::InvalidQuorumSignature),
                    Err(text) => (false, fault_of_text(&text)),
                }
            } else {
                (false, BridgeError::InvalidQuorumSignature)
            };
            let ghost prev = signers@;
            signers.push(copy_bytes(pk));
            accepted.push(ok);
            faults.push(fault);
            assert(keys_of(signers@) =~= keys_of(prev).push(pk@));
            assert(proof_signers(proofs@).take(i + 1) =~= proof_signers(proofs@).take(i as int).push(
                pk@,
            ));
            i = i + 1;
        }
        assert(proof_signers(proofs@).take(proofs@.len() as int) =~= proof_signers(proofs@));
        proof {
            lemma_tally_depends_on_active_acceptance(
                members,
                paused,
                proof_signers(proofs@),
                accepted@,
                checks,
                faults@,
                fault_checks,
            );
        }
        self.quorum_from_checks(&signers, &accepted, &faults)
    }
}

/// The error for a quorum signature rejected with `text`; see
/// [`signature_fault`].
fn fault_of_text(text: &String) -> (e: BridgeError)
    ensures
        e == signature_fault(text@),
{
    let scalar = String::from_str("signature error: Cannot use scalar with high-bit set");
    if *text == scalar {
        BridgeError::NonCanonicalQuorumSignature
    } else {
        BridgeError::InvalidQuorumSignature
    }
}

/// The bytes of [`QUORUM_PROOF_DOMAIN`].
pub open spec fn quorum_domain() -> Seq<u8> {
    QUORUM_PROOF_DOMAIN@
}

/// The tag bound into guardian signatures authorising a pause:
/// the ASCII bytes of `BRIDGE_PAUSE:`.
pub open spec fn pause_tag() -> Seq<u8> {
    seq![66u8, 82, 73, 68, 71, 69, 95, 80, 65, 85, 83, 69, 58]
}

/// The tag bound into guardian signatures authorising an unpause:
/// the ASCII bytes of `BRIDGE_UNPAUSE:`.
pub open spec fn unpause_tag() -> Seq<u8> {
    seq![66u8, 82, 73, 68, 71, 69, 95, 85, 78, 80, 65, 85, 83, 69, 58]
}

fn pause_tag_bytes() -> (t: Vec<u8>)
    ensures
        t@ == pause_tag(),
{
    let t = vec![66u8, 82, 73, 68, 71, 69, 95, 80, 65, 85, 83, 69, 58];
    assert(t@ =~= pause_tag());
    t
}

fn unpause_tag_bytes() -> (t: Vec<u8>)
    ensures
        t@ == unpause_tag(),
{
    let t = vec![66u8, 82, 73, 68, 71, 69, 95, 85, 78, 80, 65, 85, 83, 69, 58];
    assert(t@ =~= unpause_tag());
    t
}

/// Whether pausing one more validator, with `active` validators active now,
/// would leave fewer active validators than the resulting threshold.
pub open spec fn pause_breaks_quorum(active: int) -> bool {
    let remaining = if active >= 1 { active - 1 } else { 0 };
    remaining < supermajority(remaining)
}

/// The inbound window after observing time `now`: a window that has run its
/// full length restarts at `now` with a zero total; a clock that moved
/// backwards, or a window whose end does not fit in `u64`, leaves it as is.
pub open spec fn rolled_window(start: u64, size: u64, total: i128, now: u64) -> (u64, i128) {
    if now < start {
        (start, total)
    } else if start + size > u64::MAX {
        (start, total)
    } else if now >= start + size {
        (now, 0)
    } else {
        (start, total)
    }
}

impl Bridge {
    /// Well-formedness: no key is paused twice.
    pub open spec fn wf(&self) -> bool {
        keys_of(self.paused_validators@).no_duplicates()
    }

    /// All fields other than the paused list agree.
    pub open spec fn same_except_paused(&self, other: &Bridge) -> bool {
        &&& self.epoch == other.epoch
        &&& self.validators == other.validators
        &&& self.max_per_window == other.max_per_window
        &&& self.window_size == other.window_size
        &&& self.window_start == other.window_start
        &&& self.window_inbound_total == other.window_inbound_total
        &&& self.guardian == other.guardian
        &&& self.bridge_id == other.bridge_id
        &&& self.domain_bound == other.domain_bound
    }

    /// The inbound running total lies between zero and the cap.
    pub open spec fn inbound_within_cap(&self) -> bool {
        0 <= self.window_inbound_total <= self.max_per_window
    }

    /// The verdict on rotating to `new_set` at `epoch` with `proofs`.
    pub open spec fn rotation_check(
        &self,
        new_set: ValidatorSet,
        epoch: u64,
        proofs: Seq<(Vec<u8>, Vec<u8>)>,
    ) -> Result<(), BridgeError> {
        if epoch != self.epoch + 1 {
            Err(BridgeError::InvalidEpoch)
        } else if !new_set.keys().no_duplicates() {
            Err(BridgeError::DuplicateValidatorKey)
        } else if new_set.key_set().len() < MIN_VALIDATORS {
            Err(BridgeError::ValidatorSetTooSmall)
        } else if new_set.key_set().len() > MAX_VALIDATORS {
            Err(BridgeError::ValidatorSetTooLarge)
        } else {
            self.quorum_check(new_set.keys(), epoch, proofs)
        }
    }

    /// The verdict on pausing `v` with guardian signature `sig`.
    pub open spec fn pause_check(&self, v: Seq<u8>, sig: Seq<u8>) -> Result<(), BridgeError> {
        match self.guardian {
            None => Err(BridgeError::NoGuardianConfigured),
            Some(g) => if !self.validators.keys().contains(v) {
                Err(BridgeError::UnknownValidator)
            } else if self.paused_keys().contains(v) {
                Err(BridgeError::AlreadyPaused)
            } else if pause_breaks_quorum(self.active_keys().len() as int) {
                Err(BridgeError::PauseWouldBreakQuorum)
            } else if !ed25519_signature_valid(g@, pause_tag() + v, sig) {
                Err(BridgeError::InvalidGuardianSignature)
            } else {
                Ok(())
            },
        }
    }

    /// The verdict on unpausing `v` with guardian signature `sig`.
    pub open spec fn unpause_check(&self, v: Seq<u8>, sig: Seq<u8>) -> Result<(), BridgeError> {
        match self.guardian {
            None => Err(BridgeError::NoGuardianConfigured),
            Some(g) => if !self.validators.keys().contains(v) {
                Err(BridgeError::UnknownValidator)
            } else if !self.paused_keys().contains(v) {
                Err(BridgeError::NotPaused)
            } else if !ed25519_signature_valid(g@, unpause_tag() + v, sig) {
                Err(BridgeError::InvalidGuardianSignature)
            } else {
                Ok(())
            },
        }
    }

    /// The verdict on admitting `amount` of inbound value at time `now`.
    pub open spec fn admit_check(&self, amount: i128, now: u64) -> Result<(), BridgeError> {
        let (start, total) = rolled_window(
            self.window_start,
            self.window_size,
            self.window_inbound_total,
            now,
        );
        if amount < 0 {
            Err(BridgeError::NegativeInboundAmount)
        } else if self.max_per_window == 0 {
            Err(BridgeError::InboundDisabled)
        } else if total + amount > i128::MAX {
            Err(BridgeError::InboundTotalOverflow)
        } else if total + amount > self.max_per_window {
            Err(BridgeError::InboundCapExceeded)
        } else {
            Ok(())
        }
    }

    /// Rotates to `new_set` at `epoch`, provided `epoch` is the current epoch
    /// plus one, the new set repeats no key and has between `MIN_VALIDATORS`
    /// and `MAX_VALIDATORS` keys, and `proofs` form
    /// a quorum of the current active validators (see
    /// [`Bridge::quorum_check`]). On success the paused list is cleared; on
    /// any error the bridge is left unchanged.
    pub fn rotate_validators(
        &mut self,
        new_set: ValidatorSet,
        epoch: u64,
        proofs: Vec<(Vec<u8>, Vec<u8>)>,
    ) -> (r: Result<(), BridgeError>)
        requires
            old(self).epoch < u64::MAX,
        ensures
            r == old(self).rotation_check(new_set, epoch, proofs@),
            r is Ok ==> {
                &&& final(self).epoch == epoch
                &&& final(self).epoch == old(self).epoch + 1
                &&& final(self).validators == new_set
                &&& final(self).paused_validators@.len() == 0
                &&& final(self).paused_keys().is_empty()
                &&& final(self).max_per_window == old(self).max_per_window
                &&& final(self).window_size == old(self).window_size
                &&& final(self).window_start == old(self).window_start
                &&& final(self).window_inbound_total == old(self).window_inbound_total
                &&& final(self).guardian == old(self).guardian
                &&& final(self).bridge_id == old(self).bridge_id
                &&& final(self).domain_bound == old(self).domain_bound
            },
            r is Err ==> *final(self) == *old(self),
            old(self).wf() ==> final(self).wf(),
            r is Ok ==> final(self).wf(),
    {
        if epoch != self.epoch + 1 {
            return Err(BridgeError::InvalidEpoch);
        }
        if has_duplicate(&new_set.validators) {
            return Err(BridgeError::DuplicateValidatorKey);
        }
        let unique_count = new_set.len();
        if unique_count < MIN_VALIDATORS {
            return Err(BridgeError::ValidatorSetTooSmall);
        }
        if unique_count > MAX_VALIDATORS {
            return Err(BridgeError::ValidatorSetTooLarge);
        }
        match self.verify_quorum_proof(&new_set, epoch, &proofs) {
            Err(e) => return Err(e),
            Ok(()) => {},
        }
        self.validators = new_set;
        self.epoch = epoch;
        self.paused_validators = Vec::new();
        assert(keys_of(self.paused_validators@) =~= Seq::<Seq<u8>>::empty());
        assert(self.paused_keys() =~= Set::<Seq<u8>>::empty());
        Ok(())
    }

    /// Guardian-gated pause of `validator`. Rejected when no guardian is
    /// configured, the validator is not in the set or already paused, the
    /// pause would leave fewer active validators than the new threshold, or
    /// `signature` is not the guardian's signature over
    /// `BRIDGE_PAUSE: || validator`. On success the validator is added to the
    /// paused list, the active validators can still reach the new quorum
    /// threshold, and a `Paused` event carrying the current epoch is returned.
    pub fn pause_validator(&mut self, validator: &[u8], signature: &[u8]) -> (r: Result<
        ValidatorEvent,
        BridgeError,
    >)
        ensures
            old(self).wf() ==> final(self).wf(),
            r is Ok <==> old(self).pause_check(validator@, signature@) is Ok,
            r matches Err(e) ==> old(self).pause_check(validator@, signature@) == Err::<(), BridgeError>(e)
                && *final(self) == *old(self),
            r matches Ok(ev) ==> {
                &&& ev matches ValidatorEvent::Paused { validator: v, epoch } && v@ == validator@
                    && epoch == old(self).epoch
                &&& keys_of(final(self).paused_validators@) == keys_of(
                    old(self).paused_validators@,
                ).push(validator@)
                &&& final(self).paused_keys() == old(self).paused_keys().insert(validator@)
                &&& final(self).same_except_paused(&*old(self))
                &&& final(self).active_keys().len() == old(self).active_keys().len() - 1
                &&& final(self).active_keys().len() >= final(self).quorum_threshold()
            },
    {
        let guardian = match &self.guardian {
            None => return Err(BridgeError::NoGuardianConfigured),
            Some(g) => g,
        };
        if !self.validators.contains_pk(validator) {
            return Err(BridgeError::UnknownValidator);
        }
        if self.is_paused(validator) {
            return Err(BridgeError::AlreadyPaused);
        }
        let current_active = self.active_validator_count();
        let new_active = if current_active >= 1 { current_active - 1 } else { 0 };
        let new_threshold = supermajority_of(new_active);
        if new_active < new_threshold {
            return Err(BridgeError::PauseWouldBreakQuorum);
        }
        let tag = pause_tag_bytes();
        let payload = concat_prefixed(tag.as_slice(), validator);
        if ed25519_verify(guardian.as_slice(), payload.as_slice(), signature).is_err() {
            return Err(BridgeError::InvalidGuardianSignature);
        }
        let ghost before = *self;
        let v_bytes = copy_bytes(validator);
        self.paused_validators.push(copy_bytes(validator));
        proof {
            assert(keys_of(self.paused_validators@) =~= keys_of(before.paused_validators@).push(
                validator@,
            ));
            keys_of(before.paused_validators@).lemma_push_to_set_commute(validator@);
            assert(self.active_keys() =~= before.active_keys().remove(validator@));
            assert(before.active_keys().contains(validator@));
            lemma_finite_active(before);
        }
        Ok(ValidatorEvent::Paused { validator: v_bytes, epoch: self.epoch })
    }

    /// Guardian-gated unpause of `validator`. Rejected when no guardian is
    /// configured, the validator is not in the set or not paused, or
    /// `signature` is not the guardian's signature over
    /// `BRIDGE_UNPAUSE: || validator`. On success the validator leaves the
    /// paused list and an `Unpaused` event carrying the current epoch is
    /// returned.
    pub fn unpause_validator(&mut self, validator: &[u8], signature: &[u8]) -> (r: Result<
        ValidatorEvent,
        BridgeError,
    >)
        ensures
            old(self).wf() ==> final(self).wf(),
            r is Ok <==> old(self).unpause_check(validator@, signature@) is Ok,
            r matches Err(e) ==> old(self).unpause_check(validator@, signature@) == Err::<
                (),
                BridgeError,
            >(e) && *final(self) == *old(self),
            r matches Ok(ev) ==> {
                &&& ev matches ValidatorEvent::Unpaused { validator: v, epoch } && v@ == validator@
                    && epoch == old(self).epoch
                &&& keys_of(final(self).paused_validators@) == keys_of(
                    old(self).paused_validators@,
                ).filter(differs_from(validator@))
                &&& final(self).paused_keys() == old(self).paused_keys().remove(validator@)
                &&& final(self).same_except_paused(&*old(self))
                &&& final(self).active_keys().len() == old(self).active_keys().len() + 1
            },
    {
        let guardian = match &self.guardian {
            None => return Err(BridgeError::NoGuardianConfigured),
            Some(g) => g,
        };
        if !self.validators.contains_pk(validator) {
            return Err(BridgeError::UnknownValidator);
        }
        if !self.is_paused(validator) {
            return Err(BridgeError::NotPaused);
        }
        let tag = unpause_tag_bytes();
        let payload = concat_prefixed(tag.as_slice(), validator);
        if ed25519_verify(guardian.as_slice(), payload.as_slice(), signature).is_err() {
            return Err(BridgeError::InvalidGuardianSignature);
        }
        let ghost before = *self;
        let remaining = without_key(&self.paused_validators, validator);
        self.paused_validators = remaining;
        proof {
            if before.wf() {
                lemma_filter_keeps_no_duplicates(keys_of(before.paused_validators@), validator@);
            }
            lemma_filter_to_set_removes(keys_of(before.paused_validators@), validator@);
            assert(self.paused_keys() == before.paused_keys().remove(validator@));
            assert(before.validators.key_set().contains(validator@));
            assert(self.active_keys() =~= before.active_keys().insert(validator@));
            assert(!before.active_keys().contains(validator@));
            lemma_finite_active(before);
        }
        Ok(ValidatorEvent::Unpaused { validator: copy_bytes(validator), epoch: self.epoch })
    }

    /// Accepts an inbound message signed under `signed_epoch` unless that
    /// epoch is older than the current one.
    pub fn validate_inbound_epoch(&self, signed_epoch: u64) -> (r: Result<(), BridgeError>)
        ensures
            r == (if signed_epoch < self.epoch {
                Err(BridgeError::StaleEpoch)
            } else {
                Ok(())
            }),
    {
        if signed_epoch < self.epoch {
            return Err(BridgeError::StaleEpoch);
        }
        Ok(())
    }

    /// Reconfigures the inbound cap and restarts the window at
    /// `current_time` with a zero total. A negative cap or a zero window
    /// length is rejected and leaves the bridge unchanged.
    pub fn set_inbound_cap(&mut self, max_per_window: i128, window_size: u64, current_time: u64) -> (r:
        Result<(), BridgeError>)
        ensures
            r == (if max_per_window < 0 {
                Err(BridgeError::NegativeInboundCap)
            } else if window_size == 0 {
                Err(BridgeError::InvalidWindowSize)
            } else {
                Ok(())
            }),
            r is Err ==> *final(self) == *old(self),
            r is Ok ==> {
                &&& final(self).max_per_window == max_per_window
                &&& final(self).window_size == window_size
                &&& final(self).window_start == current_time
                &&& final(self).window_inbound_total == 0
                &&& final(self).epoch == old(self).epoch
                &&& final(self).validators == old(self).validators
                &&& final(self).paused_validators == old(self).paused_validators
                &&& final(self).guardian == old(self).guardian
                &&& final(self).bridge_id == old(self).bridge_id
                &&& final(self).domain_bound == old(self).domain_bound
                &&& final(self).inbound_within_cap()
            },
    {
        if max_per_window < 0 {
            return Err(BridgeError::NegativeInboundCap);
        }
        if window_size == 0 {
            return Err(BridgeError::InvalidWindowSize);
        }
        self.max_per_window = max_per_window;
        self.window_size = window_size;
        self.window_start = current_time;
        self.window_inbound_total = 0;
        Ok(())
    }

    /// Restarts the inbound window at `current_time` with a zero total once
    /// it has run its full length: when `current_time` is not before the
    /// window start, the window's end fits in `u64`, and `current_time` has
    /// reached that end. Otherwise (a clock that moved backwards, a window
    /// still open, or an end beyond `u64`) the window is left as is. Nothing
    /// else changes.
    pub fn roll_window_if_expired(&mut self, current_time: u64)
        ensures
            ({
                let start = old(self).window_start as int;
                let end = start + old(self).window_size;
                if start <= current_time && end <= u64::MAX && current_time >= end {
                    final(self).window_start == current_time && final(self).window_inbound_total
                        == 0
                } else {
                    final(self).window_start == old(self).window_start
                        && final(self).window_inbound_total == old(self).window_inbound_total
                }
            }),
            (final(self).window_start, final(self).window_inbound_total) == rolled_window(
                old(self).window_start,
                old(self).window_size,
                old(self).window_inbound_total,
                current_time,
            ),
            final(self).epoch == old(self).epoch,
            final(self).validators == old(self).validators,
            final(self).max_per_window == old(self).max_per_window,
            final(self).window_size == old(self).window_size,
            final(self).paused_validators == old(self).paused_validators,
            final(self).guardian == old(self).guardian,
            final(self).bridge_id == old(self).bridge_id,
            final(self).domain_bound == old(self).domain_bound,
            old(self).inbound_within_cap() ==> final(self).inbound_within_cap(),
    {
        let (start, total) = self.window_at(current_time);
        self.window_start = start;
        self.window_inbound_total = total;
    }

    /// The window start and running total after observing `current_time`;
    /// see [`rolled_window`].
    fn window_at(&self, current_time: u64) -> (w: (u64, i128))
        ensures
            w == rolled_window(
                self.window_start,
                self.window_size,
                self.window_inbound_total,
                current_time,
            ),
    {
        if current_time < self.window_start {
            return (self.window_start, self.window_inbound_total);
        }
        match self.window_start.checked_add(self.window_size) {
            Some(window_end) => {
                if current_time >= window_end {
                    (current_time, 0)
                } else {
                    (self.window_start, self.window_inbound_total)
                }
            },
            None => (self.window_start, self.window_inbound_total),
        }
    }

    /// Admits `amount` of inbound value at `current_time` against the
    /// per-window cap, first restarting the window if it has run its full
    /// length (see [`rolled_window`]). Rejected, leaving the bridge
    /// unchanged, when the amount is negative, the cap is zero, the running
    /// total would overflow, or the total would exceed the cap. On success
    /// the amount is added to the (possibly restarted) window's total.
    pub fn admit_inbound(&mut self, amount: i128, current_time: u64) -> (r: Result<(), BridgeError>)
        ensures
            r == old(self).admit_check(amount, current_time),
            r is Err ==> *final(self) == *old(self),
            r is Ok ==> {
                let (start, total) = rolled_window(
                    old(self).window_start,
                    old(self).window_size,
                    old(self).window_inbound_total,
                    current_time,
                );
                &&& final(self).window_start == start
                &&& final(self).window_inbound_total == total + amount
                &&& final(self).window_inbound_total <= final(self).max_per_window
                &&& final(self).max_per_window == old(self).max_per_window
                &&& final(self).window_size == old(self).window_size
                &&& final(self).epoch == old(self).epoch
                &&& final(self).validators == old(self).validators
                &&& final(self).paused_validators == old(self).paused_validators
                &&& final(self).guardian == old(self).guardian
                &&& final(self).bridge_id == old(self).bridge_id
                &&& final(self).domain_bound == old(self).domain_bound
            },
            old(self).inbound_within_cap() ==> final(self).inbound_within_cap(),
    {
        if amount < 0 {
            return Err(BridgeError::NegativeInboundAmount);
        }
        if self.max_per_window == 0 {
            return Err(BridgeError::InboundDisabled);
        }
        let (start, total) = self.window_at(current_time);
        let new_total = match total.checked_add(amount) {
            Some(t) => t,
            None => return Err(BridgeError::InboundTotalOverflow),
        };
        if new_total > self.max_per_window {
            return Err(BridgeError::InboundCapExceeded);
        }
        self.window_start = start;
        self.window_inbound_total = new_total;
        Ok(())
    }
}

proof fn lemma_finite_active(b: Bridge)
    ensures
        b.active_keys().finite(),
{
}

/// Dropping every copy of `v` from a list that repeats nothing leaves a
/// list that repeats nothing.
proof fn lemma_filter_keeps_no_duplicates(s: Seq<Seq<u8>>, v: Seq<u8>)
    requires
        s.no_duplicates(),
    ensures
        s.filter(differs_from(v)).no_duplicates(),
    decreases s.len(),
{
    reveal(Seq::filter);
    if s.len() > 0 {
        let p = s.drop_last();
        let f = differs_from(v);
        assert(p.no_duplicates()) by {
            assert forall|i: int, j: int| 0 <= i < p.len() && 0 <= j < p.len() && i != j implies p[i]
                != p[j] by {
                assert(p[i] == s[i] && p[j] == s[j]);
            }
        }
        lemma_filter_keeps_no_duplicates(p, v);
        let q = p.filter(f);
        if f(s.last()) {
            assert(!q.contains(s.last())) by {
                if q.contains(s.last()) {
                    p.lemma_filter_contains_rev(f, s.last());
                    let i = choose|i: int| 0 <= i < p.len() && p[i] == s.last();
                    assert(s[i] == s[s.len() - 1]);
                }
            }
            let r = q.push(s.last());
            assert forall|i: int, j: int| 0 <= i < r.len() && 0 <= j < r.len() && i != j implies r[i]
                != r[j] by {
                if i < q.len() && j < q.len() {
                } else if i == q.len() {
                    assert(q.contains(q[j]));
                } else {
                    assert(q.contains(q[i]));
                }
            }
        }
    }
}

/// Dropping every copy of `v` from a list drops `v` from its set.
proof fn lemma_filter_to_set_removes(s: Seq<Seq<u8>>, v: Seq<u8>)
    ensures
        s.filter(differs_from(v)).to_set() == s.to_set().remove(v),
{
    let f = differs_from(v);
    assert forall|k: Seq<u8>| s.filter(f).to_set().contains(k) <==> s.to_set().remove(v).contains(k) by {
        if s.filter(f).contains(k) {
            s.lemma_filter_contains_rev(f, k);
            let i = choose|i: int| 0 <= i < s.filter(f).len() && s.filter(f)[i] == k;
            s.lemma_filter_pred(f, i);
        }
        if s.contains(k) && k != v {
            let i = choose|i: int| 0 <= i < s.len() && s[i] == k;
            s.lemma_filter_contains(f, i);
        }
    }
    assert(s.filter(f).to_set() =~= s.to_set().remove(v));
}

/// Law: the threshold is a strict supermajority, and the least one: three
/// times it exceeds twice the count, three times one less does not; for a
/// non-empty set it never exceeds the count.
pub proof fn law_threshold_is_least_strict_supermajority(n: nat)
    ensures
        3 * supermajority(n as int) > 2 * n,
        3 * (supermajority(n as int) - 1) <= 2 * n,
        n >= 1 ==> supermajority(n as int) <= n,
        supermajority(n as int) >= 1,
{
}

/// Filtering out a value that does not occur changes nothing.
proof fn lemma_filter_absent_is_identity(s: Seq<Seq<u8>>, v: Seq<u8>)
    requires
        !s.contains(v),
    ensures
        s.filter(differs_from(v)) == s,
    decreases s.len(),
{
    reveal(Seq::filter);
    if s.len() > 0 {
        assert(!s.drop_last().contains(v)) by {
            if s.drop_last().contains(v) {
                let i = choose|i: int| 0 <= i < s.drop_last().len() && s.drop_last()[i] == v;
                assert(s[i] == v);
            }
        }
        lemma_filter_absent_is_identity(s.drop_last(), v);
        assert(s.last() != v);
        assert(s.drop_last().push(s.last()) =~= s);
    }
}

/// Law: pausing a validator and then unpausing it restores the paused list
/// exactly, and with it the active validators and the quorum threshold.
/// The premises are what `pause_validator` and `unpause_validator` ensure on
/// success, applied in turn to `b0`, `b1` and `b2`.
pub proof fn law_pause_then_unpause_restores(b0: Bridge, b1: Bridge, b2: Bridge, v: Seq<u8>)
    requires
        !b0.paused_keys().contains(v),
        keys_of(b1.paused_validators@) == keys_of(b0.paused_validators@).push(v),
        b1.same_except_paused(&b0),
        keys_of(b2.paused_validators@) == keys_of(b1.paused_validators@).filter(differs_from(v)),
        b2.same_except_paused(&b1),
    ensures
        keys_of(b2.paused_validators@) == keys_of(b0.paused_validators@),
        b2.paused_keys() == b0.paused_keys(),
        b2.active_keys() == b0.active_keys(),
        b2.quorum_threshold() == b0.quorum_threshold(),
{
    let s = keys_of(b0.paused_validators@);
    reveal(Seq::filter);
    assert(s.push(v).drop_last() =~= s);
    lemma_filter_absent_is_identity(s, v);
    assert(keys_of(b2.paused_validators@) =~= s);
}

/// Every signer counted by a walk of the proofs is an active member named
/// by some proof whose signature was accepted.
proof fn lemma_tally_witnesses(
    members: Set<Seq<u8>>,
    paused: Set<Seq<u8>>,
    signers: Seq<Seq<u8>>,
    accepted: Seq<bool>,
    faults: Seq<BridgeError>,
)
    ensures
        tally(members, paused, signers, accepted, faults) matches Ok(c) ==> forall|k: Seq<u8>|
            c.contains(k) ==> exists|i: int|
                0 <= i < signers.len() && signers[i] == k && accepted[i],
    decreases signers.len(),
{
    if signers.len() > 0 {
        let n = signers.len() - 1;
        lemma_tally_witnesses(members, paused, signers.take(n), accepted, faults);
        if let Ok(c) = tally(members, paused, signers, accepted, faults) {
            assert forall|k: Seq<u8>| c.contains(k) implies exists|i: int|
                0 <= i < signers.len() && signers[i] == k && accepted[i] by {
                if let Ok(c0) = tally(members, paused, signers.take(n), accepted, faults) {
                    if c0.contains(k) {
                        let i = choose|i: int|
                            0 <= i < signers.take(n).len() && signers.take(n)[i] == k
                                && accepted[i];
                        assert(signers[i] == k);
                    } else {
                        assert(signers[n] == k && accepted[n]);
                    }
                }
            }
        }
    }
}

/// Law: a quorum verdict of `Ok` means there is a set of at least
/// `threshold` distinct validators, all members of the set and none paused,
/// each named by some proof whose signature was accepted.
pub proof fn law_quorum_has_threshold_distinct_active_signers(
    members: Set<Seq<u8>>,
    paused: Set<Seq<u8>>,
    signers: Seq<Seq<u8>>,
    accepted: Seq<bool>,
    faults: Seq<BridgeError>,
    threshold: int,
)
    requires
        quorum_verdict(members, paused, signers, accepted, faults, threshold) is Ok,
    ensures
        exists|c: Set<Seq<u8>>|
            {
                &&& c.finite()
                &&& c.len() >= threshold
                &&& c.subset_of(members)
                &&& c.disjoint(paused)
                &&& forall|k: Seq<u8>|
                    c.contains(k) ==> exists|i: int|
                        0 <= i < signers.len() && signers[i] == k && accepted[i]
            },
{
    lemma_tally_set_finite(members, paused, signers, accepted, faults);
    lemma_tally_witnesses(members, paused, signers, accepted, faults);
    let c = tally(members, paused, signers, accepted, faults)->Ok_0;
    assert(c.finite() && c.len() >= threshold);
}

/// Law: guardian authorisations are bound to their action and their
/// target. The message signed to pause a validator never equals the one
/// signed to unpause any validator, and two pause (or two unpause) messages
/// are equal only for the same validator.
pub proof fn law_guardian_payloads_are_domain_separated(v: Seq<u8>, w: Seq<u8>)
    ensures
        pause_tag() + v != unpause_tag() + w,
        pause_tag() + v == pause_tag() + w ==> v == w,
        unpause_tag() + v == unpause_tag() + w ==> v == w,
{
    assert((pause_tag() + v)[7] == 80u8);
    assert((unpause_tag() + w)[7] == 85u8);
    if pause_tag() + v == pause_tag() + w {
        assert(v =~= (pause_tag() + v).subrange(13, (pause_tag() + v).len() as int));
        assert(w =~= (pause_tag() + w).subrange(13, (pause_tag() + w).len() as int));
    }
    if unpause_tag() + v == unpause_tag() + w {
        assert(v =~= (unpause_tag() + v).subrange(15, (unpause_tag() + v).len() as int));
        assert(w =~= (unpause_tag() + w).subrange(15, (unpause_tag() + w).len() as int));
    }
}

/// Law: paused signers carry no weight either way: whether their
/// signatures verify, and how they would be rejected, cannot change the
/// quorum verdict. Two outcome vectors that agree on every proof from an
/// active member give the same verdict.
pub proof fn law_paused_signatures_are_ignored(
    members: Set<Seq<u8>>,
    paused: Set<Seq<u8>>,
    signers: Seq<Seq<u8>>,
    a1: Seq<bool>,
    a2: Seq<bool>,
    f1: Seq<BridgeError>,
    f2: Seq<BridgeError>,
    threshold: int,
)
    requires
        forall|i: int|
            0 <= i < signers.len() && members.contains(signers[i]) && !paused.contains(signers[i])
                ==> a1[i] == a2[i] && (!a1[i] ==> f1[i] == f2[i]),
    ensures
        quorum_verdict(members, paused, signers, a1, f1, threshold) == quorum_verdict(
            members,
            paused,
            signers,
            a2,
            f2,
            threshold,
        ),
{
    lemma_tally_depends_on_active_acceptance(members, paused, signers, a1, a2, f1, f2);
}

/// Every proof names a member of the validator set.
pub open spec fn all_members(members: Set<Seq<u8>>, signers: Seq<Seq<u8>>) -> bool {
    forall|i: int| 0 <= i < signers.len() ==> members.contains(#[trigger] signers[i])
}

/// For every active (non-paused) signer, its first proof was accepted.
pub open spec fn first_active_accepted(
    paused: Set<Seq<u8>>,
    signers: Seq<Seq<u8>>,
    accepted: Seq<bool>,
) -> bool {
    forall|i: int|
        #![trigger signers[i]]
        0 <= i < signers.len() && !paused.contains(signers[i]) && !signers.take(i).contains(
            signers[i],
        ) ==> accepted[i]
}

proof fn lemma_tally_characterized(
    members: Set<Seq<u8>>,
    paused: Set<Seq<u8>>,
    signers: Seq<Seq<u8>>,
    accepted: Seq<bool>,
    faults: Seq<BridgeError>,
)
    ensures
        tally(members, paused, signers, accepted, faults) is Ok <==> all_members(members, signers)
            && first_active_accepted(paused, signers, accepted),
        tally(members, paused, signers, accepted, faults) matches Ok(c) ==> c == signers.to_set().difference(
            paused,
        ),
    decreases signers.len(),
{
    if signers.len() == 0 {
        assert(signers.to_set().difference(paused) =~= Set::<Seq<u8>>::empty());
    } else {
        let n = signers.len() - 1;
        let t = signers.take(n);
        let k = signers[n];
        lemma_tally_characterized(members, paused, t, accepted, faults);
        assert(signers =~= t.push(k));
        assert(all_members(members, signers) <==> all_members(members, t) && members.contains(k))
            by {
            if all_members(members, t) && members.contains(k) {
                assert forall|i: int| 0 <= i < signers.len() implies members.contains(
                    #[trigger] signers[i],
                ) by {
                    if i < n {
                        assert(signers[i] == t[i]);
                    }
                }
            }
            if all_members(members, signers) {
                assert forall|i: int| 0 <= i < t.len() implies members.contains(#[trigger] t[i]) by {
                    assert(signers[i] == t[i]);
                }
            }
        }
        assert(first_active_accepted(paused, signers, accepted) <==> first_active_accepted(
            paused,
            t,
            accepted,
        ) && (!paused.contains(k) && !t.contains(k) ==> accepted[n])) by {
            if first_active_accepted(paused, signers, accepted) {
                assert forall|i: int|
                    #![trigger t[i]]
                    0 <= i < t.len() && !paused.contains(t[i]) && !t.take(i).contains(t[i])
                        implies accepted[i] by {
                    assert(signers[i] == t[i]);
                    assert(signers.take(i) =~= t.take(i));
                }
                assert(signers.take(n) =~= t);
            }
            if first_active_accepted(paused, t, accepted) && (!paused.contains(k) && !t.contains(k)
                ==> accepted[n]) {
                assert forall|i: int|
                    #![trigger signers[i]]
                    0 <= i < signers.len() && !paused.contains(signers[i]) && !signers.take(
                        i,
                    ).contains(signers[i]) implies accepted[i] by {
                    if i < n {
                        assert(signers[i] == t[i]);
                        assert(signers.take(i) =~= t.take(i));
                    } else {
                        assert(signers.take(i) =~= t);
                    }
                }
            }
        }
        assert(signers.to_set() =~= t.to_set().insert(k)) by {
            assert forall|x: Seq<u8>| signers.to_set().contains(x) <==> t.to_set().insert(k).contains(
                x,
            ) by {
                if signers.contains(x) {
                    let i = choose|i: int| 0 <= i < signers.len() && signers[i] == x;
                    if i < n {
                        assert(t[i] == x);
                    }
                }
                if t.contains(x) {
                    let i = choose|i: int| 0 <= i < t.len() && t[i] == x;
                    assert(signers[i] == x);
                }
                if x == k {
                    assert(signers[n] == x);
                }
            }
        }
        match tally(members, paused, t, accepted, faults) {
            Err(_) => {},
            Ok(counted) => {
                assert(counted.contains(k) <==> t.contains(k) && !paused.contains(k));
                if !members.contains(k) {
                } else if paused.contains(k) || counted.contains(k) {
                    assert(signers.to_set().difference(paused) =~= counted);
                } else if !accepted[n] {
                } else {
                    assert(signers.to_set().difference(paused) =~= counted.insert(k));
                }
            },
        }
    }
}

/// Law: a quorum verdict is `Ok` exactly when every proof names a member
/// of the set, the first proof of each active (non-paused) signer was
/// accepted, and the distinct active signers reach the threshold. Nothing
/// about a paused signer's proof, nor about a repeated proof, matters.
pub proof fn law_quorum_verdict_characterized(
    members: Set<Seq<u8>>,
    paused: Set<Seq<u8>>,
    signers: Seq<Seq<u8>>,
    accepted: Seq<bool>,
    faults: Seq<BridgeError>,
    threshold: int,
)
    ensures
        quorum_verdict(members, paused, signers, accepted, faults, threshold) is Ok <==> {
            &&& all_members(members, signers)
            &&& first_active_accepted(paused, signers, accepted)
            &&& signers.to_set().difference(paused).len() >= threshold
        },
{
    lemma_tally_characterized(members, paused, signers, accepted, faults);
}

/// Law: a rotation's quorum proofs are accepted exactly when there is at
/// least one proof, the rotation payload encodes, every proof's signer is in
/// the current set, the first proof of each active signer carries a valid
/// signature over the payload, and the distinct active signers reach the
/// quorum threshold.
pub proof fn law_rotation_quorum_characterized(
    b: Bridge,
    new_keys: Seq<Seq<u8>>,
    epoch: u64,
    proofs: Seq<(Vec<u8>, Vec<u8>)>,
)
    ensures
        b.quorum_check(new_keys, epoch, proofs) is Ok <==> {
            &&& proofs.len() > 0
            &&& all_members(b.validators.key_set(), proof_signers(proofs))
            &&& first_active_accepted(
                b.paused_keys(),
                proof_signers(proofs),
                proof_acceptance(b.rotation_payload(new_keys, epoch), proofs),
            )
            &&& proof_signers(proofs).to_set().difference(b.paused_keys()).len()
                >= b.quorum_threshold()
        },
{
    if proofs.len() > 0 {
        law_quorum_verdict_characterized(
            b.validators.key_set(),
            b.paused_keys(),
            proof_signers(proofs),
            proof_acceptance(b.rotation_payload(new_keys, epoch), proofs),
            proof_faults(b.rotation_payload(new_keys, epoch), proofs),
            b.quorum_threshold(),
        );
    }
}

/// Law: a tagged rotation payload determines its purpose tag and its
/// bridge id: two payloads that agree were built with the same tag and the
/// same id (for tags and ids whose length fits in a `u64`).
pub proof fn law_tagged_payload_binds_tag_and_id(
    d1: Seq<u8>,
    id1: Seq<u8>,
    k1: Seq<Seq<u8>>,
    e1: u64,
    d2: Seq<u8>,
    id2: Seq<u8>,
    k2: Seq<Seq<u8>>,
    e2: u64,
)
    requires
        d1.len() <= u64::MAX,
        d2.len() <= u64::MAX,
        id1.len() <= u64::MAX,
        id2.len() <= u64::MAX,
        tagged_rotation_encoding(d1, id1, k1, e1) == tagged_rotation_encoding(d2, id2, k2, e2),
    ensures
        d1 == d2,
        id1 == id2,
{
    let x = tagged_rotation_encoding(d1, id1, k1, e1);
    lemma_le_bytes_len(d1.len(), 8);
    lemma_le_bytes_len(d2.len(), 8);
    lemma_le_bytes_len(id1.len(), 8);
    lemma_le_bytes_len(id2.len(), 8);
    let r1 = rotation_encoding(k1, e1);
    let r2 = rotation_encoding(k2, e2);
    let x1 = bincode_u64(d1.len()) + d1 + (bincode_u64(id1.len()) + id1) + r1;
    let x2 = bincode_u64(d2.len()) + d2 + (bincode_u64(id2.len()) + id2) + r2;
    assert(x1 == x);
    assert(x1.subrange(0, 8) =~= bincode_u64(d1.len()));
    assert(x2.subrange(0, 8) =~= bincode_u64(d2.len()));
    lemma_bincode_u64_injective(d1.len(), d2.len());
    let o: int = 8 + d1.len() as int;
    let n: int = id1.len() as int;
    assert(x1.subrange(8, o) =~= d1);
    assert(x2.subrange(8, o) =~= d2);
    assert(x1.subrange(o, o + 8) =~= bincode_u64(id1.len()));
    assert(x2.subrange(o, o + 8) =~= bincode_u64(id2.len()));
    lemma_bincode_u64_injective(id1.len(), id2.len());
    assert(x1.subrange(o + 8, o + 8 + n) =~= id1);
    assert(x2.subrange(o + 8, o + 8 + n) =~= id2);
}

/// Law: two identified bridges with different ids never sign the same
/// rotation payload, and neither does a payload built under another purpose
/// tag: a quorum proof gathered for one cannot be replayed on the other.
pub proof fn law_identified_bridges_sign_distinct_payloads(
    b1: Bridge,
    b2: Bridge,
    k1: Seq<Seq<u8>>,
    e1: u64,
    k2: Seq<Seq<u8>>,
    e2: u64,
    other_tag: Seq<u8>,
    other_id: Seq<u8>,
)
    requires
        b1.domain_bound,
        b2.domain_bound,
        b1.bridge_id@.len() <= u64::MAX,
        b2.bridge_id@.len() <= u64::MAX,
        other_tag.len() <= u64::MAX,
        other_id.len() <= u64::MAX,
    ensures
        b1.bridge_id@ != b2.bridge_id@ ==> b1.rotation_payload(k1, e1) != b2.rotation_payload(
            k2,
            e2,
        ),
        other_tag != quorum_domain() ==> tagged_rotation_encoding(other_tag, other_id, k2, e2)
            != b1.rotation_payload(k1, e1),
{
    assert(quorum_domain().len() == 37);
    if b1.rotation_payload(k1, e1) == b2.rotation_payload(k2, e2) {
        law_tagged_payload_binds_tag_and_id(
            quorum_domain(),
            b1.bridge_id@,
            k1,
            e1,
            quorum_domain(),
            b2.bridge_id@,
            k2,
            e2,
        );
    }
    if tagged_rotation_encoding(other_tag, other_id, k2, e2) == b1.rotation_payload(k1, e1) {
        law_tagged_payload_binds_tag_and_id(
            other_tag,
            other_id,
            k2,
            e2,
            quorum_domain(),
            b1.bridge_id@,
            k1,
            e1,
        );
    }
}

/// Law: inbound value is admitted exactly when the amount is not negative,
/// the cap is not zero, and the amount fits under the cap on top of what the
/// window has already admitted, where a window that has run its full length
/// (with an end that fits in `u64`, observed at or after its start) counts
/// as empty.
pub proof fn law_inbound_admitted_within_cap(b: Bridge, amount: i128, now: u64)
    ensures
        b.admit_check(amount, now) is Ok <==> {
            let expired = b.window_start <= now && b.window_start + b.window_size <= u64::MAX && now
                >= b.window_start + b.window_size;
            let running: int = if expired {
                0
            } else {
                b.window_inbound_total as int
            };
            &&& amount >= 0
            &&& b.max_per_window != 0
            &&& running + amount <= b.max_per_window
        },
{
}

} // verus!
