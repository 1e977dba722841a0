//! The outside computations the bridge relies on: Ed25519 signature
//! verification (`ed25519-dalek`) and the `bincode` encodings of the
//! validator-rotation payloads, untagged and bound to a purpose tag and a
//! bridge id. Signature verification is a deterministic function of its
//! arguments and is given a name; the `bincode` encodings are stated below.

use vstd::prelude::*;

verus! {

/// Whether `ed25519-dalek` accepts `signature` as a valid Ed25519 signature of
/// `message` under the public key encoded by `public_key` (`false` when either
/// encoding does not decode).
pub uninterp spec fn ed25519_signature_valid(
    public_key: Seq<u8>,
    message: Seq<u8>,
    signature: Seq<u8>,
) -> bool;

/// The text of the error `ed25519-dalek` reports when it does not accept
/// `signature` over `message` under `public_key` (decoding the key, decoding
/// the signature, or verifying).
pub uninterp spec fn ed25519_rejection_text(
    public_key: Seq<u8>,
    message: Seq<u8>,
    signature: Seq<u8>,
) -> Seq<char>;

/// `n` as `k` bytes, least significant first.
pub open spec fn le_bytes(n: nat, k: nat) -> Seq<u8>
    decreases k,
{
    if k == 0 {
        Seq::empty()
    } else {
        seq![(n % 256) as u8] + le_bytes(n / 256, (k - 1) as nat)
    }
}

/// `bincode`'s fixed-width encoding of a `u64` or of a length: eight bytes,
/// little-endian.
pub open spec fn bincode_u64(n: nat) -> Seq<u8> {
    le_bytes(n, 8)
}

/// `bincode`'s encoding of a byte slice or byte vector: its length, then
/// its bytes.
pub open spec fn bincode_bytes(b: Seq<u8>) -> Seq<u8> {
    bincode_u64(b.len()) + b
}

/// The encodings of the byte strings of `ks`, one after another.
pub open spec fn bincode_byte_strings(ks: Seq<Seq<u8>>) -> Seq<u8>
    decreases ks.len(),
{
    if ks.len() == 0 {
        Seq::empty()
    } else {
        bincode_byte_strings(ks.drop_last()) + bincode_bytes(ks.last())
    }
}

/// `bincode`'s encoding of a list of byte vectors: its length, then each
/// entry.
pub open spec fn bincode_byte_list(ks: Seq<Seq<u8>>) -> Seq<u8> {
    bincode_u64(ks.len()) + bincode_byte_strings(ks)
}

/// The encoding of the tuple `(validators, epoch)`: a tuple is its fields
/// one after another.
pub open spec fn rotation_encoding(validators: Seq<Seq<u8>>, epoch: u64) -> Seq<u8> {
    bincode_byte_list(validators) + bincode_u64(epoch as nat)
}

/// The encoding of the tuple `(domain, bridge_id, validators, epoch)`.
pub open spec fn tagged_rotation_encoding(
    domain: Seq<u8>,
    bridge_id: Seq<u8>,
    validators: Seq<Seq<u8>>,
    epoch: u64,
) -> Seq<u8> {
    bincode_bytes(domain) + bincode_bytes(bridge_id) + rotation_encoding(validators, epoch)
}

#[verifier::external_type_specification]
#[verifier::external_body]
pub struct ExBincodeErrorKind(bincode::ErrorKind);

/// Trusted: decodes `public_key` with `ed25519_dalek::PublicKey::from_bytes`,
/// `signature` with `ed25519_dalek::Signature::from_bytes`, and runs
/// `Verifier::verify` on `message`; an error of any of the three calls is
/// returned as its text. The contract claims that the call succeeds exactly
/// when the named `ed25519_signature_valid` holds of the three byte strings,
/// and that the text of a rejection is the named `ed25519_rejection_text` of
/// them.
#[verifier::external_body]
pub(crate) fn ed25519_verify(public_key: &[u8], message: &[u8], signature: &[u8]) -> (r: Result<
    (),
    String,
>)
    ensures
        r is Ok <==> ed25519_signature_valid(public_key@, message@, signature@),
        r matches Err(t) ==> t@ == ed25519_rejection_text(public_key@, message@, signature@),
{
    let key = match ed25519_dalek::PublicKey::from_bytes(public_key) {
        Ok(k) => k,
        Err(e) => return Err(e.to_string()),
    };
    let sig = match ed25519_dalek::Signature::from_bytes(signature) {
        Ok(x) => x,
        Err(e) => return Err(e.to_string()),
    };
    match ed25519_dalek::Verifier::verify(&key, message, &sig) {
        Ok(()) => Ok(()),
        Err(e) => Err(e.to_string()),
    }
}

/// Trusted: `bincode::serialize(&(validators, epoch))`. `bincode::serialize`
/// uses the default options (fixed-width little-endian integers, no size
/// limit); a sequence is written as its length and its items, so the call
/// succeeds and returns [`rotation_encoding`].
#[verifier::external_body]
pub(crate) fn bincode_serialize_rotation(validators: &Vec<Vec<u8>>, epoch: u64) -> (r: Result<
    Vec<u8>,
    Box<bincode::ErrorKind>,
>)
    ensures
        r is Ok,
        r->Ok_0@ == rotation_encoding(crate::bytes::keys_of(validators@), epoch),
{
    bincode::serialize(&(validators, epoch))
}

/// Trusted: `bincode::serialize(&(domain, bridge_id, validators, epoch))`,
/// which succeeds and returns [`tagged_rotation_encoding`] for the same
/// reasons as [`bincode_serialize_rotation`]; a byte slice is written as its
/// length and its bytes.
#[verifier::external_body]
pub(crate) fn bincode_serialize_tagged_rotation(
    domain: &[u8],
    bridge_id: &[u8],
    validators: &Vec<Vec<u8>>,
    epoch: u64,
) -> (r: Result<Vec<u8>, Box<bincode::ErrorKind>>)
    ensures
        r is Ok,
        r->Ok_0@ == tagged_rotation_encoding(
            domain@,
            bridge_id@,
            crate::bytes::keys_of(validators@),
            epoch,
        ),
{
    bincode::serialize(&(domain, bridge_id, validators, epoch))
}

pub proof fn lemma_le_bytes_len(n: nat, k: nat)
    ensures
        le_bytes(n, k).len() == k,
    decreases k,
{
    if k > 0 {
        lemma_le_bytes_len(n / 256, (k - 1) as nat);
    }
}

/// Numbers below `256^k` have distinct `k`-byte encodings.
proof fn lemma_le_bytes_injective(n: nat, m: nat, k: nat)
    requires
        n < vstd::arithmetic::power::pow(256, k),
        m < vstd::arithmetic::power::pow(256, k),
        le_bytes(n, k) == le_bytes(m, k),
    ensures
        n == m,
    decreases k,
{
    reveal(vstd::arithmetic::power::pow);
    if k > 0 {
        let a = le_bytes(n, k);
        let b = le_bytes(m, k);
        lemma_le_bytes_len(n / 256, (k - 1) as nat);
        lemma_le_bytes_len(m / 256, (k - 1) as nat);
        assert(a[0] == (n % 256) as u8);
        assert(b[0] == (m % 256) as u8);
        assert(le_bytes(n / 256, (k - 1) as nat) =~= a.subrange(1, a.len() as int));
        assert(le_bytes(m / 256, (k - 1) as nat) =~= b.subrange(1, b.len() as int));
        let p = vstd::arithmetic::power::pow(256, (k - 1) as nat);
        assert(n / 256 < p && m / 256 < p) by (nonlinear_arith)
            requires
                n < 256 * p,
                m < 256 * p,
        ;
        lemma_le_bytes_injective(n / 256, m / 256, (k - 1) as nat);
    }
}

/// Lengths that fit in a `u64` have distinct `bincode` encodings.
pub proof fn lemma_bincode_u64_injective(n: nat, m: nat)
    requires
        n <= u64::MAX,
        m <= u64::MAX,
        bincode_u64(n) == bincode_u64(m),
    ensures
        n == m,
{
    assert(vstd::arithmetic::power::pow(256, 8) == 0x1_0000_0000_0000_0000) by {
        reveal_with_fuel(vstd::arithmetic::power::pow, 9);
    }
    lemma_le_bytes_injective(n, m, 8);
}

} // verus!
