//! Trusted bindings to the cryptographic primitives.
//!
//! Every key, signature and digest is carried through the rest of the crate
//! as its canonical byte representation; this module holds the only calls
//! into the primitive libraries, each behind a contract over those bytes.

use vstd::prelude::*;
use ed25519_dalek::Signer;
use ed25519_dalek::Verifier;
use rand::RngCore;

verus! {

/// The SHA3-256 digest of a byte sequence.
pub uninterp spec fn sha3_of(data: Seq<u8>) -> Seq<u8>;

/// The Ed25519 public key derived from a 32-byte secret key.
pub uninterp spec fn ed_public_of(secret: Seq<u8>) -> Seq<u8>;

/// The Ed25519 signature of a message under a 32-byte secret key.
pub uninterp spec fn ed_sign_of(secret: Seq<u8>, msg: Seq<u8>) -> Seq<u8>;

/// Whether Ed25519 verification accepts the signature bytes for the
/// public-key bytes and message.
pub uninterp spec fn ed_valid(public: Seq<u8>, sig: Seq<u8>, msg: Seq<u8>) -> bool;

/// Whether the bytes are the serialised form of a BLS secret key.
pub uninterp spec fn bls_sk_wf(secret: Seq<u8>) -> bool;

/// The BLS public key derived from a serialised BLS secret key.
pub uninterp spec fn bls_public_of(secret: Seq<u8>) -> Seq<u8>;

/// The BLS signature of a message under a serialised BLS secret key.
pub uninterp spec fn bls_sign_of(secret: Seq<u8>, msg: Seq<u8>) -> Seq<u8>;

/// Whether BLS verification accepts the signature bytes for the public-key
/// bytes and message.
pub uninterp spec fn bls_valid(public: Seq<u8>, sig: Seq<u8>, msg: Seq<u8>) -> bool;

/// Whether the bytes are the serialised form of a BLS secret-key share.
pub uninterp spec fn bls_share_sk_wf(secret: Seq<u8>) -> bool;

/// The public-key share derived from a serialised BLS secret-key share.
pub uninterp spec fn bls_share_public_of(secret: Seq<u8>) -> Seq<u8>;

/// The signature share of a message under a serialised BLS secret-key share.
pub uninterp spec fn bls_share_sign_of(secret: Seq<u8>, msg: Seq<u8>) -> Seq<u8>;

/// Whether share verification accepts the signature-share bytes for the
/// public-key-share bytes and message.
pub uninterp spec fn bls_share_valid(public: Seq<u8>, sig: Seq<u8>, msg: Seq<u8>) -> bool;

/// Relies on tiny_keccak::sha3_256: a 32-byte digest that depends on the
/// input bytes alone.
#[verifier::external_body]
pub(crate) fn sha3_digest(data: &[u8]) -> (r: Vec<u8>)
    ensures
        r@ == sha3_of(data@),
        r@.len() == 32,
{
    tiny_keccak::sha3_256(data).to_vec()
}

/// Relies on rand::thread_rng / RngCore::fill_bytes for 32 fresh bytes;
/// nothing beyond the length holds of a random value.
#[verifier::external_body]
pub(crate) fn ed_random_secret() -> (r: Vec<u8>)
    ensures
        r@.len() == 32,
{
    let mut bytes = [0u8; 32];
    rand::thread_rng().fill_bytes(&mut bytes);
    bytes.to_vec()
}

/// Relies on ed25519_dalek::SecretKey::from_bytes (any 32 bytes are a valid
/// secret key) and ed25519_dalek::PublicKey::from, which derives the public
/// key from the secret alone.
#[verifier::external_body]
pub(crate) fn ed_public_from_secret(secret: &Vec<u8>) -> (r: Vec<u8>)
    requires
        secret@.len() == 32,
    ensures
        r@ == ed_public_of(secret@),
        r@.len() == 32,
{
    let sk = ed25519_dalek::SecretKey::from_bytes(secret.as_slice()).unwrap();
    ed25519_dalek::PublicKey::from(&sk).to_bytes().to_vec()
}

/// Relies on ed25519_dalek::ExpandedSecretKey::sign: deterministic Ed25519
/// signing, whose signatures the matching public key accepts.
#[verifier::external_body]
pub(crate) fn ed_sign(secret: &Vec<u8>, msg: &[u8]) -> (r: Vec<u8>)
    requires
        secret@.len() == 32,
    ensures
        r@ == ed_sign_of(secret@, msg@),
        r@.len() == 64,
        ed_valid(ed_public_of(secret@), r@, msg@),
{
    let sk = ed25519_dalek::SecretKey::from_bytes(secret.as_slice()).unwrap();
    let pk = ed25519_dalek::PublicKey::from(&sk);
    let expanded = ed25519_dalek::ExpandedSecretKey::from(&sk);
    expanded.sign(msg, &pk).to_bytes().to_vec()
}

/// Relies on ed25519_dalek::PublicKey::verify; bytes that do not decode to
/// a key or a signature are rejected, so the result is a function of the
/// three byte strings.
#[verifier::external_body]
pub(crate) fn ed_verify(public: &Vec<u8>, sig: &Vec<u8>, msg: &[u8]) -> (r: bool)
    ensures
        r == ed_valid(public@, sig@, msg@),
{
    let pk = match ed25519_dalek::PublicKey::from_bytes(public.as_slice()) {
        Ok(pk) => pk,
        Err(_) => return false,
    };
    let sg = match ed25519_dalek::Signature::from_bytes(sig.as_slice()) {
        Ok(sg) => sg,
        Err(_) => return false,
    };
    pk.verify(msg, &sg).is_ok()
}

/// Relies on threshold_crypto::SecretKey::random and public_key, with the
/// secret serialised through SerdeSecret and bincode; the public key is a
/// function of the secret alone.
#[verifier::external_body]
pub(crate) fn bls_generate() -> (r: (Vec<u8>, Vec<u8>))
    ensures
        bls_sk_wf(r.0@),
        r.1@ == bls_public_of(r.0@),
        r.1@.len() == 48,
{
    let sk = threshold_crypto::SecretKey::random();
    let public = sk.public_key().to_bytes().to_vec();
    let wrapped = threshold_crypto::serde_impl::SerdeSecret(&sk);
    (bincode::serialize(&wrapped).unwrap(), public)
}

/// Relies on bincode deserialisation of threshold_crypto::SecretKey and on
/// SecretKey::public_key.
#[verifier::external_body]
pub(crate) fn bls_public_from_secret(secret: &Vec<u8>) -> (r: Option<Vec<u8>>)
    ensures
        r is Some <==> bls_sk_wf(secret@),
        r matches Some(p) ==> p@ == bls_public_of(secret@) && p@.len() == 48,
{
    match bincode::deserialize::<threshold_crypto::SecretKey>(secret.as_slice()) {
        Ok(sk) => Some(sk.public_key().to_bytes().to_vec()),
        Err(_) => None,
    }
}

/// Relies on threshold_crypto::SecretKey::sign: BLS signatures are unique
/// per key and message, and the matching public key accepts them.
#[verifier::external_body]
pub(crate) fn bls_sign(secret: &Vec<u8>, msg: &[u8]) -> (r: Option<Vec<u8>>)
    ensures
        r is Some <==> bls_sk_wf(secret@),
        r matches Some(s) ==> s@ == bls_sign_of(secret@, msg@) && s@.len() == 96
            && bls_valid(bls_public_of(secret@), s@, msg@),
{
    match bincode::deserialize::<threshold_crypto::SecretKey>(secret.as_slice()) {
        Ok(sk) => Some(sk.sign(msg).to_bytes().to_vec()),
        Err(_) => None,
    }
}

/// Relies on threshold_crypto::PublicKey::verify; bytes that do not decode
/// to a key or a signature are rejected.
#[verifier::external_body]
pub(crate) fn bls_verify(public: &Vec<u8>, sig: &Vec<u8>, msg: &[u8]) -> (r: bool)
    ensures
        r == bls_valid(public@, sig@, msg@),
{
    if public.len() != 48 || sig.len() != 96 {
        return false;
    }
    let mut pkb = [0u8; 48];
    pkb.copy_from_slice(public.as_slice());
    let mut sgb = [0u8; 96];
    sgb.copy_from_slice(sig.as_slice());
    match (threshold_crypto::PublicKey::from_bytes(pkb), threshold_crypto::Signature::from_bytes(sgb)) {
        (Ok(pk), Ok(sg)) => pk.verify(&sg, msg),
        _ => false,
    }
}

/// Relies on bincode deserialisation of threshold_crypto::SecretKeyShare
/// and on SecretKeyShare::public_key_share.
#[verifier::external_body]
pub(crate) fn bls_share_public(secret: &Vec<u8>) -> (r: Option<Vec<u8>>)
    ensures
        r is Some <==> bls_share_sk_wf(secret@),
        r matches Some(p) ==> p@ == bls_share_public_of(secret@) && p@.len() == 48,
{
    match bincode::deserialize::<threshold_crypto::SecretKeyShare>(secret.as_slice()) {
        Ok(sk) => Some(sk.public_key_share().to_bytes().to_vec()),
        Err(_) => None,
    }
}

/// Relies on threshold_crypto::SecretKeyShare::sign: deterministic, and the
/// matching public-key share accepts the result.
#[verifier::external_body]
pub(crate) fn bls_share_sign(secret: &Vec<u8>, msg: &[u8]) -> (r: Option<Vec<u8>>)
    ensures
        r is Some <==> bls_share_sk_wf(secret@),
        r matches Some(s) ==> s@ == bls_share_sign_of(secret@, msg@) && s@.len() == 96
            && bls_share_valid(bls_share_public_of(secret@), s@, msg@),
{
    match bincode::deserialize::<threshold_crypto::SecretKeyShare>(secret.as_slice()) {
        Ok(sk) => Some(sk.sign(msg).to_bytes().to_vec()),
        Err(_) => None,
    }
}

/// Relies on threshold_crypto::PublicKeyShare::verify; bytes that do not
/// decode to a key share or a signature share are rejected.
#[verifier::external_body]
pub(crate) fn bls_share_verify(public: &Vec<u8>, sig: &Vec<u8>, msg: &[u8]) -> (r: bool)
    ensures
        r == bls_share_valid(public@, sig@, msg@),
{
    if public.len() != 48 || sig.len() != 96 {
        return false;
    }
    let mut pkb = [0u8; 48];
    pkb.copy_from_slice(public.as_slice());
    let mut sgb = [0u8; 96];
    sgb.copy_from_slice(sig.as_slice());
    match (threshold_crypto::PublicKeyShare::from_bytes(pkb), threshold_crypto::SignatureShare::from_bytes(sgb)) {
        (Ok(pk), Ok(sg)) => pk.verify(&sg, msg),
        _ => false,
    }
}

} // verus!
