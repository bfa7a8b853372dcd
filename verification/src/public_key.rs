//! Public keys, signatures, and verification dispatch.

use vstd::prelude::*;
use crate::crypto::{ed_valid, bls_valid, bls_share_valid, ed_verify, bls_verify, bls_share_verify};
use crate::xor_name::XorName;
use crate::Error;

verus! {

/// The mathematical value of a [`PublicKey`]: its scheme and its canonical
/// byte encoding.
pub enum PublicKeyView {
    Ed25519(Seq<u8>),
    Bls(Seq<u8>),
    BlsShare(Seq<u8>),
}

impl PublicKeyView {
    /// The canonical byte encoding of the key.
    pub open spec fn bytes(self) -> Seq<u8> {
        match self {
            PublicKeyView::Ed25519(b) => b,
            PublicKeyView::Bls(b) => b,
            PublicKeyView::BlsShare(b) => b,
        }
    }

    /// The encoding has the width of its scheme.
    pub open spec fn wf(self) -> bool {
        match self {
            PublicKeyView::Ed25519(b) => b.len() == 32,
            PublicKeyView::Bls(b) => b.len() == 48,
            PublicKeyView::BlsShare(b) => b.len() == 48,
        }
    }
}

/// A public key of one of the supported signature schemes, carried as its
/// canonical byte encoding: a single-signer Ed25519 key, an aggregate BLS
/// key, or one share of a threshold BLS key.
#[derive(Debug, Hash)]
pub enum PublicKey {
    Ed25519(Vec<u8>),
    Bls(Vec<u8>),
    BlsShare(Vec<u8>),
}

impl View for PublicKey {
    type V = PublicKeyView;

    open spec fn view(&self) -> PublicKeyView {
        match self {
            PublicKey::Ed25519(b) => PublicKeyView::Ed25519(b@),
            PublicKey::Bls(b) => PublicKeyView::Bls(b@),
            PublicKey::BlsShare(b) => PublicKeyView::BlsShare(b@),
        }
    }
}

impl Clone for PublicKey {
    fn clone(&self) -> (r: PublicKey)
        ensures
            r@ == self@,
    {
        match self {
            PublicKey::Ed25519(b) => PublicKey::Ed25519(clone_bytes(b)),
            PublicKey::Bls(b) => PublicKey::Bls(clone_bytes(b)),
            PublicKey::BlsShare(b) => PublicKey::BlsShare(clone_bytes(b)),
        }
    }
}

impl PartialEq for PublicKey {
    fn eq(&self, other: &PublicKey) -> (r: bool) {
        match (self, other) {
            (PublicKey::Ed25519(a), PublicKey::Ed25519(b)) => bytes_eq(a, b),
            (PublicKey::Bls(a), PublicKey::Bls(b)) => bytes_eq(a, b),
            (PublicKey::BlsShare(a), PublicKey::BlsShare(b)) => bytes_eq(a, b),
            _ => false,
        }
    }
}

impl vstd::std_specs::cmp::PartialEqSpecImpl for PublicKey {
    open spec fn obeys_eq_spec() -> bool {
        true
    }

    open spec fn eq_spec(&self, other: &PublicKey) -> bool {
        self@ == other@
    }
}

/// The mathematical value of a [`Signature`].
pub enum SignatureView {
    Ed25519(Seq<u8>),
    Bls(Seq<u8>),
    BlsShare { index: usize, share: Seq<u8> },
}

/// One share of a threshold BLS signature, carrying the index of the
/// secret-key share that produced it; share combination is external.
#[derive(Clone, Debug, PartialEq, Eq, Hash)]
pub struct SignatureShare {
    /// Index of the producing key share within its threshold set.
    pub index: usize,
    /// Canonical byte encoding of the signature share.
    pub share: Vec<u8>,
}

/// A signature, tagged with the scheme that produced it, mirroring the
/// variants of [`PublicKey`].
#[derive(Clone, Debug, PartialEq, Eq, Hash)]
pub enum Signature {
    Ed25519(Vec<u8>),
    Bls(Vec<u8>),
    BlsShare(SignatureShare),
}

impl View for Signature {
    type V = SignatureView;

    open spec fn view(&self) -> SignatureView {
        match self {
            Signature::Ed25519(b) => SignatureView::Ed25519(b@),
            Signature::Bls(b) => SignatureView::Bls(b@),
            Signature::BlsShare(s) => SignatureView::BlsShare { index: s.index, share: s.share@ },
        }
    }
}

/// Whether the key and the signature belong to the same scheme.
pub open spec fn same_scheme(pk: PublicKeyView, sig: SignatureView) -> bool {
    match (pk, sig) {
        (PublicKeyView::Ed25519(_), SignatureView::Ed25519(_)) => true,
        (PublicKeyView::Bls(_), SignatureView::Bls(_)) => true,
        (PublicKeyView::BlsShare(_), SignatureView::BlsShare { .. }) => true,
        _ => false,
    }
}

/// The outcome of verification: a scheme mismatch is reported before any
/// cryptographic check, and a scheme-level rejection afterwards.
pub open spec fn spec_verify(pk: PublicKeyView, sig: SignatureView, msg: Seq<u8>) -> Result<(), Error> {
    match (pk, sig) {
        (PublicKeyView::Ed25519(p), SignatureView::Ed25519(s)) => if ed_valid(p, s, msg) {
            Ok(())
        } else {
            Err(Error::InvalidSignature)
        },
        (PublicKeyView::Bls(p), SignatureView::Bls(s)) => if bls_valid(p, s, msg) {
            Ok(())
        } else {
            Err(Error::InvalidSignature)
        },
        (PublicKeyView::BlsShare(p), SignatureView::BlsShare { share: s, .. }) => if bls_share_valid(p, s, msg) {
            Ok(())
        } else {
            Err(Error::InvalidSignature)
        },
        _ => Err(Error::SigningKeyTypeMismatch),
    }
}

impl PublicKey {
    /// Checks `signature` over `data`: fails with `SigningKeyTypeMismatch`
    /// when the key and signature schemes disagree, with `InvalidSignature`
    /// when the scheme's own check rejects, and succeeds otherwise.
    pub fn verify_detached(&self, signature: &Signature, data: &[u8]) -> (r: Result<(), Error>)
        ensures
            r == spec_verify(self@, signature@, data@),
    {
        let is_valid = match (self, signature) {
            (PublicKey::Ed25519(pub_key), Signature::Ed25519(sig)) => ed_verify(pub_key, sig, data),
            (PublicKey::Bls(pub_key), Signature::Bls(sig)) => bls_verify(pub_key, sig, data),
            (PublicKey::BlsShare(pub_key), Signature::BlsShare(sig)) => {
                bls_share_verify(pub_key, &sig.share, data)
            },
            _ => {
                return Err(Error::SigningKeyTypeMismatch);
            },
        };
        if is_valid {
            Ok(())
        } else {
            Err(Error::InvalidSignature)
        }
    }
}

/// A key and a signature of different schemes are always rejected as a type
/// mismatch, never as a cryptographic failure.
pub proof fn lemma_scheme_mismatch_rejected(pk: PublicKeyView, sig: SignatureView, msg: Seq<u8>)
    requires
        !same_scheme(pk, sig),
    ensures
        spec_verify(pk, sig, msg) == Err::<(), Error>(Error::SigningKeyTypeMismatch),
{
}

/// The leading address-width bytes of the key's canonical encoding; a
/// 32-byte Ed25519 key is carried whole, while the longer BLS encodings
/// are truncated to the address width.
pub open spec fn spec_address_of(pk: PublicKeyView) -> Seq<u8> {
    match pk {
        PublicKeyView::Ed25519(b) => b,
        PublicKeyView::Bls(b) => b.take(32),
        PublicKeyView::BlsShare(b) => b.take(32),
    }
}

impl XorName {
    /// Derives the network address of a public key.
    pub fn from(public_key: PublicKey) -> (r: XorName)
        requires
            public_key@.wf(),
        ensures
            r@ == spec_address_of(public_key@),
    {
        let bytes = match &public_key {
            PublicKey::Ed25519(b) => b,
            PublicKey::Bls(b) => b,
            PublicKey::BlsShare(b) => b,
        };
        let mut out = [0u8; 32];
        let mut i: usize = 0;
        while i < 32
            invariant
                i <= 32,
                bytes@.len() >= 32,
                bytes@ == public_key@.bytes(),
                forall|j: int| 0 <= j < i ==> out@[j] == bytes@[j],
            decreases 32 - i,
        {
            out[i] = bytes[i];
            i += 1;
        }
        proof {
            assert(out@ =~= public_key@.bytes().take(32));
            if public_key@ is Ed25519 {
                assert(public_key@.bytes().take(32) =~= public_key@.bytes());
            }
        }
        XorName(out)
    }
}

/// Copies a byte vector.
pub(crate) fn clone_bytes(v: &Vec<u8>) -> (r: Vec<u8>)
    ensures
        r@ == v@,
{
    let mut out: Vec<u8> = Vec::new();
    let mut i: usize = 0;
    while i < v.len()
        invariant
            i <= v@.len(),
            out@ == v@.take(i as int),
        decreases v@.len() - i,
    {
        out.push(v[i]);
        proof {
            assert(out@ =~= v@.take(i + 1));
        }
        i += 1;
    }
    proof {
        assert(v@.take(v@.len() as int) =~= v@);
    }
    out
}

/// Byte-vector equality, reflected into the views.
pub(crate) fn bytes_eq(a: &Vec<u8>, b: &Vec<u8>) -> (r: bool)
    ensures
        r == (a@ == b@),
{
    if a.len() != b.len() {
        return false;
    }
    let mut i: usize = 0;
    while i < a.len()
        invariant
            i <= a@.len(),
            a@.len() == b@.len(),
            forall|j: int| 0 <= j < i ==> a@[j] == b@[j],
        decreases a@.len() - i,
    {
        if a[i] != b[i] {
            return false;
        }
        i += 1;
    }
    proof {
        assert(a@ =~= b@);
    }
    true
}

} // verus!
