//! Keypairs over the supported signature schemes, and signing.

use vstd::prelude::*;
use crate::crypto::{
    ed_public_of, ed_sign_of, bls_sk_wf, bls_public_of, bls_sign_of, bls_share_sk_wf,
    bls_share_public_of, bls_share_sign_of, ed_random_secret, ed_public_from_secret, ed_sign,
    bls_generate, bls_public_from_secret, bls_sign, bls_share_public, bls_share_sign,
};
use crate::public_key::{PublicKey, PublicKeyView, Signature, SignatureView, SignatureShare, bytes_eq, clone_bytes};
use crate::Error;

verus! {

/// The mathematical value of a [`SecretKey`].
pub enum SecretKeyView {
    Ed25519(Seq<u8>),
    Bls(Seq<u8>),
    BlsShare(Seq<u8>),
}

/// A secret key of one of the supported schemes, carried as its serialised
/// byte representation.
#[derive(Clone, Debug, PartialEq, Eq)]
pub enum SecretKey {
    Ed25519(Vec<u8>),
    Bls(Vec<u8>),
    BlsShare(Vec<u8>),
}

impl View for SecretKey {
    type V = SecretKeyView;

    open spec fn view(&self) -> SecretKeyView {
        match self {
            SecretKey::Ed25519(b) => SecretKeyView::Ed25519(b@),
            SecretKey::Bls(b) => SecretKeyView::Bls(b@),
            SecretKey::BlsShare(b) => SecretKeyView::BlsShare(b@),
        }
    }
}

/// A BLS keypair: the serialised secret key and the public key derived
/// from it.
#[derive(Clone, Debug, PartialEq, Eq)]
pub struct BlsKeypair {
    /// Serialised secret key.
    pub secret: Vec<u8>,
    /// Canonical encoding of the matching public key.
    pub public: Vec<u8>,
}

/// One share of a threshold BLS keypair, together with the public-key set
/// of the collective key, kept for later proof construction.
#[derive(Clone, Debug, PartialEq, Eq)]
pub struct BlsKeypairShare {
    /// Index of this share within the threshold set.
    pub index: usize,
    /// Serialised secret-key share.
    pub secret: Vec<u8>,
    /// Canonical encoding of the matching public-key share.
    pub public: Vec<u8>,
    /// Serialised public-key set of the collective key.
    pub public_key_set: Vec<u8>,
}

/// The mathematical value of a [`Keypair`].
pub enum KeypairView {
    Ed25519 { secret: Seq<u8>, public: Seq<u8> },
    Bls { secret: Seq<u8>, public: Seq<u8> },
    BlsShare { index: usize, secret: Seq<u8>, public: Seq<u8>, public_key_set: Seq<u8> },
}

impl KeypairView {
    /// The stored public key matches the secret, and every byte string has
    /// the shape its scheme demands.
    pub open spec fn wf(self) -> bool {
        match self {
            KeypairView::Ed25519 { secret, public } => secret.len() == 32 && public
                == ed_public_of(secret) && public.len() == 32,
            KeypairView::Bls { secret, public } => bls_sk_wf(secret) && public == bls_public_of(
                secret,
            ) && public.len() == 48,
            KeypairView::BlsShare { secret, public, .. } => bls_share_sk_wf(secret) && public
                == bls_share_public_of(secret) && public.len() == 48,
        }
    }

    /// The public key that belongs to this keypair.
    pub open spec fn public_key(self) -> PublicKeyView {
        match self {
            KeypairView::Ed25519 { public, .. } => PublicKeyView::Ed25519(public),
            KeypairView::Bls { public, .. } => PublicKeyView::Bls(public),
            KeypairView::BlsShare { public, .. } => PublicKeyView::BlsShare(public),
        }
    }

    /// The secret key that this keypair owns.
    pub open spec fn secret_key(self) -> SecretKeyView {
        match self {
            KeypairView::Ed25519 { secret, .. } => SecretKeyView::Ed25519(secret),
            KeypairView::Bls { secret, .. } => SecretKeyView::Bls(secret),
            KeypairView::BlsShare { secret, .. } => SecretKeyView::BlsShare(secret),
        }
    }

    /// The signature this keypair produces over `msg`: deterministic for
    /// every scheme, and carrying the share index for a key share.
    pub open spec fn signature(self, msg: Seq<u8>) -> SignatureView {
        match self {
            KeypairView::Ed25519 { secret, .. } => SignatureView::Ed25519(ed_sign_of(secret, msg)),
            KeypairView::Bls { secret, .. } => SignatureView::Bls(bls_sign_of(secret, msg)),
            KeypairView::BlsShare { index, secret, .. } => SignatureView::BlsShare {
                index,
                share: bls_share_sign_of(secret, msg),
            },
        }
    }
}

/// A keypair of one of the supported signature schemes.  A keypair owns
/// exactly one secret; the public key is derived from the secret and kept
/// only as a cached copy of that derivation.
#[derive(Clone, Debug, PartialEq, Eq)]
pub enum Keypair {
    /// Ed25519 keypair.
    Ed25519 { secret: Vec<u8>, public: Vec<u8> },
    /// BLS keypair.
    Bls(BlsKeypair),
    /// BLS keypair share.
    BlsShare(BlsKeypairShare),
}

impl View for Keypair {
    type V = KeypairView;

    open spec fn view(&self) -> KeypairView {
        match self {
            Keypair::Ed25519 { secret, public } => KeypairView::Ed25519 {
                secret: secret@,
                public: public@,
            },
            Keypair::Bls(k) => KeypairView::Bls { secret: k.secret@, public: k.public@ },
            Keypair::BlsShare(k) => KeypairView::BlsShare {
                index: k.index,
                secret: k.secret@,
                public: k.public@,
                public_key_set: k.public_key_set@,
            },
        }
    }
}

impl Keypair {
    /// Constructs a fresh random Ed25519 keypair.
    pub fn new_ed25519() -> (r: Keypair)
        ensures
            r@.wf(),
            r@ is Ed25519,
    {
        let secret = ed_random_secret();
        let public = ed_public_from_secret(&secret);
        Keypair::Ed25519 { secret, public }
    }

    /// Constructs a fresh random BLS keypair.
    pub fn new_bls() -> (r: Keypair)
        ensures
            r@.wf(),
            r@ is Bls,
    {
        let (secret, public) = bls_generate();
        Keypair::Bls(BlsKeypair { secret, public })
    }

    /// Constructs a BLS keypair share from a serialised secret-key share
    /// and the serialised public-key set of its collective key.  Fails with
    /// `Unexpected` exactly when the secret bytes do not deserialise to a
    /// key share.
    pub fn new_bls_share(index: usize, secret_share: Vec<u8>, public_key_set: Vec<u8>) -> (r: Result<
        Keypair,
        Error,
    >)
        ensures
            r is Ok <==> bls_share_sk_wf(secret_share@),
            r matches Ok(k) ==> k@ == (KeypairView::BlsShare {
                index,
                secret: secret_share@,
                public: bls_share_public_of(secret_share@),
                public_key_set: public_key_set@,
            }) && k@.wf(),
            r matches Err(e) ==> e is Unexpected,
    {
        match bls_share_public(&secret_share) {
            Some(public) => Ok(
                Keypair::BlsShare(
                    BlsKeypairShare { index, secret: secret_share, public, public_key_set },
                ),
            ),
            None => Err(Error::Unexpected("could not deserialise the BLS secret-key share".to_string())),
        }
    }

    /// Returns the public key associated with this keypair.
    pub fn public_key(&self) -> (r: PublicKey)
        ensures
            r@ == self@.public_key(),
            self@.wf() ==> r@.wf(),
    {
        match self {
            Keypair::Ed25519 { public, .. } => PublicKey::Ed25519(clone_bytes(public)),
            Keypair::Bls(k) => PublicKey::Bls(clone_bytes(&k.public)),
            Keypair::BlsShare(k) => PublicKey::BlsShare(clone_bytes(&k.public)),
        }
    }

    /// Returns the secret key associated with this keypair.
    pub fn secret_key(&self) -> (r: Result<SecretKey, Error>)
        ensures
            r matches Ok(k) && k@ == self@.secret_key(),
    {
        match self {
            Keypair::Ed25519 { secret, .. } => Ok(SecretKey::Ed25519(clone_bytes(secret))),
            Keypair::Bls(k) => Ok(SecretKey::Bls(clone_bytes(&k.secret))),
            Keypair::BlsShare(k) => Ok(SecretKey::BlsShare(clone_bytes(&k.secret))),
        }
    }

    /// Signs `data` with the underlying secret key.  The signature is the
    /// scheme's deterministic signature of the message, and the matching
    /// public key always accepts it: verification of `sign`'s result under
    /// `public_key`'s result succeeds for every message.
    pub fn sign(&self, data: &[u8]) -> (r: Signature)
        requires
            self@.wf(),
        ensures
            r@ == self@.signature(data@),
            crate::public_key::spec_verify(self@.public_key(), r@, data@) == Ok::<(), Error>(()),
    {
        match self {
            Keypair::Ed25519 { secret, .. } => Signature::Ed25519(ed_sign(secret, data)),
            Keypair::Bls(k) => {
                match bls_sign(&k.secret, data) {
                    Some(sig) => Signature::Bls(sig),
                    None => vstd::pervasive::unreached(),
                }
            },
            Keypair::BlsShare(k) => {
                match bls_share_sign(&k.secret, data) {
                    Some(share) => Signature::BlsShare(SignatureShare { index: k.index, share }),
                    None => vstd::pervasive::unreached(),
                }
            },
        }
    }

    /// Signs `data` after checking at run time that the keypair is
    /// well-formed (the secret deserialises and the cached public key is
    /// the one derived from it); returns `None` exactly when it is not.
    pub fn try_sign(&self, data: &[u8]) -> (r: Option<Signature>)
        ensures
            r matches Some(s) ==> self@.wf() && s@ == self@.signature(data@),
            r is None ==> !self@.wf(),
    {
        match self {
            Keypair::Ed25519 { secret, public } => {
                if secret.len() != 32 {
                    return None;
                }
                let derived = ed_public_from_secret(secret);
                if bytes_eq(&derived, public) {
                    Some(self.sign(data))
                } else {
                    None
                }
            },
            Keypair::Bls(k) => {
                match bls_public_from_secret(&k.secret) {
                    Some(derived) => {
                        if k.public.len() == 48 && bytes_eq(&derived, &k.public) {
                            Some(self.sign(data))
                        } else {
                            None
                        }
                    },
                    None => None,
                }
            },
            Keypair::BlsShare(k) => {
                match bls_share_public(&k.secret) {
                    Some(derived) => {
                        if k.public.len() == 48 && bytes_eq(&derived, &k.public) {
                            Some(self.sign(data))
                        } else {
                            None
                        }
                    },
                    None => None,
                }
            },
        }
    }
}

} // verus!
