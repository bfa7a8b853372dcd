use safe_nd::codec::{decode, encode};
use safe_nd::keypair::Keypair;
use safe_nd::public_key::{PublicKey, Signature};
use safe_nd::Error;
use threshold_crypto::serde_impl::SerdeSecret;

fn gen_keypairs() -> Vec<Keypair> {
    let mut rng = rand::thread_rng();
    let bls_secret_key = threshold_crypto::SecretKeySet::random(1, &mut rng);
    let share = bls_secret_key.secret_key_share(0);
    let share_bytes = bincode::serialize(&SerdeSecret(&share)).unwrap();
    let pks_bytes = bincode::serialize(&bls_secret_key.public_keys()).unwrap();
    vec![
        Keypair::new_ed25519(),
        Keypair::new_bls(),
        Keypair::new_bls_share(0, share_bytes, pks_bytes).expect("Error deserialising key"),
    ]
}

// Test serialising and deserialising key pairs.
#[test]
fn serialisation_key_pair() {
    let keypairs = gen_keypairs();

    for keypair in keypairs {
        let encoded = encode(&keypair);
        let decoded: Keypair = decode(&encoded).expect("Error deserialising key");

        assert_eq!(decoded, keypair);
    }
}

#[test]
fn decode_rejects_garbage() {
    assert!(matches!(decode(&Vec::new()), Err(Error::Unexpected(_))));
    assert!(matches!(decode(&vec![9u8, 1, 2, 3]), Err(Error::Unexpected(_))));
    let mut truncated = encode(&Keypair::new_bls());
    truncated.pop();
    assert!(matches!(decode(&truncated), Err(Error::Unexpected(_))));
}

#[test]
fn round_trip_preserves_share_index_and_key_set() {
    let mut rng = rand::thread_rng();
    let bls_secret_key = threshold_crypto::SecretKeySet::random(1, &mut rng);
    let share = bls_secret_key.secret_key_share(7);
    let share_bytes = bincode::serialize(&SerdeSecret(&share)).unwrap();
    let pks_bytes = bincode::serialize(&bls_secret_key.public_keys()).unwrap();
    let keypair = Keypair::new_bls_share(7, share_bytes, pks_bytes.clone()).unwrap();
    let decoded = decode(&encode(&keypair)).unwrap();
    match decoded {
        Keypair::BlsShare(k) => {
            assert_eq!(k.index, 7);
            assert_eq!(k.public_key_set, pks_bytes);
        }
        _ => panic!("expected a key share"),
    }
    let share_sig = keypair.sign(b"proof");
    match share_sig {
        Signature::BlsShare(s) => assert_eq!(s.index, 7),
        _ => panic!("expected a signature share"),
    }
}

#[test]
fn new_bls_share_rejects_malformed_secret() {
    let result = Keypair::new_bls_share(0, b"not a key share".to_vec(), Vec::new());
    assert!(matches!(result, Err(Error::Unexpected(_))));
}

#[test]
fn sign_verify_succeeds_for_every_variant() {
    for keypair in gen_keypairs() {
        let public = keypair.public_key();
        for msg in [&b""[..], &b"hello world"[..]] {
            let signature = keypair.sign(msg);
            assert_eq!(public.verify_detached(&signature, msg), Ok(()));
        }
    }
}

#[test]
fn verify_rejects_scheme_mismatch() {
    let keypairs = gen_keypairs();
    let publics: Vec<PublicKey> = keypairs.iter().map(|k| k.public_key()).collect();
    let signatures: Vec<Signature> = keypairs.iter().map(|k| k.sign(b"msg")).collect();
    for (i, public) in publics.iter().enumerate() {
        for (j, signature) in signatures.iter().enumerate() {
            if i != j {
                assert_eq!(
                    public.verify_detached(signature, b"msg"),
                    Err(Error::SigningKeyTypeMismatch)
                );
            }
        }
    }
}

#[test]
fn verify_rejects_wrong_key_and_wrong_message() {
    for (signer, other) in [
        (Keypair::new_ed25519(), Keypair::new_ed25519()),
        (Keypair::new_bls(), Keypair::new_bls()),
    ] {
        let signature = signer.sign(b"msg");
        assert_eq!(
            other.public_key().verify_detached(&signature, b"msg"),
            Err(Error::InvalidSignature)
        );
        assert_eq!(
            signer.public_key().verify_detached(&signature, b"other msg"),
            Err(Error::InvalidSignature)
        );
    }
}

#[test]
fn try_sign_accepts_well_formed_keypairs() {
    for keypair in gen_keypairs() {
        let public = keypair.public_key();
        let signature = keypair.try_sign(b"payload").expect("well-formed keypair must sign");
        assert_eq!(public.verify_detached(&signature, b"payload"), Ok(()));
    }
}

#[test]
fn try_sign_rejects_inconsistent_keypairs() {
    let bad_secret = Keypair::Ed25519 { secret: vec![0u8; 31], public: vec![0u8; 32] };
    assert!(bad_secret.try_sign(b"x").is_none());

    let (real, fake) = (Keypair::new_ed25519(), Keypair::new_ed25519());
    if let (Keypair::Ed25519 { secret, .. }, Keypair::Ed25519 { public, .. }) = (real, fake) {
        let mismatched = Keypair::Ed25519 { secret, public };
        assert!(mismatched.try_sign(b"x").is_none());
    } else {
        panic!("expected Ed25519 keypairs");
    }
}

#[test]
fn secret_key_matches_variant() {
    for keypair in gen_keypairs() {
        let secret = keypair.secret_key().unwrap();
        match (&keypair, &secret) {
            (Keypair::Ed25519 { secret: s, .. }, safe_nd::keypair::SecretKey::Ed25519(b)) => {
                assert_eq!(s, b)
            }
            (Keypair::Bls(k), safe_nd::keypair::SecretKey::Bls(b)) => assert_eq!(&k.secret, b),
            (Keypair::BlsShare(k), safe_nd::keypair::SecretKey::BlsShare(b)) => {
                assert_eq!(&k.secret, b)
            }
            _ => panic!("secret key variant does not match the keypair"),
        }
    }
}
