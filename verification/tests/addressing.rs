use safe_nd::immutable_data::UnpubImmutableData;
use safe_nd::public_key::PublicKey;

fn random_bls_owner() -> PublicKey {
    let sk = threshold_crypto::SecretKey::random();
    PublicKey::Bls(sk.public_key().to_bytes().to_vec())
}

#[test]
fn deterministic_name() {
    let data1 = b"Hello".to_vec();
    let data2 = b"Goodbye".to_vec();

    let owner1 = random_bls_owner();
    let owner2 = random_bls_owner();

    let idata1 = UnpubImmutableData::new(data1.clone(), owner1.clone());
    let idata2 = UnpubImmutableData::new(data1, owner2);
    let idata3 = UnpubImmutableData::new(data2, owner1);

    assert_eq!(idata1.name(), idata1.name());
    assert_eq!(idata2.name(), idata2.name());
    assert_eq!(idata3.name(), idata3.name());

    assert_ne!(idata1.name(), idata2.name());
    assert_ne!(idata1.name(), idata3.name());
    assert_ne!(idata2.name(), idata3.name());
}

#[test]
fn name_binds_owner_and_content() {
    let owner1 = random_bls_owner();
    let owner2 = random_bls_owner();

    let hello_first = UnpubImmutableData::new(b"Hello".to_vec(), owner1.clone());
    let hello_second = UnpubImmutableData::new(b"Hello".to_vec(), owner2);
    let hello_again = UnpubImmutableData::new(b"Hello".to_vec(), owner1.clone());
    let goodbye_first = UnpubImmutableData::new(b"Goodbye".to_vec(), owner1);

    // Two distinct owners of identical content live at distinct addresses.
    assert_ne!(hello_first.name(), hello_second.name());
    // The same owner and content always give the identical address.
    assert_eq!(hello_first.name(), hello_again.name());
    // Different content under the first owner differs from both.
    assert_ne!(goodbye_first.name(), hello_first.name());
    assert_ne!(goodbye_first.name(), hello_second.name());
}

#[test]
fn empty_content_is_addressable() {
    let owner = random_bls_owner();
    let empty1 = UnpubImmutableData::new(Vec::new(), owner.clone());
    let empty2 = UnpubImmutableData::new(Vec::new(), owner.clone());
    let full = UnpubImmutableData::new(b"x".to_vec(), owner);
    assert_eq!(empty1.name(), empty2.name());
    assert_ne!(empty1.name(), full.name());
}

#[test]
fn ed25519_address_is_key_bytes() {
    let kp = safe_nd::keypair::Keypair::new_ed25519();
    let pk = kp.public_key();
    let name = safe_nd::xor_name::XorName::from(pk.clone());
    match pk {
        PublicKey::Ed25519(bytes) => assert_eq!(name.0.to_vec(), bytes),
        _ => panic!("expected an Ed25519 key"),
    }
}

#[test]
fn bls_address_is_truncated_key_bytes() {
    let kp = safe_nd::keypair::Keypair::new_bls();
    let pk = kp.public_key();
    let name = safe_nd::xor_name::XorName::from(pk.clone());
    match pk {
        PublicKey::Bls(bytes) => {
            assert_eq!(bytes.len(), 48);
            assert_eq!(name.0.to_vec(), bytes[..32].to_vec());
        }
        _ => panic!("expected a BLS key"),
    }
}
