use safe_nd::immutable_data::UnpubImmutableData;
use safe_nd::keypair::Keypair;
use safe_nd::mutable_data::{MutableData, MutableDataKind, MutableDataRef};
use safe_nd::request::{
    ADataRequest, AuthorisationKind, ClientRequest, CoinsRequest, IDataRequest,
    LoginPacketRequest, MDataRequest, Request, Response, SDataRequest, Type,
};
use safe_nd::xor_name::XorName;
use safe_nd::Error;

fn sample_address() -> XorName {
    XorName([9u8; 32])
}

#[test]
fn idata_requests_classify() {
    let owner = Keypair::new_bls().public_key();
    let block = UnpubImmutableData::new(b"payload".to_vec(), owner.clone());
    let expected_name = block.name();

    let put = Request::IData(IDataRequest::Put(block));
    assert_eq!(put.get_type(), Type::Mutation);
    assert_eq!(put.authorisation_kind(), AuthorisationKind::Mutation);
    assert_eq!(put.dest_address(), Some(expected_name));

    let get = Request::IData(IDataRequest::Get(sample_address()));
    assert_eq!(get.get_type(), Type::PrivateGet);
    assert_eq!(get.authorisation_kind(), AuthorisationKind::GetPriv);
    assert_eq!(get.dest_address(), Some(sample_address()));

    let delete = Request::IData(IDataRequest::DeleteUnpub(sample_address()));
    assert_eq!(delete.get_type(), Type::Mutation);
    assert_eq!(delete.authorisation_kind(), AuthorisationKind::Mutation);
    assert_eq!(delete.dest_address(), Some(sample_address()));
}

#[test]
fn mdata_requests_classify() {
    let owner = Keypair::new_bls().public_key();
    let container = MutableData::new(
        sample_address(),
        5,
        MutableDataKind::Unsequenced { data: Vec::new() },
        Vec::new(),
        vec![owner],
    )
    .unwrap();

    let put = Request::MData(MDataRequest::Put(container));
    assert_eq!(put.get_type(), Type::Mutation);
    assert_eq!(put.authorisation_kind(), AuthorisationKind::Mutation);
    assert_eq!(put.dest_address(), Some(sample_address()));

    let reference = MutableDataRef::new(sample_address(), 5);
    let get = Request::MData(MDataRequest::Get(reference));
    assert_eq!(get.get_type(), Type::PrivateGet);
    assert_eq!(get.authorisation_kind(), AuthorisationKind::GetPriv);
    assert_eq!(get.dest_address(), Some(sample_address()));

    let get_version = Request::MData(MDataRequest::GetVersion(reference));
    assert_eq!(get_version.get_type(), Type::PrivateGet);
    assert_eq!(get_version.authorisation_kind(), AuthorisationKind::GetPriv);

    let delete = Request::MData(MDataRequest::Delete(reference));
    assert_eq!(delete.get_type(), Type::Mutation);
    assert_eq!(delete.authorisation_kind(), AuthorisationKind::Mutation);
}

#[test]
fn adata_and_sdata_requests_classify() {
    let get_pub = Request::AData(ADataRequest::Get(sample_address()));
    assert_eq!(get_pub.get_type(), Type::PublicGet);
    assert_eq!(get_pub.authorisation_kind(), AuthorisationKind::GetPub);
    assert_eq!(get_pub.dest_address(), Some(sample_address()));

    let delete = Request::AData(ADataRequest::Delete(sample_address()));
    assert_eq!(delete.get_type(), Type::Mutation);
    assert_eq!(delete.authorisation_kind(), AuthorisationKind::Mutation);

    let get_priv = Request::SData(SDataRequest::Get(sample_address()));
    assert_eq!(get_priv.get_type(), Type::PrivateGet);
    assert_eq!(get_priv.authorisation_kind(), AuthorisationKind::GetPriv);

    let mutate = Request::SData(SDataRequest::Mutate(sample_address()));
    assert_eq!(mutate.get_type(), Type::Mutation);
    assert_eq!(mutate.authorisation_kind(), AuthorisationKind::Mutation);
}

#[test]
fn coins_and_login_packet_requests_classify() {
    let transfer = Request::Coins(CoinsRequest::Transfer {
        destination: sample_address(),
        amount: 10,
    });
    assert_eq!(transfer.get_type(), Type::Transaction);
    assert_eq!(transfer.authorisation_kind(), AuthorisationKind::TransferCoins);
    assert_eq!(transfer.dest_address(), Some(sample_address()));

    let balance = Request::Coins(CoinsRequest::GetBalance(sample_address()));
    assert_eq!(balance.get_type(), Type::PrivateGet);
    assert_eq!(balance.authorisation_kind(), AuthorisationKind::GetBalance);
    assert_eq!(balance.dest_address(), None);

    let create = Request::LoginPacket(LoginPacketRequest::Create(sample_address()));
    assert_eq!(create.get_type(), Type::Mutation);
    assert_eq!(create.authorisation_kind(), AuthorisationKind::Mutation);

    let create_for = Request::LoginPacket(LoginPacketRequest::CreateFor {
        destination: sample_address(),
    });
    assert_eq!(create_for.get_type(), Type::Mutation);
    assert_eq!(
        create_for.authorisation_kind(),
        AuthorisationKind::MutAndTransferCoins
    );
    assert_eq!(create_for.dest_address(), Some(sample_address()));

    let get = Request::LoginPacket(LoginPacketRequest::Get(sample_address()));
    assert_eq!(get.get_type(), Type::PrivateGet);
    assert_eq!(get.authorisation_kind(), AuthorisationKind::GetPriv);
}

#[test]
fn client_requests_classify() {
    let key = Keypair::new_ed25519().public_key();

    let list = Request::Client(ClientRequest::ListAuthKeysAndVersion);
    assert_eq!(list.get_type(), Type::PrivateGet);
    assert_eq!(list.authorisation_kind(), AuthorisationKind::GetPriv);
    assert_eq!(list.dest_address(), None);

    let ins = Request::Client(ClientRequest::InsAuthKey { key: key.clone(), version: 1 });
    assert_eq!(ins.get_type(), Type::Mutation);
    assert_eq!(ins.authorisation_kind(), AuthorisationKind::ManageAppKeys);
    assert_eq!(ins.dest_address(), None);

    let del = Request::Client(ClientRequest::DelAuthKey { key, version: 2 });
    assert_eq!(del.get_type(), Type::Mutation);
    assert_eq!(del.authorisation_kind(), AuthorisationKind::ManageAppKeys);
}

#[test]
fn error_response_stays_in_family() {
    let reference = MutableDataRef::new(sample_address(), 1);
    let cases: Vec<(Request, Response)> = vec![
        (
            Request::IData(IDataRequest::Get(sample_address())),
            Response::IData(Err(Error::AccessDenied)),
        ),
        (
            Request::MData(MDataRequest::Get(reference)),
            Response::MData(Err(Error::AccessDenied)),
        ),
        (
            Request::AData(ADataRequest::Get(sample_address())),
            Response::AData(Err(Error::AccessDenied)),
        ),
        (
            Request::SData(SDataRequest::Get(sample_address())),
            Response::SData(Err(Error::AccessDenied)),
        ),
        (
            Request::Coins(CoinsRequest::GetBalance(sample_address())),
            Response::Coins(Err(Error::AccessDenied)),
        ),
        (
            Request::LoginPacket(LoginPacketRequest::Get(sample_address())),
            Response::LoginPacket(Err(Error::AccessDenied)),
        ),
        (
            Request::Client(ClientRequest::ListAuthKeysAndVersion),
            Response::Client(Err(Error::AccessDenied)),
        ),
    ];
    for (request, expected) in cases {
        assert_eq!(request.error_response(Error::AccessDenied), expected);
    }
}

#[test]
fn error_response_keeps_the_error_kind() {
    let request = Request::IData(IDataRequest::Get(sample_address()));
    assert_eq!(
        request.error_response(Error::InvalidSignature),
        Response::IData(Err(Error::InvalidSignature))
    );
    assert_eq!(
        request.error_response(Error::InvalidVersion),
        Response::IData(Err(Error::InvalidVersion))
    );
    assert_eq!(
        request.error_response(Error::NoSuchEntry),
        Response::IData(Err(Error::NoSuchEntry))
    );
}
