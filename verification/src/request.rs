//! Classification of network requests: operation type, authorisation kind,
//! destination address, and the typed error response of each request family.

use vstd::prelude::*;
use crate::immutable_data::{UnpubImmutableData, spec_immutable_name};
use crate::mutable_data::{MutableData, MutableDataRef};
use crate::public_key::PublicKey;
use crate::xor_name::XorName;
use crate::Error;

verus! {

/// The operation type of a request.
#[derive(Clone, Copy, PartialEq, Eq, Structural, Hash, Debug)]
pub enum Type {
    /// A read of public data.
    PublicGet,
    /// A read of private data.
    PrivateGet,
    /// A mutation.
    Mutation,
    /// A coin transaction.
    Transaction,
}

/// The kind of authorisation a request needs before execution.
#[derive(Clone, Copy, PartialEq, Eq, Structural, Hash, Debug)]
pub enum AuthorisationKind {
    /// Read of public data.
    GetPub,
    /// Read of private data.
    GetPriv,
    /// Read of a coin balance.
    GetBalance,
    /// Mutation of stored data.
    Mutation,
    /// Management of application keys.
    ManageAppKeys,
    /// Transfer of coins.
    TransferCoins,
    /// Mutation combined with a coin transfer.
    MutAndTransferCoins,
}

/// Requests against unpublished immutable data.
#[derive(Debug)]
pub enum IDataRequest {
    /// Store the block.
    Put(UnpubImmutableData),
    /// Fetch the block at an address.
    Get(XorName),
    /// Delete the unpublished block at an address.
    DeleteUnpub(XorName),
}

/// Requests against mutable data containers.
#[derive(Debug)]
pub enum MDataRequest {
    /// Store the container.
    Put(MutableData),
    /// Fetch the container.
    Get(MutableDataRef),
    /// Fetch the container's version.
    GetVersion(MutableDataRef),
    /// Delete the container.
    Delete(MutableDataRef),
}

/// Requests against published append-only data.
#[derive(Clone, Copy, PartialEq, Eq, Hash, Debug)]
pub enum ADataRequest {
    /// Fetch the data at an address.
    Get(XorName),
    /// Delete the data at an address.
    Delete(XorName),
}

/// Requests against private sequence data.
#[derive(Clone, Copy, PartialEq, Eq, Hash, Debug)]
pub enum SDataRequest {
    /// Fetch the sequence at an address.
    Get(XorName),
    /// Mutate the sequence at an address.
    Mutate(XorName),
}

/// Requests that move or read coins.
#[derive(Clone, Copy, PartialEq, Eq, Hash, Debug)]
pub enum CoinsRequest {
    /// Transfer an amount to a destination.
    Transfer {
        /// Receiving address.
        destination: XorName,
        /// Amount in the smallest unit.
        amount: u64,
    },
    /// Read the balance at an address.
    GetBalance(XorName),
}

/// Requests against stored login packets.
#[derive(Debug)]
pub enum LoginPacketRequest {
    /// Store a login packet at an address.
    Create(XorName),
    /// Store a login packet for another party, paid by the sender.
    CreateFor {
        /// Receiving address.
        destination: XorName,
    },
    /// Fetch the login packet at an address.
    Get(XorName),
}

/// Requests a client makes about its own application keys.
#[derive(Debug)]
pub enum ClientRequest {
    /// List the authorised keys and their version.
    ListAuthKeysAndVersion,
    /// Insert an authorised key.
    InsAuthKey {
        /// The key to authorise.
        key: PublicKey,
        /// Expected successor version of the key list.
        version: u64,
    },
    /// Delete an authorised key.
    DelAuthKey {
        /// The key to revoke.
        key: PublicKey,
        /// Expected successor version of the key list.
        version: u64,
    },
}

/// A request sent to the network's vaults.
#[derive(Debug)]
pub enum Request {
    /// Immutable-data request.
    IData(IDataRequest),
    /// Mutable-data request.
    MData(MDataRequest),
    /// Append-only-data request.
    AData(ADataRequest),
    /// Sequence request.
    SData(SDataRequest),
    /// Coins request.
    Coins(CoinsRequest),
    /// Login-packet request.
    LoginPacket(LoginPacketRequest),
    /// Client (owner) request.
    Client(ClientRequest),
}

/// A response sent back for a request, one variant per request family, so
/// that an error always travels inside its own family's response.
#[derive(Debug, PartialEq, Eq)]
pub enum Response {
    /// Immutable-data response.
    IData(Result<Vec<u8>, Error>),
    /// Mutable-data response.
    MData(Result<Vec<u8>, Error>),
    /// Append-only-data response.
    AData(Result<Vec<u8>, Error>),
    /// Sequence response.
    SData(Result<Vec<u8>, Error>),
    /// Coins response, carrying a balance on success.
    Coins(Result<u64, Error>),
    /// Login-packet response.
    LoginPacket(Result<Vec<u8>, Error>),
    /// Client response, carrying a key-list version on success.
    Client(Result<u64, Error>),
}

/// The operation type of each request.
pub open spec fn spec_get_type(req: Request) -> Type {
    match req {
        Request::IData(r) => match r {
            IDataRequest::Put(_) => Type::Mutation,
            IDataRequest::Get(_) => Type::PrivateGet,
            IDataRequest::DeleteUnpub(_) => Type::Mutation,
        },
        Request::MData(r) => match r {
            MDataRequest::Put(_) => Type::Mutation,
            MDataRequest::Get(_) => Type::PrivateGet,
            MDataRequest::GetVersion(_) => Type::PrivateGet,
            MDataRequest::Delete(_) => Type::Mutation,
        },
        Request::AData(r) => match r {
            ADataRequest::Get(_) => Type::PublicGet,
            ADataRequest::Delete(_) => Type::Mutation,
        },
        Request::SData(r) => match r {
            SDataRequest::Get(_) => Type::PrivateGet,
            SDataRequest::Mutate(_) => Type::Mutation,
        },
        Request::Coins(r) => match r {
            CoinsRequest::Transfer { .. } => Type::Transaction,
            CoinsRequest::GetBalance(_) => Type::PrivateGet,
        },
        Request::LoginPacket(r) => match r {
            LoginPacketRequest::Create(_) => Type::Mutation,
            LoginPacketRequest::CreateFor { .. } => Type::Mutation,
            LoginPacketRequest::Get(_) => Type::PrivateGet,
        },
        Request::Client(r) => match r {
            ClientRequest::ListAuthKeysAndVersion => Type::PrivateGet,
            ClientRequest::InsAuthKey { .. } => Type::Mutation,
            ClientRequest::DelAuthKey { .. } => Type::Mutation,
        },
    }
}

/// The authorisation kind each request needs.
pub open spec fn spec_authorisation_kind(req: Request) -> AuthorisationKind {
    match req {
        Request::IData(r) => match r {
            IDataRequest::Put(_) => AuthorisationKind::Mutation,
            IDataRequest::Get(_) => AuthorisationKind::GetPriv,
            IDataRequest::DeleteUnpub(_) => AuthorisationKind::Mutation,
        },
        Request::MData(r) => match r {
            MDataRequest::Put(_) => AuthorisationKind::Mutation,
            MDataRequest::Get(_) => AuthorisationKind::GetPriv,
            MDataRequest::GetVersion(_) => AuthorisationKind::GetPriv,
            MDataRequest::Delete(_) => AuthorisationKind::Mutation,
        },
        Request::AData(r) => match r {
            ADataRequest::Get(_) => AuthorisationKind::GetPub,
            ADataRequest::Delete(_) => AuthorisationKind::Mutation,
        },
        Request::SData(r) => match r {
            SDataRequest::Get(_) => AuthorisationKind::GetPriv,
            SDataRequest::Mutate(_) => AuthorisationKind::Mutation,
        },
        Request::Coins(r) => match r {
            CoinsRequest::Transfer { .. } => AuthorisationKind::TransferCoins,
            CoinsRequest::GetBalance(_) => AuthorisationKind::GetBalance,
        },
        Request::LoginPacket(r) => match r {
            LoginPacketRequest::Create(_) => AuthorisationKind::Mutation,
            LoginPacketRequest::CreateFor { .. } => AuthorisationKind::MutAndTransferCoins,
            LoginPacketRequest::Get(_) => AuthorisationKind::GetPriv,
        },
        Request::Client(r) => match r {
            ClientRequest::ListAuthKeysAndVersion => AuthorisationKind::GetPriv,
            ClientRequest::InsAuthKey { .. } => AuthorisationKind::ManageAppKeys,
            ClientRequest::DelAuthKey { .. } => AuthorisationKind::ManageAppKeys,
        },
    }
}

/// The destination address bytes of each request; `None` for requests with
/// no single well-defined network destination.
pub open spec fn spec_dest_address(req: Request) -> Option<Seq<u8>> {
    match req {
        Request::IData(r) => match r {
            IDataRequest::Put(d) => Some(spec_immutable_name(d.spec_data(), d.spec_owners())),
            IDataRequest::Get(a) => Some(a@),
            IDataRequest::DeleteUnpub(a) => Some(a@),
        },
        Request::MData(r) => match r {
            MDataRequest::Put(md) => Some(md@.name),
            MDataRequest::Get(m) => Some(m.spec_name()),
            MDataRequest::GetVersion(m) => Some(m.spec_name()),
            MDataRequest::Delete(m) => Some(m.spec_name()),
        },
        Request::AData(r) => match r {
            ADataRequest::Get(a) => Some(a@),
            ADataRequest::Delete(a) => Some(a@),
        },
        Request::SData(r) => match r {
            SDataRequest::Get(a) => Some(a@),
            SDataRequest::Mutate(a) => Some(a@),
        },
        Request::Coins(r) => match r {
            CoinsRequest::Transfer { destination, .. } => Some(destination@),
            CoinsRequest::GetBalance(_) => None,
        },
        Request::LoginPacket(r) => match r {
            LoginPacketRequest::Create(a) => Some(a@),
            LoginPacketRequest::CreateFor { destination } => Some(destination@),
            LoginPacketRequest::Get(a) => Some(a@),
        },
        Request::Client(_) => None,
    }
}

/// The typed error response of each request family.
pub open spec fn spec_error_response(req: Request, error: Error) -> Response {
    match req {
        Request::IData(_) => Response::IData(Err(error)),
        Request::MData(_) => Response::MData(Err(error)),
        Request::AData(_) => Response::AData(Err(error)),
        Request::SData(_) => Response::SData(Err(error)),
        Request::Coins(_) => Response::Coins(Err(error)),
        Request::LoginPacket(_) => Response::LoginPacket(Err(error)),
        Request::Client(_) => Response::Client(Err(error)),
    }
}

/// Whether a response belongs to the same family as a request.
pub open spec fn response_family_matches(req: Request, resp: Response) -> bool {
    match (req, resp) {
        (Request::IData(_), Response::IData(_)) => true,
        (Request::MData(_), Response::MData(_)) => true,
        (Request::AData(_), Response::AData(_)) => true,
        (Request::SData(_), Response::SData(_)) => true,
        (Request::Coins(_), Response::Coins(_)) => true,
        (Request::LoginPacket(_), Response::LoginPacket(_)) => true,
        (Request::Client(_), Response::Client(_)) => true,
        _ => false,
    }
}

/// The error a response carries, if it is an error response.
pub open spec fn response_error(resp: Response) -> Option<Error> {
    match resp {
        Response::IData(res) => res.err(),
        Response::MData(res) => res.err(),
        Response::AData(res) => res.err(),
        Response::SData(res) => res.err(),
        Response::Coins(res) => res.err(),
        Response::LoginPacket(res) => res.err(),
        Response::Client(res) => res.err(),
    }
}

/// The error response of a request stays in the request's own family and
/// carries exactly the given error: no request family falls through to a
/// response of another family or to an untyped error.
pub proof fn lemma_error_response_typed(req: Request, error: Error)
    ensures
        response_family_matches(req, spec_error_response(req, error)),
        response_error(spec_error_response(req, error)) == Some(error),
{
}

impl Request {
    /// The `Type` of this request.
    pub fn get_type(&self) -> (r: Type)
        ensures
            r == spec_get_type(*self),
    {
        match self {
            Request::IData(req) => match req {
                IDataRequest::Put(_) => Type::Mutation,
                IDataRequest::Get(_) => Type::PrivateGet,
                IDataRequest::DeleteUnpub(_) => Type::Mutation,
            },
            Request::MData(req) => match req {
                MDataRequest::Put(_) => Type::Mutation,
                MDataRequest::Get(_) => Type::PrivateGet,
                MDataRequest::GetVersion(_) => Type::PrivateGet,
                MDataRequest::Delete(_) => Type::Mutation,
            },
            Request::AData(req) => match req {
                ADataRequest::Get(_) => Type::PublicGet,
                ADataRequest::Delete(_) => Type::Mutation,
            },
            Request::SData(req) => match req {
                SDataRequest::Get(_) => Type::PrivateGet,
                SDataRequest::Mutate(_) => Type::Mutation,
            },
            Request::Coins(req) => match req {
                CoinsRequest::Transfer { .. } => Type::Transaction,
                CoinsRequest::GetBalance(_) => Type::PrivateGet,
            },
            Request::LoginPacket(req) => match req {
                LoginPacketRequest::Create(_) => Type::Mutation,
                LoginPacketRequest::CreateFor { .. } => Type::Mutation,
                LoginPacketRequest::Get(_) => Type::PrivateGet,
            },
            Request::Client(req) => match req {
                ClientRequest::ListAuthKeysAndVersion => Type::PrivateGet,
                ClientRequest::InsAuthKey { .. } => Type::Mutation,
                ClientRequest::DelAuthKey { .. } => Type::Mutation,
            },
        }
    }

    /// Creates the response carrying `error`, in the variant that belongs
    /// to this request's own family.
    pub fn error_response(&self, error: Error) -> (r: Response)
        ensures
            r == spec_error_response(*self, error),
    {
        match self {
            Request::IData(_) => Response::IData(Err(error)),
            Request::MData(_) => Response::MData(Err(error)),
            Request::AData(_) => Response::AData(Err(error)),
            Request::SData(_) => Response::SData(Err(error)),
            Request::Coins(_) => Response::Coins(Err(error)),
            Request::LoginPacket(_) => Response::LoginPacket(Err(error)),
            Request::Client(_) => Response::Client(Err(error)),
        }
    }

    /// The kind of authorisation needed for this request.
    pub fn authorisation_kind(&self) -> (r: AuthorisationKind)
        ensures
            r == spec_authorisation_kind(*self),
    {
        match self {
            Request::IData(req) => match req {
                IDataRequest::Put(_) => AuthorisationKind::Mutation,
                IDataRequest::Get(_) => AuthorisationKind::GetPriv,
                IDataRequest::DeleteUnpub(_) => AuthorisationKind::Mutation,
            },
            Request::MData(req) => match req {
                MDataRequest::Put(_) => AuthorisationKind::Mutation,
                MDataRequest::Get(_) => AuthorisationKind::GetPriv,
                MDataRequest::GetVersion(_) => AuthorisationKind::GetPriv,
                MDataRequest::Delete(_) => AuthorisationKind::Mutation,
            },
            Request::AData(req) => match req {
                ADataRequest::Get(_) => AuthorisationKind::GetPub,
                ADataRequest::Delete(_) => AuthorisationKind::Mutation,
            },
            Request::SData(req) => match req {
                SDataRequest::Get(_) => AuthorisationKind::GetPriv,
                SDataRequest::Mutate(_) => AuthorisationKind::Mutation,
            },
            Request::Coins(req) => match req {
                CoinsRequest::Transfer { .. } => AuthorisationKind::TransferCoins,
                CoinsRequest::GetBalance(_) => AuthorisationKind::GetBalance,
            },
            Request::LoginPacket(req) => match req {
                LoginPacketRequest::Create(_) => AuthorisationKind::Mutation,
                LoginPacketRequest::CreateFor { .. } => AuthorisationKind::MutAndTransferCoins,
                LoginPacketRequest::Get(_) => AuthorisationKind::GetPriv,
            },
            Request::Client(req) => match req {
                ClientRequest::ListAuthKeysAndVersion => AuthorisationKind::GetPriv,
                ClientRequest::InsAuthKey { .. } => AuthorisationKind::ManageAppKeys,
                ClientRequest::DelAuthKey { .. } => AuthorisationKind::ManageAppKeys,
            },
        }
    }

    /// The address this request is routed to, where one is defined.
    pub fn dest_address(&self) -> (r: Option<XorName>)
        ensures
            r is Some <==> spec_dest_address(*self) is Some,
            r matches Some(n) ==> Some(n@) == spec_dest_address(*self),
    {
        match self {
            Request::IData(req) => match req {
                IDataRequest::Put(data) => Some(data.name()),
                IDataRequest::Get(address) => Some(*address),
                IDataRequest::DeleteUnpub(address) => Some(*address),
            },
            Request::MData(req) => match req {
                MDataRequest::Put(data) => Some(data.name()),
                MDataRequest::Get(m) => Some(m.name()),
                MDataRequest::GetVersion(m) => Some(m.name()),
                MDataRequest::Delete(m) => Some(m.name()),
            },
            Request::AData(req) => match req {
                ADataRequest::Get(address) => Some(*address),
                ADataRequest::Delete(address) => Some(*address),
            },
            Request::SData(req) => match req {
                SDataRequest::Get(address) => Some(*address),
                SDataRequest::Mutate(address) => Some(*address),
            },
            Request::Coins(req) => match req {
                CoinsRequest::Transfer { destination, .. } => Some(*destination),
                CoinsRequest::GetBalance(_) => None,
            },
            Request::LoginPacket(req) => match req {
                LoginPacketRequest::Create(address) => Some(*address),
                LoginPacketRequest::CreateFor { destination } => Some(*destination),
                LoginPacketRequest::Get(address) => Some(*address),
            },
            Request::Client(_) => None,
        }
    }
}

} // verus!
