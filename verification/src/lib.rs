//! Core data model for a content-addressed storage network.
//!
//! The crate provides a multi-algorithm identity layer (keys, signatures and
//! verification dispatch), deterministic owner-bound content addressing for
//! immutable data, a versioned, permissioned mutable-data container, and the
//! classification of network requests into operation type, authorisation kind
//! and destination address.

use vstd::prelude::*;

pub mod crypto;
pub mod xor_name;
pub mod public_key;
pub mod keypair;
pub mod codec;
pub mod immutable_data;
pub mod mutable_data;
pub mod request;

verus! {

/// The local, recoverable failures that the operations of this crate report.
#[derive(Clone, Debug, PartialEq, Eq)]
pub enum Error {
    /// The public key and the signature belong to different signature schemes.
    SigningKeyTypeMismatch,
    /// The scheme-specific cryptographic check rejected the signature.
    InvalidSignature,
    /// A key could not be rebuilt from its byte representation.
    Unexpected(String),
    /// The requester lacks the permission that the mutation needs.
    AccessDenied,
    /// A container must be owned by exactly one key.
    InvalidOwner,
    /// The supplied version is not the successor of the current one.
    InvalidVersion,
    /// The addressed entry does not exist.
    NoSuchEntry,
    /// An entry with the given key already exists.
    EntryExists,
}

} // verus!
