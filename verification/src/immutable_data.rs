//! Immutable data blocks whose network address binds content and owner.

use vstd::prelude::*;
use crate::crypto::{sha3_of, sha3_digest};
use crate::public_key::{PublicKey, PublicKeyView};
use crate::xor_name::XorName;

verus! {

/// The owner-bound name of immutable content: the digest of the content's
/// digest followed by the owner key's canonical bytes.  Hashing in two
/// stages, rather than hashing content and owner in one pass, is part of
/// the addressing scheme and must be preserved.
pub open spec fn spec_immutable_name(content: Seq<u8>, owner: PublicKeyView) -> Seq<u8> {
    sha3_of(sha3_of(content) + owner.bytes())
}

/// Unpublished immutable data: a byte payload bound to a single owner key.
/// Created once and never mutated; its address is always recomputed from
/// content and owner, never stored.
#[derive(Debug)]
pub struct UnpubImmutableData {
    /// Contained data.
    data: Vec<u8>,
    /// The single owner of this data; the network checks deletion and
    /// owner-bound reads against this key.
    owners: PublicKey,
}

impl UnpubImmutableData {
    /// The owner key is a well-formed key of its scheme.
    #[verifier::type_invariant]
    pub closed spec fn inv(self) -> bool {
        self.owners@.wf()
    }

    /// The contained bytes.
    pub closed spec fn spec_data(self) -> Seq<u8> {
        self.data@
    }

    /// The owner key.
    pub closed spec fn spec_owners(self) -> PublicKeyView {
        self.owners@
    }

    /// Creates the block from its content and single owner.
    pub fn new(data: Vec<u8>, owners: PublicKey) -> (r: UnpubImmutableData)
        requires
            owners@.wf(),
        ensures
            r.spec_data() == data@,
            r.spec_owners() == owners@,
    {
        UnpubImmutableData { data, owners }
    }

    /// The contained bytes.
    pub fn data(&self) -> (r: &Vec<u8>)
        ensures
            r@ == self.spec_data(),
    {
        &self.data
    }

    /// The owner key.
    pub fn owners(&self) -> (r: &PublicKey)
        ensures
            r@ == self.spec_owners(),
    {
        &self.owners
    }

    /// Derives the network address of this block from its content and
    /// owner.  Every party holding the same content and owner computes the
    /// same address.
    pub fn name(&self) -> (r: XorName)
        ensures
            r@ == spec_immutable_name(self.spec_data(), self.spec_owners()),
    {
        proof {
            use_type_invariant(&*self);
        }
        let mut buf = sha3_digest(self.data.as_slice());
        let ghost inner = buf@;
        let owner_bytes = match &self.owners {
            PublicKey::Ed25519(b) => b,
            PublicKey::Bls(b) => b,
            PublicKey::BlsShare(b) => b,
        };
        let mut i: usize = 0;
        while i < owner_bytes.len()
            invariant
                i <= owner_bytes@.len(),
                buf@ == inner + owner_bytes@.take(i as int),
            decreases owner_bytes@.len() - i,
        {
            buf.push(owner_bytes[i]);
            proof {
                assert(inner + owner_bytes@.take(i as int) + seq![owner_bytes@[i as int]] =~= inner
                    + owner_bytes@.take(i + 1));
            }
            i += 1;
        }
        proof {
            assert(owner_bytes@.take(owner_bytes@.len() as int) =~= owner_bytes@);
            assert(buf@ == inner + self.owners@.bytes());
        }
        let digest = sha3_digest(buf.as_slice());
        let mut out = [0u8; 32];
        let mut j: usize = 0;
        while j < 32
            invariant
                j <= 32,
                digest@.len() == 32,
                digest@ == spec_immutable_name(self.spec_data(), self.spec_owners()),
                forall|t: int| 0 <= t < j ==> out@[t] == digest@[t],
            decreases 32 - j,
        {
            out[j] = digest[j];
            j += 1;
        }
        proof {
            assert(out@ =~= digest@);
        }
        XorName(out)
    }
}

/// A name collision between two distinct contents under one owner exhibits
/// a collision of the underlying digest: either the contents already
/// collide in the inner digest, or two distinct outer inputs collide.
/// Distinct names for distinct contents therefore rest exactly on the
/// collision resistance of the digest, which no contract can supply.
pub proof fn lemma_name_collision_is_digest_collision(c1: Seq<u8>, c2: Seq<u8>, o: PublicKeyView)
    requires
        c1 != c2,
        spec_immutable_name(c1, o) == spec_immutable_name(c2, o),
    ensures
        sha3_of(c1) == sha3_of(c2) || (sha3_of(c1) + o.bytes() != sha3_of(c2) + o.bytes()
            && sha3_of(sha3_of(c1) + o.bytes()) == sha3_of(sha3_of(c2) + o.bytes())),
{
    let a = sha3_of(c1);
    let b = sha3_of(c2);
    if a != b && a + o.bytes() == b + o.bytes() {
        assert((a + o.bytes()).len() == a.len() + o.bytes().len());
        assert((b + o.bytes()).len() == b.len() + o.bytes().len());
        assert(a.len() == b.len());
        assert(a =~= (a + o.bytes()).subrange(0, a.len() as int));
        assert(b =~= (b + o.bytes()).subrange(0, b.len() as int));
    }
}

/// A name collision between one content and two owners whose key bytes
/// differ exhibits a collision of the digest on two distinct inputs.
pub proof fn lemma_owner_collision_is_digest_collision(
    c: Seq<u8>,
    o1: PublicKeyView,
    o2: PublicKeyView,
)
    requires
        o1.bytes() != o2.bytes(),
        spec_immutable_name(c, o1) == spec_immutable_name(c, o2),
    ensures
        sha3_of(c) + o1.bytes() != sha3_of(c) + o2.bytes(),
        sha3_of(sha3_of(c) + o1.bytes()) == sha3_of(sha3_of(c) + o2.bytes()),
{
    let a = sha3_of(c);
    if a + o1.bytes() == a + o2.bytes() {
        assert(o1.bytes() =~= (a + o1.bytes()).skip(a.len() as int));
        assert(o2.bytes() =~= (a + o2.bytes()).skip(a.len() as int));
    }
}

/// Address derivation is deterministic: the same content and owner always
/// yield the same address.
pub proof fn lemma_name_deterministic(
    c1: Seq<u8>,
    o1: PublicKeyView,
    c2: Seq<u8>,
    o2: PublicKeyView,
)
    requires
        c1 == c2,
        o1 == o2,
    ensures
        spec_immutable_name(c1, o1) == spec_immutable_name(c2, o2),
{
}

} // verus!
