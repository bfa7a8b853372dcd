//! A lossless byte encoding for keypairs.
//!
//! Each keypair is framed as a scheme tag followed by its components as
//! length-prefixed chunks; decoding returns exactly the keypair that was
//! encoded.

use vstd::prelude::*;
use vstd::bytes::{
    spec_u64_to_le_bytes, spec_u64_from_le_bytes, u64_to_le_bytes, u64_from_le_bytes,
    lemma_auto_spec_u64_to_from_le_bytes,
};
use crate::keypair::{Keypair, KeypairView, BlsKeypair, BlsKeypairShare};
use crate::Error;

verus! {

/// An 8-byte little-endian length header followed by the bytes themselves.
pub open spec fn chunk(b: Seq<u8>) -> Seq<u8> {
    spec_u64_to_le_bytes(b.len() as u64) + b
}

/// The byte encoding of a keypair: a scheme tag, then every component as a
/// length-prefixed chunk, with a share's index as 8 little-endian bytes.
pub open spec fn spec_encode(kp: KeypairView) -> Seq<u8> {
    match kp {
        KeypairView::Ed25519 { secret, public } => seq![0u8] + chunk(secret) + chunk(public),
        KeypairView::Bls { secret, public } => seq![1u8] + chunk(secret) + chunk(public),
        KeypairView::BlsShare { index, secret, public, public_key_set } => seq![2u8]
            + spec_u64_to_le_bytes(index as u64) + chunk(secret) + chunk(public) + chunk(
            public_key_set,
        ),
    }
}

/// Appends `chunk(b@)` to `out`.
fn push_chunk(out: &mut Vec<u8>, b: &Vec<u8>)
    ensures
        final(out)@ == old(out)@ + chunk(b@),
{
    proof {
        lemma_auto_spec_u64_to_from_le_bytes();
    }
    let mut header = u64_to_le_bytes(b.len() as u64);
    out.append(&mut header);
    let ghost mid = out@;
    let mut i: usize = 0;
    while i < b.len()
        invariant
            i <= b@.len(),
            out@ == mid + b@.take(i as int),
        decreases b@.len() - i,
    {
        out.push(b[i]);
        proof {
            assert(mid + b@.take(i as int) + seq![b@[i as int]] =~= mid + b@.take(i + 1));
        }
        i += 1;
    }
    proof {
        assert(b@.take(b@.len() as int) =~= b@);
        assert(old(out)@ + spec_u64_to_le_bytes(b@.len() as u64) + b@ =~= old(out)@ + chunk(b@));
    }
}

/// Encodes a keypair into bytes.
pub fn encode(keypair: &Keypair) -> (r: Vec<u8>)
    ensures
        r@ == spec_encode(keypair@),
{
    let mut out: Vec<u8> = Vec::new();
    match keypair {
        Keypair::Ed25519 { secret, public } => {
            out.push(0u8);
            proof {
                assert(out@ =~= seq![0u8]);
            }
            push_chunk(&mut out, secret);
            push_chunk(&mut out, public);
            proof {
                assert(out@ =~= spec_encode(keypair@));
            }
        },
        Keypair::Bls(k) => {
            out.push(1u8);
            proof {
                assert(out@ =~= seq![1u8]);
            }
            push_chunk(&mut out, &k.secret);
            push_chunk(&mut out, &k.public);
            proof {
                assert(out@ =~= spec_encode(keypair@));
            }
        },
        Keypair::BlsShare(k) => {
            out.push(2u8);
            proof {
                assert(out@ =~= seq![2u8]);
            }
            let mut header = u64_to_le_bytes(k.index as u64);
            out.append(&mut header);
            push_chunk(&mut out, &k.secret);
            push_chunk(&mut out, &k.public);
            push_chunk(&mut out, &k.public_key_set);
            proof {
                assert(out@ =~= spec_encode(keypair@));
            }
        },
    }
    out
}

/// Reads the 8-byte little-endian word at `pos`.
fn read_u64(bytes: &Vec<u8>, pos: usize) -> (r: u64)
    requires
        pos + 8 <= bytes@.len(),
    ensures
        r == spec_u64_from_le_bytes(bytes@.subrange(pos as int, pos + 8)),
{
    let blen = bytes.len();
    let mut word: Vec<u8> = Vec::new();
    let mut i: usize = 0;
    while i < 8
        invariant
            i <= 8,
            pos + 8 <= blen,
            blen == bytes@.len(),
            word@ == bytes@.subrange(pos as int, pos + i),
        decreases 8 - i,
    {
        word.push(bytes[pos + i]);
        proof {
            assert(bytes@.subrange(pos as int, pos + i) + seq![bytes@[pos + i]] =~= bytes@.subrange(
                pos as int,
                pos + i + 1,
            ));
        }
        i += 1;
    }
    u64_from_le_bytes(word.as_slice())
}

/// Reads the length-prefixed chunk that starts at `pos`; returns the chunk
/// bytes and the position just past them.  Returns `Some` exactly when some
/// chunk is a prefix of the bytes from `pos` on.
fn read_chunk(bytes: &Vec<u8>, pos: usize) -> (r: Option<(Vec<u8>, usize)>)
    requires
        pos <= bytes@.len(),
    ensures
        r matches Some((v, end)) ==> pos + 8 + v@.len() == end && end <= bytes@.len() && bytes@
            .subrange(pos as int, end as int) == chunk(v@),
        forall|c: Seq<u8>|
            #[trigger] chunk(c).is_prefix_of(bytes@.skip(pos as int)) ==> (r matches Some((v, _))
                && v@ == c),
{
    proof {
        lemma_auto_spec_u64_to_from_le_bytes();
    }
    if bytes.len() - pos < 8 {
        proof {
            assert forall|c: Seq<u8>| !(#[trigger] chunk(c).is_prefix_of(
                bytes@.skip(pos as int),
            )) by {
                assert(chunk(c).len() >= 8);
                assert(bytes@.skip(pos as int).len() < 8);
            }
        }
        return None;
    }
    let n = read_u64(bytes, pos);
    let remaining = bytes.len() - pos - 8;
    if n > remaining as u64 {
        proof {
            assert forall|c: Seq<u8>| !(#[trigger] chunk(c).is_prefix_of(
                bytes@.skip(pos as int),
            )) by {
                if chunk(c).is_prefix_of(bytes@.skip(pos as int)) {
                    assert(c.len() + 8 <= bytes@.skip(pos as int).len());
                    assert(c.len() <= remaining);
                    assert(chunk(c).subrange(0, 8) =~= spec_u64_to_le_bytes(c.len() as u64));
                    assert(bytes@.skip(pos as int).subrange(0, 8) =~= bytes@.subrange(
                        pos as int,
                        pos + 8,
                    ));
                    assert(chunk(c).subrange(0, 8) == bytes@.skip(pos as int).subrange(0, 8));
                    assert(n == c.len() as u64);
                    assert(n <= remaining);
                }
            }
        }
        return None;
    }
    let len = n as usize;
    let blen = bytes.len();
    assert(len <= blen - pos - 8);
    let mut v: Vec<u8> = Vec::new();
    let mut i: usize = 0;
    while i < len
        invariant
            i <= len,
            pos + 8 + len <= blen,
            blen == bytes@.len(),
            v@ == bytes@.subrange(pos + 8, pos + 8 + i),
        decreases len - i,
    {
        v.push(bytes[pos + 8 + i]);
        proof {
            assert(bytes@.subrange(pos + 8, pos + 8 + i) + seq![bytes@[pos + 8 + i]] =~= bytes@
                .subrange(pos + 8, pos + 8 + i + 1));
        }
        i += 1;
    }
    let end = pos + 8 + len;
    proof {
        assert(bytes@.subrange(pos as int, end as int) =~= bytes@.subrange(pos as int, pos + 8)
            + bytes@.subrange(pos + 8, end as int));
        assert(spec_u64_to_le_bytes(v@.len() as u64) =~= bytes@.subrange(pos as int, pos + 8));
        assert(bytes@.subrange(pos as int, end as int) =~= chunk(v@));
        assert forall|c: Seq<u8>| #[trigger] chunk(c).is_prefix_of(bytes@.skip(pos as int))
            implies v@ == c by {
            assert(c.len() + 8 <= bytes@.skip(pos as int).len());
            assert(chunk(c).subrange(0, 8) =~= spec_u64_to_le_bytes(c.len() as u64));
            assert(bytes@.skip(pos as int).subrange(0, 8) =~= bytes@.subrange(pos as int, pos + 8));
            assert(chunk(c).subrange(0, 8) == bytes@.skip(pos as int).subrange(0, 8));
            assert(n == c.len() as u64);
            assert(c.len() == len);
            assert(c =~= chunk(c).subrange(8, chunk(c).len() as int));
            assert(chunk(c).subrange(8, chunk(c).len() as int) =~= bytes@.skip(pos as int).subrange(
                8,
                8 + len,
            ));
            assert(bytes@.skip(pos as int).subrange(8, 8 + len) =~= bytes@.subrange(
                pos + 8,
                pos + 8 + len,
            ));
            assert(v@ == bytes@.subrange(pos + 8, pos + 8 + len));
        }
    }
    Some((v, end))
}

/// The scheme tag with which the encoding of a keypair begins.
pub open spec fn tag_of(kv: KeypairView) -> u8 {
    match kv {
        KeypairView::Ed25519 { .. } => 0u8,
        KeypairView::Bls { .. } => 1u8,
        KeypairView::BlsShare { .. } => 2u8,
    }
}

/// Shape facts about a tag followed by two chunks.
proof fn lemma_two_chunks(t: u8, s: Seq<u8>, p: Seq<u8>)
    ensures
        ({
            let e = seq![t] + chunk(s) + chunk(p);
            &&& e.len() == 1 + chunk(s).len() + chunk(p).len()
            &&& e[0] == t
            &&& chunk(s).is_prefix_of(e.skip(1))
            &&& chunk(p).is_prefix_of(e.skip(1 + chunk(s).len() as int))
        }),
{
    lemma_auto_spec_u64_to_from_le_bytes();
    let e = seq![t] + chunk(s) + chunk(p);
    assert(chunk(s) =~= e.skip(1).subrange(0, chunk(s).len() as int));
    assert(chunk(p) =~= e.skip(1 + chunk(s).len() as int));
}

/// Shape facts about a tag, an index word, and three chunks.
proof fn lemma_share_chunks(t: u8, ix: Seq<u8>, s: Seq<u8>, p: Seq<u8>, q: Seq<u8>)
    requires
        ix.len() == 8,
    ensures
        ({
            let e = seq![t] + ix + chunk(s) + chunk(p) + chunk(q);
            &&& e.len() == 9 + chunk(s).len() + chunk(p).len() + chunk(q).len()
            &&& e[0] == t
            &&& e.subrange(1, 9) == ix
            &&& chunk(s).is_prefix_of(e.skip(9))
            &&& chunk(p).is_prefix_of(e.skip(9 + chunk(s).len() as int))
            &&& chunk(q).is_prefix_of(e.skip(9 + chunk(s).len() + chunk(p).len() as int))
        }),
{
    lemma_auto_spec_u64_to_from_le_bytes();
    let e = seq![t] + ix + chunk(s) + chunk(p) + chunk(q);
    assert(e.subrange(1, 9) =~= ix);
    assert(chunk(s) =~= e.skip(9).subrange(0, chunk(s).len() as int));
    assert(chunk(p) =~= e.skip(9 + chunk(s).len() as int).subrange(0, chunk(p).len() as int));
    assert(chunk(q) =~= e.skip(9 + chunk(s).len() + chunk(p).len() as int));
}

/// The error that every malformed encoding produces.
fn malformed() -> (e: Error)
    ensures
        e is Unexpected,
{
    Error::Unexpected("malformed keypair encoding".to_string())
}

/// Decodes the result of [`encode`]: decoding the encoding of any keypair
/// returns that keypair, and whatever does not come from `encode` is
/// rejected with `Unexpected`.
pub fn decode(bytes: &Vec<u8>) -> (r: Result<Keypair, Error>)
    ensures
        r matches Ok(k) ==> bytes@ == spec_encode(k@),
        forall|kv: KeypairView| bytes@ == spec_encode(kv) ==> (r matches Ok(k) && k@ == kv),
        r matches Err(e) ==> e is Unexpected,
{
    proof {
        lemma_auto_spec_u64_to_from_le_bytes();
    }
    if bytes.len() == 0 {
        proof {
            assert forall|kv: KeypairView| bytes@ != spec_encode(kv) by {
                reject(bytes@, kv);
            }
        }
        return Err(malformed());
    }
    let tag = bytes[0];
    if tag == 0 || tag == 1 {
        let (secret, p1) = match read_chunk(bytes, 1) {
            Some(x) => x,
            None => {
                proof {
                    assert forall|kv: KeypairView| bytes@ != spec_encode(kv) by {
                        reject(bytes@, kv);
                    }
                }
                return Err(malformed());
            },
        };
        let (public, p2) = match read_chunk(bytes, p1) {
            Some(x) => x,
            None => {
                proof {
                    assert forall|kv: KeypairView| bytes@ != spec_encode(kv) by {
                        reject(bytes@, kv);
                    }
                }
                return Err(malformed());
            },
        };
        if p2 != bytes.len() {
            proof {
                assert forall|kv: KeypairView| bytes@ != spec_encode(kv) by {
                    reject(bytes@, kv);
                }
            }
            return Err(malformed());
        }
        let k = if tag == 0 {
            Keypair::Ed25519 { secret, public }
        } else {
            Keypair::Bls(BlsKeypair { secret, public })
        };
        proof {
            assert(bytes@ =~= seq![tag] + bytes@.subrange(1, p1 as int) + bytes@.subrange(
                p1 as int,
                p2 as int,
            ));
            assert(bytes@ == spec_encode(k@));
            assert forall|kv: KeypairView| bytes@ == spec_encode(kv) implies k@ == kv by {
                reject(bytes@, kv);
            }
        }
        Ok(k)
    } else if tag == 2 {
        if bytes.len() < 9 {
            proof {
                assert forall|kv: KeypairView| bytes@ != spec_encode(kv) by {
                    reject(bytes@, kv);
                }
            }
            return Err(malformed());
        }
        let idx64 = read_u64(bytes, 1);
        let (secret, p1) = match read_chunk(bytes, 9) {
            Some(x) => x,
            None => {
                proof {
                    assert forall|kv: KeypairView| bytes@ != spec_encode(kv) by {
                        reject(bytes@, kv);
                    }
                }
                return Err(malformed());
            },
        };
        let (public, p2) = match read_chunk(bytes, p1) {
            Some(x) => x,
            None => {
                proof {
                    assert forall|kv: KeypairView| bytes@ != spec_encode(kv) by {
                        reject(bytes@, kv);
                    }
                }
                return Err(malformed());
            },
        };
        let (public_key_set, p3) = match read_chunk(bytes, p2) {
            Some(x) => x,
            None => {
                proof {
                    assert forall|kv: KeypairView| bytes@ != spec_encode(kv) by {
                        reject(bytes@, kv);
                    }
                }
                return Err(malformed());
            },
        };
        if p3 != bytes.len() || idx64 > usize::MAX as u64 {
            proof {
                assert forall|kv: KeypairView| bytes@ != spec_encode(kv) by {
                    reject(bytes@, kv);
                }
            }
            return Err(malformed());
        }
        let k = Keypair::BlsShare(
            BlsKeypairShare { index: idx64 as usize, secret, public, public_key_set },
        );
        proof {
            assert(spec_u64_to_le_bytes(idx64) == bytes@.subrange(1, 9));
            assert(bytes@ =~= seq![2u8] + bytes@.subrange(1, 9) + bytes@.subrange(9, p1 as int)
                + bytes@.subrange(p1 as int, p2 as int) + bytes@.subrange(p2 as int, p3 as int));
            assert(bytes@ == spec_encode(k@));
            assert forall|kv: KeypairView| bytes@ == spec_encode(kv) implies k@ == kv by {
                reject(bytes@, kv);
            }
        }
        Ok(k)
    } else {
        proof {
            assert forall|kv: KeypairView| bytes@ != spec_encode(kv) by {
                reject(bytes@, kv);
            }
        }
        Err(malformed())
    }
}

/// Unfolds the shape of `spec_encode(kv)` so that a mismatch with the
/// observed bytes, or the agreement of every parsed component, follows.
proof fn reject(b: Seq<u8>, kv: KeypairView)
    ensures
        b == spec_encode(kv) ==> b.len() >= 1 && b[0] == tag_of(kv),
        b == spec_encode(kv) ==> (kv matches KeypairView::Ed25519 { secret, public } ==> ({
            &&& chunk(secret).len() == 8 + secret.len()
            &&& chunk(public).len() == 8 + public.len()
            &&& b.len() == 1 + chunk(secret).len() + chunk(public).len()
            &&& chunk(secret).is_prefix_of(b.skip(1))
            &&& chunk(public).is_prefix_of(b.skip(1 + chunk(secret).len() as int))
        })),
        b == spec_encode(kv) ==> (kv matches KeypairView::Bls { secret, public } ==> ({
            &&& chunk(secret).len() == 8 + secret.len()
            &&& chunk(public).len() == 8 + public.len()
            &&& b.len() == 1 + chunk(secret).len() + chunk(public).len()
            &&& chunk(secret).is_prefix_of(b.skip(1))
            &&& chunk(public).is_prefix_of(b.skip(1 + chunk(secret).len() as int))
        })),
        b == spec_encode(kv) ==> (kv matches KeypairView::BlsShare {
            index,
            secret,
            public,
            public_key_set,
        } ==> ({
            &&& chunk(secret).len() == 8 + secret.len()
            &&& chunk(public).len() == 8 + public.len()
            &&& chunk(public_key_set).len() == 8 + public_key_set.len()
            &&& b.len() == 9 + chunk(secret).len() + chunk(public).len() + chunk(
                public_key_set,
            ).len()
            &&& b.subrange(1, 9) == spec_u64_to_le_bytes(index as u64)
            &&& chunk(secret).is_prefix_of(b.skip(9))
            &&& chunk(public).is_prefix_of(b.skip(9 + chunk(secret).len() as int))
            &&& chunk(public_key_set).is_prefix_of(
                b.skip(9 + chunk(secret).len() + chunk(public).len() as int),
            )
        })),
{
    lemma_auto_spec_u64_to_from_le_bytes();
    match kv {
        KeypairView::Ed25519 { secret, public } => {
            lemma_two_chunks(0u8, secret, public);
        },
        KeypairView::Bls { secret, public } => {
            lemma_two_chunks(1u8, secret, public);
        },
        KeypairView::BlsShare { index, secret, public, public_key_set } => {
            lemma_share_chunks(
                2u8,
                spec_u64_to_le_bytes(index as u64),
                secret,
                public,
                public_key_set,
            );
        },
    }
}

} // verus!
