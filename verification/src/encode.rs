//! Binary encoding of the instruction payload both operations send to the
//! ledger program: an 8-byte operation discriminator, the three 32-byte
//! hashes of the leaf commitment, then the nonce and index as little-endian
//! integers. The layout is fixed at 116 bytes and must match the ledger
//! program's published wire format byte for byte.

use vstd::prelude::*;
use vstd::bytes::lemma_auto_spec_u32_to_from_le_bytes;
use vstd::bytes::lemma_auto_spec_u64_to_from_le_bytes;
use vstd::bytes::spec_u32_from_le_bytes;
use vstd::bytes::spec_u32_to_le_bytes;
use vstd::bytes::spec_u64_from_le_bytes;
use vstd::bytes::spec_u64_to_le_bytes;
use vstd::bytes::u32_from_le_bytes;
use vstd::bytes::u32_to_le_bytes;
use vstd::bytes::u64_from_le_bytes;
use vstd::bytes::u64_to_le_bytes;
use vstd::slice::slice_subrange;
use crate::types::Address;
use crate::types::LeafCommitment;
use crate::types::OperationKind;

verus! {

/// Number of bytes in an encoded payload: 8 discriminator bytes, three
/// 32-byte hashes, an 8-byte nonce and a 4-byte index.
pub const PAYLOAD_LEN: usize = 116;

/// The fixed 8-byte prefix that tells the ledger program which operation a
/// payload encodes. The values are the ledger program's published constants
/// and must never vary.
pub open spec fn spec_discriminator(kind: OperationKind) -> Seq<u8> {
    match kind {
        OperationKind::Transfer => seq![163u8, 52u8, 200u8, 231u8, 140u8, 3u8, 69u8, 186u8],
        OperationKind::Burn => seq![116u8, 110u8, 29u8, 56u8, 107u8, 219u8, 42u8, 93u8],
    }
}

/// The complete payload for one operation: the discriminator, then the three
/// 32-byte hashes, then the nonce and the index in little-endian byte order.
pub open spec fn spec_payload(kind: OperationKind, c: LeafCommitment) -> Seq<u8> {
    spec_discriminator(kind) + c.root@ + c.data_hash@ + c.creator_hash@
        + spec_u64_to_le_bytes(c.nonce) + spec_u32_to_le_bytes(c.index)
}

/// The operation's discriminator as bytes.
pub fn discriminator(kind: OperationKind) -> (d: Vec<u8>)
    ensures
        d@ == spec_discriminator(kind),
{
    let mut d: Vec<u8> = Vec::new();
    match kind {
        OperationKind::Transfer => {
            d.push(163);
            d.push(52);
            d.push(200);
            d.push(231);
            d.push(140);
            d.push(3);
            d.push(69);
            d.push(186);
        },
        OperationKind::Burn => {
            d.push(116);
            d.push(110);
            d.push(29);
            d.push(56);
            d.push(107);
            d.push(219);
            d.push(42);
            d.push(93);
        },
    }
    proof {
        assert(d@ =~= spec_discriminator(kind));
    }
    d
}

/// Appends every byte of `src`, in order, to `out`.
fn push_bytes(out: &mut Vec<u8>, src: &[u8])
    ensures
        final(out)@ == old(out)@ + src@,
{
    let mut i: usize = 0;
    while i < src.len()
        invariant
            i <= src@.len(),
            out@ == old(out)@ + src@.subrange(0, i as int),
        decreases src@.len() - i,
    {
        out.push(src[i]);
        proof {
            assert(src@.subrange(0, i + 1) =~= src@.subrange(0, i as int).push(src@[i as int]));
        }
        i = i + 1;
    }
    proof {
        assert(src@.subrange(0, src@.len() as int) =~= src@);
    }
}

/// Serializes the discriminator of `kind` and the fields of `commitment`
/// into the fixed 116-byte layout.
pub fn encode_payload(kind: OperationKind, commitment: &LeafCommitment) -> (data: Vec<u8>)
    ensures
        data@ == spec_payload(kind, *commitment),
        data@.len() == PAYLOAD_LEN,
{
    let mut data: Vec<u8> = Vec::new();
    let disc = discriminator(kind);
    push_bytes(&mut data, disc.as_slice());
    push_bytes(&mut data, commitment.root.as_slice());
    push_bytes(&mut data, commitment.data_hash.as_slice());
    push_bytes(&mut data, commitment.creator_hash.as_slice());
    let nonce_bytes = u64_to_le_bytes(commitment.nonce);
    push_bytes(&mut data, nonce_bytes.as_slice());
    let index_bytes = u32_to_le_bytes(commitment.index);
    push_bytes(&mut data, index_bytes.as_slice());
    proof {
        lemma_auto_spec_u64_to_from_le_bytes();
        lemma_auto_spec_u32_to_from_le_bytes();
        lemma_payload_parts(kind, *commitment);
        assert(data@ =~= spec_payload(kind, *commitment));
    }
    data
}

/// The discriminator is 8 bytes long for either operation.
pub proof fn lemma_discriminator_len(kind: OperationKind)
    ensures
        spec_discriminator(kind).len() == 8,
{
}

/// Where each field of the commitment stands inside the encoded payload:
/// the payload is 116 bytes, and each field occupies its fixed range, so
/// every field can be read back from the bytes alone.
pub proof fn lemma_payload_parts(kind: OperationKind, c: LeafCommitment)
    ensures
        spec_payload(kind, c).len() == PAYLOAD_LEN,
        spec_payload(kind, c).subrange(0, 8) == spec_discriminator(kind),
        spec_payload(kind, c).subrange(8, 40) == c.root@,
        spec_payload(kind, c).subrange(40, 72) == c.data_hash@,
        spec_payload(kind, c).subrange(72, 104) == c.creator_hash@,
        spec_payload(kind, c).subrange(104, 112) == spec_u64_to_le_bytes(c.nonce),
        spec_payload(kind, c).subrange(112, 116) == spec_u32_to_le_bytes(c.index),
{
    lemma_discriminator_len(kind);
    lemma_auto_spec_u64_to_from_le_bytes();
    lemma_auto_spec_u32_to_from_le_bytes();
    let p = spec_payload(kind, c);
    assert(p.subrange(0, 8) =~= spec_discriminator(kind));
    assert(p.subrange(8, 40) =~= c.root@);
    assert(p.subrange(40, 72) =~= c.data_hash@);
    assert(p.subrange(72, 104) =~= c.creator_hash@);
    assert(p.subrange(104, 112) =~= spec_u64_to_le_bytes(c.nonce));
    assert(p.subrange(112, 116) =~= spec_u32_to_le_bytes(c.index));
}

/// Payloads of two calls with the same operation kind begin with the same
/// fixed 8-byte discriminator, whatever their commitments are.
pub proof fn lemma_discriminator_stable(kind: OperationKind, c1: LeafCommitment, c2: LeafCommitment)
    ensures
        spec_payload(kind, c1).subrange(0, 8) == spec_discriminator(kind),
        spec_payload(kind, c1).subrange(0, 8) == spec_payload(kind, c2).subrange(0, 8),
{
    lemma_payload_parts(kind, c1);
    lemma_payload_parts(kind, c2);
}

/// Encoding loses nothing: two payloads are equal only if they encode the
/// same operation kind and the same commitment, so decoding a payload
/// recovers exactly the values that produced it.
pub proof fn lemma_payload_injective(
    k1: OperationKind,
    c1: LeafCommitment,
    k2: OperationKind,
    c2: LeafCommitment,
)
    requires
        spec_payload(k1, c1) == spec_payload(k2, c2),
    ensures
        k1 == k2,
        c1 == c2,
{
    lemma_payload_parts(k1, c1);
    lemma_payload_parts(k2, c2);
    lemma_auto_spec_u64_to_from_le_bytes();
    lemma_auto_spec_u32_to_from_le_bytes();
    assert(spec_discriminator(k1) == spec_discriminator(k2));
    assert(k1 == k2) by {
        if k1 != k2 {
            assert(spec_discriminator(OperationKind::Transfer)[0] == 163);
            assert(spec_discriminator(OperationKind::Burn)[0] == 116);
        }
    };
    assert(c1.root@ == c2.root@);
    assert(c1.data_hash@ == c2.data_hash@);
    assert(c1.creator_hash@ == c2.creator_hash@);
    assert(c1.root =~= c2.root);
    assert(c1.data_hash =~= c2.data_hash);
    assert(c1.creator_hash =~= c2.creator_hash);
    assert(c1.nonce == spec_u64_from_le_bytes(spec_u64_to_le_bytes(c1.nonce)));
    assert(c1.index == spec_u32_from_le_bytes(spec_u32_to_le_bytes(c1.index)));
}

/// True exactly when the bytes of `expected` stand at `offset` in `data`.
fn bytes_match_at(data: &Vec<u8>, offset: usize, expected: &Vec<u8>) -> (r: bool)
    requires
        offset + expected@.len() <= data@.len(),
    ensures
        r <==> data@.subrange(offset as int, offset + expected@.len()) == expected@,
{
    let n = data.len();
    let mut i: usize = 0;
    while i < expected.len()
        invariant
            n == data@.len(),
            offset + expected@.len() <= data@.len(),
            i <= expected@.len(),
            forall|j: int| 0 <= j < i ==> data@[offset + j] == expected@[j],
        decreases expected@.len() - i,
    {
        if data[offset + i] != expected[i] {
            proof {
                assert(data@.subrange(offset as int, offset + expected@.len())[i as int]
                    == data@[offset + i]);
            }
            return false;
        }
        i = i + 1;
    }
    proof {
        assert(data@.subrange(offset as int, offset + expected@.len()) =~= expected@);
    }
    true
}

/// Reads back the 32 bytes standing at `offset` in `data`.
fn read_bytes32(data: &Vec<u8>, offset: usize) -> (r: Address)
    requires
        offset + 32 <= data@.len(),
    ensures
        r@ == data@.subrange(offset as int, offset + 32),
{
    let n = data.len();
    let mut r: Address = [0u8; 32];
    let mut i: usize = 0;
    while i < 32
        invariant
            n == data@.len(),
            offset + 32 <= data@.len(),
            i <= 32,
            forall|j: int| 0 <= j < i ==> r@[j] == data@[offset + j],
        decreases 32 - i,
    {
        r[i] = data[offset + i];
        i = i + 1;
    }
    proof {
        assert(r@ =~= data@.subrange(offset as int, offset + 32));
    }
    r
}

/// Reads an encoded payload back into the operation kind and commitment it
/// was built from. Returns `None` exactly when `data` is the encoding of no
/// operation at all: wrong length, or a first-8-byte prefix that is neither
/// published discriminator.
pub fn decode_payload(data: &Vec<u8>) -> (r: Option<(OperationKind, LeafCommitment)>)
    ensures
        r matches Some(kc) ==> data@ == spec_payload(kc.0, kc.1),
        forall|k: OperationKind, c: LeafCommitment|
            data@ == spec_payload(k, c) ==> r == Some::<(OperationKind, LeafCommitment)>((k, c)),
{
    if data.len() != PAYLOAD_LEN {
        proof {
            assert forall|k: OperationKind, c: LeafCommitment| data@ != spec_payload(k, c) by {
                lemma_payload_parts(k, c);
            }
        }
        return None;
    }
    let transfer_disc = discriminator(OperationKind::Transfer);
    let burn_disc = discriminator(OperationKind::Burn);
    proof {
        lemma_discriminator_len(OperationKind::Transfer);
        lemma_discriminator_len(OperationKind::Burn);
    }
    let kind: OperationKind;
    if bytes_match_at(data, 0, &transfer_disc) {
        kind = OperationKind::Transfer;
    } else if bytes_match_at(data, 0, &burn_disc) {
        kind = OperationKind::Burn;
    } else {
        proof {
            assert forall|k: OperationKind, c: LeafCommitment| data@ != spec_payload(k, c) by {
                lemma_payload_parts(k, c);
                if data@ == spec_payload(k, c) {
                    assert(data@.subrange(0, 8) == spec_discriminator(k));
                    assert(false);
                }
            }
        }
        return None;
    }
    let root = read_bytes32(data, 8);
    let data_hash = read_bytes32(data, 40);
    let creator_hash = read_bytes32(data, 72);
    let nonce = u64_from_le_bytes(slice_subrange(data.as_slice(), 104, 112));
    let index = u32_from_le_bytes(slice_subrange(data.as_slice(), 112, 116));
    let decoded = LeafCommitment { root, data_hash, creator_hash, nonce, index };
    proof {
        lemma_auto_spec_u64_to_from_le_bytes();
        lemma_auto_spec_u32_to_from_le_bytes();
        lemma_payload_parts(kind, decoded);
        let p = spec_payload(kind, decoded);
        assert(p.subrange(104, 112) == data@.subrange(104, 112));
        assert(p.subrange(112, 116) == data@.subrange(112, 116));
        assert forall|i: int| 0 <= i < 116 implies data@[i] == p[i] by {
            if i < 8 {
                assert(data@.subrange(0, 8)[i] == data@[i]);
                assert(p.subrange(0, 8)[i] == p[i]);
            } else if i < 40 {
                assert(data@.subrange(8, 40)[i - 8] == data@[i]);
                assert(p.subrange(8, 40)[i - 8] == p[i]);
            } else if i < 72 {
                assert(data@.subrange(40, 72)[i - 40] == data@[i]);
                assert(p.subrange(40, 72)[i - 40] == p[i]);
            } else if i < 104 {
                assert(data@.subrange(72, 104)[i - 72] == data@[i]);
                assert(p.subrange(72, 104)[i - 72] == p[i]);
            } else if i < 112 {
                assert(data@.subrange(104, 112)[i - 104] == data@[i]);
                assert(p.subrange(104, 112)[i - 104] == p[i]);
            } else {
                assert(data@.subrange(112, 116)[i - 112] == data@[i]);
                assert(p.subrange(112, 116)[i - 112] == p[i]);
            }
        };
        assert(data@ =~= p);
        assert forall|k: OperationKind, c: LeafCommitment|
            data@ == spec_payload(k, c) implies (k, c) == (kind, decoded) by {
            lemma_payload_injective(kind, decoded, k, c);
        };
    }
    Some((kind, decoded))
}

} // verus!
