//! Canonical envelope encoding and hashing.
//!
//! A message envelope is encoded as fixed-width little-endian integers
//! (`tx_id`, `source_chain_id`, `dest_chain_id`) followed by the four
//! variable-length fields, each prefixed with its 32-bit little-endian
//! length, in a fixed order. The Keccak-256 digest of that byte string is
//! the object off-chain signers sign; both protocol phases recompute it.

use vstd::prelude::*;
use vstd::bytes::*;

use crate::errors::GatewayError;
use crate::MAX_OFF_CHAIN_DATA_SIZE;
use crate::MAX_ON_CHAIN_DATA_SIZE;
use crate::MAX_RECIPIENT_SIZE;
use crate::MAX_SENDER_SIZE;

verus! {

/// The digest Keccak-256 assigns to a byte string. The function itself is
/// supplied by an outside crate; nothing is assumed of its values beyond
/// determinism in its input.
pub uninterp spec fn keccak_of(bytes: Seq<u8>) -> Seq<u8>;

/// Relies on `anchor_lang::solana_program::keccak::hash` (Keccak-256):
/// the digest is a pure function of the input bytes, 32 bytes long.
#[verifier::external_body]
fn keccak256(bytes: &Vec<u8>) -> (r: [u8; 32])
    ensures
        r@ == keccak_of(bytes@),
{
    anchor_lang::solana_program::keccak::hash(bytes.as_slice()).to_bytes()
}

/// A variable-length field as it appears on the wire: a 4-byte
/// little-endian length, then the raw bytes.
pub open spec fn spec_length_prefixed(data: Seq<u8>) -> Seq<u8> {
    spec_u32_to_le_bytes(data.len() as u32) + data
}

/// The canonical byte encoding of a message envelope.
pub open spec fn spec_encode_message(
    tx_id: u128,
    source_chain_id: u64,
    dest_chain_id: u64,
    sender: Seq<u8>,
    recipient: Seq<u8>,
    on_chain_data: Seq<u8>,
    off_chain_data: Seq<u8>,
) -> Seq<u8> {
    spec_u128_to_le_bytes(tx_id) + spec_u64_to_le_bytes(source_chain_id)
        + spec_u64_to_le_bytes(dest_chain_id) + spec_length_prefixed(sender)
        + spec_length_prefixed(recipient) + spec_length_prefixed(on_chain_data)
        + spec_length_prefixed(off_chain_data)
}

/// The canonical digest of a message envelope.
pub open spec fn spec_message_digest(
    tx_id: u128,
    source_chain_id: u64,
    dest_chain_id: u64,
    sender: Seq<u8>,
    recipient: Seq<u8>,
    on_chain_data: Seq<u8>,
    off_chain_data: Seq<u8>,
) -> Seq<u8> {
    keccak_of(
        spec_encode_message(
            tx_id,
            source_chain_id,
            dest_chain_id,
            sender,
            recipient,
            on_chain_data,
            off_chain_data,
        ),
    )
}

/// Whether the four variable-length fields of an envelope respect their
/// size bounds.
pub open spec fn spec_sizes_ok(
    sender: Seq<u8>,
    recipient: Seq<u8>,
    on_chain_data: Seq<u8>,
    off_chain_data: Seq<u8>,
) -> bool {
    &&& sender.len() <= MAX_SENDER_SIZE
    &&& recipient.len() <= MAX_RECIPIENT_SIZE
    &&& on_chain_data.len() <= MAX_ON_CHAIN_DATA_SIZE
    &&& off_chain_data.len() <= MAX_OFF_CHAIN_DATA_SIZE
}

/// The all-zero digest, reserved as a sentinel for "invalid".
pub open spec fn spec_is_zero_digest(d: Seq<u8>) -> bool {
    forall|i: int| 0 <= i < d.len() ==> d[i] == 0
}

/// Appends `data` to `buffer` with its 4-byte little-endian length in
/// front.
pub fn encode_length_prefixed(buffer: &mut Vec<u8>, data: &[u8])
    requires
        data@.len() <= u32::MAX,
    ensures
        final(buffer)@ == old(buffer)@ + spec_length_prefixed(data@),
{
    let mut len_bytes = u32_to_le_bytes(data.len() as u32);
    buffer.append(&mut len_bytes);
    let mut i: usize = 0;
    while i < data.len()
        invariant
            i <= data@.len(),
            data@.len() <= u32::MAX,
            buffer@ == old(buffer)@ + spec_u32_to_le_bytes(data@.len() as u32)
                + data@.subrange(0, i as int),
        decreases data@.len() - i,
    {
        buffer.push(data[i]);
        proof {
            assert(data@.subrange(0, i + 1) =~= data@.subrange(0, i as int).push(data@[i as int]));
            assert(old(buffer)@ + spec_u32_to_le_bytes(data@.len() as u32)
                + data@.subrange(0, i + 1) =~= (old(buffer)@
                + spec_u32_to_le_bytes(data@.len() as u32)
                + data@.subrange(0, i as int)).push(data@[i as int]));
        }
        i += 1;
    }
    proof {
        assert(data@.subrange(0, data@.len() as int) =~= data@);
    }
}

/// Computes the canonical digest of an envelope, rejecting any envelope
/// whose variable-length fields exceed their bounds.
pub fn create_cross_chain_hash(
    tx_id: u128,
    source_chain_id: u64,
    dest_chain_id: u64,
    sender: &[u8],
    recipient: &[u8],
    on_chain_data: &[u8],
    off_chain_data: &[u8],
) -> (r: Result<[u8; 32], GatewayError>)
    ensures
        spec_sizes_ok(sender@, recipient@, on_chain_data@, off_chain_data@) ==> (r matches Ok(h)
            && h@ == spec_message_digest(
            tx_id,
            source_chain_id,
            dest_chain_id,
            sender@,
            recipient@,
            on_chain_data@,
            off_chain_data@,
        )),
        !spec_sizes_ok(sender@, recipient@, on_chain_data@, off_chain_data@) ==> r == Err::<
            [u8; 32],
            GatewayError,
        >(GatewayError::OversizedField),
{
    if sender.len() > MAX_SENDER_SIZE {
        return Err(GatewayError::OversizedField);
    }
    if recipient.len() > MAX_RECIPIENT_SIZE {
        return Err(GatewayError::OversizedField);
    }
    if on_chain_data.len() > MAX_ON_CHAIN_DATA_SIZE {
        return Err(GatewayError::OversizedField);
    }
    if off_chain_data.len() > MAX_OFF_CHAIN_DATA_SIZE {
        return Err(GatewayError::OversizedField);
    }

    let mut encoded: Vec<u8> = Vec::new();

    let mut tx_bytes = u128_to_le_bytes(tx_id);
    encoded.append(&mut tx_bytes);

    let mut source_bytes = u64_to_le_bytes(source_chain_id);
    encoded.append(&mut source_bytes);

    let mut dest_bytes = u64_to_le_bytes(dest_chain_id);
    encoded.append(&mut dest_bytes);

    encode_length_prefixed(&mut encoded, sender);
    encode_length_prefixed(&mut encoded, recipient);
    encode_length_prefixed(&mut encoded, on_chain_data);
    encode_length_prefixed(&mut encoded, off_chain_data);

    Ok(keccak256(&encoded))
}

/// Rejects the all-zero digest, which no valid envelope ever carries.
pub fn validate_message_hash(hash: &[u8; 32]) -> (r: Result<(), GatewayError>)
    ensures
        r matches Ok(_) <==> !spec_is_zero_digest(hash@),
        r matches Err(e) ==> e == GatewayError::InvalidDigest,
{
    let mut i: usize = 0;
    while i < 32
        invariant
            i <= 32,
            forall|j: int| 0 <= j < i ==> hash@[j] == 0,
        decreases 32 - i,
    {
        if hash[i] != 0 {
            return Ok(());
        }
        i += 1;
    }
    Err(GatewayError::InvalidDigest)
}

/// The digest off-chain validators sign: the canonical digest itself.
pub fn create_message_hash_for_signing(
    tx_id: u128,
    source_chain_id: u64,
    dest_chain_id: u64,
    sender: &[u8],
    recipient: &[u8],
    on_chain_data: &[u8],
    off_chain_data: &[u8],
) -> (r: Result<[u8; 32], GatewayError>)
    ensures
        spec_sizes_ok(sender@, recipient@, on_chain_data@, off_chain_data@) ==> (r matches Ok(h)
            && h@ == spec_message_digest(
            tx_id,
            source_chain_id,
            dest_chain_id,
            sender@,
            recipient@,
            on_chain_data@,
            off_chain_data@,
        )),
        !spec_sizes_ok(sender@, recipient@, on_chain_data@, off_chain_data@) ==> r == Err::<
            [u8; 32],
            GatewayError,
        >(GatewayError::OversizedField),
{
    create_cross_chain_hash(
        tx_id,
        source_chain_id,
        dest_chain_id,
        sender,
        recipient,
        on_chain_data,
        off_chain_data,
    )
}

/// Recomputes the canonical digest and compares it with a supplied one.
pub fn verify_hash_consistency(
    hash: &[u8; 32],
    tx_id: u128,
    source_chain_id: u64,
    dest_chain_id: u64,
    sender: &[u8],
    recipient: &[u8],
    on_chain_data: &[u8],
    off_chain_data: &[u8],
) -> (r: Result<bool, GatewayError>)
    ensures
        spec_sizes_ok(sender@, recipient@, on_chain_data@, off_chain_data@) ==> r == Ok::<
            bool,
            GatewayError,
        >(hash@ == spec_message_digest(
            tx_id,
            source_chain_id,
            dest_chain_id,
            sender@,
            recipient@,
            on_chain_data@,
            off_chain_data@,
        )),
        !spec_sizes_ok(sender@, recipient@, on_chain_data@, off_chain_data@) ==> r == Err::<
            bool,
            GatewayError,
        >(GatewayError::OversizedField),
{
    let calculated = match create_cross_chain_hash(
        tx_id,
        source_chain_id,
        dest_chain_id,
        sender,
        recipient,
        on_chain_data,
        off_chain_data,
    ) {
        Ok(h) => h,
        Err(e) => {
            return Err(e);
        },
    };
    let mut i: usize = 0;
    while i < 32
        invariant
            i <= 32,
            spec_sizes_ok(sender@, recipient@, on_chain_data@, off_chain_data@),
            calculated@ == spec_message_digest(
                tx_id,
                source_chain_id,
                dest_chain_id,
                sender@,
                recipient@,
                on_chain_data@,
                off_chain_data@,
            ),
            forall|j: int| 0 <= j < i ==> hash@[j] == calculated@[j],
        decreases 32 - i,
    {
        if hash[i] != calculated[i] {
            proof {
                assert(hash@[i as int] != calculated@[i as int]);
            }
            return Ok(false);
        }
        i += 1;
    }
    proof {
        assert(hash@ =~= calculated@);
    }
    Ok(true)
}

/// A length-prefixed field followed by a remainder determines both: the
/// 4-byte prefix fixes where the field ends, so no bytes can shift
/// between the field and what follows it.
proof fn lemma_length_prefixed_injective(a1: Seq<u8>, r1: Seq<u8>, a2: Seq<u8>, r2: Seq<u8>)
    requires
        a1.len() <= u32::MAX,
        a2.len() <= u32::MAX,
        spec_length_prefixed(a1) + r1 == spec_length_prefixed(a2) + r2,
    ensures
        a1 == a2,
        r1 == r2,
{
    lemma_auto_spec_u32_to_from_le_bytes();
    let l1 = spec_u32_to_le_bytes(a1.len() as u32);
    let l2 = spec_u32_to_le_bytes(a2.len() as u32);
    let e = spec_length_prefixed(a1) + r1;
    assert(l1 =~= e.subrange(0, 4));
    assert(l2 =~= e.subrange(0, 4));
    assert(spec_u32_from_le_bytes(l1) == spec_u32_from_le_bytes(l2));
    assert(a1.len() == a2.len());
    assert(a1 =~= e.subrange(4, 4 + a1.len() as int));
    assert(a2 =~= e.subrange(4, 4 + a2.len() as int));
    assert(r1 =~= e.subrange(4 + a1.len() as int, e.len() as int));
    assert(r2 =~= e.subrange(4 + a2.len() as int, e.len() as int));
}

/// Two envelopes within the size bounds that encode to the same byte
/// string agree in every field: the canonical encoding is injective, so
/// the length-prefix scheme admits no accidental collisions between
/// adjacent variable-length fields, and changing any single field
/// changes the encoded bytes handed to the hash.
pub proof fn lemma_encoding_injective(
    tx_id1: u128,
    source_chain_id1: u64,
    dest_chain_id1: u64,
    sender1: Seq<u8>,
    recipient1: Seq<u8>,
    on_chain_data1: Seq<u8>,
    off_chain_data1: Seq<u8>,
    tx_id2: u128,
    source_chain_id2: u64,
    dest_chain_id2: u64,
    sender2: Seq<u8>,
    recipient2: Seq<u8>,
    on_chain_data2: Seq<u8>,
    off_chain_data2: Seq<u8>,
)
    requires
        spec_sizes_ok(sender1, recipient1, on_chain_data1, off_chain_data1),
        spec_sizes_ok(sender2, recipient2, on_chain_data2, off_chain_data2),
        spec_encode_message(
            tx_id1,
            source_chain_id1,
            dest_chain_id1,
            sender1,
            recipient1,
            on_chain_data1,
            off_chain_data1,
        ) == spec_encode_message(
            tx_id2,
            source_chain_id2,
            dest_chain_id2,
            sender2,
            recipient2,
            on_chain_data2,
            off_chain_data2,
        ),
    ensures
        tx_id1 == tx_id2,
        source_chain_id1 == source_chain_id2,
        dest_chain_id1 == dest_chain_id2,
        sender1 == sender2,
        recipient1 == recipient2,
        on_chain_data1 == on_chain_data2,
        off_chain_data1 == off_chain_data2,
{
    lemma_auto_spec_u128_to_from_le_bytes();
    lemma_auto_spec_u64_to_from_le_bytes();
    let e = spec_encode_message(
        tx_id1,
        source_chain_id1,
        dest_chain_id1,
        sender1,
        recipient1,
        on_chain_data1,
        off_chain_data1,
    );
    assert(spec_u128_to_le_bytes(tx_id1) =~= e.subrange(0, 16));
    assert(spec_u128_to_le_bytes(tx_id2) =~= e.subrange(0, 16));
    assert(spec_u128_from_le_bytes(spec_u128_to_le_bytes(tx_id1)) == spec_u128_from_le_bytes(
        spec_u128_to_le_bytes(tx_id2),
    ));
    assert(spec_u64_to_le_bytes(source_chain_id1) =~= e.subrange(16, 24));
    assert(spec_u64_to_le_bytes(source_chain_id2) =~= e.subrange(16, 24));
    assert(spec_u64_from_le_bytes(spec_u64_to_le_bytes(source_chain_id1))
        == spec_u64_from_le_bytes(spec_u64_to_le_bytes(source_chain_id2)));
    assert(spec_u64_to_le_bytes(dest_chain_id1) =~= e.subrange(24, 32));
    assert(spec_u64_to_le_bytes(dest_chain_id2) =~= e.subrange(24, 32));
    assert(spec_u64_from_le_bytes(spec_u64_to_le_bytes(dest_chain_id1)) == spec_u64_from_le_bytes(
        spec_u64_to_le_bytes(dest_chain_id2),
    ));
    let tail1 = spec_length_prefixed(recipient1) + spec_length_prefixed(on_chain_data1)
        + spec_length_prefixed(off_chain_data1);
    let tail2 = spec_length_prefixed(recipient2) + spec_length_prefixed(on_chain_data2)
        + spec_length_prefixed(off_chain_data2);
    assert(spec_length_prefixed(sender1) + tail1 =~= e.subrange(32, e.len() as int));
    assert(spec_length_prefixed(sender2) + tail2 =~= e.subrange(32, e.len() as int));
    lemma_length_prefixed_injective(sender1, tail1, sender2, tail2);
    let tail1b = spec_length_prefixed(on_chain_data1) + spec_length_prefixed(off_chain_data1);
    let tail2b = spec_length_prefixed(on_chain_data2) + spec_length_prefixed(off_chain_data2);
    assert(spec_length_prefixed(recipient1) + tail1b =~= tail1);
    assert(spec_length_prefixed(recipient2) + tail2b =~= tail2);
    lemma_length_prefixed_injective(recipient1, tail1b, recipient2, tail2b);
    lemma_length_prefixed_injective(
        on_chain_data1,
        spec_length_prefixed(off_chain_data1),
        on_chain_data2,
        spec_length_prefixed(off_chain_data2),
    );
    let empty = Seq::<u8>::empty();
    assert(spec_length_prefixed(off_chain_data1) + empty =~= spec_length_prefixed(
        off_chain_data1,
    ));
    assert(spec_length_prefixed(off_chain_data2) + empty =~= spec_length_prefixed(
        off_chain_data2,
    ));
    lemma_length_prefixed_injective(off_chain_data1, empty, off_chain_data2, empty);
}

} // verus!
