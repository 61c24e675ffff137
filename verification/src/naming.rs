//! How an invoice gets its identifier.
//!
//! The identifier is the SHA-256 digest of the merchant's identity followed by
//! the timestamp and the sequence number of the call, both big-endian. The
//! host hands every call its own (timestamp, sequence) pair, so no two calls
//! hash the same bytes.

use vstd::prelude::*;
use crate::bytes::{
    append_be,
    append_bytes,
    be_bytes,
    lemma_be_bytes_injective,
    lemma_be_bytes_len,
    lemma_u32_fits,
    lemma_u64_fits,
};
use crate::digest::{collide, host_sha256, sha256_of};
use crate::identity::{Identity, InvoiceId, IDENTITY_MAX_LEN};

verus! {

/// The bytes that are hashed into an identifier: the merchant's identity, the
/// timestamp in eight bytes, the sequence number in four.
pub open spec fn id_preimage(merchant: Seq<u8>, timestamp: u64, sequence: u32) -> Seq<u8> {
    merchant + be_bytes(timestamp as nat, 8) + be_bytes(sequence as nat, 4)
}

/// The identifier of the invoice that `merchant` opens in the call with the
/// given timestamp and sequence number.
pub open spec fn invoice_id_of(merchant: Seq<u8>, timestamp: u64, sequence: u32) -> Seq<u8> {
    sha256_of(id_preimage(merchant, timestamp, sequence))
}

/// The bytes that [`generate_invoice_id`] hashes.
pub fn invoice_id_preimage(merchant: &Identity, timestamp: u64, sequence: u32) -> (preimage: Vec<u8>)
    ensures
        preimage@ == id_preimage(merchant@, timestamp, sequence),
        preimage@.len() == merchant@.len() + 12,
        preimage@.len() <= IDENTITY_MAX_LEN + 12,
{
    let mut preimage: Vec<u8> = Vec::new();
    append_bytes(&mut preimage, merchant.as_bytes());
    append_be(&mut preimage, timestamp, 8);
    append_be(&mut preimage, sequence as u64, 4);
    proof {
        lemma_be_bytes_len(timestamp as nat, 8);
        lemma_be_bytes_len(sequence as nat, 4);
        assert(preimage@ =~= id_preimage(merchant@, timestamp, sequence));
    }
    preimage
}

/// The identifier of the invoice that `merchant` opens in the call with the
/// given timestamp and sequence number.
pub fn generate_invoice_id(merchant: &Identity, timestamp: u64, sequence: u32) -> (id: InvoiceId)
    ensures
        id@ == invoice_id_of(merchant@, timestamp, sequence),
{
    let preimage = invoice_id_preimage(merchant, timestamp, sequence);
    let digest = host_sha256(&preimage);
    InvoiceId::from_bytes(digest).unwrap()
}

/// The hashed bytes determine the merchant, the timestamp and the sequence
/// number they were made from.
pub proof fn lemma_preimage_injective(
    merchant_a: Seq<u8>,
    timestamp_a: u64,
    sequence_a: u32,
    merchant_b: Seq<u8>,
    timestamp_b: u64,
    sequence_b: u32,
)
    requires
        id_preimage(merchant_a, timestamp_a, sequence_a) == id_preimage(
            merchant_b,
            timestamp_b,
            sequence_b,
        ),
    ensures
        merchant_a == merchant_b,
        timestamp_a == timestamp_b,
        sequence_a == sequence_b,
{
    let pa = id_preimage(merchant_a, timestamp_a, sequence_a);
    let pb = id_preimage(merchant_b, timestamp_b, sequence_b);
    let ta = be_bytes(timestamp_a as nat, 8);
    let tb = be_bytes(timestamp_b as nat, 8);
    let sa = be_bytes(sequence_a as nat, 4);
    let sb = be_bytes(sequence_b as nat, 4);
    lemma_be_bytes_len(timestamp_a as nat, 8);
    lemma_be_bytes_len(timestamp_b as nat, 8);
    lemma_be_bytes_len(sequence_a as nat, 4);
    lemma_be_bytes_len(sequence_b as nat, 4);
    assert(pa.len() == merchant_a.len() + 12);
    assert(pb.len() == merchant_b.len() + 12);
    let n = merchant_a.len() as int;
    assert(merchant_a =~= pa.subrange(0, n));
    assert(merchant_b =~= pb.subrange(0, n));
    assert(ta =~= pa.subrange(n, n + 8));
    assert(tb =~= pb.subrange(n, n + 8));
    assert(sa =~= pa.subrange(n + 8, n + 12));
    assert(sb =~= pb.subrange(n + 8, n + 12));
    lemma_u64_fits(timestamp_a);
    lemma_u64_fits(timestamp_b);
    lemma_u32_fits(sequence_a);
    lemma_u32_fits(sequence_b);
    lemma_be_bytes_injective(timestamp_a as nat, timestamp_b as nat, 8);
    lemma_be_bytes_injective(sequence_a as nat, sequence_b as nat, 4);
}

/// Two invoices that one merchant opens at one timestamp under different
/// sequence numbers are hashed from different bytes. Their identifiers differ
/// unless SHA-256 collides on those two inputs.
pub proof fn lemma_sequence_separates_ids(
    merchant: Seq<u8>,
    timestamp: u64,
    sequence_a: u32,
    sequence_b: u32,
)
    requires
        sequence_a != sequence_b,
    ensures
        id_preimage(merchant, timestamp, sequence_a) != id_preimage(merchant, timestamp, sequence_b),
        invoice_id_of(merchant, timestamp, sequence_a) != invoice_id_of(
            merchant,
            timestamp,
            sequence_b,
        ) || collide(
            id_preimage(merchant, timestamp, sequence_a),
            id_preimage(merchant, timestamp, sequence_b),
        ),
{
    if id_preimage(merchant, timestamp, sequence_a) == id_preimage(merchant, timestamp, sequence_b) {
        lemma_preimage_injective(merchant, timestamp, sequence_a, merchant, timestamp, sequence_b);
    }
}

} // verus!
