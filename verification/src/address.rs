//! Predicting the address a contract-creation transaction would be assigned:
//! the low-order twenty bytes of the keccak-256 digest of the structured
//! encoding of (sender, nonce).

use vstd::prelude::*;

use crate::digest::{keccak256, keccak256_of};

verus! {

/// The minimal big-endian byte string of `n`: no leading zero byte, empty
/// for zero.
pub open spec fn be_bytes_min(n: nat) -> Seq<u8>
    decreases n,
{
    if n == 0 {
        Seq::empty()
    } else {
        be_bytes_min(n / 256) + seq![(n % 256) as u8]
    }
}

/// One RLP string item of a payload shorter than 56 bytes: a single byte
/// below 0x80 is its own encoding, anything else gets a one-byte header
/// holding 0x80 plus the payload length.
pub open spec fn rlp_item(payload: Seq<u8>) -> Seq<u8>
    recommends
        payload.len() < 56,
{
    if payload.len() == 1 && payload[0] < 0x80 {
        payload
    } else {
        seq![(0x80 + payload.len()) as u8] + payload
    }
}

/// The RLP encoding of the two-item list (sender, nonce): the sender's
/// twenty bytes as one string item, the nonce's minimal big-endian bytes as
/// another, under a one-byte list header.
pub open spec fn rlp_sender_nonce(sender: Seq<u8>, nonce: u64) -> Seq<u8>
    recommends
        sender.len() == 20,
{
    let payload = rlp_item(sender) + rlp_item(be_bytes_min(nonce as nat));
    seq![(0xc0 + payload.len()) as u8] + payload
}

/// Relies on rlp's `RlpStream`: it encodes a `Vec<u8>` as one RLP string
/// item, a `u64` as the string item of its minimal big-endian bytes, and a
/// two-item list under a one-byte header when the payload stays short.
#[verifier::external_body]
fn rlp_encode_sender_nonce(sender: &Vec<u8>, nonce: u64) -> (r: Vec<u8>)
    requires
        sender@.len() == 20,
    ensures
        r@ == rlp_sender_nonce(sender@, nonce),
{
    let mut stream = rlp::RlpStream::new_list(2);
    stream.append(sender);
    stream.append(&nonce);
    stream.out().to_vec()
}

/// The predicted address: the last twenty bytes of the digest of the
/// structured encoding of (sender, nonce).
pub open spec fn contract_address_of(sender: Seq<u8>, nonce: u64) -> Seq<u8> {
    keccak256_of(rlp_sender_nonce(sender, nonce)).subrange(12, 32)
}

/// Predicts the address that contract-creation semantics would assign to a
/// transaction from `sender` with `nonce`. A pure function of its inputs;
/// for display, not part of the search.
pub fn get_contract_address(sender: &Vec<u8>, nonce: u64) -> (r: Vec<u8>)
    requires
        sender@.len() == 20,
    ensures
        r@ == contract_address_of(sender@, nonce),
        r@.len() == 20,
{
    let encoded = rlp_encode_sender_nonce(sender, nonce);
    let hash = keccak256(&encoded);
    let mut out: Vec<u8> = Vec::new();
    let mut i: usize = 12;
    while i < 32
        invariant
            12 <= i <= 32,
            hash@.len() == 32,
            hash@ == keccak256_of(rlp_sender_nonce(sender@, nonce)),
            out@ == hash@.subrange(12, i as int),
        decreases 32 - i,
    {
        let byte = hash[i];
        out.push(byte);
        proof {
            assert(out@ =~= hash@.subrange(12, i + 1));
        }
        i += 1;
    }
    out
}

} // verus!
