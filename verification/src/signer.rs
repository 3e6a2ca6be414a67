//! Deterministic signing of one candidate: the template and one fee pair are
//! encoded as a typed, chain-scoped transaction and signed with the held key.

use vstd::prelude::*;
use ethers_core::types::transaction::eip1559::Eip1559TransactionRequest;
use ethers_core::types::transaction::eip2718::TypedTransaction;
use ethers_signers::LocalWallet;

use crate::digest::keccak256_of;
use crate::tx::{FeeCandidate, SignError, SignedCandidate, TxTemplate};

verus! {

/// The wire-encoded signed transaction that the signer produces from a key,
/// a template and one fee pair. Signing is deterministic, so the bytes are a
/// function of these inputs alone.
pub uninterp spec fn signed_tx_bytes_of(
    key: Seq<u8>,
    payload: Seq<u8>,
    nonce: u64,
    gas_limit: u64,
    chain_id: u64,
    max_fee_per_gas: u64,
    max_priority_fee_per_gas: u64,
) -> Seq<u8>;

/// Whether the signer accepts a key, a template and one fee pair at all.
/// Signing is deterministic, so success too is a function of these inputs
/// alone.
pub uninterp spec fn sign_accepts_of(
    key: Seq<u8>,
    payload: Seq<u8>,
    nonce: u64,
    gas_limit: u64,
    chain_id: u64,
    max_fee_per_gas: u64,
    max_priority_fee_per_gas: u64,
) -> bool;

/// The integer value of a big-endian byte string.
pub open spec fn be_value_of(b: Seq<u8>) -> int
    decreases b.len(),
{
    if b.len() == 0 {
        0
    } else {
        be_value_of(b.drop_last()) * 256 + b.last()
    }
}

/// A 32-byte private key is a valid signing key exactly when its value is a
/// nonzero scalar below the order of the secp256k1 group.
pub open spec fn key_scalar_valid(key: Seq<u8>) -> bool {
    0 < be_value_of(key) < 0xFFFFFFFFFFFFFFFFFFFFFFFFFFFFFFFEBAAEDCE6AF48A03BBFD25E8CD0364141
}

/// The signed bytes for `template` under `fee`, signed with `key`.
pub open spec fn spec_signed_bytes(key: Seq<u8>, template: TxTemplate, fee: FeeCandidate) -> Seq<
    u8,
> {
    signed_tx_bytes_of(
        key,
        template.payload@,
        template.nonce,
        template.gas_limit,
        template.chain_id,
        fee.max_fee_per_gas,
        fee.max_priority_fee_per_gas,
    )
}

/// The hash of the candidate: the keccak-256 digest of its signed bytes.
pub open spec fn spec_signed_hash(key: Seq<u8>, template: TxTemplate, fee: FeeCandidate) -> Seq<
    u8,
> {
    keccak256_of(spec_signed_bytes(key, template, fee))
}

/// Whether the signer accepts `template` with `fee` under `key`.
pub open spec fn spec_sign_accepts(key: Seq<u8>, template: TxTemplate, fee: FeeCandidate) -> bool {
    sign_accepts_of(
        key,
        template.payload@,
        template.nonce,
        template.gas_limit,
        template.chain_id,
        fee.max_fee_per_gas,
        fee.max_priority_fee_per_gas,
    )
}

/// Relies on ethers: `Wallet::from_bytes` takes exactly 32 key bytes (any
/// other length asserts inside) and fails exactly on a value that is not a
/// nonzero scalar below the secp256k1 group order, which is `InvalidKey`;
/// `sign_transaction_sync` signs the assembled EIP-1559 transaction
/// deterministically (ECDSA with deterministic nonces, over the
/// transaction's own chain id) and computes the EIP-155 recovery value
/// 35 + 2 x chain id, which must fit in 64 bits; any refusal of a valid key
/// is `Rejected`. `TypedTransaction::rlp_signed` encodes the signed
/// transaction for the wire, and `TypedTransaction::hash` is the keccak-256
/// digest of those bytes.
#[verifier::external_body]
fn sign_eip1559(key: &Vec<u8>, template: &TxTemplate, fee: &FeeCandidate) -> (r: Result<
    SignedCandidate,
    SignError,
>)
    requires
        key@.len() == 32,
        2 * template.chain_id + 36 <= u64::MAX,
    ensures
        r is Ok <==> sign_accepts_of(
            key@,
            template.payload@,
            template.nonce,
            template.gas_limit,
            template.chain_id,
            fee.max_fee_per_gas,
            fee.max_priority_fee_per_gas,
        ),
        r matches Err(e) ==> (e == SignError::InvalidKey <==> !key_scalar_valid(key@)),
        r matches Ok(c) ==> {
            &&& c.bytes@ == signed_tx_bytes_of(
                key@,
                template.payload@,
                template.nonce,
                template.gas_limit,
                template.chain_id,
                fee.max_fee_per_gas,
                fee.max_priority_fee_per_gas,
            )
            &&& c.hash@ == keccak256_of(c.bytes@)
            &&& c.hash@.len() == 32
            &&& c.max_fee_per_gas == fee.max_fee_per_gas
        },
{
    let wallet = LocalWallet::from_bytes(key.as_slice()).map_err(|_| SignError::InvalidKey)?;
    let tx = Eip1559TransactionRequest::new().data(template.payload.clone()).nonce(template.nonce)
        .gas(template.gas_limit).chain_id(template.chain_id)
        .max_fee_per_gas(fee.max_fee_per_gas)
        .max_priority_fee_per_gas(fee.max_priority_fee_per_gas);
    let typed = TypedTransaction::Eip1559(tx);
    let sig = wallet.sign_transaction_sync(&typed).map_err(|_| SignError::Rejected)?;
    let hash: [u8; 32] = typed.hash(&sig).into();
    let bytes = typed.rlp_signed(&sig).to_vec();
    Ok(SignedCandidate { bytes, hash: hash.to_vec(), max_fee_per_gas: fee.max_fee_per_gas })
}

/// Signs one candidate. Deterministic: the same key, template and fee always
/// give the same bytes, the hash is always the digest of those bytes, and
/// whether signing succeeds depends on the same inputs alone. A 32-byte key
/// that is not a valid scalar is reported as `InvalidKey`; any other refusal
/// as `Rejected`.
pub fn sign_candidate(key: &Vec<u8>, template: &TxTemplate, fee: &FeeCandidate) -> (r: Result<
    SignedCandidate,
    SignError,
>)
    requires
        key@.len() == 32,
        2 * template.chain_id + 36 <= u64::MAX,
    ensures
        r is Ok <==> spec_sign_accepts(key@, *template, *fee),
        r matches Err(e) ==> (e == SignError::InvalidKey <==> !key_scalar_valid(key@)),
        r matches Ok(c) ==> {
            &&& c.wf()
            &&& c.bytes@ == spec_signed_bytes(key@, *template, *fee)
            &&& c.hash@ == spec_signed_hash(key@, *template, *fee)
            &&& c.max_fee_per_gas == fee.max_fee_per_gas
        },
{
    sign_eip1559(key, template, fee)
}

} // verus!
