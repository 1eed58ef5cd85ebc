//! Legacy transactions: checking and decoding the caller's hex fields, and
//! signing with a chain-id-bound (EIP-155) signature.
use vstd::prelude::*;
use ethers::signers::Signer;
use crate::codec::{
    all_hex, big_endian_value, hex_decode, hex_number, hex_pairs, strip_hex_prefix,
    strip_prefix_0x,
};

verus! {

/// Largest chain id whose EIP-155 `v` (35 + 2 * chain id + recovery id, the
/// recovery id at most 3) fits in 64 bits.
pub const MAX_CHAIN_ID: u64 = 9223372036854775788;

/// The order of the secp256k1 group.
pub open spec fn secp256k1_order() -> nat {
    0xFFFF_FFFF_FFFF_FFFF_FFFF_FFFF_FFFF_FFFE * 0x1_0000_0000_0000_0000 * 0x1_0000_0000_0000_0000
        + 0xBAAE_DCE6_AF48_A03B_BFD2_5E8C_D036_4141
}

/// `b` is a big-endian secp256k1 scalar that can be a signing key.
pub open spec fn is_valid_signing_scalar(b: Seq<u8>) -> bool {
    b.len() == 32 && 0 < big_endian_value(b) && big_endian_value(b) < secp256k1_order()
}

/// A recipient field: 20 bytes as 40 hex digits, with an optional "0x".
pub open spec fn address_text_ok(s: Seq<u8>) -> bool {
    strip_hex_prefix(s).len() == 40 && all_hex(strip_hex_prefix(s))
}

/// A payload field: an even run of hex digits, with an optional "0x".
pub open spec fn bytes_text_ok(s: Seq<u8>) -> bool {
    strip_hex_prefix(s).len() % 2 == 0 && all_hex(strip_hex_prefix(s))
}

/// A 256-bit number field: up to 64 hex digits, with an optional "0x".
pub open spec fn u256_text_ok(s: Seq<u8>) -> bool {
    strip_hex_prefix(s).len() <= 64 && all_hex(strip_hex_prefix(s))
}

/// A transaction field that did not decode.
#[derive(Clone, Copy, Debug, PartialEq, Eq, Structural)]
pub enum TxField {
    To,
    Value,
    Data,
    GasPrice,
    ChainId,
}

/// The first field, in the order of the call, that does not decode.
pub open spec fn first_bad_field(
    to: Seq<u8>,
    value: Seq<u8>,
    data: Seq<u8>,
    gas_price: Seq<u8>,
    chain_id: u64,
) -> Option<TxField> {
    if !address_text_ok(to) {
        Some(TxField::To)
    } else if !u256_text_ok(value) {
        Some(TxField::Value)
    } else if !bytes_text_ok(data) {
        Some(TxField::Data)
    } else if !u256_text_ok(gas_price) {
        Some(TxField::GasPrice)
    } else if chain_id > MAX_CHAIN_ID {
        Some(TxField::ChainId)
    } else {
        None
    }
}

/// An unsigned legacy transaction. The value and gas price are 256-bit
/// numbers held big-endian.
#[derive(Clone, Debug)]
pub struct UnsignedTransaction {
    pub to: [u8; 20],
    pub value: [u8; 32],
    pub data: Vec<u8>,
    pub nonce: u64,
    pub gas_price: [u8; 32],
    pub gas_limit: u64,
    pub chain_id: u64,
}

/// The RLP encoding of the legacy transaction with these fields, signed by
/// `secret` with `v` bound to `chain_id`; `None` where the signer fails on them.
pub uninterp spec fn signed_legacy_rlp(
    secret: Seq<u8>,
    to: Seq<u8>,
    value: Seq<u8>,
    data: Seq<u8>,
    nonce: nat,
    gas_price: Seq<u8>,
    gas_limit: nat,
    chain_id: nat,
) -> Option<Seq<u8>>;

/// The signed encoding of `tx` under `secret`, or `None` where signing fails.
pub open spec fn signed_encoding(secret: Seq<u8>, tx: UnsignedTransaction) -> Option<Seq<u8>> {
    signed_legacy_rlp(
        secret,
        tx.to@,
        tx.value@,
        tx.data@,
        tx.nonce as nat,
        tx.gas_price@,
        tx.gas_limit as nat,
        tx.chain_id as nat,
    )
}

/// Relies on ethers' `U256::from_str_radix` with radix 16 (uint's `FromStr`):
/// it drops one leading "0x", takes at most 64 hex digits of either case
/// (none reads as zero) and fails on anything else; `to_big_endian` then
/// writes the number's 32 bytes.
#[verifier::external_body]
fn u256_from_hex(s: &[u8]) -> (r: Option<[u8; 32]>)
    ensures
        r is Some <==> u256_text_ok(s@),
        r matches Some(b) ==> big_endian_value(b@) == hex_number(strip_hex_prefix(s@)),
{
    let text = std::str::from_utf8(s).ok()?;
    let v = ethers::types::U256::from_str_radix(text, 16).ok()?;
    let mut out = [0u8; 32];
    v.to_big_endian(&mut out);
    Some(out)
}

/// Relies on k256's `SigningKey::from_bytes`: it accepts exactly the
/// big-endian scalars from 1 to n - 1.
#[verifier::external_body]
fn signing_key_accepts(secret: &[u8; 32]) -> (r: bool)
    ensures
        r == is_valid_signing_scalar(secret@),
{
    k256::ecdsa::SigningKey::from_bytes(generic_array::GenericArray::from_slice(secret)).is_ok()
}

/// Relies on k256's `SigningKey::random` drawing from rand's `OsRng`, and on
/// `to_bytes`: a random nonzero scalar below n, big-endian.
#[verifier::external_body]
pub(crate) fn random_signing_secret() -> (r: [u8; 32])
    ensures
        is_valid_signing_scalar(r@),
{
    k256::ecdsa::SigningKey::random(&mut rand::rngs::OsRng).to_bytes().into()
}

/// Relies on ethers: `LocalWallet` from the k256 key with the chain id,
/// `sign_transaction_sync` (RFC 6979 without added entropy, so whether it
/// succeeds and what it gives depend on the arguments alone) on the
/// `TransactionRequest` of these fields, and `rlp_signed`. The chain id bound
/// keeps its `v` arithmetic from overflowing.
#[verifier::external_body]
fn sign_legacy(secret: &[u8; 32], tx: &UnsignedTransaction) -> (r: Option<Vec<u8>>)
    requires
        is_valid_signing_scalar(secret@),
        tx.chain_id <= MAX_CHAIN_ID,
    ensures
        r is Some <==> signed_legacy_rlp(
            secret@,
            tx.to@,
            tx.value@,
            tx.data@,
            tx.nonce as nat,
            tx.gas_price@,
            tx.gas_limit as nat,
            tx.chain_id as nat,
        ) is Some,
        r matches Some(b) ==> signed_legacy_rlp(
            secret@,
            tx.to@,
            tx.value@,
            tx.data@,
            tx.nonce as nat,
            tx.gas_price@,
            tx.gas_limit as nat,
            tx.chain_id as nat,
        ) == Some(b@),
{
    let key = k256::ecdsa::SigningKey::from_bytes(generic_array::GenericArray::from_slice(secret)).ok()?;
    let wallet = ethers::signers::LocalWallet::from(key).with_chain_id(tx.chain_id);
    let request = ethers::types::TransactionRequest::new().to(ethers::types::Address::from(tx.to))
        .value(ethers::types::U256::from_big_endian(&tx.value)).data(tx.data.clone()).nonce(tx.nonce)
        .gas_price(ethers::types::U256::from_big_endian(&tx.gas_price)).gas(tx.gas_limit);
    let signature = wallet.sign_transaction_sync(&request.clone().into()).ok()?;
    Some(request.rlp_signed(&signature).to_vec())
}

/// The 20 bytes of `v` as an array.
fn address_array(v: &Vec<u8>) -> (r: [u8; 20])
    requires
        v@.len() == 20,
    ensures
        r@ == v@,
{
    let mut a = [0u8; 20];
    let mut i: usize = 0;
    while i < 20
        invariant
            i <= 20,
            v@.len() == 20,
            forall|j: int| 0 <= j < i ==> a@[j] == v@[j],
        decreases 20 - i,
    {
        a[i] = v[i];
        i = i + 1;
    }
    assert(a@ =~= v@);
    a
}

/// Checks and decodes the caller's fields into a transaction. Each hex field
/// may start with "0x"; the first field that does not decode is reported,
/// and no transaction is made.
pub fn assemble_transaction(
    to: &[u8],
    value_hex: &[u8],
    data_hex: &[u8],
    nonce: u64,
    gas_price_hex: &[u8],
    gas_limit: u64,
    chain_id: u64,
) -> (r: Result<UnsignedTransaction, TxField>)
    ensures
        r is Err <==> first_bad_field(to@, value_hex@, data_hex@, gas_price_hex@, chain_id) is Some,
        r matches Err(e) ==> first_bad_field(to@, value_hex@, data_hex@, gas_price_hex@, chain_id)
            == Some(e),
        r matches Ok(tx) ==> {
            &&& tx.to@ == hex_pairs(strip_hex_prefix(to@))
            &&& big_endian_value(tx.value@) == hex_number(strip_hex_prefix(value_hex@))
            &&& tx.data@ == hex_pairs(strip_hex_prefix(data_hex@))
            &&& tx.nonce == nonce
            &&& big_endian_value(tx.gas_price@) == hex_number(strip_hex_prefix(gas_price_hex@))
            &&& tx.gas_limit == gas_limit
            &&& tx.chain_id == chain_id
        },
{
    let to_bytes = match hex_decode(strip_prefix_0x(to)) {
        Some(b) => b,
        None => { return Err(TxField::To); },
    };
    if to_bytes.len() != 20 {
        return Err(TxField::To);
    }
    let value = match u256_from_hex(value_hex) {
        Some(v) => v,
        None => { return Err(TxField::Value); },
    };
    let data = match hex_decode(strip_prefix_0x(data_hex)) {
        Some(b) => b,
        None => { return Err(TxField::Data); },
    };
    let gas_price = match u256_from_hex(gas_price_hex) {
        Some(v) => v,
        None => { return Err(TxField::GasPrice); },
    };
    if chain_id > MAX_CHAIN_ID {
        return Err(TxField::ChainId);
    }
    Ok(UnsignedTransaction {
        to: address_array(&to_bytes),
        value,
        data,
        nonce,
        gas_price,
        gas_limit,
        chain_id,
    })
}

/// Whether `secret` can be used as a signing key.
pub fn is_signing_secret(secret: &[u8; 32]) -> (r: bool)
    ensures
        r == is_valid_signing_scalar(secret@),
{
    signing_key_accepts(secret)
}

/// Signs `tx` with `secret` and returns its signed encoding, or `None` where
/// the signer fails.
pub fn sign_transaction(secret: &[u8; 32], tx: &UnsignedTransaction) -> (r: Option<Vec<u8>>)
    requires
        is_valid_signing_scalar(secret@),
        tx.chain_id <= MAX_CHAIN_ID,
    ensures
        r is Some <==> signed_encoding(secret@, *tx) is Some,
        r matches Some(b) ==> signed_encoding(secret@, *tx) == Some(b@),
{
    sign_legacy(secret, tx)
}

} // verus!
