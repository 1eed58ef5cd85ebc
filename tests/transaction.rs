use rust_signer::{assemble_transaction, is_signing_secret, strip_prefix_0x, TxField, MAX_CHAIN_ID};

const ZERO_TO: &[u8] = b"0x0000000000000000000000000000000000000000";

#[test]
fn assemble_decodes_each_field() {
    let tx = assemble_transaction(
        b"0x00112233445566778899AABBCCDDEEFF00112233",
        b"0x1bc16d674ec80000",
        b"deadBEEF",
        5,
        b"3b9aca00",
        21000,
        1,
    )
    .unwrap();
    assert_eq!(tx.to[0], 0x00);
    assert_eq!(tx.to[1], 0x11);
    assert_eq!(tx.to[10], 0xaa);
    assert_eq!(tx.to[19], 0x33);
    let mut value = [0u8; 32];
    value[24..].copy_from_slice(&[0x1b, 0xc1, 0x6d, 0x67, 0x4e, 0xc8, 0x00, 0x00]);
    assert_eq!(tx.value, value);
    assert_eq!(tx.data, vec![0xde, 0xad, 0xbe, 0xef]);
    assert_eq!(tx.nonce, 5);
    let mut gas_price = [0u8; 32];
    gas_price[28..].copy_from_slice(&[0x3b, 0x9a, 0xca, 0x00]);
    assert_eq!(tx.gas_price, gas_price);
    assert_eq!(tx.gas_limit, 21000);
    assert_eq!(tx.chain_id, 1);
}

#[test]
fn odd_length_number_and_empty_fields() {
    let tx = assemble_transaction(ZERO_TO, b"0x", b"0x", 0, b"0x1", 21000, 1).unwrap();
    assert_eq!(tx.value, [0u8; 32]);
    assert!(tx.data.is_empty());
    assert_eq!(tx.gas_price[31], 1);
    assert_eq!(tx.gas_price[..31], [0u8; 31]);
}

#[test]
fn non_hex_value_is_rejected() {
    let r = assemble_transaction(ZERO_TO, b"xyz", b"", 0, b"1", 21000, 1);
    assert_eq!(r.unwrap_err(), TxField::Value);
}

#[test]
fn wrong_length_address_is_rejected() {
    let r = assemble_transaction(b"0x00000000000000000000000000000000000000", b"0", b"", 0, b"1", 21000, 1);
    assert_eq!(r.unwrap_err(), TxField::To);
    let r = assemble_transaction(b"0x000000000000000000000000000000000000000000", b"0", b"", 0, b"1", 21000, 1);
    assert_eq!(r.unwrap_err(), TxField::To);
    let r = assemble_transaction(b"0x000000000000000000000000000000000000000g", b"0", b"", 0, b"1", 21000, 1);
    assert_eq!(r.unwrap_err(), TxField::To);
}

#[test]
fn bad_data_and_gas_price_are_rejected() {
    let r = assemble_transaction(ZERO_TO, b"0", b"0x123", 0, b"1", 21000, 1);
    assert_eq!(r.unwrap_err(), TxField::Data);
    let r = assemble_transaction(ZERO_TO, b"0", b"", 0, b"0xzz", 21000, 1);
    assert_eq!(r.unwrap_err(), TxField::GasPrice);
    let long = [b'f'; 65];
    let r = assemble_transaction(ZERO_TO, &long, b"", 0, b"1", 21000, 1);
    assert_eq!(r.unwrap_err(), TxField::Value);
    let max = [b'f'; 64];
    let tx = assemble_transaction(ZERO_TO, &max, b"", 0, b"1", 21000, 1).unwrap();
    assert_eq!(tx.value, [0xffu8; 32]);
}

#[test]
fn first_bad_field_is_reported() {
    let r = assemble_transaction(b"0x12", b"xyz", b"0x1", 0, b"q", 21000, 1);
    assert_eq!(r.unwrap_err(), TxField::To);
}

#[test]
fn chain_id_bound() {
    assert!(assemble_transaction(ZERO_TO, b"0", b"", 0, b"1", 21000, MAX_CHAIN_ID).is_ok());
    let r = assemble_transaction(ZERO_TO, b"0", b"", 0, b"1", 21000, MAX_CHAIN_ID + 1);
    assert_eq!(r.unwrap_err(), TxField::ChainId);
}

#[test]
fn prefix_is_stripped_once() {
    assert_eq!(strip_prefix_0x(b"0xab"), b"ab");
    assert_eq!(strip_prefix_0x(b"ab"), b"ab");
    assert_eq!(strip_prefix_0x(b"0x0xab"), b"0xab");
}

#[test]
fn signing_secret_range() {
    assert!(!is_signing_secret(&[0u8; 32]));
    assert!(is_signing_secret(&[1u8; 32]));
    assert!(!is_signing_secret(&[0xffu8; 32]));
    let mut order = [0xffu8; 32];
    order[15] = 0xfe;
    order[16..].copy_from_slice(&[
        0xba, 0xae, 0xdc, 0xe6, 0xaf, 0x48, 0xa0, 0x3b, 0xbf, 0xd2, 0x5e, 0x8c, 0xd0, 0x36, 0x41, 0x41,
    ]);
    assert!(!is_signing_secret(&order));
    let mut below = order;
    below[31] = 0x40;
    assert!(is_signing_secret(&below));
}
