//! A key vault that keeps a 32-byte signing secret sealed behind a password,
//! and a signer for legacy chain-id-bound transactions built on it.
mod boundary;
mod codec;
mod transaction;
mod vault;

pub use boundary::{
    generate_key_file, key_file_name, rust_lib_health_check, sign_and_write, sign_evm_transaction,
    write_terminated, STATUS_ALREADY_EXISTS, STATUS_BAD_IDENTIFIER, STATUS_BAD_INPUT,
    STATUS_BAD_PASSWORD, STATUS_BUFFER_TOO_SMALL, STATUS_ENCRYPT_FAILED, STATUS_INTERNAL_FAULT,
    STATUS_LOAD_FAILED, STATUS_SERIALIZE_FAILED, STATUS_SIGN_FAILED, STATUS_STORAGE_PATH_FAILED,
    STATUS_WRITE_FAILED,
};
pub use codec::{copy_bytes, strip_prefix_0x};
pub use transaction::{
    assemble_transaction, is_signing_secret, sign_transaction, TxField, UnsignedTransaction,
    MAX_CHAIN_ID,
};
pub use vault::{
    decode_record, derive_encryption_key, encode_record, encrypt_pk_and_prepare_file_data,
    load_and_decrypt_pk, open_with_key, seal_secret, seal_with_key, EncryptedKeyFile,
    EncryptedKeyRecord, VaultError, ARGON2_ITERATIONS, ARGON2_MEMORY_KIB, ARGON2_PARALLELISM,
    MAX_PASSWORD_LEN, NONCE_LEN, SALT_LEN, SECRET_LEN, TAG_LEN,
};
