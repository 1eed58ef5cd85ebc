//! The call surface: status codes, the bounded output writer, and the order
//! in which a call loads, signs and writes.
use vstd::prelude::*;
use vstd::string::StringSliceAdditionalSpecFns;
use crate::codec::{copy_bytes, hex_encode, lower_hex};
use crate::transaction::{
    is_signing_secret, is_valid_signing_scalar, random_signing_secret, sign_transaction,
    signed_encoding, UnsignedTransaction, MAX_CHAIN_ID,
};
use crate::vault::{
    encrypt_pk_and_prepare_file_data, file_holds, has_record_lengths, load_and_decrypt_pk,
    EncryptedKeyFile,
    MAX_PASSWORD_LEN,
};

verus! {

/// Configuration missing, or the key could not be loaded, derived or decrypted.
pub const STATUS_LOAD_FAILED: i32 = -1;
/// The signer failed.
pub const STATUS_SIGN_FAILED: i32 = -2;
/// The output buffer cannot hold the result and its terminator.
pub const STATUS_BUFFER_TOO_SMALL: i32 = -3;
/// An input field is malformed.
pub const STATUS_BAD_INPUT: i32 = -4;
/// An unexpected fault was contained at the boundary.
pub const STATUS_INTERNAL_FAULT: i32 = -5;
/// The identifier is not valid text or not a safe record name.
pub const STATUS_BAD_IDENTIFIER: i32 = -11;
/// The password is not valid text.
pub const STATUS_BAD_PASSWORD: i32 = -12;
/// The new secret could not be encrypted.
pub const STATUS_ENCRYPT_FAILED: i32 = -13;
/// The record could not be serialised.
pub const STATUS_SERIALIZE_FAILED: i32 = -14;
/// The storage location could not be resolved.
pub const STATUS_STORAGE_PATH_FAILED: i32 = -15;
/// A record already exists for the identifier.
pub const STATUS_ALREADY_EXISTS: i32 = -16;
/// The record could not be written.
pub const STATUS_WRITE_FAILED: i32 = -17;

/// Liveness probe: always 0.
pub fn rust_lib_health_check() -> (r: i32)
    ensures
        r == 0,
{
    0
}

/// A byte that may stand in a record identifier: anything but a path
/// separator (`/` or backslash) or a control character.
pub open spec fn is_identifier_byte(c: u8) -> bool {
    c >= 32 && c != 47 && c != 92 && c != 127
}

/// An identifier that names a file in the store and nothing outside it:
/// not empty, neither `.` nor `..`, and no separator.
pub open spec fn is_safe_identifier(id: Seq<u8>) -> bool {
    &&& 0 < id.len()
    &&& id != seq![46u8]
    &&& id != seq![46u8, 46u8]
    &&& forall|i: int| 0 <= i < id.len() ==> #[trigger] is_identifier_byte(id[i])
}

/// The extension of a record file, ".json".
pub open spec fn record_extension() -> Seq<u8> {
    seq![46u8, 106u8, 115u8, 111u8, 110u8]
}

/// The file name of the record for `identifier`, or `None` where the
/// identifier could reach outside the store.
pub fn key_file_name(identifier: &[u8]) -> (r: Option<Vec<u8>>)
    ensures
        r is Some <==> is_safe_identifier(identifier@),
        r matches Some(n) ==> n@ == identifier@ + record_extension(),
{
    if identifier.len() == 0 {
        return None;
    }
    if identifier.len() <= 2 && identifier[0] == 46u8 && (identifier.len() == 1 || identifier[1] == 46u8) {
        assert(identifier@ =~= seq![46u8] || identifier@ =~= seq![46u8, 46u8]);
        return None;
    }
    let mut i: usize = 0;
    while i < identifier.len()
        invariant
            i <= identifier@.len(),
            forall|j: int| 0 <= j < i ==> #[trigger] is_identifier_byte(identifier@[j]),
        decreases identifier@.len() - i,
    {
        let c = identifier[i];
        if c < 32u8 || c == 47u8 || c == 92u8 || c == 127u8 {
            assert(!is_identifier_byte(identifier@[i as int]));
            return None;
        }
        i = i + 1;
    }
    let mut name = copy_bytes(identifier);
    name.push(46u8);
    name.push(106u8);
    name.push(115u8);
    name.push(111u8);
    name.push(110u8);
    assert(name@ =~= identifier@ + record_extension());
    Some(name)
}

/// Identifiers map one to one to record files: two different safe
/// identifiers never share a file name.
pub proof fn lemma_record_names_are_distinct(id1: Seq<u8>, id2: Seq<u8>)
    requires
        is_safe_identifier(id1),
        is_safe_identifier(id2),
        id1 != id2,
    ensures
        id1 + record_extension() != id2 + record_extension(),
{
    if id1 + record_extension() == id2 + record_extension() {
        assert(record_extension().len() == 5);
        assert((id1 + record_extension()).len() == id1.len() + 5);
        assert((id2 + record_extension()).len() == id2.len() + 5);
        assert(id1 =~= (id1 + record_extension()).subrange(0, id1.len() as int));
        assert(id2 =~= (id2 + record_extension()).subrange(0, id2.len() as int));
    }
}

/// The text that a signing call returns: "0x" and the lowercase hex of the
/// signed encoding.
pub open spec fn signed_tx_text(secret: Seq<u8>, tx: UnsignedTransaction) -> Seq<u8> {
    seq![48u8, 120u8] + lower_hex(signed_encoding(secret, tx)->Some_0)
}

/// `c` is a digit or a lowercase letter from `a` to `f`.
pub open spec fn is_lower_hex_byte(c: u8) -> bool {
    (48 <= c && c <= 57) || (97 <= c && c <= 102)
}

/// Shape of a signing call's output: wherever the signer succeeds, the text
/// is "0x" followed by an even number of lowercase hex digits.
pub proof fn lemma_signed_text_shape(secret: Seq<u8>, tx: UnsignedTransaction)
    requires
        signed_encoding(secret, tx) is Some,
    ensures
        signed_tx_text(secret, tx).len() >= 2,
        signed_tx_text(secret, tx)[0] == 48u8,
        signed_tx_text(secret, tx)[1] == 120u8,
        (signed_tx_text(secret, tx).len() - 2) % 2 == 0,
        forall|i: int|
            2 <= i < signed_tx_text(secret, tx).len() ==> #[trigger] is_lower_hex_byte(
                signed_tx_text(secret, tx)[i],
            ),
{
    let b = signed_encoding(secret, tx)->Some_0;
    let t = signed_tx_text(secret, tx);
    assert(t.len() == 2 + 2 * b.len());
    assert forall|i: int| 2 <= i < t.len() implies #[trigger] is_lower_hex_byte(t[i]) by {
        let k = i - 2;
        assert(t[i] == lower_hex(b)[k]);
        let byte = b[k / 2];
        assert(byte as int / 16 < 16);
        assert(byte as int % 16 < 16);
    }
}

/// `after` is `before` with `text` and a zero terminator written at its start.
pub open spec fn written_terminated(before: Seq<u8>, after: Seq<u8>, text: Seq<u8>) -> bool {
    &&& text.len() + 1 <= before.len()
    &&& after == text + seq![0u8] + before.subrange(text.len() + 1 as int, before.len() as int)
}

/// The part of a buffer of `len` bytes that a call may use: a written length
/// must be reportable as a non-negative `i32` status.
pub open spec fn usable_capacity(len: nat) -> nat {
    if len > i32::MAX {
        i32::MAX as nat
    } else {
        len
    }
}

/// `text` and its terminator fit in the usable part of a buffer of `len` bytes.
pub open spec fn fits_in(text: Seq<u8>, len: nat) -> bool {
    text.len() + 1 <= usable_capacity(len)
}

/// Writes `text` and a zero terminator at the start of `out` when both fit;
/// otherwise leaves `out` untouched.
pub fn write_terminated(out: &mut [u8], text: &[u8]) -> (r: Option<usize>)
    ensures
        r is Some <==> text@.len() + 1 <= old(out)@.len(),
        r matches Some(n) ==> n == text@.len() && written_terminated(old(out)@, final(out)@, text@),
        r is None ==> final(out)@ == old(out)@,
{
    if text.len() >= out.len() {
        return None;
    }
    let mut i: usize = 0;
    while i < text.len()
        invariant
            i <= text@.len(),
            text@.len() < out@.len(),
            out@.len() == old(out)@.len(),
            forall|j: int| 0 <= j < i ==> out@[j] == text@[j],
            forall|j: int| i <= j < out@.len() ==> out@[j] == old(out)@[j],
        decreases text@.len() - i,
    {
        out[i] = text[i];
        i = i + 1;
    }
    out[i] = 0u8;
    assert(out@ =~= text@ + seq![0u8] + old(out)@.subrange(text@.len() + 1 as int, old(out)@.len() as int));
    Some(i)
}

/// Signs `tx` with `secret` and writes the "0x" hex text of the result,
/// terminated, into `out`. Returns the text's length, -2 exactly where the
/// signer fails, or -3 exactly where the text and terminator do not fit; on
/// failure `out` is untouched.
pub fn sign_and_write(secret: &[u8; 32], tx: &UnsignedTransaction, out: &mut [u8]) -> (r: i32)
    requires
        is_valid_signing_scalar(secret@),
        tx.chain_id <= MAX_CHAIN_ID,
    ensures
        r == STATUS_SIGN_FAILED || r == STATUS_BUFFER_TOO_SMALL || r >= 0,
        r == STATUS_SIGN_FAILED <==> signed_encoding(secret@, *tx) is None,
        r == STATUS_BUFFER_TOO_SMALL <==> (signed_encoding(secret@, *tx) is Some && !fits_in(
            signed_tx_text(secret@, *tx),
            old(out)@.len(),
        )),
        r >= 0 <==> (signed_encoding(secret@, *tx) is Some && fits_in(
            signed_tx_text(secret@, *tx),
            old(out)@.len(),
        )),
        r >= 0 ==> r == signed_tx_text(secret@, *tx).len() && written_terminated(
            old(out)@,
            final(out)@,
            signed_tx_text(secret@, *tx),
        ),
        r < 0 ==> final(out)@ == old(out)@,
{
    let cap: usize = if out.len() > i32::MAX as usize {
        i32::MAX as usize
    } else {
        out.len()
    };
    let encoded = match sign_transaction(secret, tx) {
        Some(b) => b,
        None => {
            return STATUS_SIGN_FAILED;
        },
    };
    if encoded.len() >= cap {
        return STATUS_BUFFER_TOO_SMALL;
    }
    let digits = hex_encode(encoded.as_slice());
    let mut text: Vec<u8> = Vec::new();
    text.push(48u8);
    text.push(120u8);
    let mut i: usize = 0;
    while i < digits.len()
        invariant
            i <= digits@.len(),
            text@ == seq![48u8, 120u8] + digits@.subrange(0, i as int),
        decreases digits@.len() - i,
    {
        text.push(digits[i]);
        i = i + 1;
    }
    assert(text@ =~= signed_tx_text(secret@, *tx));
    if text.len() >= cap {
        return STATUS_BUFFER_TOO_SMALL;
    }
    match write_terminated(out, text.as_slice()) {
        Some(n) => n as i32,
        None => STATUS_BUFFER_TOO_SMALL,
    }
}

/// Loads the secret from the record `f` with `master_password`, checks that
/// it is a signing key, signs `tx` and writes the result into `out`.
/// -4 for a chain id beyond `MAX_CHAIN_ID`; -1 when no secret is unlocked or
/// it is not a signing key; otherwise as `sign_and_write`. On failure `out`
/// is untouched.
pub fn sign_evm_transaction(
    f: &EncryptedKeyFile,
    master_password: &str,
    tx: &UnsignedTransaction,
    out: &mut [u8],
) -> (r: i32)
    ensures
        r == STATUS_BAD_INPUT || r == STATUS_LOAD_FAILED || r == STATUS_SIGN_FAILED || r
            == STATUS_BUFFER_TOO_SMALL || r >= 0,
        r == STATUS_BAD_INPUT <==> tx.chain_id > MAX_CHAIN_ID,
        (tx.chain_id <= MAX_CHAIN_ID && forall|s: Seq<u8>|
            !file_holds(f@, master_password.spec_bytes(), s)) ==> r == STATUS_LOAD_FAILED,
        forall|s: Seq<u8>| #[trigger]
            file_holds(f@, master_password.spec_bytes(), s) && tx.chain_id <= MAX_CHAIN_ID ==> {
                &&& (r == STATUS_LOAD_FAILED <==> !is_valid_signing_scalar(s))
                &&& is_valid_signing_scalar(s) ==> (r == STATUS_SIGN_FAILED <==> signed_encoding(
                    s,
                    *tx,
                ) is None)
                &&& is_valid_signing_scalar(s) ==> (r == STATUS_BUFFER_TOO_SMALL <==> (
                signed_encoding(s, *tx) is Some && !fits_in(signed_tx_text(s, *tx), old(out)@.len())))
                &&& is_valid_signing_scalar(s) ==> (r >= 0 <==> (signed_encoding(s, *tx) is Some
                    && fits_in(signed_tx_text(s, *tx), old(out)@.len())))
                &&& r >= 0 ==> r == signed_tx_text(s, *tx).len() && written_terminated(
                    old(out)@,
                    final(out)@,
                    signed_tx_text(s, *tx),
                )
            },
        r < 0 ==> final(out)@ == old(out)@,
{
    if tx.chain_id > MAX_CHAIN_ID {
        return STATUS_BAD_INPUT;
    }
    let secret = match load_and_decrypt_pk(f, master_password) {
        Ok(s) => s,
        Err(_) => {
            return STATUS_LOAD_FAILED;
        },
    };
    if !is_signing_secret(&secret) {
        return STATUS_LOAD_FAILED;
    }
    sign_and_write(&secret, tx, out)
}

/// Makes the record of a fresh random signing secret sealed under
/// `master_password`, or -13 where it cannot be encrypted.
pub fn generate_key_file(master_password: &str) -> (r: Result<EncryptedKeyFile, i32>)
    ensures
        r is Ok <==> master_password.spec_bytes().len() <= MAX_PASSWORD_LEN,
        r matches Ok(f) ==> exists|s: Seq<u8>|
            is_valid_signing_scalar(s) && #[trigger] file_holds(f@, master_password.spec_bytes(), s),
        r matches Ok(f) ==> has_record_lengths(f@),
        r is Err ==> r == Err::<EncryptedKeyFile, i32>(STATUS_ENCRYPT_FAILED),
{
    let secret = random_signing_secret();
    let r = match encrypt_pk_and_prepare_file_data(&secret, master_password) {
        Ok(f) => Ok(f),
        Err(_) => Err(STATUS_ENCRYPT_FAILED),
    };
    proof {
        if r is Ok {
            assert(file_holds(r->Ok_0@, master_password.spec_bytes(), secret@));
        }
    }
    r
}

} // verus!
