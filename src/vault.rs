//! The sealed key record: a password-derived key (Argon2id), authenticated
//! encryption of the 32-byte secret (AES-256-GCM), and the record's text form.
use vstd::prelude::*;
use vstd::string::StringSliceAdditionalSpecFns;
use aes_gcm::aead::Aead;
use aes_gcm::KeyInit;
use rand::RngCore;
use crate::codec::{copy_bytes, base64_text, base64_encode, base64_decode};

verus! {

/// Argon2 memory cost, in KiB (64 MiB).
pub const ARGON2_MEMORY_KIB: u32 = 65536;
/// Argon2 passes over memory.
pub const ARGON2_ITERATIONS: u32 = 4;
/// Argon2 lanes.
pub const ARGON2_PARALLELISM: u32 = 2;
/// Bytes of salt in a record.
pub const SALT_LEN: usize = 16;
/// Bytes of nonce in a record.
pub const NONCE_LEN: usize = 12;
/// Bytes of a secret.
pub const SECRET_LEN: usize = 32;
/// Bytes of the authentication tag after the ciphertext.
pub const TAG_LEN: usize = 16;
/// Longest password, in bytes, that the key derivation takes.
pub const MAX_PASSWORD_LEN: usize = 0xFFFF_FFFF;

/// Why a record could not be made or opened.
#[derive(Clone, Copy, Debug, PartialEq, Eq, Structural)]
pub enum VaultError {
    /// A field of the record is not valid base64, or has the wrong length.
    Format,
    /// The password could not be turned into a key.
    Derivation,
    /// The cipher refused to encrypt.
    Encryption,
    /// The tag did not verify: wrong password, corruption or tampering.
    Authentication,
}

/// The record as it is persisted: each field is base64 text.
#[derive(Clone, Debug)]
pub struct EncryptedKeyFile {
    pub salt: String,
    pub nonce: String,
    pub ciphertext: String,
}

/// The three texts of a persisted record.
pub struct KeyFileView {
    pub salt: Seq<char>,
    pub nonce: Seq<char>,
    pub ciphertext: Seq<char>,
}

impl View for EncryptedKeyFile {
    type V = KeyFileView;

    open spec fn view(&self) -> KeyFileView {
        KeyFileView { salt: self.salt@, nonce: self.nonce@, ciphertext: self.ciphertext@ }
    }
}

/// The record with its fields decoded to bytes.
#[derive(Clone, Debug)]
pub struct EncryptedKeyRecord {
    pub salt: Vec<u8>,
    pub nonce: Vec<u8>,
    pub ciphertext: Vec<u8>,
}

/// The key that Argon2id (version 0x13, 32-byte output) derives from
/// `password` and `salt` under the given costs.
pub uninterp spec fn argon2id_key(
    password: Seq<u8>,
    salt: Seq<u8>,
    m_cost: nat,
    t_cost: nat,
    p_cost: nat,
) -> Seq<u8>;

/// What AES-256-GCM without associated data makes of `plaintext`:
/// the ciphertext followed by the 16-byte tag.
pub uninterp spec fn aes256gcm_sealed(key: Seq<u8>, nonce: Seq<u8>, plaintext: Seq<u8>) -> Seq<u8>;

/// The vault's key for `password` and `salt`, at the fixed cost profile.
pub open spec fn derived_key(password: Seq<u8>, salt: Seq<u8>) -> Seq<u8> {
    argon2id_key(password, salt, 65536, 4, 2)
}

/// Text form of a record made of these bytes.
pub open spec fn encoded_file(salt: Seq<u8>, nonce: Seq<u8>, ciphertext: Seq<u8>) -> KeyFileView {
    KeyFileView {
        salt: base64_text(salt),
        nonce: base64_text(nonce),
        ciphertext: base64_text(ciphertext),
    }
}

/// The text record that seals `secret` under `password` with this salt and nonce.
pub open spec fn sealed_file(
    secret: Seq<u8>,
    password: Seq<u8>,
    salt: Seq<u8>,
    nonce: Seq<u8>,
) -> KeyFileView {
    encoded_file(salt, nonce, aes256gcm_sealed(derived_key(password, salt), nonce, secret))
}

/// `f` decodes to a salt and a nonce of the right lengths and some ciphertext.
pub open spec fn well_formed_file(f: KeyFileView) -> bool {
    exists|salt: Seq<u8>, nonce: Seq<u8>, ct: Seq<u8>|
        salt.len() == SALT_LEN && nonce.len() == NONCE_LEN && f == #[trigger] encoded_file(
            salt,
            nonce,
            ct,
        )
}

/// `f` decodes to a salt, nonce and ciphertext of the lengths that sealing
/// a secret gives: 16, 12, and 32 plus the 16-byte tag.
pub open spec fn has_record_lengths(f: KeyFileView) -> bool {
    exists|salt: Seq<u8>, nonce: Seq<u8>, ct: Seq<u8>|
        salt.len() == SALT_LEN && nonce.len() == NONCE_LEN && ct.len() == SECRET_LEN + TAG_LEN
            && f == #[trigger] encoded_file(salt, nonce, ct)
}

/// `f` is `secret` sealed under `password`, for some salt and nonce.
pub open spec fn file_holds(f: KeyFileView, password: Seq<u8>, secret: Seq<u8>) -> bool {
    &&& secret.len() == SECRET_LEN
    &&& password.len() <= MAX_PASSWORD_LEN
    &&& exists|salt: Seq<u8>, nonce: Seq<u8>|
        salt.len() == SALT_LEN && nonce.len() == NONCE_LEN && f == #[trigger] sealed_file(
            secret,
            password,
            salt,
            nonce,
        )
}

/// Relies on argon2's `Params::new`, `Argon2::new` (Argon2id, version 0x13)
/// and `hash_password_into` with a 32-byte output. At the vault's costs the
/// parameters are valid, and the hash fails only on a password longer than
/// `u32::MAX` bytes or a salt outside 8 to `u32::MAX` bytes.
#[verifier::external_body]
fn argon2id_hash(password: &[u8], salt: &[u8], m_cost: u32, t_cost: u32, p_cost: u32) -> (r: Option<[u8; 32]>)
    requires
        m_cost == ARGON2_MEMORY_KIB,
        t_cost == ARGON2_ITERATIONS,
        p_cost == ARGON2_PARALLELISM,
    ensures
        r matches Some(k) ==> k@ == argon2id_key(password@, salt@, m_cost as nat, t_cost as nat, p_cost as nat),
        r is Some <==> (password@.len() <= 0xFFFF_FFFF && 8 <= salt@.len() <= 0xFFFF_FFFF),
{
    let params = argon2::Params::new(m_cost, t_cost, p_cost, Some(32)).ok()?;
    let ctx = argon2::Argon2::new(argon2::Algorithm::Argon2id, argon2::Version::V0x13, params);
    let mut out = [0u8; 32];
    ctx.hash_password_into(password, salt, &mut out).ok()?;
    Some(out)
}

/// Relies on aes_gcm's `Aes256Gcm::encrypt` with no associated data; it
/// appends a 16-byte tag and fails only on a plaintext over 2^36 bytes.
#[verifier::external_body]
fn aes_gcm_encrypt(key: &[u8; 32], nonce: &[u8], plaintext: &[u8]) -> (r: Option<Vec<u8>>)
    requires
        nonce@.len() == 12,
    ensures
        r matches Some(c) ==> c@ == aes256gcm_sealed(key@, nonce@, plaintext@),
        r matches Some(c) ==> c@.len() == plaintext@.len() + 16,
        plaintext@.len() <= 0x10_0000_0000 ==> r is Some,
{
    let cipher = aes_gcm::Aes256Gcm::new(aes_gcm::Key::<aes_gcm::Aes256Gcm>::from_slice(key));
    cipher.encrypt(aes_gcm::Nonce::from_slice(nonce), plaintext).ok()
}

/// Relies on aes_gcm's `Aes256Gcm::decrypt` with no associated data: it
/// returns the plaintext only when the tag verifies, that is when encrypting
/// that plaintext with the same key and nonce gives `ciphertext` back.
#[verifier::external_body]
fn aes_gcm_decrypt(key: &[u8; 32], nonce: &[u8], ciphertext: &[u8]) -> (r: Option<Vec<u8>>)
    requires
        nonce@.len() == 12,
    ensures
        r matches Some(p) ==> aes256gcm_sealed(key@, nonce@, p@) == ciphertext@,
        r matches Some(p) ==> forall|q: Seq<u8>|
            q.len() <= 0x10_0000_0000 && #[trigger] aes256gcm_sealed(key@, nonce@, q) == ciphertext@
                ==> p@ == q,
        r is None ==> forall|q: Seq<u8>|
            q.len() <= 0x10_0000_0000 ==> #[trigger] aes256gcm_sealed(key@, nonce@, q) != ciphertext@,
{
    let cipher = aes_gcm::Aes256Gcm::new(aes_gcm::Key::<aes_gcm::Aes256Gcm>::from_slice(key));
    cipher.decrypt(aes_gcm::Nonce::from_slice(nonce), ciphertext).ok()
}

/// Relies on rand's `OsRng::fill_bytes`: `n` bytes from the operating
/// system's secure source. Nothing is known of their values.
#[verifier::external_body]
fn os_random_bytes(n: usize) -> (r: Vec<u8>)
    ensures
        r@.len() == n,
{
    let mut buf = vec![0u8; n];
    rand::rngs::OsRng.fill_bytes(&mut buf);
    buf
}

/// Derives the 32-byte encryption key for `password` and `salt` with
/// Argon2id at 64 MiB, 4 passes and 2 lanes.
pub fn derive_encryption_key(password: &str, salt: &[u8]) -> (r: Result<[u8; 32], VaultError>)
    ensures
        r is Ok <==> (password.spec_bytes().len() <= MAX_PASSWORD_LEN && 8 <= salt@.len()
            <= 0xFFFF_FFFF),
        r matches Ok(k) ==> k@ == derived_key(password.spec_bytes(), salt@),
        r is Err ==> r == Err::<[u8; 32], VaultError>(VaultError::Derivation),
{
    match argon2id_hash(password.as_bytes(), salt, ARGON2_MEMORY_KIB, ARGON2_ITERATIONS, ARGON2_PARALLELISM) {
        Some(k) => Ok(k),
        None => Err(VaultError::Derivation),
    }
}

/// Encrypts `secret` under `key` with this nonce; the salt is kept beside it.
pub fn seal_with_key(secret: &[u8; 32], key: &[u8; 32], salt: &[u8], nonce: &[u8]) -> (r: Result<EncryptedKeyRecord, VaultError>)
    requires
        salt@.len() == SALT_LEN,
        nonce@.len() == NONCE_LEN,
    ensures
        r matches Ok(rec) ==> rec.salt@ == salt@ && rec.nonce@ == nonce@ && rec.ciphertext@
            == aes256gcm_sealed(key@, nonce@, secret@),
        r matches Ok(rec) ==> rec.ciphertext@.len() == SECRET_LEN + TAG_LEN,
        r is Ok,
{
    match aes_gcm_encrypt(key, nonce, secret) {
        Some(c) => Ok(EncryptedKeyRecord { salt: copy_bytes(salt), nonce: copy_bytes(nonce), ciphertext: c }),
        None => Err(VaultError::Encryption),
    }
}

/// The persisted text form of a record.
pub fn encode_record(rec: &EncryptedKeyRecord) -> (r: EncryptedKeyFile)
    ensures
        r@ == encoded_file(rec.salt@, rec.nonce@, rec.ciphertext@),
{
    EncryptedKeyFile {
        salt: base64_encode(rec.salt.as_slice()),
        nonce: base64_encode(rec.nonce.as_slice()),
        ciphertext: base64_encode(rec.ciphertext.as_slice()),
    }
}

/// Decodes the base64 fields of a persisted record and checks the salt and
/// nonce lengths.
pub fn decode_record(f: &EncryptedKeyFile) -> (r: Result<EncryptedKeyRecord, VaultError>)
    ensures
        r is Ok <==> well_formed_file(f@),
        r matches Ok(rec) ==> f@ == encoded_file(rec.salt@, rec.nonce@, rec.ciphertext@)
            && rec.salt@.len() == SALT_LEN && rec.nonce@.len() == NONCE_LEN,
        r matches Ok(rec) ==> forall|s2: Seq<u8>, n2: Seq<u8>, c2: Seq<u8>|
            f@ == #[trigger] encoded_file(s2, n2, c2) ==> s2 == rec.salt@ && n2 == rec.nonce@
                && c2 == rec.ciphertext@,
        r is Err ==> r == Err::<EncryptedKeyRecord, VaultError>(VaultError::Format),
{
    let salt = base64_decode(f.salt.as_str());
    let nonce = base64_decode(f.nonce.as_str());
    let ct = base64_decode(f.ciphertext.as_str());
    proof {
        if well_formed_file(f@) {
            lemma_well_formed_parts(f@);
        }
    }
    match (salt, nonce, ct) {
        (Some(salt), Some(nonce), Some(ct)) => {
            if salt.len() == SALT_LEN && nonce.len() == NONCE_LEN {
                assert(f@ == encoded_file(salt@, nonce@, ct@));
                assert forall|s2: Seq<u8>, n2: Seq<u8>, c2: Seq<u8>|
                    f@ == #[trigger] encoded_file(s2, n2, c2) implies s2 == salt@ && n2 == nonce@
                        && c2 == ct@ by {
                    assert(base64_text(s2) == f.salt@);
                    assert(base64_text(n2) == f.nonce@);
                    assert(base64_text(c2) == f.ciphertext@);
                }
                Ok(EncryptedKeyRecord { salt, nonce, ciphertext: ct })
            } else {
                Err(VaultError::Format)
            }
        },
        _ => Err(VaultError::Format),
    }
}

/// A well-formed record's three texts are the base64 of some salt, nonce and
/// ciphertext, the first two of the record's lengths.
proof fn lemma_well_formed_parts(f: KeyFileView)
    requires
        well_formed_file(f),
    ensures
        exists|s2: Seq<u8>, n2: Seq<u8>, c2: Seq<u8>|
            s2.len() == SALT_LEN && n2.len() == NONCE_LEN && #[trigger] base64_text(s2) == f.salt
                && #[trigger] base64_text(n2) == f.nonce && #[trigger] base64_text(c2) == f.ciphertext,
{
    let (s2, n2, c2) = choose|s2: Seq<u8>, n2: Seq<u8>, c2: Seq<u8>|
        s2.len() == SALT_LEN && n2.len() == NONCE_LEN && f == #[trigger] encoded_file(s2, n2, c2);
    assert(base64_text(s2) == f.salt && base64_text(n2) == f.nonce && base64_text(c2) == f.ciphertext);
}

/// The 32 bytes of `v` as an array.
fn secret_array(v: &Vec<u8>) -> (r: [u8; 32])
    requires
        v@.len() == 32,
    ensures
        r@ == v@,
{
    let mut a = [0u8; 32];
    let mut i: usize = 0;
    while i < 32
        invariant
            i <= 32,
            v@.len() == 32,
            forall|j: int| 0 <= j < i ==> a@[j] == v@[j],
        decreases 32 - i,
    {
        a[i] = v[i];
        i = i + 1;
    }
    assert(a@ =~= v@);
    a
}

/// Decrypts the secret of `rec` with `key`. It comes back only when the tag
/// verifies and the plaintext is exactly 32 bytes.
pub fn open_with_key(rec: &EncryptedKeyRecord, key: &[u8; 32]) -> (r: Result<[u8; 32], VaultError>)
    requires
        rec.nonce@.len() == NONCE_LEN,
    ensures
        r matches Ok(s) ==> aes256gcm_sealed(key@, rec.nonce@, s@) == rec.ciphertext@,
        forall|q: Seq<u8>|
            q.len() == SECRET_LEN && #[trigger] aes256gcm_sealed(key@, rec.nonce@, q) == rec.ciphertext@
                ==> (r matches Ok(s) && s@ == q),
        forall|q: Seq<u8>|
            q.len() != SECRET_LEN && q.len() <= 0x10_0000_0000 && #[trigger] aes256gcm_sealed(
                key@,
                rec.nonce@,
                q,
            ) == rec.ciphertext@ ==> r is Err,
        r is Err ==> r == Err::<[u8; 32], VaultError>(VaultError::Authentication),
{
    match aes_gcm_decrypt(key, rec.nonce.as_slice(), rec.ciphertext.as_slice()) {
        Some(p) => {
            if p.len() == SECRET_LEN {
                Ok(secret_array(&p))
            } else {
                Err(VaultError::Authentication)
            }
        },
        None => Err(VaultError::Authentication),
    }
}

/// Seals `secret` under `password` with the given salt and nonce, and
/// gives the record's text form.
pub fn seal_secret(secret: &[u8; 32], password: &str, salt: &[u8], nonce: &[u8]) -> (r: Result<EncryptedKeyFile, VaultError>)
    requires
        salt@.len() == SALT_LEN,
        nonce@.len() == NONCE_LEN,
    ensures
        r is Ok <==> password.spec_bytes().len() <= MAX_PASSWORD_LEN,
        r matches Ok(f) ==> f@ == sealed_file(secret@, password.spec_bytes(), salt@, nonce@),
        r is Ok ==> aes256gcm_sealed(derived_key(password.spec_bytes(), salt@), nonce@, secret@).len()
            == SECRET_LEN + TAG_LEN,
        r is Err ==> r == Err::<EncryptedKeyFile, VaultError>(VaultError::Derivation),
{
    let key = derive_encryption_key(password, salt)?;
    let rec = seal_with_key(secret, &key, salt, nonce)?;
    Ok(encode_record(&rec))
}

/// Seals `pk_bytes` under `master_password` with a fresh random salt and
/// nonce. Whatever they are, the record is the secret sealed under that
/// password.
pub fn encrypt_pk_and_prepare_file_data(pk_bytes: &[u8; 32], master_password: &str) -> (r: Result<EncryptedKeyFile, VaultError>)
    ensures
        r is Ok <==> master_password.spec_bytes().len() <= MAX_PASSWORD_LEN,
        r matches Ok(f) ==> file_holds(f@, master_password.spec_bytes(), pk_bytes@),
        r matches Ok(f) ==> has_record_lengths(f@),
        r is Err ==> r == Err::<EncryptedKeyFile, VaultError>(VaultError::Derivation),
{
    let salt = os_random_bytes(SALT_LEN);
    let nonce = os_random_bytes(NONCE_LEN);
    let r = seal_secret(pk_bytes, master_password, salt.as_slice(), nonce.as_slice());
    proof {
        if r is Ok {
            assert(r->Ok_0@ == sealed_file(pk_bytes@, master_password.spec_bytes(), salt@, nonce@));
            assert(r->Ok_0@ == encoded_file(
                salt@,
                nonce@,
                aes256gcm_sealed(derived_key(master_password.spec_bytes(), salt@), nonce@, pk_bytes@),
            ));
        }
    }
    r
}

/// Opens a persisted record with `master_password`: decodes it, derives the
/// key from its salt, and decrypts the secret. Bytes come back only when the
/// record is exactly that secret sealed under this password.
pub fn load_and_decrypt_pk(f: &EncryptedKeyFile, master_password: &str) -> (r: Result<[u8; 32], VaultError>)
    ensures
        r matches Ok(k) ==> file_holds(f@, master_password.spec_bytes(), k@),
        forall|s: Seq<u8>| #[trigger] file_holds(f@, master_password.spec_bytes(), s) ==> (r matches Ok(k) && k@ == s),
        forall|salt: Seq<u8>, nonce: Seq<u8>, m: Seq<u8>|
            salt.len() == SALT_LEN && nonce.len() == NONCE_LEN && m.len() != SECRET_LEN && m.len()
                <= 0x10_0000_0000 && f@ == #[trigger] sealed_file(
                m,
                master_password.spec_bytes(),
                salt,
                nonce,
            ) ==> r is Err,
        r == Err::<[u8; 32], VaultError>(VaultError::Format) <==> !well_formed_file(f@),
        r is Err ==> r != Err::<[u8; 32], VaultError>(VaultError::Encryption),
{
    let pw = Ghost(master_password.spec_bytes());
    let rec = match decode_record(f) {
        Ok(rec) => rec,
        Err(e) => {
            proof {
                assert forall|s: Seq<u8>| !#[trigger] file_holds(f@, pw@, s) by {
                    if file_holds(f@, pw@, s) {
                        lemma_holds_is_well_formed(f@, pw@, s);
                    }
                }
            }
            return Err(e);
        },
    };
    let key = derive_encryption_key(master_password, rec.salt.as_slice());
    let key = match key {
        Ok(k) => k,
        Err(e) => {
            return Err(e);
        },
    };
    let r = open_with_key(&rec, &key);
    proof {
        assert forall|s: Seq<u8>| #[trigger] file_holds(f@, pw@, s) implies (r matches Ok(k) && k@ == s) by {
            let (salt, nonce) = choose|salt: Seq<u8>, nonce: Seq<u8>|
                salt.len() == SALT_LEN && nonce.len() == NONCE_LEN && f@ == #[trigger] sealed_file(
                    s,
                    pw@,
                    salt,
                    nonce,
                );
            assert(f@ == encoded_file(salt, nonce, aes256gcm_sealed(derived_key(pw@, salt), nonce, s)));
            assert(aes256gcm_sealed(key@, rec.nonce@, s) == rec.ciphertext@);
        }
        if r is Ok {
            let k = r->Ok_0@;
            assert(f@ == sealed_file(k, pw@, rec.salt@, rec.nonce@));
        }
        assert forall|salt: Seq<u8>, nonce: Seq<u8>, m: Seq<u8>|
            salt.len() == SALT_LEN && nonce.len() == NONCE_LEN && m.len() != SECRET_LEN && m.len()
                <= 0x10_0000_0000 && f@ == #[trigger] sealed_file(m, pw@, salt, nonce) implies r is Err by {
            assert(f@ == encoded_file(salt, nonce, aes256gcm_sealed(derived_key(pw@, salt), nonce, m)));
            assert(aes256gcm_sealed(key@, rec.nonce@, m) == rec.ciphertext@);
        }
    }
    r
}

/// A record that holds a secret is well formed.
proof fn lemma_holds_is_well_formed(f: KeyFileView, password: Seq<u8>, secret: Seq<u8>)
    requires
        file_holds(f, password, secret),
    ensures
        well_formed_file(f),
{
    let (salt, nonce) = choose|salt: Seq<u8>, nonce: Seq<u8>|
        salt.len() == SALT_LEN && nonce.len() == NONCE_LEN && f == #[trigger] sealed_file(
            secret,
            password,
            salt,
            nonce,
        );
    assert(f == encoded_file(salt, nonce, aes256gcm_sealed(derived_key(password, salt), nonce, secret)));
}

/// Sealing then opening gives the secret back: the record that `seal_secret`
/// makes of `secret` under `password`, with any salt and nonce of the
/// record's lengths, is one from which that password recovers `secret`
/// (and `load_and_decrypt_pk` returns it).
pub proof fn lemma_seal_then_open(secret: Seq<u8>, password: Seq<u8>, salt: Seq<u8>, nonce: Seq<u8>)
    requires
        secret.len() == SECRET_LEN,
        password.len() <= MAX_PASSWORD_LEN,
        salt.len() == SALT_LEN,
        nonce.len() == NONCE_LEN,
    ensures
        file_holds(sealed_file(secret, password, salt, nonce), password, secret),
        well_formed_file(sealed_file(secret, password, salt, nonce)),
{
    let f = sealed_file(secret, password, salt, nonce);
    assert(f == sealed_file(secret, password, salt, nonce));
    lemma_holds_is_well_formed(f, password, secret);
}

} // verus!
