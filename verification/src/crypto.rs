//! Credential encryption: AES-256-GCM with a fresh random nonce stored in
//! front of the ciphertext, and the key derivation from a machine seed.

use aes_gcm::aead::{Aead, KeyInit};
use rand::RngCore;
use sha2::Digest;
use vstd::prelude::*;
use vstd::utf8::encode_utf8;

verus! {

/// The largest plaintext (and associated data) that AES-GCM accepts: 2^36 bytes.
pub const AES_GCM_P_MAX: u64 = 0x10_0000_0000;

/// The length of the nonce stored in front of each ciphertext.
pub const NONCE_LEN: usize = 12;

/// The length of the authentication tag that ends each ciphertext.
pub const TAG_LEN: usize = 16;

/// The salt mixed into the key derivation.
pub const KEY_SALT: &'static str = "ai-core-chatgpt-session-v1";

/// Why encryption or decryption failed.
#[derive(Debug)]
pub enum CryptoError {
    Encrypt(String),
    Decrypt(String),
    TooShort,
}

impl CryptoError {
    /// The human-readable message of the error.
    pub fn message(&self) -> (s: String)
        ensures
            s@ == match self {
                CryptoError::Encrypt(e) => "Encryption error: "@ + e@,
                CryptoError::Decrypt(e) => "Decryption error: "@ + e@,
                CryptoError::TooShort => "Data too short"@,
            },
    {
        match self {
            CryptoError::Encrypt(e) => {
                let mut s = "Encryption error: ".to_owned();
                s.append(e.as_str());
                s
            },
            CryptoError::Decrypt(e) => {
                let mut s = "Decryption error: ".to_owned();
                s.append(e.as_str());
                s
            },
            CryptoError::TooShort => "Data too short".to_owned(),
        }
    }
}

#[verifier::external_type_specification]
#[verifier::external_body]
pub struct ExAeadError(aes_gcm::Error);

/// The AES-256-GCM sealing of a plaintext under a key and nonce: the
/// ciphertext followed by the tag (`aes_gcm::Aes256Gcm` through `Aead::encrypt`).
pub uninterp spec fn aes_gcm_encrypt(key: Seq<u8>, nonce: Seq<u8>, plaintext: Seq<u8>) -> Seq<u8>;

/// The AES-256-GCM opening of a ciphertext with its tag: the plaintext,
/// or `None` when the tag does not authenticate it (`Aead::decrypt`).
pub uninterp spec fn aes_gcm_decrypt(key: Seq<u8>, nonce: Seq<u8>, sealed: Seq<u8>) -> Option<Seq<u8>>;

/// Seals with `Aes256Gcm::new(key).encrypt(nonce, plaintext)`. Claimed:
/// success exactly when the plaintext is at most `AES_GCM_P_MAX` bytes (the
/// crate's only check), and then the output is `aes_gcm_encrypt` of the
/// arguments, 16 tag bytes longer than the plaintext.
#[verifier::external_body]
fn aes_gcm_seal(key: &[u8; 32], nonce: &[u8; 12], plaintext: &[u8]) -> (r: Result<Vec<u8>, aes_gcm::Error>)
    ensures
        (plaintext@.len() <= AES_GCM_P_MAX) == (r is Ok),
        r matches Ok(c) ==> c@ == aes_gcm_encrypt(key@, nonce@, plaintext@) && c@.len()
            == plaintext@.len() + TAG_LEN,
{
    let cipher = aes_gcm::Aes256Gcm::new(aes_gcm::Key::<aes_gcm::Aes256Gcm>::from_slice(key));
    cipher.encrypt(aes_gcm::Nonce::from_slice(nonce), plaintext)
}

/// Opens with `Aes256Gcm::new(key).decrypt(nonce, sealed)`. Claimed: the
/// outcome is `aes_gcm_decrypt` of the arguments, and what sealing a
/// plaintext of at most `AES_GCM_P_MAX` bytes under the same key and nonce
/// gave opens to that plaintext.
#[verifier::external_body]
fn aes_gcm_open(key: &[u8; 32], nonce: &[u8], sealed: &[u8]) -> (r: Result<Vec<u8>, aes_gcm::Error>)
    requires
        nonce@.len() == NONCE_LEN,
    ensures
        match r {
            Ok(p) => aes_gcm_decrypt(key@, nonce@, sealed@) == Some(p@),
            Err(_) => aes_gcm_decrypt(key@, nonce@, sealed@) is None,
        },
        r matches Err(_) ==> forall|p: Seq<u8>|
            p.len() <= AES_GCM_P_MAX ==> sealed@ != #[trigger] aes_gcm_encrypt(key@, nonce@, p),
        r matches Ok(q) ==> forall|p: Seq<u8>|
            p.len() <= AES_GCM_P_MAX && sealed@ == #[trigger] aes_gcm_encrypt(key@, nonce@, p)
                ==> q@ == p,
{
    let cipher = aes_gcm::Aes256Gcm::new(aes_gcm::Key::<aes_gcm::Aes256Gcm>::from_slice(key));
    cipher.decrypt(aes_gcm::Nonce::from_slice(nonce), sealed)
}

/// The text of an AEAD error (`aead::Error`'s `Display`, which writes a
/// fixed text). Claimed: that text, `aead::Error`.
#[verifier::external_body]
fn aead_error_text(e: &aes_gcm::Error) -> (s: String)
    ensures
        s@ == "aead::Error"@,
{
    e.to_string()
}

/// Twelve bytes from `rand::thread_rng().fill_bytes`. Nothing is claimed
/// of them.
#[verifier::external_body]
fn random_nonce() -> [u8; 12] {
    let mut n = [0u8; 12];
    rand::thread_rng().fill_bytes(&mut n);
    n
}

/// The SHA-256 digest of some bytes (`sha2::Sha256`).
pub uninterp spec fn sha256(data: Seq<u8>) -> Seq<u8>;

/// Hashes with `sha2::Sha256::digest`. Claimed: the result is `sha256` of
/// the data.
#[verifier::external_body]
fn sha256_digest(data: &[u8]) -> (d: [u8; 32])
    ensures
        d@ == sha256(data@),
{
    let out = sha2::Sha256::digest(data);
    let mut d = [0u8; 32];
    d.copy_from_slice(&out);
    d
}

/// Whether `data` is the sealing of `plaintext` under `key`: a nonce, then
/// the AES-GCM ciphertext and tag under that nonce.
pub open spec fn sealed_by(key: Seq<u8>, data: Seq<u8>, plaintext: Seq<u8>) -> bool {
    &&& data.len() == NONCE_LEN + plaintext.len() + TAG_LEN
    &&& data.skip(NONCE_LEN as int) == aes_gcm_encrypt(key, data.take(NONCE_LEN as int), plaintext)
}

/// The key derived from a machine seed: SHA-256 of (SHA-256 of seed and
/// salt) and salt.
pub open spec fn derived_key(seed: Seq<char>) -> Seq<u8> {
    sha256(sha256(encode_utf8(seed) + encode_utf8(KEY_SALT@)) + encode_utf8(KEY_SALT@))
}

/// An AES-256-GCM cipher under one key.
pub struct Crypto {
    key: [u8; 32],
}

impl View for Crypto {
    type V = Seq<u8>;

    /// The key.
    closed spec fn view(&self) -> Seq<u8> {
        self.key@
    }
}

impl Crypto {
    /// A cipher under `key_bytes`.
    pub fn new(key_bytes: &[u8; 32]) -> (c: Crypto)
        ensures
            c@ == key_bytes@,
    {
        Crypto { key: *key_bytes }
    }

    /// Encrypts under a fresh random nonce; the output is the nonce followed
    /// by the ciphertext and tag.
    pub fn encrypt(&self, plaintext: &[u8]) -> (r: Result<Vec<u8>, CryptoError>)
        ensures
            (plaintext@.len() <= AES_GCM_P_MAX) == (r is Ok),
            r matches Ok(out) ==> sealed_by(self@, out@, plaintext@),
            r matches Err(e) ==> e matches CryptoError::Encrypt(t) && t@ == "aead::Error"@,
    {
        let nonce = random_nonce();
        match aes_gcm_seal(&self.key, &nonce, plaintext) {
            Ok(ct) => {
                let mut out: Vec<u8> = Vec::new();
                out.extend_from_slice(&nonce);
                out.extend_from_slice(&ct);
                assert(out@.take(NONCE_LEN as int) =~= nonce@);
                assert(out@.skip(NONCE_LEN as int) =~= ct@);
                Ok(out)
            },
            Err(e) => Err(CryptoError::Encrypt(aead_error_text(&e))),
        }
    }

    /// Decrypts what `encrypt` produced: inputs shorter than a nonce and a
    /// tag are refused; otherwise the nonce is split off and the rest opened.
    pub fn decrypt(&self, data: &[u8]) -> (r: Result<Vec<u8>, CryptoError>)
        ensures
            data@.len() < NONCE_LEN + TAG_LEN ==> r matches Err(CryptoError::TooShort),
            data@.len() >= NONCE_LEN + TAG_LEN ==> match aes_gcm_decrypt(
                self@,
                data@.take(NONCE_LEN as int),
                data@.skip(NONCE_LEN as int),
            ) {
                Some(p) => r matches Ok(q) && q@ == p,
                None => r matches Err(CryptoError::Decrypt(t)) && t@ == "aead::Error"@,
            },
            forall|p: Seq<u8>|
                p.len() <= AES_GCM_P_MAX && #[trigger] sealed_by(self@, data@, p) ==> (r matches Ok(
                    q,
                ) && q@ == p),
    {
        if data.len() < NONCE_LEN + TAG_LEN {
            return Err(CryptoError::TooShort);
        }
        let nonce = slice_prefix(data, NONCE_LEN);
        let sealed = slice_suffix(data, NONCE_LEN);
        match aes_gcm_open(&self.key, &nonce, &sealed) {
            Ok(p) => Ok(p),
            Err(e) => Err(CryptoError::Decrypt(aead_error_text(&e))),
        }
    }
}

/// The first `n` bytes.
fn slice_prefix(data: &[u8], n: usize) -> (v: Vec<u8>)
    requires
        n <= data@.len(),
    ensures
        v@ == data@.take(n as int),
{
    let mut v: Vec<u8> = Vec::new();
    let mut i: usize = 0;
    while i < n
        invariant
            i <= n <= data@.len(),
            v@ == data@.take(i as int),
        decreases n - i,
    {
        v.push(data[i]);
        i = i + 1;
        assert(v@ =~= data@.take(i as int));
    }
    v
}

/// The bytes after the first `n`.
fn slice_suffix(data: &[u8], n: usize) -> (v: Vec<u8>)
    requires
        n <= data@.len(),
    ensures
        v@ == data@.skip(n as int),
{
    let mut v: Vec<u8> = Vec::new();
    let mut i: usize = n;
    while i < data.len()
        invariant
            n <= i <= data@.len(),
            v@ == data@.subrange(n as int, i as int),
        decreases data@.len() - i,
    {
        v.push(data[i]);
        i = i + 1;
        assert(v@ =~= data@.subrange(n as int, i as int));
    }
    assert(data@.subrange(n as int, data@.len() as int) =~= data@.skip(n as int));
    v
}

/// Derives the credential key from a machine seed.
pub fn derive_key_from_seed(seed: &str) -> (k: [u8; 32])
    ensures
        k@ == derived_key(seed@),
{
    let salt = KEY_SALT.as_bytes();
    let mut first: Vec<u8> = Vec::new();
    first.extend_from_slice(seed.as_bytes());
    first.extend_from_slice(salt);
    assert(first@ =~= encode_utf8(seed@) + encode_utf8(KEY_SALT@));
    let d1 = sha256_digest(first.as_slice());
    let mut second: Vec<u8> = Vec::new();
    second.extend_from_slice(&d1);
    second.extend_from_slice(salt);
    assert(second@ =~= d1@ + encode_utf8(KEY_SALT@));
    sha256_digest(second.as_slice())
}

} // verus!
