//! The stored ChatGPT session: its record, the user summary it yields, the
//! sealing of its serialized form into the session file's payload, the
//! choice of the credential key, and the places of the files.

use base64::Engine;
use vstd::prelude::*;
use vstd::utf8::encode_utf8;

use crate::crypto::{
    aes_gcm_decrypt, derive_key_from_seed, derived_key, sealed_by, Crypto, CryptoError, AES_GCM_P_MAX,
    NONCE_LEN, TAG_LEN,
};
use crate::json::{Json, JsonV};
use crate::text::{chars_of, string_from_chars, trim, trim_range};

verus! {

/// A captured ChatGPT web session.
#[derive(Debug)]
pub struct SessionData {
    pub stored_at: u64,
    pub auth_session: Json,
    pub device_id: Option<String>,
    pub access_token: Option<String>,
    pub cookies: Option<String>,
}

#[verifier::external_type_specification]
#[verifier::external_body]
pub struct ExIoError(std::io::Error);

#[verifier::external_type_specification]
#[verifier::external_body]
pub struct ExSerdeJsonError(serde_json::Error);

/// Why a session could not be saved or loaded.
#[derive(Debug)]
pub enum AuthError {
    Io(std::io::Error),
    Crypto(CryptoError),
    Serde(serde_json::Error),
    NoSession,
}

/// A string member of the user record, or the empty string.
pub open spec fn member_text(user: JsonV, key: Seq<char>) -> Seq<char> {
    match user.get_str(key) {
        Some(s) => s,
        None => Seq::empty(),
    }
}

/// The user summary of a session document: `{id, name, email}` of its
/// `user` member (each the empty string when not a string there), or
/// `null` when there is no `user` member.
pub open spec fn user_info(auth_session: JsonV) -> JsonV {
    match auth_session.get("user"@) {
        Some(user) => JsonV::Object(
            seq![
                ("id"@, JsonV::Str(member_text(user, "id"@))),
                ("name"@, JsonV::Str(member_text(user, "name"@))),
                ("email"@, JsonV::Str(member_text(user, "email"@))),
            ],
        ),
        None => JsonV::Null,
    }
}

/// A string member of a record, or the empty string.
fn member_or_empty(user: &Json, key: &str) -> (s: String)
    ensures
        s@ == member_text(user@, key@),
{
    match user.get(key) {
        Some(v) => match v.as_str() {
            Some(t) => t.to_owned(),
            None => String::new(),
        },
        None => String::new(),
    }
}

impl SessionData {
    /// The user summary of this session.
    pub fn get_user_info(&self) -> (r: Json)
        ensures
            r@ == user_info(self.auth_session@),
    {
        match self.auth_session.get("user") {
            Some(user) => {
                let mut es: Vec<(String, Json)> = Vec::new();
                es.push(("id".to_owned(), Json::Str(member_or_empty(user, "id"))));
                es.push(("name".to_owned(), Json::Str(member_or_empty(user, "name"))));
                es.push(("email".to_owned(), Json::Str(member_or_empty(user, "email"))));
                proof {
                    crate::json::lemma_object_view(es);
                    assert(crate::json::entries_view(es@) =~= user_info(
                        self.auth_session@,
                    )->Object_0);
                }
                Json::Object(es)
            },
            None => Json::Null,
        }
    }
}

impl AuthError {
    /// The human-readable message of the error, for the variants whose
    /// message the library composes.
    pub fn message(&self) -> (s: Option<String>)
        ensures
            match self {
                AuthError::Crypto(e) => s matches Some(t) && (t@ == "Crypto error: "@ + match e {
                    CryptoError::Encrypt(x) => "Encryption error: "@ + x@,
                    CryptoError::Decrypt(x) => "Decryption error: "@ + x@,
                    CryptoError::TooShort => "Data too short"@,
                }),
                AuthError::NoSession => s matches Some(t) && t@ == "No session found"@,
                _ => s is None,
            },
    {
        match self {
            AuthError::Crypto(e) => {
                let mut s = "Crypto error: ".to_owned();
                let m = e.message();
                s.append(m.as_str());
                Some(s)
            },
            AuthError::NoSession => Some("No session found".to_owned()),
            _ => None,
        }
    }
}

/// Standard base64 with padding (`base64::engine::general_purpose::STANDARD`).
pub uninterp spec fn base64_encode(data: Seq<u8>) -> Seq<char>;

/// What standard base64 decoding makes of some bytes: the decoded bytes, or
/// the error's message.
pub uninterp spec fn base64_decode(text: Seq<u8>) -> Result<Seq<u8>, Seq<char>>;

/// Encodes with `STANDARD.encode`. Claimed: the result is `base64_encode`
/// of the data. The crate panics when the encoded length overflows `usize`;
/// the bound leaves such inputs out.
#[verifier::external_body]
fn b64_encode(data: &[u8]) -> (s: String)
    requires
        data@.len() <= usize::MAX / 4,
    ensures
        s@ == base64_encode(data@),
{
    base64::engine::general_purpose::STANDARD.encode(data)
}

/// Decodes with `STANDARD.decode`. Claimed: the outcome is `base64_decode`
/// of the input (the error as its `to_string()`), and the encoding of some
/// bytes decodes to those bytes.
#[verifier::external_body]
pub(crate) fn b64_decode(text: &[u8]) -> (r: Result<Vec<u8>, String>)
    ensures
        base64_decode(text@) == match r {
            Ok(v) => Ok::<Seq<u8>, Seq<char>>(v@),
            Err(e) => Err::<Seq<u8>, Seq<char>>(e@),
        },
        r matches Ok(v) ==> forall|x: Seq<u8>|
            text@ == encode_utf8(#[trigger] base64_encode(x)) ==> v@ == x,
        r matches Err(_) ==> forall|x: Seq<u8>| text@ != encode_utf8(#[trigger] base64_encode(x)),
{
    base64::engine::general_purpose::STANDARD.decode(text).map_err(|e| e.to_string())
}

/// Encrypts the serialized session under `key` and encodes the result in
/// base64: the payload of the session file.
pub fn seal_session_payload(key: &[u8; 32], plain: &[u8]) -> (r: Result<String, CryptoError>)
    requires
        plain@.len() <= usize::MAX / 8,
    ensures
        (plain@.len() <= AES_GCM_P_MAX) == (r is Ok),
        r matches Ok(p) ==> exists|sealed: Seq<u8>|
            #![trigger sealed_by(key@, sealed, plain@)]
            sealed_by(key@, sealed, plain@) && p@ == base64_encode(sealed),
        r matches Err(e) ==> e matches CryptoError::Encrypt(t) && t@ == "aead::Error"@,
{
    let crypto = Crypto::new(key);
    match crypto.encrypt(plain) {
        Ok(enc) => Ok(b64_encode(enc.as_slice())),
        Err(e) => Err(e),
    }
}

/// Decodes and decrypts a session file's payload. A payload that is not
/// base64 is a decryption error carrying the decoder's message.
pub fn open_session_payload(key: &[u8; 32], payload: &str) -> (r: Result<Vec<u8>, AuthError>)
    ensures
        match base64_decode(encode_utf8(payload@)) {
            Err(m) => r matches Err(AuthError::Crypto(CryptoError::Decrypt(t))) && t@ == m,
            Ok(sealed) => if sealed.len() < NONCE_LEN + TAG_LEN {
                r matches Err(AuthError::Crypto(CryptoError::TooShort))
            } else {
                match aes_gcm_decrypt(
                    key@,
                    sealed.take(NONCE_LEN as int),
                    sealed.skip(NONCE_LEN as int),
                ) {
                    Some(p) => r matches Ok(q) && q@ == p,
                    None => r matches Err(AuthError::Crypto(CryptoError::Decrypt(t))) && t@
                        == "aead::Error"@,
                }
            },
        },
        forall|sealed: Seq<u8>, plain: Seq<u8>|
            payload@ == base64_encode(sealed) && plain.len() <= AES_GCM_P_MAX && #[trigger] sealed_by(
                key@,
                sealed,
                plain,
            ) ==> (r matches Ok(q) && q@ == plain),
{
    let enc = match b64_decode(payload.as_bytes()) {
        Ok(v) => v,
        Err(e) => return Err(AuthError::Crypto(CryptoError::Decrypt(e))),
    };
    let crypto = Crypto::new(key);
    match crypto.decrypt(enc.as_slice()) {
        Ok(p) => Ok(p),
        Err(e) => Err(AuthError::Crypto(e)),
    }
}

/// The machine seed used when none can be read.
pub const DEFAULT_MACHINE_SEED: &'static str = "default-ai-core-machine-seed-id";

/// The credential key: the stored key when it is exactly 32 bytes,
/// otherwise the key derived from the trimmed machine seed (or the default
/// seed when none was read).
pub open spec fn chosen_key(stored: Option<Seq<u8>>, machine_seed: Option<Seq<char>>) -> Seq<u8> {
    match stored {
        Some(k) if k.len() == 32 => k,
        _ => derived_key(
            trim(
                match machine_seed {
                    Some(s) => s,
                    None => DEFAULT_MACHINE_SEED@,
                },
            ),
        ),
    }
}

/// Chooses the credential key from what the key file and the machine-id
/// files held.
pub fn key_from_sources(stored: Option<&[u8]>, machine_seed: Option<&str>) -> (k: [u8; 32])
    ensures
        k@ == chosen_key(
            match stored {
                Some(s) => Some(s@),
                None => None,
            },
            match machine_seed {
                Some(s) => Some(s@),
                None => None,
            },
        ),
{
    if let Some(bytes) = stored {
        if bytes.len() == 32 {
            let mut k = [0u8; 32];
            let mut i: usize = 0;
            while i < 32
                invariant
                    i <= 32,
                    bytes@.len() == 32,
                    forall|j: int| 0 <= j < i ==> k@[j] == bytes@[j],
                decreases 32 - i,
            {
                k[i] = bytes[i];
                i = i + 1;
            }
            assert(k@ =~= bytes@);
            return k;
        }
    }
    let seed: &str = match machine_seed {
        Some(s) => s,
        None => DEFAULT_MACHINE_SEED,
    };
    let cs = chars_of(seed);
    let (a, b) = trim_range(&cs, 0, cs.len());
    assert(cs@.subrange(0, cs@.len() as int) =~= cs@);
    let trimmed = string_from_chars(&cs, a, b);
    derive_key_from_seed(trimmed.as_str())
}

} // verus!
