//! The token codec: reversible symmetric encryption of a destination
//! endpoint under a shared secret, producing an opaque token that is safe
//! to embed in a URL path segment. The token is the URL-safe base64 form
//! of the ciphertext; decoding undoes both stages and classifies every
//! failure.

use vstd::prelude::*;
use magic_crypt::MagicCryptTrait;
use base64::Engine;

verus! {

/// Why decoding a capability token failed.
#[derive(Clone, Copy, Debug, PartialEq, Eq, Structural)]
pub enum DecodeError {
    /// The token is not valid URL-safe base64 text.
    Malformed,
    /// The ciphertext failed its integrity or format checks: a token
    /// produced under a different secret, or truncated, or corrupted.
    DecryptionFailed,
    /// Decryption succeeded but the plaintext bytes are not valid text.
    NotUtf8,
}

/// The characters a capability token may hold: the URL-safe base64
/// alphabet and its padding. None of them needs percent-escaping in a URL
/// path segment.
pub open spec fn is_token_char(c: char) -> bool {
    ('A' <= c && c <= 'Z') || ('a' <= c && c <= 'z') || ('0' <= c && c <= '9') || c == '-'
        || c == '_' || c == '='
}

/// The ciphertext bytes that encrypting `plain` under `secret` produces.
/// Encryption is a deterministic function of the secret and the plaintext
/// alone, so the result has a name; no contract states its value on given
/// inputs.
pub uninterp spec fn cipher_of(secret: Seq<char>, plain: Seq<char>) -> Seq<u8>;

/// The URL-safe base64 text of a byte string.
pub uninterp spec fn b64url_of(bytes: Seq<u8>) -> Seq<char>;

/// What URL-safe base64 decoding accepts: the bytes a text decodes to, or
/// nothing when the text is not valid URL-safe base64.
pub uninterp spec fn b64url_decode_of(text: Seq<char>) -> Option<Seq<u8>>;

/// What decrypting ciphertext bytes under a secret yields: the plaintext,
/// or the class of the failure — `DecryptionFailed` when the ciphertext
/// does not check out under the secret, `NotUtf8` when the decrypted bytes
/// are not valid text. Decryption is a deterministic function of its two
/// arguments alone.
pub uninterp spec fn decipher_of(secret: Seq<char>, cipher: Seq<u8>) -> Result<
    Seq<char>,
    DecodeError,
>;

/// The capability token minted for `plain` under `secret`: the URL-safe
/// base64 form of the ciphertext.
pub open spec fn token_of(secret: Seq<char>, plain: Seq<char>) -> Seq<char> {
    b64url_of(cipher_of(secret, plain))
}

/// What decoding a token under a secret yields: `Malformed` when the text
/// is not valid URL-safe base64, otherwise whatever decrypting the decoded
/// bytes yields.
pub open spec fn decode_spec(secret: Seq<char>, token: Seq<char>) -> Result<
    Seq<char>,
    DecodeError,
> {
    match b64url_decode_of(token) {
        Option::None => Result::Err(DecodeError::Malformed),
        Option::Some(cipher) => decipher_of(secret, cipher),
    }
}

/// Relies on magic_crypt::MagicCrypt256: `new` derives the AES-256 key as
/// the SHA-256 of the secret with an all-zero IV, and
/// `encrypt_str_to_bytes` runs AES-256-CBC with PKCS7 padding over the
/// plaintext bytes. The result depends on the secret and the plaintext
/// alone; padding always emits at least one whole 16-byte block.
#[verifier::external_body]
fn encrypt_bytes(secret: &str, plain: &str) -> (cipher: Vec<u8>)
    ensures
        cipher@ == cipher_of(secret@, plain@),
        cipher@.len() >= 16,
        cipher@.len() % 16 == 0,
{
    let mc = magic_crypt::MagicCrypt256::new(secret, None::<&[u8]>);
    mc.encrypt_str_to_bytes(plain)
}

/// Relies on base64's URL_SAFE engine: `encode` emits the padded URL-safe
/// alphabet (`A`-`Z`, `a`-`z`, `0`-`9`, `-`, `_`, with `=` padding), four
/// characters for every three bytes begun, as a function of the bytes
/// alone.
#[verifier::external_body]
fn b64url_encode(bytes: &Vec<u8>) -> (text: String)
    ensures
        text@ == b64url_of(bytes@),
        text@.len() == 4 * ((bytes@.len() + 2) / 3),
        forall|i: int| 0 <= i < text@.len() ==> is_token_char(#[trigger] text@[i]),
{
    base64::engine::general_purpose::URL_SAFE.encode(bytes)
}

/// Relies on base64's URL_SAFE engine: `decode` accepts exactly the
/// canonical padded URL-safe encodings and inverts `encode`, so the text
/// that encoding some bytes produced decodes to exactly those bytes.
#[verifier::external_body]
fn b64url_decode(text: &str) -> (r: Option<Vec<u8>>)
    ensures
        r is Some <==> b64url_decode_of(text@) is Some,
        r is Some ==> r->0@ == b64url_decode_of(text@)->0,
        forall|b: Seq<u8>| text@ == b64url_of(b) ==> r is Some && r->0@ == b,
{
    match base64::engine::general_purpose::URL_SAFE.decode(text) {
        Ok(bytes) => Some(bytes),
        Err(_) => None,
    }
}

/// Relies on magic_crypt::MagicCrypt256::decrypt_bytes_to_bytes, which
/// inverts `encrypt_str_to_bytes` under the same secret: AES-256-CBC
/// decryption and PKCS7 unpadding undo their counterparts, so ciphertext
/// produced under `secret` decrypts to exactly the plaintext bytes it was
/// produced from, and those are the UTF-8 bytes of the plaintext string.
/// A ciphertext of the wrong length or with bad padding after decryption
/// returns the crate's typed error, never a panic; decrypted bytes that
/// are not valid text fail the UTF-8 conversion of the result. Base64 and
/// string errors of the crate cannot arise on this byte-level path.
#[verifier::external_body]
fn decrypt_bytes(secret: &str, cipher: &Vec<u8>) -> (r: Result<String, DecodeError>)
    ensures
        r is Ok <==> decipher_of(secret@, cipher@) is Ok,
        r is Ok ==> r->Ok_0@ == decipher_of(secret@, cipher@)->Ok_0,
        r is Err ==> r->Err_0 == decipher_of(secret@, cipher@)->Err_0,
        r is Err ==> r->Err_0 == DecodeError::DecryptionFailed || r->Err_0
            == DecodeError::NotUtf8,
        forall|p: Seq<char>| cipher@ == cipher_of(secret@, p) ==> r is Ok && r->Ok_0@ == p,
{
    let mc = magic_crypt::MagicCrypt256::new(secret, None::<&[u8]>);
    match mc.decrypt_bytes_to_bytes(cipher.as_slice()) {
        Ok(bytes) => match String::from_utf8(bytes) {
            Ok(plain) => Ok(plain),
            Err(_) => Err(DecodeError::NotUtf8),
        },
        Err(_) => Err(DecodeError::DecryptionFailed),
    }
}

/// Encode a destination endpoint as an opaque capability token under the
/// process-wide secret. Never fails; the token is deterministic in the
/// secret and the endpoint, holds only characters that survive a URL path
/// segment unescaped, and is never empty: at least 24 characters (one
/// cipher block), a multiple of 4, four characters for every three
/// ciphertext bytes begun.
pub fn encrypt_url(secret: &str, url: &str) -> (token: String)
    ensures
        token@ == token_of(secret@, url@),
        forall|i: int| 0 <= i < token@.len() ==> is_token_char(#[trigger] token@[i]),
        token@.len() == 4 * ((cipher_of(secret@, url@).len() + 2) / 3),
        token@.len() >= 24,
        token@.len() % 4 == 0,
{
    let cipher = encrypt_bytes(secret, url);
    b64url_encode(&cipher)
}

/// Decode a capability token back to the destination endpoint it was
/// minted from. The result equals the named decode of the secret and the
/// token — decoding is deterministic and depends on nothing else — so:
/// any token that [`encrypt_url`] produced under the same secret decodes
/// to the original endpoint, byte for byte; a token that is not valid
/// URL-safe base64 fails with `Malformed`, and no other token does; valid
/// base64 whose ciphertext does not check out under the secret fails with
/// `DecryptionFailed`, or with `NotUtf8` when the decrypted bytes are not
/// text.
pub fn decrypt_url(secret: &str, encrypted_url: String) -> (r: Result<String, DecodeError>)
    ensures
        r is Ok <==> decode_spec(secret@, encrypted_url@) is Ok,
        r is Ok ==> r->Ok_0@ == decode_spec(secret@, encrypted_url@)->Ok_0,
        r is Err ==> r->Err_0 == decode_spec(secret@, encrypted_url@)->Err_0,
        r is Err ==> (r->Err_0 == DecodeError::Malformed <==> b64url_decode_of(encrypted_url@)
            is None),
        forall|p: Seq<char>|
            encrypted_url@ == token_of(secret@, p) ==> r is Ok && r->Ok_0@ == p,
{
    match b64url_decode(encrypted_url.as_str()) {
        None => Err(DecodeError::Malformed),
        Some(cipher) => decrypt_bytes(secret, &cipher),
    }
}

} // verus!
