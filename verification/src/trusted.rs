//! The calls that leave this crate. Verus believes the contracts in this file
//! without proof; each one says what it takes from the code it calls.

use vstd::prelude::*;

verus! {

/// The character for a value below sixteen, in lower-case hexadecimal.
pub open spec fn hex_char(n: int) -> char {
    if 0 <= n < 10 {
        (('0' as u32) + n) as char
    } else {
        (('a' as u32) + (n - 10)) as char
    }
}

/// Two lower-case hexadecimal digits for every byte, the high half first.
pub open spec fn hex_encoding(bytes: Seq<u8>) -> Seq<char> {
    Seq::new(
        2 * bytes.len(),
        |i: int|
            if i % 2 == 0 {
                hex_char(bytes[i / 2] as int / 16)
            } else {
                hex_char(bytes[i / 2] as int % 16)
            },
    )
}

/// The value of a hexadecimal digit of either case, or -1 for any other character.
pub open spec fn hex_value(c: char) -> int {
    if '0' <= c <= '9' {
        c as u32 - '0' as u32
    } else if 'a' <= c <= 'f' {
        c as u32 - 'a' as u32 + 10
    } else if 'A' <= c <= 'F' {
        c as u32 - 'A' as u32 + 10
    } else {
        -1
    }
}

/// An even number of characters, each of them a hexadecimal digit.
pub open spec fn is_hex_text(text: Seq<char>) -> bool {
    &&& text.len() % 2 == 0
    &&& forall|i: int| 0 <= i < text.len() ==> hex_value(#[trigger] text[i]) >= 0
}

/// The bytes that a hexadecimal text stands for.
pub open spec fn hex_decoding(text: Seq<char>) -> Seq<u8> {
    Seq::new(
        text.len() / 2,
        |i: int| (hex_value(text[2 * i]) * 16 + hex_value(text[2 * i + 1])) as u8,
    )
}

/// What `hex::decode` reports, as text, when it refuses `text`.
pub uninterp spec fn hex_error_text(text: Seq<char>) -> Seq<char>;

/// The SHA-512 digest of `data`, as `sha2` computes it.
pub uninterp spec fn sha512_digest(data: Seq<u8>) -> Seq<u8>;

/// The text that `String::from_utf8_lossy` makes of `bytes`.
pub uninterp spec fn utf8_lossy(bytes: Seq<u8>) -> Seq<char>;

/// The RFC 3339 rendering, in UTC, of a number of seconds since the Unix
/// epoch as `chrono` gives it, or `None` where `chrono` has no date for it.
pub uninterp spec fn rfc3339_utc(secs: int) -> Option<Seq<char>>;

/// `hex::encode`: every byte becomes two lower-case hexadecimal digits, the
/// high four bits first.
#[verifier::external_body]
pub(crate) fn hex_encode(data: &[u8]) -> (text: String)
    ensures
        text@ == hex_encoding(data@),
{
    hex::encode(data)
}

/// `hex::decode` on the bytes of a string, the error rendered by its
/// `Display`. The call succeeds exactly on an even number of hexadecimal
/// digits of either case, and then yields one byte for each pair, the first
/// digit of a pair being the high half. A string all of whose bytes are such
/// digits is ASCII, so its characters are its bytes; the text of the error
/// depends on the string alone.
#[verifier::external_body]
pub(crate) fn hex_decode(text: &str) -> (res: Result<Vec<u8>, String>)
    ensures
        res is Ok <==> is_hex_text(text@),
        res matches Ok(bytes) ==> bytes@ == hex_decoding(text@),
        res matches Err(why) ==> why@ == hex_error_text(text@),
{
    hex::decode(text).map_err(|e| e.to_string())
}

/// `Sha512::digest` of the `sha2` crate: the digest is sixty-four bytes long
/// and depends on the data alone.
#[verifier::external_body]
pub(crate) fn sha512(data: &[u8]) -> (digest: Vec<u8>)
    ensures
        digest@ == sha512_digest(data@),
        digest@.len() == 64,
{
    <sha2::Sha512 as sha2::Digest>::digest(data).to_vec()
}

/// `String::from_utf8_lossy`: the text depends on the bytes alone.
#[verifier::external_body]
pub(crate) fn lossy_text(bytes: &[u8]) -> (text: String)
    ensures
        text@ == utf8_lossy(bytes@),
{
    String::from_utf8_lossy(bytes).into_owned()
}

/// `String::push`: appends one character.
#[verifier::external_body]
pub(crate) fn push_char(text: &mut String, c: char)
    ensures
        final(text)@ == old(text)@.push(c),
{
    text.push(c)
}

/// `chrono::DateTime::from_timestamp` with no nanoseconds, and, where it has
/// a date, that date rendered by `DateTime::to_rfc3339`. Both depend on the
/// number of seconds alone.
#[verifier::external_body]
pub(crate) fn rfc3339_from_seconds(secs: i64) -> (text: Option<String>)
    ensures
        text is Some <==> rfc3339_utc(secs as int) is Some,
        text matches Some(t) ==> rfc3339_utc(secs as int) == Some(t@),
{
    chrono::DateTime::from_timestamp(secs, 0).map(|moment| moment.to_rfc3339())
}

/// The public key of a P-256 signing key, in the uncompressed SEC1 encoding,
/// where `p256` takes `secret` for such a key; `None` where it does not.
pub uninterp spec fn p256_public_key(secret: Seq<u8>) -> Option<Seq<u8>>;

/// The signature that `p256` makes of `message` with the key `secret`: `r`
/// then `s`, each of thirty-two bytes. `None` where it makes none.
pub uninterp spec fn p256_signature(secret: Seq<u8>, message: Seq<u8>) -> Option<Seq<u8>>;

/// The secret scalar of the PKCS#8 private key that `p256` reads from a PEM
/// text; `None` where it reads none.
pub uninterp spec fn pkcs8_pem_secret(pem: Seq<char>) -> Option<Seq<u8>>;

/// The public key that `p256` reads from a SEC1 encoding, written out again
/// without compression, or the text of the error where it reads none.
pub uninterp spec fn sec1_public_key(encoded: Seq<u8>) -> Result<Seq<u8>, Seq<char>>;

/// `SigningKey::random` of `p256` with the operating system's generator, and
/// the key's scalar as `to_bytes` serializes it. The scalar differs from call
/// to call; it is always one that `SigningKey::from_slice` takes back. The
/// call does not return where the operating system has no randomness to give.
#[verifier::external_body]
pub(crate) fn generate_secret() -> (secret: Vec<u8>)
    ensures
        p256_public_key(secret@) is Some,
{
    p256::ecdsa::SigningKey::random(&mut rand_core::OsRng).to_bytes().to_vec()
}

/// `SigningKey::from_pkcs8_pem` of `p256`, and the scalar of the key that it
/// reads as `to_bytes` serializes it. Such a scalar is one that
/// `SigningKey::from_slice` takes back.
#[verifier::external_body]
pub(crate) fn secret_from_pem(pem: &str) -> (secret: Option<Vec<u8>>)
    ensures
        secret is Some <==> pkcs8_pem_secret(pem@) is Some,
        secret matches Some(s) ==> pkcs8_pem_secret(pem@) == Some(s@) && p256_public_key(s@)
            is Some,
{
    let key: Result<p256::ecdsa::SigningKey, _> = p256::pkcs8::DecodePrivateKey::from_pkcs8_pem(
        pem,
    );
    key.ok().map(|k| k.to_bytes().to_vec())
}

/// `SigningKey::verifying_key` of `p256` for the key that
/// `SigningKey::from_slice` reads from `secret`, encoded by
/// `to_encoded_point(false)`: the byte 4, then the two coordinates, each of
/// thirty-two bytes.
#[verifier::external_body]
pub(crate) fn public_key_of(secret: &[u8]) -> (public: Option<Vec<u8>>)
    ensures
        public is Some <==> p256_public_key(secret@) is Some,
        public matches Some(p) ==> p256_public_key(secret@) == Some(p@) && p@.len() == 65 && p@[0]
            == 4,
{
    p256::ecdsa::SigningKey::from_slice(secret).ok().map(
        |k| k.verifying_key().to_encoded_point(false).as_bytes().to_vec(),
    )
}

/// `Signer::try_sign` of `p256` with the key that `SigningKey::from_slice`
/// reads from `secret`. The nonce is derived from key and message, so the
/// signature depends on the two alone; `Signature::to_bytes` serializes it
/// in sixty-four bytes.
#[verifier::external_body]
pub(crate) fn sign_with(secret: &[u8], message: &[u8]) -> (signature: Option<Vec<u8>>)
    ensures
        signature is Some <==> p256_signature(secret@, message@) is Some,
        signature matches Some(s) ==> p256_signature(secret@, message@) == Some(s@) && s@.len()
            == 64,
{
    let key = p256::ecdsa::SigningKey::from_slice(secret).ok()?;
    let signature: p256::ecdsa::Signature = p256::ecdsa::signature::Signer::try_sign(
        &key,
        message,
    ).ok()?;
    Some(signature.to_bytes().to_vec())
}

/// `EncodedPoint::from_bytes` and `VerifyingKey::from_encoded_point` of
/// `p256`: the key that the SEC1 encoding `encoded` stands for, written out
/// by `to_encoded_point(false)`, or the text of the error of the step that
/// failed.
#[verifier::external_body]
pub(crate) fn public_key_from_sec1(encoded: &[u8]) -> (key: Result<Vec<u8>, String>)
    ensures
        key matches Ok(k) ==> sec1_public_key(encoded@) is Ok && sec1_public_key(encoded@)->Ok_0
            == k@,
        key matches Err(e) ==> sec1_public_key(encoded@) is Err && sec1_public_key(
            encoded@,
        )->Err_0 == e@,
{
    let point = p256::EncodedPoint::from_bytes(encoded).map_err(|e| e.to_string())?;
    let key = p256::ecdsa::VerifyingKey::from_encoded_point(&point).map_err(|e| e.to_string())?;
    Ok(key.to_encoded_point(false).as_bytes().to_vec())
}

} // verus!
