//! Encoding, signing and digests of texts.

use crate::decoder::prefixed;
use crate::key_manager::{report_data_of, KeyMaterial};
use crate::trusted::{
    hex_char, hex_decoding, hex_encode, hex_encoding, hex_value, is_hex_text, p256_signature,
    sha512,
};
use crate::types::KeyManagerError;
use vstd::prelude::*;
use vstd::utf8::encode_utf8;

verus! {

/// The bytes of the UTF-8 encoding of `message`, in hexadecimal.
pub fn encode_message_hex(message: &str) -> (text: String)
    ensures
        text@ == hex_encoding(encode_utf8(message@)),
{
    hex_encode(message.as_bytes())
}

/// The signature under `key_material` of the bytes of the text
/// `message_hex` itself, in one hundred and twenty-eight hexadecimal digits.
pub fn sign_message(key_material: &KeyMaterial, message_hex: &str) -> (res: Result<
    String,
    KeyManagerError,
>)
    ensures
        res matches Ok(text) ==> {
            &&& p256_signature(key_material.secret_scalar(), encode_utf8(message_hex@))
                matches Some(signature)
            &&& signature.len() == 64
            &&& text@ == hex_encoding(signature)
            &&& text@.len() == 128
        },
        res matches Err(e) ==> p256_signature(
            key_material.secret_scalar(),
            encode_utf8(message_hex@),
        ) is None && e.message@ == "Signing failed"@,
{
    match key_material.sign_message(message_hex.as_bytes()) {
        Ok(signature) => Ok(hex_encode(signature.as_slice())),
        Err(e) => Err(e),
    }
}

/// The report data for a text: `0x`, then the SHA-512 digest of its UTF-8
/// encoding in hexadecimal.
pub fn prepare_report_data(data: &str) -> (text: String)
    ensures
        text@ == report_data_of(encode_utf8(data@)),
        text@.len() == 130,
{
    let digest = sha512(data.as_bytes());
    let hex = hex_encode(digest.as_slice());
    proof {
        reveal_strlit("0x");
    }
    prefixed("0x", hex.as_str())
}

/// A hexadecimal digit stands for the value it was made of.
pub proof fn lemma_hex_char_value(n: int)
    requires
        0 <= n < 16,
    ensures
        hex_value(hex_char(n)) == n,
{
}

/// What was encoded in hexadecimal decodes to itself.
pub proof fn lemma_hex_round_trip(bytes: Seq<u8>)
    ensures
        is_hex_text(hex_encoding(bytes)),
        hex_decoding(hex_encoding(bytes)) == bytes,
{
    let text = hex_encoding(bytes);
    assert forall|i: int| 0 <= i < text.len() implies hex_value(#[trigger] text[i]) >= 0 by {
        let b = bytes[i / 2] as int;
        if i % 2 == 0 {
            lemma_hex_char_value(b / 16);
        } else {
            lemma_hex_char_value(b % 16);
        }
    }
    assert forall|k: int| 0 <= k < bytes.len() implies #[trigger] hex_decoding(text)[k]
        == bytes[k] by {
        let b = bytes[k] as int;
        assert((2 * k) / 2 == k && (2 * k) % 2 == 0);
        assert((2 * k + 1) / 2 == k && (2 * k + 1) % 2 == 1);
        lemma_hex_char_value(b / 16);
        lemma_hex_char_value(b % 16);
        assert(text[2 * k] == hex_char(b / 16));
        assert(text[2 * k + 1] == hex_char(b % 16));
        assert((b / 16) * 16 + b % 16 == b);
    }
    assert(hex_decoding(text) =~= bytes);
}

} // verus!
