//! Binding of a quote of the trusted hardware to the signing identity.

use crate::key_manager::{chain_view, report_data_of, KeyMaterial};
use crate::decoder::prefixed;
use crate::trusted::{
    hex_decode, hex_decoding, hex_encode, hex_encoding, hex_error_text, is_hex_text,
    p256_signature,
};
use crate::tappd_service::{exchange_outcome, exchange_result, Exchange};
use crate::types::{AttestationError, GetQuoteResponse, SignedAttestation};
use crate::utils::prepare_report_data;
use vstd::prelude::*;
use vstd::string::StringExecFns;
use vstd::utf8::encode_utf8;

verus! {

/// What the report data of a quote is a digest of.
#[derive(Debug, Clone, Copy, PartialEq, Eq, Structural)]
pub enum BindingMode {
    /// The public key of the signing identity: the quote vouches for the key.
    SigningKey,
    /// The output of the verification: the quote vouches for this one result.
    VerificationOutput,
}

/// The body of a request for a quote.
#[derive(Debug, Clone, PartialEq, Eq)]
pub struct QuoteRequest {
    pub report_data: String,
    /// How the provider is to hash the report data; always `raw`.
    pub hash_algorithm: String,
}

/// What has happened to an attestation so far.
#[derive(Debug, Clone, PartialEq, Eq)]
pub enum AttestEvent {
    /// An attestation was asked for.
    Start,
    /// The provider was asked for a quote, and the exchange went like this.
    Exchanged(Exchange<GetQuoteResponse>),
}

/// What is to be done next for an attestation.
#[derive(Debug, PartialEq, Eq)]
pub enum AttestAction {
    /// Ask the provider for a quote and come back with how it went.
    RequestQuote(QuoteRequest),
    /// The attestation is over.
    Done(Result<SignedAttestation, AttestationError>),
}

/// The report data for the given mode: a digest of the public key of `key`,
/// or of the UTF-8 encoding of `data`.
pub open spec fn bound_report_data(mode: BindingMode, key: KeyMaterial, data: Seq<char>) -> Seq<
    char,
> {
    match mode {
        BindingMode::SigningKey => report_data_of(key.public_key()),
        BindingMode::VerificationOutput => report_data_of(encode_utf8(data)),
    }
}

/// What is signed for a quote: its raw bytes, which the text of the quote
/// gives in hexadecimal.
pub open spec fn signed_bytes(quote: Seq<char>) -> Seq<u8> {
    hex_decoding(quote)
}

/// What signing a quote with `key` gives: the signature over the raw bytes
/// of the quote, or the message of the failure. A quote that is no
/// hexadecimal text has no raw bytes and is not signed.
pub open spec fn signing_outcome(key: KeyMaterial, quote: Seq<char>) -> Result<Seq<u8>, Seq<char>> {
    if !is_hex_text(quote) {
        Err("Failed to decode quote: "@ + hex_error_text(quote))
    } else {
        match p256_signature(key.secret_scalar(), signed_bytes(quote)) {
            Some(signature) => Ok(signature),
            None => Err("Signing failed"@),
        }
    }
}

/// What an exchange about a quote amounts to: the quote, or the message of
/// the failure.
pub open spec fn quote_outcome(exchange: Exchange<GetQuoteResponse>) -> Result<
    GetQuoteResponse,
    Seq<char>,
> {
    exchange_outcome(exchange, "GetQuoteResponse"@)
}

/// `attestation` binds `quote` to `key`: it carries the quote as it came,
/// the public key of `key` and no other, the certificates of `key`, and, in
/// one hundred and twenty-eight hexadecimal digits, the signature of `key`
/// over the raw bytes of the quote.
pub open spec fn binds(attestation: SignedAttestation, key: KeyMaterial, quote: Seq<char>) -> bool {
    &&& attestation.quote@ == quote
    &&& attestation.verifying_key_hex_encoded@ == hex_encoding(key.public_key())
    &&& chain_view(attestation.verifying_key_certificate_chain) == key.chain()
    &&& is_hex_text(quote)
    &&& p256_signature(key.secret_scalar(), signed_bytes(quote)) matches Some(signature)
    &&& signature.len() == 64
    &&& attestation.signature_hex_encoded@ == hex_encoding(signature)
    &&& attestation.signature_hex_encoded@.len() == 128
}

/// An attestation error with the given message.
fn attestation_error(message: String) -> (e: AttestationError)
    ensures
        e.message == message,
{
    AttestationError { message }
}

/// The request for a quote that is bound as `mode` says.
pub fn quote_request(mode: BindingMode, key_material: &KeyMaterial, data: &str) -> (request:
    QuoteRequest)
    ensures
        request.report_data@ == bound_report_data(mode, *key_material, data@),
        request.hash_algorithm@ == "raw"@,
{
    let report_data = match mode {
        BindingMode::SigningKey => key_material.report_data_from_key(),
        BindingMode::VerificationOutput => prepare_report_data(data),
    };
    QuoteRequest { report_data, hash_algorithm: String::from_str("raw") }
}

/// What an exchange with the quote provider amounts to: the quote, or an
/// error that says which part of the exchange failed. Nothing is tried again.
pub fn read_attestation_report(exchange: Exchange<GetQuoteResponse>) -> (res: Result<
    GetQuoteResponse,
    AttestationError,
>)
    ensures
        res matches Ok(response) ==> quote_outcome(exchange) == Ok::<GetQuoteResponse, Seq<char>>(
            response,
        ),
        res matches Err(e) ==> quote_outcome(exchange) == Err::<GetQuoteResponse, Seq<char>>(
            e.message@,
        ),
{
    match exchange_result(exchange, "GetQuoteResponse") {
        Ok(response) => Ok(response),
        Err(message) => Err(attestation_error(message)),
    }
}

/// Signs the raw bytes of a quote with the signing identity and puts quote,
/// signature and key together. A quote that is no hexadecimal text is an
/// error, and so is a signature that could not be made.
pub fn sign_quote(key_material: &KeyMaterial, report: GetQuoteResponse) -> (res: Result<
    SignedAttestation,
    AttestationError,
>)
    ensures
        match signing_outcome(*key_material, report.quote@) {
            Ok(_) => res matches Ok(attestation) && binds(
                attestation,
                *key_material,
                report.quote@,
            ),
            Err(message) => res matches Err(e) && e.message@ == message,
        },
{
    let quote = report.quote;
    let raw = match hex_decode(quote.as_str()) {
        Err(why) => {
            return Err(
                attestation_error(prefixed("Failed to decode quote: ", why.as_str())),
            );
        },
        Ok(raw) => raw,
    };
    match key_material.sign_message(raw.as_slice()) {
        Err(e) => Err(attestation_error(e.message)),
        Ok(signature) => Ok(
            SignedAttestation {
                quote,
                signature_hex_encoded: hex_encode(signature.as_slice()),
                verifying_key_hex_encoded: key_material.encode_verify_key(),
                verifying_key_certificate_chain: key_material.certificate_chain(),
            },
        ),
    }
}

/// Takes an attestation one step further.
///
/// Without a signing identity every event ends the attestation with an
/// error. With one, `Start` asks for a quote whose report data is bound as
/// `mode` says, and `Exchanged` ends the attestation: with the error of the
/// exchange, with the error of signing, or with the quote and the signature
/// of the signing identity over its raw bytes.
pub fn get_attestation_report_with_signature(
    key_material: Option<&KeyMaterial>,
    mode: BindingMode,
    data: &str,
    event: AttestEvent,
) -> (action: AttestAction)
    ensures
        key_material is None ==> (action matches AttestAction::Done(Err(e)) && e.message@
            == "Key material not initialized"@),
        key_material matches Some(key) ==> match event {
            AttestEvent::Start => {
                &&& action matches AttestAction::RequestQuote(request)
                &&& request.report_data@ == bound_report_data(mode, *key, data@)
                &&& request.hash_algorithm@ == "raw"@
            },
            AttestEvent::Exchanged(exchange) => match quote_outcome(exchange) {
                Err(message) => action matches AttestAction::Done(Err(e)) && e.message@
                    == message,
                Ok(response) => match signing_outcome(*key, response.quote@) {
                    Ok(_) => action matches AttestAction::Done(Ok(attestation)) && binds(
                        attestation,
                        *key,
                        response.quote@,
                    ),
                    Err(message) => action matches AttestAction::Done(Err(e)) && e.message@
                        == message,
                },
            },
        },
{
    let key = match key_material {
        None => {
            return AttestAction::Done(
                Err(attestation_error(String::from_str("Key material not initialized"))),
            );
        },
        Some(key) => key,
    };
    match event {
        AttestEvent::Start => AttestAction::RequestQuote(quote_request(mode, key, data)),
        AttestEvent::Exchanged(exchange) => match read_attestation_report(exchange) {
            Err(e) => AttestAction::Done(Err(e)),
            Ok(report) => AttestAction::Done(sign_quote(key, report)),
        },
    }
}

/// Whatever quote an attestation carries, the key in it is the public key of
/// the signing identity that made it.
pub proof fn lemma_attestation_names_signing_key(
    attestation: SignedAttestation,
    key: KeyMaterial,
    quote: Seq<char>,
)
    requires
        binds(attestation, key, quote),
    ensures
        attestation.verifying_key_hex_encoded@ == hex_encoding(key.public_key()),
        attestation.verifying_key_hex_encoded@.len() == 2 * key.public_key().len(),
{
}

/// An attestation is made only of a quote that is hexadecimal text, and
/// what it signs are the bytes that this text stands for.
pub proof fn lemma_attestation_signs_raw_quote(
    attestation: SignedAttestation,
    key: KeyMaterial,
    quote: Seq<char>,
)
    requires
        binds(attestation, key, quote),
    ensures
        is_hex_text(quote),
        p256_signature(key.secret_scalar(), hex_decoding(quote)) matches Some(signature)
            && attestation.signature_hex_encoded@ == hex_encoding(signature),
        attestation.signature_hex_encoded@.len() == 128,
{
}

} // verus!
