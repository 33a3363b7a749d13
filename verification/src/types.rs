//! The values that travel through verification and attestation.

use crate::trusted::{hex_decode, hex_decoding, hex_error_text, is_hex_text};
use vstd::prelude::*;

verus! {

/// Metadata that accompanies a presentation.
#[derive(Debug, Clone, PartialEq, Eq)]
pub struct Meta {
    /// Address of the notary that signed the session.
    pub notary_url: String,
    /// Proxy used for the connection, if any.
    pub websocket_proxy_url: Option<String>,
}

/// A presentation as a client submits it: a version tag, the proof in
/// hexadecimal, and metadata.
#[derive(Debug, Clone, PartialEq, Eq)]
pub struct PresentationJSON {
    /// Version of the presentation format.
    pub version: String,
    /// The serialized presentation, in hexadecimal; white space is allowed in it.
    pub data: String,
    pub meta: Meta,
}

/// What a presentation that passed every check yields.
#[derive(Debug, Clone, PartialEq, Eq)]
pub struct VerificationResult {
    pub is_valid: bool,
    /// The server identity that the proof asserts.
    pub server_name: String,
    /// The digits found in the response, kept as text.
    pub score: String,
    /// The notary's verifying key, in hexadecimal.
    pub verifying_key: String,
    pub sent_hex_encoded: String,
    pub sent_readable: String,
    pub recv_hex_encoded: String,
    pub recv_readable: String,
    /// Time of the connection, in RFC 3339.
    pub time: String,
}

/// The stage at which a presentation was turned down.
#[derive(Debug, Clone, Copy, PartialEq, Eq, Structural)]
pub enum ErrorKind {
    /// The envelope or its payload could not be decoded.
    Decode,
    /// The proof may be sound, but the policy does not accept it.
    Policy,
    /// The cryptographic check of the proof failed.
    CryptoVerify,
}

/// Why a presentation was turned down.
#[derive(Debug, Clone, PartialEq, Eq)]
pub struct VerificationError {
    pub kind: ErrorKind,
    /// A description that is safe to show to the client.
    pub message: String,
}

/// A hexadecimal text that could not be decoded.
#[derive(Debug, Clone, PartialEq, Eq)]
pub struct DecodeError {
    pub message: String,
}

/// A failed exchange with the quote provider.
#[derive(Debug, Clone, PartialEq, Eq)]
pub struct TappdError {
    pub message: String,
}

/// A failed attestation.
#[derive(Debug, Clone, PartialEq, Eq)]
pub struct AttestationError {
    pub message: String,
}

/// A failed operation on the signing identity.
#[derive(Debug, Clone, PartialEq, Eq)]
pub struct KeyManagerError {
    pub message: String,
}

/// A quote together with a signature over it and the key that signed.
#[derive(Debug, Clone, PartialEq, Eq)]
pub struct SignedAttestation {
    /// The quote, in hexadecimal, as the provider returned it.
    pub quote: String,
    pub signature_hex_encoded: String,
    pub verifying_key_hex_encoded: String,
    /// PEM certificates that vouch for the key, where it was derived in hardware.
    pub verifying_key_certificate_chain: Option<Vec<String>>,
}

/// The two outcomes of one request, each on its own.
#[derive(Debug, PartialEq, Eq)]
pub struct VerificationResponse {
    pub verification: Result<VerificationResult, VerificationError>,
    pub attestation: Result<SignedAttestation, AttestationError>,
}

/// One entry of an attestation event log.
#[derive(Debug, Clone, PartialEq, Eq)]
pub struct EventLog {
    /// Index of the measurement register.
    pub imr: u32,
    pub event_type: u32,
    /// Digest of the event, in hexadecimal.
    pub digest: String,
    pub event: String,
    pub event_payload: String,
}

/// A derived key and the certificates that vouch for it.
#[derive(Debug, Clone, PartialEq, Eq)]
pub struct GetKeyResponse {
    pub key: String,
    pub certificate_chain: Vec<String>,
}

/// A quote and the event log that belongs to it.
#[derive(Debug, Clone, PartialEq, Eq)]
pub struct GetQuoteResponse {
    /// The quote, in hexadecimal.
    pub quote: String,
    /// The event log, as JSON text.
    pub event_log: String,
}

/// Measurements of the trusted computing base.
#[derive(Debug, Clone, PartialEq, Eq)]
pub struct TcbInfo {
    pub mrtd: String,
    pub rootfs_hash: String,
    pub rtmr0: String,
    pub rtmr1: String,
    pub rtmr2: String,
    pub rtmr3: String,
    pub event_log: Vec<EventLog>,
}

/// What the provider tells about the instance it runs in.
#[derive(Debug, Clone, PartialEq, Eq)]
pub struct InfoResponse {
    pub app_id: String,
    pub instance_id: String,
    pub app_cert: String,
    pub tcb_info: TcbInfo,
    pub app_name: String,
    pub public_logs: bool,
    pub public_sysinfo: bool,
    pub device_id: String,
    pub mr_aggregated: String,
    pub os_image_hash: String,
    pub key_provider_info: String,
    pub compose_hash: String,
}

/// Where a signing key came from.
#[derive(Debug, Clone, Copy, PartialEq, Eq, Structural)]
pub enum KeySource {
    /// Derived by the trusted hardware.
    Tappd,
    /// Generated in this process.
    Random,
}

/// Decodes `text` from hexadecimal.
pub fn decode_hex(text: &str) -> (res: Result<Vec<u8>, DecodeError>)
    ensures
        res is Ok <==> is_hex_text(text@),
        res matches Ok(bytes) ==> bytes@ == hex_decoding(text@),
        res matches Err(e) ==> e.message@ == hex_error_text(text@),
{
    match hex_decode(text) {
        Ok(bytes) => Ok(bytes),
        Err(message) => Err(DecodeError { message }),
    }
}

/// The index of the first text in `texts` that is not hexadecimal, or the
/// number of texts where all of them are.
pub open spec fn first_not_hex(texts: Seq<String>) -> int
    decreases texts.len(),
{
    if texts.len() == 0 {
        0
    } else if !is_hex_text(texts[0]@) {
        0
    } else {
        1 + first_not_hex(texts.drop_first())
    }
}

pub proof fn lemma_first_not_hex(texts: Seq<String>)
    ensures
        0 <= first_not_hex(texts) <= texts.len(),
        forall|i: int| 0 <= i < first_not_hex(texts) ==> is_hex_text(#[trigger] texts[i]@),
        first_not_hex(texts) < texts.len() ==> !is_hex_text(texts[first_not_hex(texts)]@),
    decreases texts.len(),
{
    if texts.len() > 0 && is_hex_text(texts[0]@) {
        lemma_first_not_hex(texts.drop_first());
        assert forall|i: int| 0 <= i < first_not_hex(texts) implies is_hex_text(
            #[trigger] texts[i]@,
        ) by {
            if i > 0 {
                assert(texts[i] == texts.drop_first()[i - 1]);
            }
        }
    }
}

impl GetKeyResponse {
    /// The key, decoded from hexadecimal.
    pub fn decode_key(&self) -> (res: Result<Vec<u8>, DecodeError>)
        ensures
            res is Ok <==> is_hex_text(self.key@),
            res matches Ok(bytes) ==> bytes@ == hex_decoding(self.key@),
            res matches Err(e) ==> e.message@ == hex_error_text(self.key@),
    {
        decode_hex(self.key.as_str())
    }

    /// Every certificate, decoded from hexadecimal; the first one that does
    /// not decode decides the error.
    pub fn decode_certificate_chain(&self) -> (res: Result<Vec<Vec<u8>>, DecodeError>)
        ensures
            res is Ok <==> first_not_hex(self.certificate_chain@) == self.certificate_chain@.len(),
            res matches Ok(chain) ==> {
                &&& chain@.len() == self.certificate_chain@.len()
                &&& forall|i: int|
                    0 <= i < chain@.len() ==> (#[trigger] chain@[i])@ == hex_decoding(
                        self.certificate_chain@[i]@,
                    )
            },
            res matches Err(e) ==> e.message@ == hex_error_text(
                self.certificate_chain@[first_not_hex(self.certificate_chain@)]@,
            ),
    {
        let mut chain: Vec<Vec<u8>> = Vec::new();
        let mut i: usize = 0;
        proof {
            lemma_first_not_hex(self.certificate_chain@);
        }
        while i < self.certificate_chain.len()
            invariant
                i <= self.certificate_chain@.len(),
                i <= first_not_hex(self.certificate_chain@) <= self.certificate_chain@.len(),
                first_not_hex(self.certificate_chain@) < self.certificate_chain@.len()
                    ==> !is_hex_text(
                    self.certificate_chain@[first_not_hex(self.certificate_chain@)]@,
                ),
                forall|j: int|
                    0 <= j < first_not_hex(self.certificate_chain@) ==> is_hex_text(
                        #[trigger] self.certificate_chain@[j]@,
                    ),
                chain@.len() == i,
                forall|j: int|
                    0 <= j < i ==> (#[trigger] chain@[j])@ == hex_decoding(
                        self.certificate_chain@[j]@,
                    ),
            decreases self.certificate_chain@.len() - i,
        {
            match decode_hex(self.certificate_chain[i].as_str()) {
                Ok(bytes) => {
                    chain.push(bytes);
                },
                Err(e) => {
                    return Err(e);
                },
            }
            i = i + 1;
        }
        Ok(chain)
    }
}

impl GetQuoteResponse {
    /// The quote, decoded from hexadecimal.
    pub fn decode_quote(&self) -> (res: Result<Vec<u8>, DecodeError>)
        ensures
            res is Ok <==> is_hex_text(self.quote@),
            res matches Ok(bytes) ==> bytes@ == hex_decoding(self.quote@),
            res matches Err(e) ==> e.message@ == hex_error_text(self.quote@),
    {
        decode_hex(self.quote.as_str())
    }
}

} // verus!
