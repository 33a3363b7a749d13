//! The status with which each route answers.

use crate::decoder::prefixed;
use crate::dstack_client::DStackError;
use crate::types::{
    AttestationError, SignedAttestation, VerificationError, VerificationResponse,
    VerificationResult,
};
use vstd::prelude::*;

verus! {

/// The status for the two outcomes of a request: 200 where both succeeded,
/// 400 where only the verification failed, 500 where the attestation failed.
pub open spec fn response_status(verification_ok: bool, attestation_ok: bool) -> u16 {
    if !attestation_ok {
        500
    } else if !verification_ok {
        400
    } else {
        200
    }
}

impl VerificationResponse {
    /// The status with which this response is sent.
    pub fn status(&self) -> (status: u16)
        ensures
            status == response_status(self.verification is Ok, self.attestation is Ok),
    {
        match (&self.verification, &self.attestation) {
            (Ok(_), Ok(_)) => 200,
            (Err(_), Ok(_)) => 400,
            (_, Err(_)) => 500,
        }
    }
}

/// The answer to a request for verification: the two outcomes side by side,
/// neither changed, and the status that they call for.
pub fn verify_proof_route(
    verification: Result<VerificationResult, VerificationError>,
    attestation: Result<SignedAttestation, AttestationError>,
) -> (answer: (u16, VerificationResponse))
    ensures
        answer.0 == response_status(verification is Ok, attestation is Ok),
        answer.1.verification == verification,
        answer.1.attestation == attestation,
{
    let response = VerificationResponse { verification, attestation };
    let status = response.status();
    (status, response)
}

/// The status of the answer to a request for an attestation alone.
pub fn attestation_route(attestation: &Result<SignedAttestation, AttestationError>) -> (status:
    u16)
    ensures
        status == if attestation is Ok {
            200u16
        } else {
            500u16
        },
{
    match attestation {
        Ok(_) => 200,
        Err(_) => 500,
    }
}

/// The status of the answer to a health probe: 200 where the quote service
/// was reached, else 503.
pub fn health_check(reachable: &Result<bool, DStackError>) -> (status: u16)
    ensures
        status == if reachable matches Ok(true) {
            200u16
        } else {
            503u16
        },
{
    match reachable {
        Ok(true) => 200,
        _ => 503,
    }
}

/// The greeting of the service, with what the quote service tells of
/// itself or a note that it told nothing.
pub fn root(info: Option<&str>) -> (page: String)
    ensures
        page@ == "Welcome to the TLSN Verifier\n\nDStack Info: "@ + match info {
            Some(text) => text@,
            None => "\"Error fetching info\""@,
        },
{
    match info {
        Some(text) => prefixed("Welcome to the TLSN Verifier\n\nDStack Info: ", text),
        None => prefixed(
            "Welcome to the TLSN Verifier\n\nDStack Info: ",
            "\"Error fetching info\"",
        ),
    }
}

} // verus!
