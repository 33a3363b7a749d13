//! Verification of a presentation, step by step: what is checked before the
//! cryptographic check of the proof, and what is made of its outcome.

use crate::decoder::{encoding_message, payload_of, prefixed, reject, Rejection};
use crate::extract::{
    find_host, find_score, first_line, has_score, host_header, is_request_for_score,
    is_score_request, lemma_score_found_iff, request_line, score_of,
};
use crate::policy::{
    host_message, identity_verdict, is_listed, name_or_placeholder, version_verdict,
    VerifierConfig,
};
use crate::text::{from_chars, same_chars, to_chars};
use crate::transcript::{redacted, Transcript};
use crate::trusted::{
    hex_encode, hex_encoding, lossy_text, rfc3339_from_seconds, rfc3339_utc, utf8_lossy,
};
use crate::types::{ErrorKind, PresentationJSON, VerificationError, VerificationResult};
use vstd::prelude::*;
use vstd::string::StringExecFns;

verus! {

/// What the cryptographic check establishes of a proof.
#[derive(Debug, Clone, PartialEq, Eq)]
pub struct VerifiedOutcome {
    /// The key that the notary signed with.
    pub verifying_key: Vec<u8>,
    /// The server identity that the proof asserts, if any.
    pub server_name: Option<String>,
    /// Time of the connection, in seconds since the Unix epoch.
    pub time: u64,
    /// The transcript that the proof discloses, if any.
    pub transcript: Option<Transcript>,
}

/// Why the cryptographic check gave no outcome.
#[derive(Debug, Clone, PartialEq, Eq)]
pub enum CryptoFailure {
    /// The bytes are no presentation.
    Malformed(String),
    /// The presentation is not sound.
    Rejected(String),
}

/// What has happened to a presentation so far.
#[derive(Debug, PartialEq, Eq)]
pub enum VerifyEvent {
    /// The request body was parsed, or could not be.
    Received(Result<PresentationJSON, String>),
    /// The cryptographic check of the proof has run.
    Checked(Result<VerifiedOutcome, CryptoFailure>),
}

/// What is to be done next with a presentation.
#[derive(Debug, PartialEq, Eq)]
pub enum VerifyAction {
    /// Run the cryptographic check on these bytes and come back with its outcome.
    CheckProof(Vec<u8>),
    /// Verification is over.
    Finish(Result<VerificationResult, VerificationError>),
}

/// The model of a `VerificationResult`.
pub struct Report {
    pub is_valid: bool,
    pub server_name: Seq<char>,
    pub score: Seq<char>,
    pub verifying_key: Seq<char>,
    pub sent_hex_encoded: Seq<char>,
    pub sent_readable: Seq<char>,
    pub recv_hex_encoded: Seq<char>,
    pub recv_readable: Seq<char>,
    pub time: Seq<char>,
}

impl View for VerificationResult {
    type V = Report;

    open spec fn view(&self) -> Report {
        Report {
            is_valid: self.is_valid,
            server_name: self.server_name@,
            score: self.score@,
            verifying_key: self.verifying_key@,
            sent_hex_encoded: self.sent_hex_encoded@,
            sent_readable: self.sent_readable@,
            recv_hex_encoded: self.recv_hex_encoded@,
            recv_readable: self.recv_readable@,
            time: self.time@,
        }
    }
}

/// The model of a `VerifyAction`.
pub enum Step {
    CheckProof(Seq<u8>),
    Finish(Result<Report, Rejection>),
}

/// The model of the result of a verification.
pub open spec fn verdict_view(res: Result<VerificationResult, VerificationError>) -> Result<
    Report,
    Rejection,
> {
    match res {
        Ok(r) => Ok(r@),
        Err(e) => Err(e@),
    }
}

impl View for VerifyAction {
    type V = Step;

    open spec fn view(&self) -> Step {
        match self {
            VerifyAction::CheckProof(bytes) => Step::CheckProof(bytes@),
            VerifyAction::Finish(res) => Step::Finish(verdict_view(*res)),
        }
    }
}

/// The byte that hides what the proof does not authenticate.
pub const UNAUTHENTICATED: u8 = 88u8;

/// A rejection by the policy.
pub open spec fn refusal(message: Seq<char>) -> Rejection {
    Rejection { kind: ErrorKind::Policy, message }
}

/// What the text of a transcript yields for a server: the score, or the
/// rejection. The `Host` header must name the server exactly, the first line
/// sent must hold a request for a credit score, and what was received must
/// hold a score.
pub open spec fn transcript_verdict(
    server_name: Seq<char>,
    sent: Seq<char>,
    received: Seq<char>,
) -> Result<Seq<char>, Rejection> {
    match host_header(sent) {
        None => Err(refusal("Missing 'Host' header in sent transcript"@)),
        Some(host) => if host != server_name {
            Err(refusal(host_message(host, server_name)))
        } else {
            match request_line(sent) {
                None => Err(refusal("Missing request line in sent transcript"@)),
                Some(line) => if !is_score_request(line) {
                    Err(refusal("Request path is missing or invalid"@))
                } else {
                    match score_of(received) {
                        None => Err(refusal("Credit score value is missing from response"@)),
                        Some(digits) => Ok(digits),
                    }
                },
            }
        },
    }
}

/// The time of a connection in RFC 3339, where it is a time that can be written so.
pub open spec fn time_text(time: u64) -> Option<Seq<char>> {
    if time <= i64::MAX {
        rfc3339_utc(time as int)
    } else {
        None
    }
}

/// What is made of the outcome of the cryptographic check: the result, or
/// the rejection. The checks come in this order: the verifying key, the
/// server's name, the time, the presence of a transcript, and the transcript's
/// text after everything unauthenticated in it has been hidden.
pub open spec fn outcome_verdict(outcome: VerifiedOutcome, accepted: Seq<String>) -> Result<
    Report,
    Rejection,
> {
    match identity_verdict(outcome.verifying_key@, outcome.server_name, accepted) {
        Err(r) => Err(r),
        Ok(name) => match time_text(outcome.time) {
            None => Err(refusal("Invalid or missing timestamp"@)),
            Some(time) => match outcome.transcript {
                None => Err(refusal("Missing transcript in presentation output"@)),
                Some(t) => {
                    let sent = redacted(t.sent@, t.sent_authed@, UNAUTHENTICATED);
                    let received = redacted(t.received@, t.received_authed@, UNAUTHENTICATED);
                    match transcript_verdict(name, utf8_lossy(sent), utf8_lossy(received)) {
                        Err(r) => Err(r),
                        Ok(score) => Ok(
                            Report {
                                is_valid: true,
                                server_name: name,
                                score,
                                verifying_key: hex_encoding(outcome.verifying_key@),
                                sent_hex_encoded: hex_encoding(sent),
                                sent_readable: utf8_lossy(sent),
                                recv_hex_encoded: hex_encoding(received),
                                recv_readable: utf8_lossy(received),
                                time,
                            },
                        ),
                    }
                },
            },
        },
    }
}

/// What follows an event: the next step.
pub open spec fn next_step(config: VerifierConfig, event: VerifyEvent) -> Step {
    match event {
        VerifyEvent::Received(Err(why)) => Step::Finish(
            Err(Rejection { kind: ErrorKind::Decode, message: "Invalid JSON format: "@ + why@ }),
        ),
        VerifyEvent::Received(Ok(presentation)) => match version_verdict(
            config.accepted_version@,
            presentation.version@,
        ) {
            Err(r) => Step::Finish(Err(r)),
            Ok(_) => match payload_of(presentation.data@) {
                Err(r) => Step::Finish(Err(r)),
                Ok(bytes) => Step::CheckProof(bytes),
            },
        },
        VerifyEvent::Checked(Err(CryptoFailure::Malformed(why))) => Step::Finish(
            Err(Rejection { kind: ErrorKind::Decode, message: encoding_message(why@) }),
        ),
        VerifyEvent::Checked(Err(CryptoFailure::Rejected(why))) => Step::Finish(
            Err(
                Rejection {
                    kind: ErrorKind::CryptoVerify,
                    message: "Presentation verification failed: "@ + why@,
                },
            ),
        ),
        VerifyEvent::Checked(Ok(outcome)) => Step::Finish(
            outcome_verdict(outcome, config.accepted_server_names@),
        ),
    }
}

/// A rejection by the policy with a fixed message.
fn refuse(message: &str) -> (e: VerificationError)
    ensures
        e@ == refusal(message@),
{
    reject(ErrorKind::Policy, String::from_str(message))
}

/// Reads the text of a transcript for the server `server_name`: checks the
/// `Host` header and the request line of what was sent, and finds the score in
/// what was received.
pub fn inspect_transcript(server_name: &str, sent: &str, received: &str) -> (res: Result<
    String,
    VerificationError,
>)
    ensures
        res matches Ok(score) ==> transcript_verdict(server_name@, sent@, received@) == Ok::<
            Seq<char>,
            Rejection,
        >(score@),
        res matches Err(e) ==> transcript_verdict(server_name@, sent@, received@) == Err::<
            Seq<char>,
            Rejection,
        >(e@),
{
    let sent_chars = to_chars(sent);
    let host = match find_host(sent_chars.as_slice()) {
        None => {
            return Err(refuse("Missing 'Host' header in sent transcript"));
        },
        Some(host) => host,
    };
    let name_chars = to_chars(server_name);
    if !same_chars(host.as_slice(), name_chars.as_slice()) {
        let host_text = from_chars(host.as_slice());
        let mut message = String::from_str("Host header '");
        message.append(host_text.as_str());
        message.append("' does not match server name '");
        message.append(server_name);
        message.append("'");
        return Err(reject(ErrorKind::Policy, message));
    }
    let line = match first_line(sent_chars.as_slice()) {
        None => {
            return Err(refuse("Missing request line in sent transcript"));
        },
        Some(line) => line,
    };
    if !is_request_for_score(line.as_slice()) {
        return Err(refuse("Request path is missing or invalid"));
    }
    let received_chars = to_chars(received);
    match find_score(received_chars.as_slice()) {
        None => Err(refuse("Credit score value is missing from response")),
        Some(digits) => Ok(from_chars(digits.as_slice())),
    }
}

/// The time of a connection in RFC 3339.
pub fn format_time(time: u64) -> (res: Option<String>)
    ensures
        res is Some <==> time_text(time) is Some,
        res matches Some(text) ==> time_text(time) == Some(text@),
{
    if time > i64::MAX as u64 {
        None
    } else {
        rfc3339_from_seconds(time as i64)
    }
}

impl VerifierConfig {
    /// Judges the outcome of the cryptographic check. Either every check
    /// passes and the result is complete, or the first check that fails gives
    /// the rejection.
    pub fn evaluate_outcome(&self, outcome: VerifiedOutcome) -> (res: Result<
        VerificationResult,
        VerificationError,
    >)
        ensures
            verdict_view(res) == outcome_verdict(outcome, self.accepted_server_names@),
    {
        let server_name = match self.check_identity(&outcome.verifying_key, &outcome.server_name) {
            Err(e) => {
                return Err(e);
            },
            Ok(name) => name,
        };
        let time = match format_time(outcome.time) {
            None => {
                return Err(refuse("Invalid or missing timestamp"));
            },
            Some(time) => time,
        };
        let verifying_key = hex_encode(outcome.verifying_key.as_slice());
        let mut transcript = match outcome.transcript {
            None => {
                return Err(refuse("Missing transcript in presentation output"));
            },
            Some(t) => t,
        };
        transcript.set_unauthed(UNAUTHENTICATED);
        let sent_readable = lossy_text(transcript.sent_unsafe().as_slice());
        let recv_readable = lossy_text(transcript.received_unsafe().as_slice());
        let score = match inspect_transcript(
            server_name.as_str(),
            sent_readable.as_str(),
            recv_readable.as_str(),
        ) {
            Err(e) => {
                return Err(e);
            },
            Ok(score) => score,
        };
        let sent_hex_encoded = hex_encode(transcript.sent_unsafe().as_slice());
        let recv_hex_encoded = hex_encode(transcript.received_unsafe().as_slice());
        Ok(
            VerificationResult {
                is_valid: true,
                server_name,
                score,
                verifying_key,
                sent_hex_encoded,
                sent_readable,
                recv_hex_encoded,
                recv_readable,
                time,
            },
        )
    }
}

/// Takes a presentation one step further. The body of a request comes in as
/// `Received`; unless it is turned down at once, the answer is `CheckProof`
/// with the bytes of the proof. The outcome of that check comes in as
/// `Checked`, and the answer is `Finish`.
pub fn verify_proof(config: &VerifierConfig, event: VerifyEvent) -> (action: VerifyAction)
    ensures
        action@ == next_step(*config, event),
{
    match event {
        VerifyEvent::Received(Err(why)) => VerifyAction::Finish(
            Err(reject(ErrorKind::Decode, prefixed("Invalid JSON format: ", why.as_str()))),
        ),
        VerifyEvent::Received(Ok(presentation)) => {
            match config.check_version(&presentation) {
                Err(e) => VerifyAction::Finish(Err(e)),
                Ok(_) => match presentation.to_presentation() {
                    Err(e) => VerifyAction::Finish(Err(e)),
                    Ok(bytes) => VerifyAction::CheckProof(bytes),
                },
            }
        },
        VerifyEvent::Checked(Err(CryptoFailure::Malformed(why))) => VerifyAction::Finish(
            Err(
                reject(ErrorKind::Decode, prefixed("Invalid presentation encoding: ", why.as_str())),
            ),
        ),
        VerifyEvent::Checked(Err(CryptoFailure::Rejected(why))) => VerifyAction::Finish(
            Err(
                reject(
                    ErrorKind::CryptoVerify,
                    prefixed("Presentation verification failed: ", why.as_str()),
                ),
            ),
        ),
        VerifyEvent::Checked(Ok(outcome)) => VerifyAction::Finish(config.evaluate_outcome(outcome)),
    }
}

/// The text of what was sent, as it is read, for a transcript.
pub open spec fn sent_text(t: Transcript) -> Seq<char> {
    utf8_lossy(redacted(t.sent@, t.sent_authed@, UNAUTHENTICATED))
}

/// The text of what was received, as it is read, for a transcript.
pub open spec fn received_text(t: Transcript) -> Seq<char> {
    utf8_lossy(redacted(t.received@, t.received_authed@, UNAUTHENTICATED))
}

/// A presentation of any version but the accepted one is turned down for its
/// version, whatever else it holds, and its proof is never handed to the
/// cryptographic check.
pub proof fn lemma_version_is_pinned(config: VerifierConfig, presentation: PresentationJSON)
    requires
        presentation.version@ != config.accepted_version@,
    ensures
        next_step(config, VerifyEvent::Received(Ok(presentation))) == Step::Finish(
            Err(
                Rejection {
                    kind: ErrorKind::Policy,
                    message: crate::policy::version_message(
                        config.accepted_version@,
                        presentation.version@,
                    ),
                },
            ),
        ),
        !(next_step(config, VerifyEvent::Received(Ok(presentation))) is CheckProof),
{
}

/// An outcome is accepted only if the server it asserts is, character for
/// character, on the list; the result then carries that server's name.
pub proof fn lemma_accepted_server_is_listed(outcome: VerifiedOutcome, accepted: Seq<String>)
    ensures
        outcome_verdict(outcome, accepted) matches Ok(report) ==> {
            &&& is_listed(accepted, name_or_placeholder(outcome.server_name))
            &&& report.server_name == name_or_placeholder(outcome.server_name)
            &&& report.is_valid
        },
        !is_listed(accepted, name_or_placeholder(outcome.server_name)) ==> outcome_verdict(
            outcome,
            accepted,
        ) is Err,
{
}

/// An outcome is accepted only if the `Host` header of what was sent names
/// the asserted server exactly.
pub proof fn lemma_accepted_host_matches(outcome: VerifiedOutcome, accepted: Seq<String>)
    ensures
        outcome_verdict(outcome, accepted) is Ok ==> {
            &&& outcome.transcript is Some
            &&& host_header(sent_text(outcome.transcript->0)) == Some(
                name_or_placeholder(outcome.server_name),
            )
        },
{
}

/// A transcript whose first line sent holds no request for a credit score is
/// turned down.
pub proof fn lemma_request_line_is_required(
    server_name: Seq<char>,
    sent: Seq<char>,
    received: Seq<char>,
)
    requires
        request_line(sent) matches Some(line) ==> !is_score_request(line),
    ensures
        transcript_verdict(server_name, sent, received) is Err,
{
}

/// An outcome whose first line sent holds no request for a credit score is
/// turned down.
pub proof fn lemma_outcome_needs_request_line(outcome: VerifiedOutcome, accepted: Seq<String>)
    requires
        outcome.transcript matches Some(t) ==> (request_line(sent_text(t)) matches Some(line)
            ==> !is_score_request(line)),
    ensures
        outcome_verdict(outcome, accepted) is Err,
{
}

/// A transcript in which nothing received holds a score is turned down.
pub proof fn lemma_score_is_required(server_name: Seq<char>, sent: Seq<char>, received: Seq<char>)
    requires
        !has_score(received),
    ensures
        transcript_verdict(server_name, sent, received) is Err,
{
    lemma_score_found_iff(received);
}

/// An outcome in which nothing received holds a score is turned down.
pub proof fn lemma_outcome_needs_score(outcome: VerifiedOutcome, accepted: Seq<String>)
    requires
        outcome.transcript matches Some(t) ==> !has_score(received_text(t)),
    ensures
        outcome_verdict(outcome, accepted) is Err,
{
    if outcome.transcript is Some {
        lemma_score_found_iff(received_text(outcome.transcript->0));
    }
}

} // verus!
