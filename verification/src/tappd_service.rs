//! The two requests that the local quote provider answers, and what an
//! exchange with it amounts to. Sending is left to the caller.

use crate::decoder::prefixed;
use crate::text::{decimal, push_decimal};
use crate::types::TappdError;
use vstd::prelude::*;
use vstd::string::StringExecFns;

verus! {

/// A request to the quote provider: an HTTP POST with a JSON body over a
/// local socket.
#[derive(Debug, Clone, PartialEq, Eq)]
pub struct TappdRequest {
    /// Path of the socket on which the provider listens.
    pub socket: String,
    /// Path and query of the endpoint.
    pub endpoint: String,
    pub content_type: String,
    pub body: String,
}

/// The point at which a request failed.
#[derive(Debug, Clone, Copy, PartialEq, Eq, Structural)]
pub enum SendStage {
    /// The request could not be put together.
    Build,
    /// The request could not be sent, or no response came.
    Send,
}

/// The body of a response of the provider, as far as it could be read.
#[derive(Debug, Clone, PartialEq, Eq)]
pub enum Body<T> {
    /// The body could not be read, for this reason.
    Unreadable(String),
    /// The body is not what was asked for, for this reason.
    Unparsable(String),
    /// The body stands for this value.
    Parsed(T),
}

/// How an exchange with the provider went.
#[derive(Debug, Clone, PartialEq, Eq)]
pub enum Exchange<T> {
    /// The provider could not be reached.
    Unreachable(TappdError),
    /// The provider responded with this status and body.
    Responded { status: u16, body: Body<T> },
}

/// The statuses with which the provider reports success.
pub open spec fn is_success(status: u16) -> bool {
    200 <= status <= 299
}

/// A request with the given endpoint and body.
pub open spec fn is_request(request: TappdRequest, endpoint: Seq<char>, body: Seq<char>) -> bool {
    &&& request.socket@ == "/var/run/tappd.sock"@
    &&& request.endpoint@ == endpoint
    &&& request.content_type@ == "application/json"@
    &&& request.body@ == body
}

/// The message for a request that failed at `stage`.
pub open spec fn failure_message(stage: SendStage, why: Seq<char>) -> Seq<char> {
    match stage {
        SendStage::Build => "Failed to build request: "@ + why,
        SendStage::Send => "Failed to send request: "@ + why,
    }
}

/// The message for a response with a status that reports no success: the
/// status in decimal, and nothing of the body.
pub open spec fn status_message(status: u16) -> Seq<char> {
    "Tappd Service Error: status "@ + decimal(status as nat)
}

/// What an exchange amounts to: the answer, or the message of the failure.
/// `what` names the kind of answer that was asked for. A response counts
/// only if its status reports success; whatever the body of any other
/// response holds, the exchange has failed.
pub open spec fn exchange_outcome<T>(exchange: Exchange<T>, what: Seq<char>) -> Result<
    T,
    Seq<char>,
> {
    match exchange {
        Exchange::Unreachable(e) => Err("Tappd Service Error: "@ + e.message@),
        Exchange::Responded { status, body } => if !is_success(status) {
            Err(status_message(status))
        } else {
            match body {
                Body::Unreadable(why) => Err("Failed to read response body: "@ + why@),
                Body::Unparsable(why) => Err("Failed to parse "@ + what + ": "@ + why@),
                Body::Parsed(value) => Ok(value),
            }
        },
    }
}

/// An exchange that ends in a status that reports no success has failed,
/// whatever its body holds, and the message of the failure holds nothing of
/// the body.
pub proof fn lemma_status_is_required<T>(status: u16, body: Body<T>, what: Seq<char>)
    requires
        !is_success(status),
    ensures
        exchange_outcome(Exchange::Responded { status, body }, what) == Err::<T, Seq<char>>(
            status_message(status),
        ),
{
}

/// An exchange succeeds only with a status that reports success and a body
/// that stands for an answer, and then gives that answer.
pub proof fn lemma_exchange_success<T>(exchange: Exchange<T>, what: Seq<char>)
    ensures
        exchange_outcome(exchange, what) matches Ok(answer) ==> {
            &&& exchange matches Exchange::Responded { status, body }
            &&& is_success(status)
            &&& body == Body::Parsed(answer)
        },
{
}

fn request_to(endpoint: &str, body: &str) -> (request: TappdRequest)
    ensures
        is_request(request, endpoint@, body@),
{
    TappdRequest {
        socket: String::from_str("/var/run/tappd.sock"),
        endpoint: String::from_str(endpoint),
        content_type: String::from_str("application/json"),
        body: String::from_str(body),
    }
}

/// The request for a quote over the given evidence.
pub fn send_quote_request(custom_evidence: &str) -> (request: TappdRequest)
    ensures
        is_request(request, "/prpc/Tappd.TdxQuote?json"@, custom_evidence@),
{
    request_to("/prpc/Tappd.TdxQuote?json", custom_evidence)
}

/// The request for a derived key. Its body is the empty JSON object.
pub fn send_key_request() -> (request: TappdRequest)
    ensures
        is_request(request, "/prpc/Tappd.DeriveKey?json"@, "{}"@),
{
    request_to("/prpc/Tappd.DeriveKey?json", "{}")
}

/// The error for a request that failed at `stage` for the reason `why`.
pub fn send_failure(stage: SendStage, why: &str) -> (e: TappdError)
    ensures
        e.message@ == failure_message(stage, why@),
{
    match stage {
        SendStage::Build => TappdError { message: prefixed("Failed to build request: ", why) },
        SendStage::Send => TappdError { message: prefixed("Failed to send request: ", why) },
    }
}

/// What an exchange amounts to: the answer, or the message of the failure.
pub fn exchange_result<T>(exchange: Exchange<T>, what: &str) -> (res: Result<T, String>)
    ensures
        res matches Ok(answer) ==> exchange_outcome(exchange, what@) == Ok::<T, Seq<char>>(answer),
        res matches Err(message) ==> exchange_outcome(exchange, what@) == Err::<T, Seq<char>>(
            message@,
        ),
{
    match exchange {
        Exchange::Unreachable(e) => Err(prefixed("Tappd Service Error: ", e.message.as_str())),
        Exchange::Responded { status, body } => {
            if status < 200 || status > 299 {
                let mut message = String::from_str("Tappd Service Error: status ");
                push_decimal(&mut message, status as u64);
                Err(message)
            } else {
                match body {
                    Body::Unreadable(why) => Err(
                        prefixed("Failed to read response body: ", why.as_str()),
                    ),
                    Body::Unparsable(why) => {
                        let mut message = String::from_str("Failed to parse ");
                        message.append(what);
                        message.append(": ");
                        message.append(why.as_str());
                        Err(message)
                    },
                    Body::Parsed(value) => Ok(value),
                }
            }
        },
    }
}

} // verus!
