//! What a response of the quote service amounts to, by its status.

use crate::decoder::prefixed;
use crate::types::{GetKeyResponse, GetQuoteResponse};
use vstd::prelude::*;
use vstd::string::StringExecFns;

verus! {

/// A failed call of the quote service.
#[derive(Debug, Clone, PartialEq, Eq)]
pub enum DStackError {
    /// The request could not be sent, or no response came.
    Request(String),
    /// The body of a successful response is not what was asked for.
    ParseError(String),
    BadRequest(String),
    NotFound(String),
    Unauthorized(String),
    ServerError(String),
}

/// The model of a `DStackError`.
pub enum Failure {
    Request(Seq<char>),
    ParseError(Seq<char>),
    BadRequest(Seq<char>),
    NotFound(Seq<char>),
    Unauthorized(Seq<char>),
    ServerError(Seq<char>),
}

impl View for DStackError {
    type V = Failure;

    open spec fn view(&self) -> Failure {
        match self {
            DStackError::Request(m) => Failure::Request(m@),
            DStackError::ParseError(m) => Failure::ParseError(m@),
            DStackError::BadRequest(m) => Failure::BadRequest(m@),
            DStackError::NotFound(m) => Failure::NotFound(m@),
            DStackError::Unauthorized(m) => Failure::Unauthorized(m@),
            DStackError::ServerError(m) => Failure::ServerError(m@),
        }
    }
}

/// A response of the quote service, as far as it could be read.
#[derive(Debug, PartialEq, Eq)]
pub struct Reply<T> {
    /// The status code.
    pub status: u16,
    /// The status as it is displayed: the code and its reason.
    pub status_text: String,
    /// The body as text, where it could be read.
    pub body: Option<String>,
    /// The body as the value that was asked for, or why it is none.
    pub parsed: Result<T, String>,
}

/// The quote service at some address.
#[derive(Debug, PartialEq, Eq)]
pub struct DStackClient {
    base_url: String,
}

/// `text` if there is one, else `default`.
pub open spec fn text_or(text: Option<String>, default: Seq<char>) -> Seq<char> {
    match text {
        Some(t) => t@,
        None => default,
    }
}

/// What a response amounts to: the value, or the failure that its status
/// and body stand for.
pub open spec fn reply_outcome<T>(reply: Reply<T>) -> Result<T, Failure> {
    let status = reply.status_text@;
    if reply.status == 200 {
        match reply.parsed {
            Ok(value) => Ok(value),
            Err(why) => Err(Failure::ParseError("Failed to parse response: "@ + why@)),
        }
    } else if reply.status == 400 {
        Err(Failure::BadRequest(text_or(reply.body, "Invalid request parameters"@)))
    } else if reply.status == 404 {
        Err(Failure::NotFound("Requested resource not found"@))
    } else if reply.status == 401 {
        Err(Failure::Unauthorized("Authentication failed"@))
    } else if 500 <= reply.status <= 599 {
        Err(Failure::ServerError(text_or(reply.body, "Server error: "@ + status)))
    } else {
        Err(
            Failure::ServerError(
                "Unexpected response: "@ + status + " - "@ + text_or(
                    reply.body,
                    "Unexpected status: "@ + status,
                ),
            ),
        )
    }
}

/// What an exchange amounts to: the value, or the failure.
pub open spec fn exchange_outcome<T>(exchange: Result<Reply<T>, String>) -> Result<T, Failure> {
    match exchange {
        Ok(reply) => reply_outcome(reply),
        Err(why) => Err(Failure::Request(why@)),
    }
}

/// The model of the result of a call.
pub open spec fn result_view<T>(res: Result<T, DStackError>) -> Result<T, Failure> {
    match res {
        Ok(value) => Ok(value),
        Err(e) => Err(e@),
    }
}

fn body_or(body: Option<String>, default: String) -> (text: String)
    ensures
        text@ == text_or(body, default@),
{
    match body {
        Some(text) => text,
        None => default,
    }
}

impl DStackClient {
    /// The address of the service.
    pub closed spec fn base(self) -> Seq<char> {
        self.base_url@
    }

    /// The service at `base_url`.
    pub fn init(base_url: &str) -> (client: Self)
        ensures
            client.base() == base_url@,
    {
        DStackClient { base_url: String::from_str(base_url) }
    }

    /// Another handle on the same service.
    pub fn clone(&self) -> (client: Self)
        ensures
            client.base() == self.base(),
    {
        DStackClient { base_url: self.base_url.clone() }
    }

    /// The address of an endpoint of the service.
    pub fn endpoint(&self, path: &str) -> (url: String)
        ensures
            url@ == self.base() + path@,
    {
        prefixed(self.base_url.as_str(), path)
    }

    /// Where a key is derived.
    pub fn derive_key_url(&self) -> (url: String)
        ensures
            url@ == self.base() + "/dstack/derive-key"@,
    {
        self.endpoint("/dstack/derive-key")
    }

    /// Where a quote is generated.
    pub fn generate_quote_url(&self) -> (url: String)
        ensures
            url@ == self.base() + "/dstack/tdx-quote"@,
    {
        self.endpoint("/dstack/tdx-quote")
    }

    /// Where the service shows that it is there.
    pub fn is_reachable_url(&self) -> (url: String)
        ensures
            url@ == self.base() + "/dstack/"@,
    {
        self.endpoint("/dstack/")
    }

    /// Where the service tells about itself.
    pub fn info_url(&self) -> (url: String)
        ensures
            url@ == self.base() + "/dstack/info"@,
    {
        self.endpoint("/dstack/info")
    }

    /// What a response amounts to, by its status: 200 gives the parsed
    /// value, and every other status an error of the matching kind.
    pub fn process_response<T>(&self, reply: Reply<T>) -> (res: Result<T, DStackError>)
        ensures
            result_view(res) == reply_outcome(reply),
    {
        let Reply { status, status_text, body, parsed } = reply;
        if status == 200 {
            match parsed {
                Ok(value) => Ok(value),
                Err(why) => Err(
                    DStackError::ParseError(prefixed("Failed to parse response: ", why.as_str())),
                ),
            }
        } else if status == 400 {
            Err(DStackError::BadRequest(body_or(body, String::from_str("Invalid request parameters"))))
        } else if status == 404 {
            Err(DStackError::NotFound(String::from_str("Requested resource not found")))
        } else if status == 401 {
            Err(DStackError::Unauthorized(String::from_str("Authentication failed")))
        } else if 500 <= status && status <= 599 {
            Err(
                DStackError::ServerError(
                    body_or(body, prefixed("Server error: ", status_text.as_str())),
                ),
            )
        } else {
            let text = body_or(body, prefixed("Unexpected status: ", status_text.as_str()));
            let mut message = String::from_str("Unexpected response: ");
            message.append(status_text.as_str());
            message.append(" - ");
            message.append(text.as_str());
            Err(DStackError::ServerError(message))
        }
    }

    fn process_exchange<T>(&self, exchange: Result<Reply<T>, String>) -> (res: Result<
        T,
        DStackError,
    >)
        ensures
            result_view(res) == exchange_outcome(exchange),
    {
        match exchange {
            Ok(reply) => self.process_response(reply),
            Err(why) => Err(DStackError::Request(why)),
        }
    }

    /// The derived key in the answer to a request for one.
    pub fn derive_key(&self, exchange: Result<Reply<GetKeyResponse>, String>) -> (res: Result<
        String,
        DStackError,
    >)
        ensures
            res matches Ok(key) ==> exchange_outcome(exchange) matches Ok(response)
                && response.key == key,
            res matches Err(e) ==> exchange_outcome(exchange) == Err::<GetKeyResponse, Failure>(
                e@,
            ),
    {
        match self.process_exchange(exchange) {
            Ok(response) => Ok(response.key),
            Err(e) => Err(e),
        }
    }

    /// The quote in the answer to a request for one.
    pub fn generate_quote(&self, exchange: Result<Reply<GetQuoteResponse>, String>) -> (res:
        Result<GetQuoteResponse, DStackError>)
        ensures
            result_view(res) == exchange_outcome(exchange),
    {
        self.process_exchange(exchange)
    }

    /// What the service tells about itself.
    pub fn info<T>(&self, exchange: Result<Reply<T>, String>) -> (res: Result<T, DStackError>)
        ensures
            result_view(res) == exchange_outcome(exchange),
    {
        self.process_exchange(exchange)
    }

    /// Tells whether the service is there, from the status of its answer
    /// to a probe, given as the code and as it is displayed: any status from
    /// 200 to 299 says that it is, any other is an error.
    pub fn is_reachable(&self, probe: Result<(u16, String), String>) -> (res: Result<
        bool,
        DStackError,
    >)
        ensures
            result_view(res) == match probe {
                Err(why) => Err::<bool, Failure>(Failure::Request(why@)),
                Ok((status, text)) => if 200 <= status <= 299 {
                    Ok(true)
                } else {
                    Err(Failure::ServerError("Service not reachable, status: "@ + text@))
                },
            },
    {
        match probe {
            Err(why) => Err(DStackError::Request(why)),
            Ok((status, text)) => if 200 <= status && status <= 299 {
                Ok(true)
            } else {
                Err(
                    DStackError::ServerError(
                        prefixed("Service not reachable, status: ", text.as_str()),
                    ),
                )
            },
        }
    }
}

} // verus!
