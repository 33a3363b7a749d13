//! The rules that decide whether a proof is accepted: the pinned version, the
//! list of accepted servers, and the agreement of the `Host` header with the
//! server that the proof asserts.

use crate::decoder::{reject, Rejection};
use crate::types::{ErrorKind, PresentationJSON, VerificationError};
use vstd::prelude::*;
use vstd::string::StringExecFns;

verus! {

/// What a verifier accepts.
#[derive(Debug, Clone, PartialEq, Eq)]
pub struct VerifierConfig {
    /// The one version of the presentation format that is accepted.
    pub accepted_version: String,
    /// The servers whose sessions are accepted.
    pub accepted_server_names: Vec<String>,
}

/// The message for a presentation of another version.
pub open spec fn version_message(expected: Seq<char>, got: Seq<char>) -> Seq<char> {
    "Version mismatch: expected '"@ + expected + "', got '"@ + got + "'"@
}

/// The message for a server that is not on the list.
pub open spec fn server_message(name: Seq<char>) -> Seq<char> {
    "Server name '"@ + name + "' is not in the accepted list"@
}

/// The message for a `Host` header that names another server.
pub open spec fn host_message(host: Seq<char>, name: Seq<char>) -> Seq<char> {
    "Host header '"@ + host + "' does not match server name '"@ + name + "'"@
}

/// `name` is, character for character, one of `names`.
pub open spec fn is_listed(names: Seq<String>, name: Seq<char>) -> bool {
    exists|i: int| 0 <= i < names.len() && (#[trigger] names[i])@ == name
}

/// The name that stands for a server, where the proof asserts none.
pub open spec fn name_or_placeholder(name: Option<String>) -> Seq<char> {
    match name {
        Some(n) => n@,
        None => "<no server_name>"@,
    }
}

/// What the version check says of a version.
pub open spec fn version_verdict(accepted: Seq<char>, version: Seq<char>) -> Result<(), Rejection> {
    if version == accepted {
        Ok(())
    } else {
        Err(Rejection { kind: ErrorKind::Policy, message: version_message(accepted, version) })
    }
}

/// What the checks on the asserted identity say: the server's name, or the rejection.
pub open spec fn identity_verdict(
    key: Seq<u8>,
    server_name: Option<String>,
    accepted: Seq<String>,
) -> Result<Seq<char>, Rejection> {
    let name = name_or_placeholder(server_name);
    if key.len() == 0 {
        Err(Rejection { kind: ErrorKind::Policy, message: "Verifying key is empty or missing"@ })
    } else if !is_listed(accepted, name) {
        Err(Rejection { kind: ErrorKind::Policy, message: server_message(name) })
    } else {
        Ok(name)
    }
}

/// Tells whether `name` is one of `names`. The comparison is exact: no case
/// is folded and no white space is skipped.
pub fn is_accepted_server(names: &Vec<String>, name: &String) -> (b: bool)
    ensures
        b == is_listed(names@, name@),
{
    let mut i: usize = 0;
    while i < names.len()
        invariant
            i <= names@.len(),
            forall|j: int| 0 <= j < i ==> (#[trigger] names@[j])@ != name@,
        decreases names@.len() - i,
    {
        if names[i] == *name {
            return true;
        }
        i = i + 1;
    }
    false
}

impl VerifierConfig {
    /// Accepts the version of `presentation` only if it is the configured one.
    pub fn check_version(&self, presentation: &PresentationJSON) -> (res: Result<
        (),
        VerificationError,
    >)
        ensures
            res is Ok <==> presentation.version@ == self.accepted_version@,
            res matches Err(e) ==> version_verdict(self.accepted_version@, presentation.version@)
                == Err::<(), Rejection>(e@),
    {
        if presentation.version == self.accepted_version {
            Ok(())
        } else {
            let mut message = String::from_str("Version mismatch: expected '");
            message.append(self.accepted_version.as_str());
            message.append("', got '");
            message.append(presentation.version.as_str());
            message.append("'");
            Err(reject(ErrorKind::Policy, message))
        }
    }

    /// Accepts a verified identity only if its verifying key is not empty and
    /// its server is on the list, and gives the server's name.
    pub fn check_identity(&self, verifying_key: &Vec<u8>, server_name: &Option<String>) -> (res:
        Result<String, VerificationError>)
        ensures
            res matches Ok(name) ==> identity_verdict(
                verifying_key@,
                *server_name,
                self.accepted_server_names@,
            ) == Ok::<Seq<char>, Rejection>(name@),
            res matches Err(e) ==> identity_verdict(
                verifying_key@,
                *server_name,
                self.accepted_server_names@,
            ) == Err::<Seq<char>, Rejection>(e@),
    {
        if verifying_key.len() == 0 {
            return Err(
                reject(ErrorKind::Policy, String::from_str("Verifying key is empty or missing")),
            );
        }
        let name = match server_name {
            Some(n) => n.clone(),
            None => String::from_str("<no server_name>"),
        };
        if !is_accepted_server(&self.accepted_server_names, &name) {
            let mut message = String::from_str("Server name '");
            message.append(name.as_str());
            message.append("' is not in the accepted list");
            return Err(reject(ErrorKind::Policy, message));
        }
        Ok(name)
    }
}

/// A server passes the identity check only if it is on the list.
pub proof fn lemma_accepted_identity_is_listed(
    key: Seq<u8>,
    server_name: Option<String>,
    accepted: Seq<String>,
)
    ensures
        identity_verdict(key, server_name, accepted) is Ok ==> is_listed(
            accepted,
            name_or_placeholder(server_name),
        ) && key.len() > 0,
        !is_listed(accepted, name_or_placeholder(server_name)) ==> identity_verdict(
            key,
            server_name,
            accepted,
        ) is Err,
{
}

} // verus!
