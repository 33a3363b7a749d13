//! The check of the API key that every request must carry.

use std::rc::Rc;
use vstd::prelude::*;

verus! {

/// Marks a service as guarded by the API key.
#[derive(Debug, Clone, Copy, PartialEq, Eq, Structural)]
pub struct ApiKeyAuth;

/// A service behind the check of the API key.
pub struct ApiKeyAuthMiddleware<S> {
    service: Rc<S>,
}

/// What becomes of a request.
#[derive(Debug, Clone, Copy, PartialEq, Eq, Structural)]
pub enum Admission {
    /// The request goes on to the service.
    Forward,
    /// The request is answered with this status and goes no further.
    Reject(u16),
}

/// A request is authorized if it presents a key and that key is the expected one.
pub open spec fn is_authorized(expected: Seq<char>, presented: Option<&str>) -> bool {
    presented matches Some(key) && key@ == expected
}

/// Tells whether two texts are the same.
pub fn same_text(a: &str, b: &str) -> (eq: bool)
    ensures
        eq == (a@ == b@),
{
    let x = crate::text::to_chars(a);
    let y = crate::text::to_chars(b);
    crate::text::same_chars(x.as_slice(), y.as_slice())
}

impl ApiKeyAuth {
    /// Puts `service` behind the check.
    pub fn new_transform<S>(&self, service: S) -> (guarded: ApiKeyAuthMiddleware<S>)
        ensures
            guarded.service() == service,
    {
        ApiKeyAuthMiddleware { service: Rc::new(service) }
    }
}

impl<S> ApiKeyAuthMiddleware<S> {
    /// The service behind the check.
    pub closed spec fn service(self) -> S {
        *self.service
    }

    /// The service behind the check.
    pub fn inner(&self) -> (service: &S)
        ensures
            *service == self.service(),
    {
        &self.service
    }

    /// Decides on a request from the key it presents in `x-api-key`, if any,
    /// and the key that is expected: a request with the expected key goes on,
    /// any other is answered with 401.
    pub fn call(&self, expected: &str, presented: Option<&str>) -> (admission: Admission)
        ensures
            admission == if is_authorized(expected@, presented) {
                Admission::Forward
            } else {
                Admission::Reject(401)
            },
    {
        match presented {
            Some(key) => if same_text(key, expected) {
                Admission::Forward
            } else {
                Admission::Reject(401)
            },
            None => Admission::Reject(401),
        }
    }
}

} // verus!
