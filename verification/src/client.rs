//! The client handle: where to send, and what sends.

use crate::dispatch::{conclude, concluded, reply_model, request_body, request_text};
use crate::error::Error;
use crate::request::{AnkiRequest, AnkiRequestable};
use vstd::prelude::*;

verus! {

/// Where AnkiConnect listens unless it is configured otherwise.
pub const DEFAULT_ENDPOINT: &'static str = "http://localhost:8765";

/// What carries a request to the server and the reply back.
///
/// `post` stands for one HTTP POST of `body`, as the JSON body of the
/// request, to `endpoint`. It gives the bytes of the response, or a report of
/// what went wrong. Nothing is assumed of an implementation: a blocking HTTP
/// client fits, and so does a function written for a test
/// ([`FnTransport`]).
pub trait Transport {
    fn post(&self, endpoint: &str, body: &[u8]) -> Result<Vec<u8>, String>;
}

/// A client handle: the address of the server and the transport that
/// reaches it. A call changes neither.
pub struct AnkiClient<'a, T: Transport> {
    pub endpoint: &'a str,
    pub transport: T,
}

impl<'a, T: Transport> AnkiClient<'a, T> {
    /// A client for the server at `endpoint`.
    #[must_use]
    pub fn new(endpoint: &'a str, transport: T) -> (r: Self)
        ensures
            r.endpoint == endpoint,
            r.transport == transport,
    {
        Self { endpoint, transport }
    }
}

impl<'a, T: Transport + Default> Default for AnkiClient<'a, T> {
    /// A client for the server at [`DEFAULT_ENDPOINT`].
    fn default() -> (r: Self)
        ensures
            r.endpoint@ == DEFAULT_ENDPOINT@,
            call_ensures(T::default, (), r.transport),
    {
        Self::new(DEFAULT_ENDPOINT, T::default())
    }
}

/// A transport made of a function: `post` is one call of it. It serves
/// where no server is at hand, and a reply is to be given by the caller.
pub struct FnTransport<F: Fn(&str, &[u8]) -> Result<Vec<u8>, String>> {
    function: F,
}

impl<F: Fn(&str, &[u8]) -> Result<Vec<u8>, String>> FnTransport<F> {
    /// The function may be called on every endpoint and body.
    #[verifier::type_invariant]
    spec fn total(self) -> bool {
        forall|endpoint: &str, body: &[u8]| call_requires(self.function, (endpoint, body))
    }

    /// The function that answers.
    pub closed spec fn function(self) -> F {
        self.function
    }

    /// A transport that answers with `function`.
    pub fn new(function: F) -> (r: Self)
        requires
            forall|endpoint: &str, body: &[u8]| call_requires(function, (endpoint, body)),
        ensures
            r.function() == function,
    {
        FnTransport { function }
    }
}

impl<F: Fn(&str, &[u8]) -> Result<Vec<u8>, String>> Transport for FnTransport<F> {
    fn post(&self, endpoint: &str, body: &[u8]) -> (r: Result<Vec<u8>, String>)
        ensures
            call_ensures(self.function(), (endpoint, body), r),
    {
        proof {
            use_type_invariant(self);
        }
        (self.function)(endpoint, body)
    }
}

impl<'a, T: Transport, Request: AnkiRequest> AnkiRequestable<Request> for AnkiClient<'a, T> {
    open spec fn accepts(&self, params: Request) -> bool {
        true
    }

    /// The answer is what [`concluded`] makes of some outcome of posting the
    /// request body of `params` to the endpoint.
    open spec fn answers(&self, params: Request, answer: Result<Request::Response, Error>) -> bool {
        exists|body: &[u8], reply: Result<Vec<u8>, String>|
            body@ == request_text(params) && call_ensures(
                T::post,
                (&self.transport, self.endpoint, body),
                reply,
            ) && concluded(reply_model(reply), answer)
    }

    fn request(&self, params: Request) -> (r: Result<Request::Response, Error>) {
        let body = request_body(&params);
        let sent: &[u8] = body.as_slice();
        let reply = self.transport.post(self.endpoint, sent);
        let ghost got = reply;
        let answer = conclude(reply);
        assert(sent@ == request_text(params) && call_ensures(
            T::post,
            (&self.transport, self.endpoint, sent),
            got,
        ) && concluded(reply_model(got), answer));
        answer
    }
}

} // verus!
