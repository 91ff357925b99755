//! A stand-in for a client, for tests: a function answers in place of the
//! server.

use crate::error::Error;
use crate::request::{AnkiRequest, AnkiRequestable};
use core::marker::PhantomData;
use vstd::prelude::*;

verus! {

/// A client whose answers come from `result`, a function from the payload to
/// the outcome of the call. No envelope is built and nothing is sent.
pub struct MockAnkiClient<Request, F> where
    Request: AnkiRequest + Send,
    F: FnOnce(Request) -> Result<Request::Response, Error> + Send + Sync,
 {
    pub phantom: PhantomData<Request>,
    pub result: F,
}

impl<Request, F> MockAnkiClient<Request, F> where
    Request: AnkiRequest + Send,
    F: FnOnce(Request) -> Result<Request::Response, Error> + Send + Sync,
 {
    /// A stand-in that answers with `result`.
    pub fn new_mock(result: F) -> (r: Self)
        ensures
            r.result == result,
    {
        Self { phantom: PhantomData, result }
    }
}

impl<Request, F> AnkiRequestable<Request> for MockAnkiClient<Request, F> where
    Request: AnkiRequest + Send + Sync,
    F: FnOnce(Request) -> Result<Request::Response, Error> + Send + Sync + Copy,
 {
    /// The payloads that `result` may be called on.
    open spec fn accepts(&self, params: Request) -> bool {
        call_requires(self.result, (params,))
    }

    /// The outcomes that `result` may give for the payload.
    open spec fn answers(&self, params: Request, answer: Result<Request::Response, Error>) -> bool {
        call_ensures(self.result, (params,), answer)
    }

    fn request(&self, params: Request) -> (r: Result<Request::Response, Error>) {
        (self.result)(params)
    }
}

/// A stand-in accepts what its function accepts, and answers what its
/// function answers. A caller that holds the function learns from this what a
/// call through [`AnkiRequestable`] asks and gives.
pub proof fn lemma_mock_follows_its_function<Request, F>(
    client: MockAnkiClient<Request, F>,
    params: Request,
    answer: Result<Request::Response, Error>,
) where
    Request: AnkiRequest + Send + Sync,
    F: FnOnce(Request) -> Result<Request::Response, Error> + Send + Sync + Copy,

    ensures
        client.accepts(params) == call_requires(client.result, (params,)),
        client.answers(params, answer) == call_ensures(client.result, (params,), answer),
{
}

} // verus!
