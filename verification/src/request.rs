//! What a payload must offer, and what answers requests.

use crate::codec::{FromJson, ToJson};
use crate::envelope::{encode, envelope};
use crate::error::Error;
use crate::json::Json;
use vstd::prelude::*;

verus! {

/// A payload: the parameters of one action, written as JSON by [`ToJson`].
///
/// The type fixes the name of the action, the version of the protocol and
/// the type of the answer; none of them can change at run time.
pub trait AnkiRequest: ToJson {
    /// What the answer to this action decodes into. Its default stands for
    /// an answer without data.
    type Response: Default + FromJson;

    /// The name of the action.
    const ACTION: &'static str;

    /// The version of the protocol that the action is asked in.
    const VERSION: u8;

    /// Wraps the payload into the request envelope of its action: the
    /// payload stands under `params`, unless it is written as `null`.
    fn to_json(&self) -> (r: Json)
        ensures
            r@ == envelope(Self::ACTION@, Self::VERSION, self.json_model()),
    {
        encode(Self::ACTION, Self::VERSION, self.to_value())
    }
}

/// Something that answers requests: a client with a transport, or a stand-in
/// for one.
pub trait AnkiRequestable<Request: AnkiRequest> {
    /// The payloads that may be handed to `request`: all, unless the
    /// implementation says otherwise.
    open spec fn accepts(&self, params: Request) -> bool {
        true
    }

    /// The answers that `request` may give to a payload: any, unless the
    /// implementation says otherwise.
    open spec fn answers(&self, params: Request, answer: Result<Request::Response, Error>) -> bool {
        true
    }

    /// Asks for the action of `params` and gives the typed answer, or the
    /// error that the call ended in.
    fn request(&self, params: Request) -> (r: Result<Request::Response, Error>)
        requires
            self.accepts(params),
        ensures
            self.answers(params, r),
    ;
}

} // verus!
