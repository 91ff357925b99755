//! One call, step by step: the bytes to send, and what the bytes that came
//! back mean.
//!
//! Between the two steps stands the transport, which this module does not
//! know. Whoever runs it hands its outcome to [`conclude`].

use crate::codec::FromJson;
use crate::envelope::{decode, decoded, envelope, AnkiConnectResponse, ReplyModel};
use crate::error::Error;
use crate::json::JsonValue;
use crate::request::AnkiRequest;
use crate::wire::{json_text, render};
use vstd::prelude::*;

verus! {

/// The reason given when the result of a reply does not fit the type of the
/// answer.
pub const RESULT_MISMATCH: &'static str = "the result of the reply does not fit the response";

/// The body of the request for a payload: its envelope as JSON text.
pub open spec fn request_text<R: AnkiRequest>(request: R) -> Seq<u8> {
    json_text(envelope(R::ACTION@, R::VERSION, request.json_model()))
}

/// Writes the request body for a payload.
pub fn request_body<R: AnkiRequest>(request: &R) -> (r: Vec<u8>)
    ensures
        r@ == request_text(*request),
{
    let wrapped = request.to_json();
    render(&wrapped)
}

/// What a reply that has been taken apart comes to.
///
/// An error message wins over a result. Without a message, the result is
/// read as the answer, and a result that does not fit is a failure to
/// deserialize. With neither, the answer is the default of its type.
pub open spec fn classified<T: Default + FromJson>(reply: ReplyModel, outcome: Result<T, Error>) -> bool {
    match (reply.error, reply.result) {
        (Some(message), _) => outcome matches Err(Error::Anki(carried)) && carried@ == message,
        (None, Some(result)) => if T::fits(result) {
            outcome matches Ok(answer) && T::decodes(result, answer)
        } else {
            outcome matches Err(Error::Serde(reason)) && reason@ == RESULT_MISMATCH@
        },
        (None, None) => outcome matches Ok(answer) && call_ensures(T::default, (), answer),
    }
}

/// Sorts a reply into the typed answer or the error that it stands for.
pub fn classify<T: Default + FromJson>(reply: AnkiConnectResponse) -> (r: Result<T, Error>)
    ensures
        classified(reply@, r),
        reply.error matches Some(message) ==> (r matches Err(Error::Anki(carried)) && carried@
            == message@),
        reply.error is None && reply.result is None ==> (r matches Ok(answer) && call_ensures(
            T::default,
            (),
            answer,
        )),
{
    match reply.error {
        Some(message) => Err(Error::Anki(message)),
        None => match reply.result {
            Some(result) => match T::from_json(&result) {
                Some(answer) => Ok(answer),
                None => Err(Error::Serde(RESULT_MISMATCH.to_owned())),
            },
            None => Ok(T::default()),
        },
    }
}

/// What a call comes to, given what the transport reported: the bytes of the
/// reply, or its failure.
///
/// A failure of the transport is passed on and nothing is decoded. Bytes that
/// are no reply envelope are a failure to deserialize. Every other reply is
/// sorted as [`classified`] says.
pub open spec fn concluded<T: Default + FromJson>(
    reply: Result<Seq<u8>, Seq<char>>,
    outcome: Result<T, Error>,
) -> bool {
    match reply {
        Err(report) => outcome matches Err(Error::Transport(carried)) && carried@ == report,
        Ok(body) => match decoded(body) {
            Err(reason) => outcome matches Err(Error::Serde(carried)) && carried@ == reason,
            Ok(taken) => classified(taken, outcome),
        },
    }
}

/// The outcome of a transport as contracts see it.
pub open spec fn reply_model(reply: Result<Vec<u8>, String>) -> Result<Seq<u8>, Seq<char>> {
    match reply {
        Ok(body) => Ok(body@),
        Err(report) => Err(report@),
    }
}

/// A reply that holds neither a result nor an error ends the call with the
/// default of the answer's type, not with an error.
pub proof fn law_empty_reply_is_the_default<T: Default + FromJson>(
    body: Seq<u8>,
    outcome: Result<T, Error>,
)
    requires
        decoded(body) == Ok::<ReplyModel, Seq<char>>(ReplyModel { result: None, error: None }),
        concluded(Ok(body), outcome),
    ensures
        outcome matches Ok(answer) && call_ensures(T::default, (), answer),
{
}

/// A reply that holds an error message and no result ends the call with the
/// error of the server, which carries exactly that message.
pub proof fn law_error_reply_is_the_servers_error<T: Default + FromJson>(
    body: Seq<u8>,
    message: Seq<char>,
    outcome: Result<T, Error>,
)
    requires
        decoded(body) == Ok::<ReplyModel, Seq<char>>(
            ReplyModel { result: None, error: Some(message) },
        ),
        concluded(Ok(body), outcome),
    ensures
        outcome matches Err(Error::Anki(carried)) && carried@ == message,
{
}

/// An error message wins over a result: a reply that holds both ends the
/// call as one that holds the message alone.
pub proof fn law_error_wins_over_result<T: Default + FromJson>(
    result: JsonValue,
    message: Seq<char>,
    outcome: Result<T, Error>,
)
    requires
        classified(ReplyModel { result: Some(result), error: Some(message) }, outcome),
    ensures
        classified(ReplyModel { result: None, error: Some(message) }, outcome),
{
}

/// A failure of the transport ends the call with that failure, whatever a
/// body would have held: none is looked at.
pub proof fn law_failed_send_is_a_transport_error<T: Default + FromJson>(
    report: Seq<char>,
    outcome: Result<T, Error>,
)
    requires
        concluded(Err(report), outcome),
    ensures
        outcome matches Err(Error::Transport(carried)) && carried@ == report,
{
}

/// A call ends in exactly one way: with an answer, or with one error of one
/// kind.
pub proof fn law_one_outcome<T: Default + FromJson>(
    reply: Result<Seq<u8>, Seq<char>>,
    outcome: Result<T, Error>,
)
    requires
        concluded(reply, outcome),
    ensures
        reply is Err <==> outcome matches Err(Error::Transport(_)),
        reply matches Ok(body) && decoded(body) is Err ==> outcome matches Err(Error::Serde(_)),
        reply matches Ok(body) && decoded(body) matches Ok(taken) && taken.error is Some
            <==> outcome matches Err(Error::Anki(_)),
{
}

/// Ends a call: turns what the transport reported into the typed answer or
/// the error.
pub fn conclude<T: Default + FromJson>(reply: Result<Vec<u8>, String>) -> (r: Result<T, Error>)
    ensures
        concluded(reply_model(reply), r),
        reply matches Err(report) ==> (r matches Err(Error::Transport(carried)) && carried@
            == report@),
{
    match reply {
        Err(report) => Err(Error::Transport(report)),
        Ok(body) => match decode(body.as_slice()) {
            Err(error) => Err(error),
            Ok(taken) => classify(taken),
        },
    }
}

} // verus!
