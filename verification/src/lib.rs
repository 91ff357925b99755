//! A typed client for the action-based JSON protocol that AnkiConnect serves
//! over HTTP.
//!
//! A payload type names its action, its protocol version and the type its
//! answers decode into. The library wraps a payload into the request
//! envelope, hands the bytes to a transport, unwraps the reply envelope and
//! sorts the outcome into a typed value or an error.
//!
//! JSON text is read and written by `serde_json`; everything between the two
//! calls works on the crate's own [`Json`] value and is verified against its
//! mathematical model, [`JsonValue`].

pub mod card_actions;
pub mod client;
pub mod codec;
pub mod deck_actions;
pub mod dispatch;
pub mod envelope;
pub mod error;
pub mod graphical_actions;
pub mod json;
pub mod keyed;
pub mod miscellaneous_actions;
pub mod mock;
pub mod prelude;
pub mod request;
pub mod statistic_actions;
pub mod wire;

pub use crate::client::{AnkiClient, FnTransport, Transport, DEFAULT_ENDPOINT};
pub use crate::codec::{FromJson, ToJson};
pub use crate::error::Error;
pub use crate::json::{Json, JsonValue};
pub use crate::mock::MockAnkiClient;
pub use crate::request::{AnkiRequest, AnkiRequestable};
