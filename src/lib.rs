//! Protocol-buffer payloads for HTTP handlers: a bounded body reader that
//! enforces a size limit before decoding, the encoding path for responses,
//! and the `WWW-Authenticate: Bearer` challenge value.

pub mod bearer;
pub mod error;
pub mod message;

pub use bearer::{Bearer, BearerBuilder, Error};
pub use error::ProtoBufPayloadError;
pub use message::{encode_body, BodyReader, ProtoBufConfig, ProtoBufMessage};
