use vstd::prelude::*;
use vstd::string::StringExecFns;

verus! {

/// prost's encoding error, carried opaquely in [`ProtoBufPayloadError::Serialize`].
#[verifier::external_type_specification]
#[verifier::external_body]
pub struct ExEncodeError(prost::EncodeError);

/// prost's decoding error, carried opaquely in [`ProtoBufPayloadError::Deserialize`].
#[verifier::external_type_specification]
#[verifier::external_body]
pub struct ExDecodeError(prost::DecodeError);

/// The framework's body-stream error, carried opaquely in [`ProtoBufPayloadError::Payload`].
#[verifier::external_type_specification]
#[verifier::external_body]
pub struct ExPayloadError(actix_web::error::PayloadError);

/// Why a protocol-buffer payload could not be read or written.
#[derive(Debug)]
pub enum ProtoBufPayloadError {
    /// The declared or accumulated size exceeds the configured limit.
    Overflow,
    /// The request's content type is not `application/protobuf`.
    ContentType,
    /// The outgoing message could not be encoded.
    Serialize(prost::EncodeError),
    /// The accumulated bytes are not a valid message of the target type.
    Deserialize(prost::DecodeError),
    /// The body stream itself failed while it was being read.
    Payload(actix_web::error::PayloadError),
}

/// HTTP 413 Payload Too Large.
pub const STATUS_PAYLOAD_TOO_LARGE: u16 = 413;

/// HTTP 400 Bad Request.
pub const STATUS_BAD_REQUEST: u16 = 400;

impl ProtoBufPayloadError {
    /// The HTTP status that this error is rendered with.
    pub open spec fn spec_status_code(&self) -> u16 {
        if self is Overflow {
            STATUS_PAYLOAD_TOO_LARGE
        } else {
            STATUS_BAD_REQUEST
        }
    }

    /// The HTTP status of the error response: 413 for an overflow, 400 otherwise.
    pub fn status_code(&self) -> (r: u16)
        ensures
            r == self.spec_status_code(),
    {
        match self {
            ProtoBufPayloadError::Overflow => STATUS_PAYLOAD_TOO_LARGE,
            _ => STATUS_BAD_REQUEST,
        }
    }

    /// The error's message text: a fixed sentence for an overflow or a wrong
    /// content type, otherwise a fixed prefix followed by the cause's text.
    pub fn message(&self) -> (r: String)
        ensures
            self is Overflow ==> r@ == "Payload size is bigger than 256k"@,
            self is ContentType ==> r@ == "Content type error"@,
            self is Serialize ==> "ProtoBuf serialize error: "@.is_prefix_of(r@),
            self is Deserialize ==> "ProtoBuf deserialize error: "@.is_prefix_of(r@),
            self is Payload ==> "Error that occur during reading payload: "@.is_prefix_of(r@),
    {
        let (prefix, cause) = match self {
            ProtoBufPayloadError::Overflow => ("Payload size is bigger than 256k", String::new()),
            ProtoBufPayloadError::ContentType => ("Content type error", String::new()),
            ProtoBufPayloadError::Serialize(e) => ("ProtoBuf serialize error: ", e.to_string()),
            ProtoBufPayloadError::Deserialize(e) => ("ProtoBuf deserialize error: ", e.to_string()),
            ProtoBufPayloadError::Payload(e) => (
                "Error that occur during reading payload: ",
                e.to_string(),
            ),
        };
        let r = String::from_str(prefix).concat(cause.as_str());
        assert(prefix@.is_prefix_of(r@)) by {
            assert(r@.subrange(0, prefix@.len() as int) =~= prefix@);
        }
        r
    }
}

impl From<actix_web::error::PayloadError> for ProtoBufPayloadError {
    fn from(err: actix_web::error::PayloadError) -> (r: ProtoBufPayloadError)
        ensures
            r == ProtoBufPayloadError::Payload(err),
    {
        ProtoBufPayloadError::Payload(err)
    }
}

impl vstd::std_specs::convert::FromSpecImpl<actix_web::error::PayloadError> for ProtoBufPayloadError {
    open spec fn obeys_from_spec() -> bool {
        true
    }

    open spec fn from_spec(v: actix_web::error::PayloadError) -> Self {
        ProtoBufPayloadError::Payload(v)
    }
}

impl From<prost::DecodeError> for ProtoBufPayloadError {
    fn from(err: prost::DecodeError) -> (r: ProtoBufPayloadError)
        ensures
            r == ProtoBufPayloadError::Deserialize(err),
    {
        ProtoBufPayloadError::Deserialize(err)
    }
}

impl vstd::std_specs::convert::FromSpecImpl<prost::DecodeError> for ProtoBufPayloadError {
    open spec fn obeys_from_spec() -> bool {
        true
    }

    open spec fn from_spec(v: prost::DecodeError) -> Self {
        ProtoBufPayloadError::Deserialize(v)
    }
}

} // verus!
