use actix_protobuf::message::{parse_length, DEFAULT_LIMIT, PROTOBUF_CONTENT_TYPE};
use actix_protobuf::{encode_body, ProtoBufConfig, ProtoBufMessage, ProtoBufPayloadError};

fn decode_all(content_type: &str, length: Option<&str>, limit: usize, chunks: &[&[u8]]) -> Result<String, ProtoBufPayloadError> {
    let mut reader = ProtoBufMessage::new(content_type, length).limit(limit).begin()?;
    for chunk in chunks {
        reader = reader.push(chunk)?;
    }
    reader.finish::<String>()
}

#[test]
fn test_protobuf() {
    let body = encode_body(&"test".to_owned()).unwrap();
    assert_eq!(PROTOBUF_CONTENT_TYPE, "application/protobuf");
    assert!(!body.is_empty());
}

#[test]
fn test_protobuf_message() {
    let protobuf = ProtoBufMessage::new("", None).begin();
    assert!(matches!(protobuf.err().unwrap(), ProtoBufPayloadError::ContentType));

    let protobuf = ProtoBufMessage::new("application/text", None).begin();
    assert!(matches!(protobuf.err().unwrap(), ProtoBufPayloadError::ContentType));

    let protobuf = ProtoBufMessage::new("application/protobuf", Some("10000")).limit(100).begin();
    assert!(matches!(protobuf.err().unwrap(), ProtoBufPayloadError::Overflow));
}

#[test]
fn round_trip_through_chunks() {
    let body = encode_body(&"hello protobuf".to_owned()).unwrap();
    let (a, b) = body.split_at(3);
    let decoded = decode_all("application/protobuf", None, DEFAULT_LIMIT, &[a, b]).unwrap();
    assert_eq!(decoded, "hello protobuf");
}

#[test]
fn content_type_checked_before_length() {
    let r = ProtoBufMessage::new("application/json", Some("10000")).limit(100).begin();
    assert!(matches!(r.err().unwrap(), ProtoBufPayloadError::ContentType));
}

#[test]
fn chunk_crossing_limit_is_rejected() {
    let reader = ProtoBufMessage::new("application/protobuf", None).limit(5).begin().ok().unwrap();
    let reader = reader.push(&[1, 2, 3]).ok().unwrap();
    let reader = reader.push(&[4, 5]).ok().unwrap();
    assert_eq!(reader.into_body(), vec![1, 2, 3, 4, 5]);

    let reader = ProtoBufMessage::new("application/protobuf", None).limit(5).begin().ok().unwrap();
    let reader = reader.push(&[1, 2, 3]).ok().unwrap();
    assert!(matches!(reader.push(&[4, 5, 6]).err().unwrap(), ProtoBufPayloadError::Overflow));
}

#[test]
fn declared_length_equal_to_limit_is_accepted() {
    let r = ProtoBufMessage::new("application/protobuf", Some("100")).limit(100).begin();
    assert!(r.is_ok());
    let r = ProtoBufMessage::new("application/protobuf", Some("101")).limit(100).begin();
    assert!(matches!(r.err().unwrap(), ProtoBufPayloadError::Overflow));
}

#[test]
fn unparseable_length_is_ignored() {
    let r = ProtoBufMessage::new("application/protobuf", Some("abc")).limit(1).begin();
    assert!(r.is_ok());
}

#[test]
fn malformed_body_is_deserialize_error() {
    let reader = ProtoBufMessage::new("application/protobuf", None).begin().ok().unwrap();
    let reader = reader.push(&[0x0a, 0x05, b'a']).ok().unwrap();
    assert!(matches!(reader.finish::<String>().err().unwrap(), ProtoBufPayloadError::Deserialize(_)));
}

#[test]
fn length_parsing() {
    assert_eq!(parse_length("10000"), Some(10000));
    assert_eq!(parse_length("+42"), Some(42));
    assert_eq!(parse_length("007"), Some(7));
    assert_eq!(parse_length(""), None);
    assert_eq!(parse_length("+"), None);
    assert_eq!(parse_length("-1"), None);
    assert_eq!(parse_length("12a"), None);
    assert_eq!(parse_length("99999999999999999999999999"), None);
}

#[test]
fn error_statuses_and_messages() {
    assert_eq!(ProtoBufPayloadError::Overflow.status_code(), 413);
    assert_eq!(ProtoBufPayloadError::ContentType.status_code(), 400);
    assert_eq!(ProtoBufPayloadError::Overflow.message(), "Payload size is bigger than 256k");
    assert_eq!(ProtoBufPayloadError::ContentType.message(), "Content type error");
}

#[test]
fn config_limit() {
    let mut c = ProtoBufConfig::default();
    assert_eq!(c.get_limit(), 262_144);
    c.limit(100);
    assert_eq!(c.get_limit(), 100);
}
