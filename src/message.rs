use vstd::prelude::*;

use vstd::string::StringSliceAdditionalSpecFns;

use crate::error::ProtoBufPayloadError;

verus! {

/// The content type that protocol-buffer payloads carry.
pub const PROTOBUF_CONTENT_TYPE: &'static str = "application/protobuf";

/// The payload limit in bytes when none is configured.
pub const DEFAULT_LIMIT: usize = 262_144;

/// The capacity that a body buffer starts with.
pub const INITIAL_CAPACITY: usize = 8192;

/// ASCII `+`, which may lead a decimal length.
pub const PLUS_SIGN: u8 = 43;

/// ASCII `0`.
pub const DIGIT_ZERO: u8 = 48;

/// ASCII `9`.
pub const DIGIT_NINE: u8 = 57;

pub open spec fn is_digit(b: u8) -> bool {
    DIGIT_ZERO <= b <= DIGIT_NINE
}

pub open spec fn all_digits(s: Seq<u8>) -> bool {
    forall|i: int| 0 <= i < s.len() ==> is_digit(#[trigger] s[i])
}

/// The number that a string of decimal digits stands for.
pub open spec fn digits_value(s: Seq<u8>) -> nat
    decreases s.len(),
{
    if s.len() == 0 {
        0
    } else {
        digits_value(s.drop_last()) * 10 + (s.last() - DIGIT_ZERO) as nat
    }
}

/// The digits of a length, without the `+` that may lead them.
pub open spec fn unsigned_digits(s: Seq<u8>) -> Seq<u8> {
    if s.len() > 0 && s[0] == PLUS_SIGN {
        s.drop_first()
    } else {
        s
    }
}

/// A `Content-Length` value read as a `usize`: an optional `+`, then one or
/// more decimal digits whose value fits.
pub open spec fn parsed_length(s: Seq<u8>) -> Option<usize> {
    let d = unsigned_digits(s);
    if d.len() > 0 && all_digits(d) && digits_value(d) <= usize::MAX {
        Some(digits_value(d) as usize)
    } else {
        None
    }
}

proof fn lemma_prefix_value_le(s: Seq<u8>, i: int)
    requires
        0 <= i <= s.len(),
        all_digits(s),
    ensures
        digits_value(s.subrange(0, i)) <= digits_value(s),
    decreases s.len() - i,
{
    if i < s.len() {
        lemma_prefix_value_le(s, i + 1);
        assert(s.subrange(0, i + 1).drop_last() =~= s.subrange(0, i));
    } else {
        assert(s.subrange(0, i) =~= s);
    }
}

/// Reads a `Content-Length` value; `None` where it is not a decimal `usize`.
pub fn parse_length(s: &str) -> (r: Option<usize>)
    ensures
        r == parsed_length(s.spec_bytes()),
{
    let b = s.as_bytes();
    let start: usize = if b.len() > 0 && b[0] == PLUS_SIGN {
        1
    } else {
        0
    };
    let ghost d = unsigned_digits(b@);
    assert(d =~= b@.subrange(start as int, b@.len() as int));
    if start == b.len() {
        return None;
    }
    let mut i: usize = start;
    let mut v: usize = 0;
    while i < b.len()
        invariant
            start <= i <= b.len(),
            d == b@.subrange(start as int, b@.len() as int),
            d == unsigned_digits(b@),
            b@ == s.spec_bytes(),
            all_digits(d.subrange(0, i - start)),
            v == digits_value(d.subrange(0, i - start)),
        decreases b.len() - i,
    {
        let c = b[i];
        if c < DIGIT_ZERO || c > DIGIT_NINE {
            assert(d[i - start] == c);
            assert(!is_digit(d[i - start as int]));
            assert(!all_digits(d));
            return None;
        }
        let ghost next = d.subrange(0, i + 1 - start);
        assert(next.drop_last() =~= d.subrange(0, i - start));
        assert(next.last() == c);
        assert(all_digits(next)) by {
            assert forall|k: int| 0 <= k < next.len() implies is_digit(#[trigger] next[k]) by {
                if k < next.len() - 1 {
                    assert(next[k] == d.subrange(0, i - start)[k]);
                }
            }
        }
        assert(digits_value(next) == v * 10 + (c - DIGIT_ZERO) as nat);
        match v.checked_mul(10) {
            Some(m) => match m.checked_add((c - DIGIT_ZERO) as usize) {
                Some(n) => {
                    v = n;
                },
                None => {
                    proof { no_digits_or_too_large(d, next.len() as int); }
                    return None;
                },
            },
            None => {
                proof { no_digits_or_too_large(d, next.len() as int); }
                return None;
            },
        }
        i = i + 1;
    }
    assert(d.subrange(0, i - start) =~= d);
    Some(v)
}

proof fn no_digits_or_too_large(d: Seq<u8>, k: int)
    requires
        0 < k <= d.len(),
        digits_value(d.subrange(0, k)) > usize::MAX,
    ensures
        !(all_digits(d) && digits_value(d) <= usize::MAX),
{
    if all_digits(d) {
        lemma_prefix_value_le(d, k);
    }
}

/// Byte-wise equality of two slices.
fn bytes_equal(a: &[u8], b: &[u8]) -> (r: bool)
    ensures
        r == (a@ == b@),
{
    if a.len() != b.len() {
        return false;
    }
    let mut i: usize = 0;
    while i < a.len()
        invariant
            a.len() == b.len(),
            i <= a.len(),
            forall|k: int| 0 <= k < i ==> a@[k] == b@[k],
        decreases a.len() - i,
    {
        if a[i] != b[i] {
            return false;
        }
        i = i + 1;
    }
    assert(a@ =~= b@);
    true
}

/// Per-route settings of the protocol-buffer extractor.
pub struct ProtoBufConfig {
    limit: usize,
}

impl ProtoBufConfig {
    /// The largest payload accepted, in bytes.
    pub closed spec fn max_size(&self) -> usize {
        self.limit
    }

    /// Changes the largest payload accepted, in bytes.
    pub fn limit(&mut self, limit: usize) -> (r: &mut Self)
        ensures
            r.max_size() == limit,
            *final(self) == *final(r),
    {
        self.limit = limit;
        self
    }

    /// The largest payload accepted, in bytes.
    pub fn get_limit(&self) -> (r: usize)
        ensures
            r == self.max_size(),
    {
        self.limit
    }
}

impl Default for ProtoBufConfig {
    fn default() -> (r: Self)
        ensures
            r.max_size() == DEFAULT_LIMIT,
    {
        ProtoBufConfig { limit: DEFAULT_LIMIT }
    }
}

/// Whether a content type is the protocol-buffer one, compared exactly.
pub open spec fn is_protobuf_type(content_type: Seq<u8>) -> bool {
    content_type == PROTOBUF_CONTENT_TYPE.spec_bytes()
}

/// A decode attempt before any byte of the body is read: what the request's
/// headers said, and the limit that applies.
pub struct ProtoBufMessage {
    limit: usize,
    length: Option<usize>,
    content_type_ok: bool,
}

impl ProtoBufMessage {
    /// The limit that the body is held to, in bytes.
    pub closed spec fn max_size(&self) -> usize {
        self.limit
    }

    /// The length that the request declared, where it declared one that reads as a number.
    pub closed spec fn declared_length(&self) -> Option<usize> {
        self.length
    }

    /// Whether the request carries the protocol-buffer content type.
    pub closed spec fn accepts_content_type(&self) -> bool {
        self.content_type_ok
    }

    /// Whether the declared length is over the limit.
    pub open spec fn declares_too_much(&self) -> bool {
        match self.declared_length() {
            Some(n) => n > self.max_size(),
            None => false,
        }
    }

    /// A decode attempt for a request with the given `Content-Type` (as the
    /// media type alone) and raw `Content-Length` header, under the default limit.
    pub fn new(content_type: &str, content_length: Option<&str>) -> (r: Self)
        ensures
            r.accepts_content_type() == is_protobuf_type(content_type.spec_bytes()),
            r.max_size() == DEFAULT_LIMIT,
            r.declared_length() == if r.accepts_content_type() {
                match content_length {
                    Some(l) => parsed_length(l.spec_bytes()),
                    None => None,
                }
            } else {
                None
            },
    {
        if !bytes_equal(content_type.as_bytes(), PROTOBUF_CONTENT_TYPE.as_bytes()) {
            return ProtoBufMessage { limit: DEFAULT_LIMIT, length: None, content_type_ok: false };
        }
        let length = match content_length {
            Some(l) => parse_length(l),
            None => None,
        };
        ProtoBufMessage { limit: DEFAULT_LIMIT, length, content_type_ok: true }
    }

    /// Changes the limit that the body is held to, in bytes.
    pub fn limit(self, limit: usize) -> (r: Self)
        ensures
            r.max_size() == limit,
            r.declared_length() == self.declared_length(),
            r.accepts_content_type() == self.accepts_content_type(),
    {
        ProtoBufMessage { limit, ..self }
    }

    /// The checks made before any byte is read. A wrong content type fails
    /// first, then a declared length over the limit; otherwise the body
    /// reader starts empty. The attempt is consumed either way.
    pub fn begin(self) -> (r: Result<BodyReader, ProtoBufPayloadError>)
        ensures
            !self.accepts_content_type() ==> r matches Err(ProtoBufPayloadError::ContentType),
            self.accepts_content_type() && self.declares_too_much()
                ==> r matches Err(ProtoBufPayloadError::Overflow),
            self.accepts_content_type() && !self.declares_too_much() ==> {
                &&& r is Ok
                &&& r->Ok_0.contents() == Seq::<u8>::empty()
                &&& r->Ok_0.max_size() == self.max_size()
            },
    {
        if !self.content_type_ok {
            return Err(ProtoBufPayloadError::ContentType);
        }
        if let Some(n) = self.length {
            if n > self.limit {
                return Err(ProtoBufPayloadError::Overflow);
            }
        }
        Ok(BodyReader { limit: self.limit, body: Vec::with_capacity(INITIAL_CAPACITY) })
    }
}

/// The body of a request as it is read chunk by chunk, never longer than its limit.
pub struct BodyReader {
    limit: usize,
    body: Vec<u8>,
}

impl BodyReader {
    #[verifier::type_invariant]
    spec fn within_limit(&self) -> bool {
        self.body@.len() <= self.limit
    }

    /// The bytes accepted so far, in order.
    pub closed spec fn contents(&self) -> Seq<u8> {
        self.body@
    }

    /// The limit that the body is held to, in bytes.
    pub closed spec fn max_size(&self) -> usize {
        self.limit
    }

    /// Takes the next chunk of the body. A chunk that would take the body past
    /// the limit fails with `Overflow` and is not kept; the reader is consumed
    /// on failure.
    pub fn push(self, chunk: &[u8]) -> (r: Result<BodyReader, ProtoBufPayloadError>)
        ensures
            self.contents().len() + chunk@.len() > self.max_size()
                ==> r matches Err(ProtoBufPayloadError::Overflow),
            self.contents().len() + chunk@.len() <= self.max_size() ==> {
                &&& r is Ok
                &&& r->Ok_0.contents() == self.contents() + chunk@
                &&& r->Ok_0.max_size() == self.max_size()
            },
            r is Ok ==> r->Ok_0.contents().len() <= r->Ok_0.max_size(),
    {
        proof {
            use_type_invariant(&self);
        }
        if chunk.len() > self.limit - self.body.len() {
            return Err(ProtoBufPayloadError::Overflow);
        }
        let mut body = self.body;
        body.extend_from_slice(chunk);
        Ok(BodyReader { limit: self.limit, body })
    }

    /// The whole body, once the stream has ended.
    pub fn into_body(self) -> (r: Vec<u8>)
        ensures
            r@ == self.contents(),
    {
        self.body
    }

    /// Decodes the whole body, once the stream has ended, as a message of type
    /// `T`; a body that is not one fails with `Deserialize`.
    pub fn finish<T: prost::Message + Default>(self) -> (r: Result<T, ProtoBufPayloadError>)
        ensures
            r is Err ==> r matches Err(ProtoBufPayloadError::Deserialize(_)),
    {
        match decode_message::<T>(&self.body) {
            Ok(m) => Ok(m),
            Err(e) => Err(ProtoBufPayloadError::Deserialize(e)),
        }
    }
}

/// The bytes of a message for a response body; an encoding failure is `Serialize`.
pub fn encode_body<T: prost::Message>(value: &T) -> (r: Result<Vec<u8>, ProtoBufPayloadError>)
    ensures
        r is Err ==> r matches Err(ProtoBufPayloadError::Serialize(_)),
{
    match encode_message(value) {
        Ok(b) => Ok(b),
        Err(e) => Err(ProtoBufPayloadError::Serialize(e)),
    }
}

/// Relies on prost::Message::decode: reads a message of type `T` from the bytes.
#[verifier::external_body]
fn decode_message<T: prost::Message + Default>(body: &Vec<u8>) -> Result<T, prost::DecodeError> {
    T::decode(body.as_slice())
}

/// Relies on prost::Message::encode: writes the message into a new buffer.
#[verifier::external_body]
fn encode_message<T: prost::Message>(value: &T) -> Result<Vec<u8>, prost::EncodeError> {
    let mut buf = Vec::new();
    value.encode(&mut buf).map(|_| buf)
}

} // verus!
