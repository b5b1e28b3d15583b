use vstd::prelude::*;
use vstd::string::StringExecFns;

verus! {

/// The error codes that a Bearer challenge can carry.
#[derive(Clone, Copy, Debug, PartialEq, Eq, Structural)]
pub enum Error {
    /// The request is missing a parameter or is otherwise malformed.
    InvalidRequest,
    /// The access token is expired, revoked or malformed.
    InvalidToken,
    /// The request needs more privileges than the token provides.
    InsufficientScope,
}

impl Error {
    pub open spec fn spec_text(self) -> Seq<char> {
        match self {
            Error::InvalidRequest => "invalid_request"@,
            Error::InvalidToken => "invalid_token"@,
            Error::InsufficientScope => "insufficient_scope"@,
        }
    }

    /// The error code as it appears in the header.
    pub fn as_str(&self) -> (r: &'static str)
        ensures
            r@ == self.spec_text(),
    {
        match self {
            Error::InvalidRequest => "invalid_request",
            Error::InvalidToken => "invalid_token",
            Error::InsufficientScope => "insufficient_scope",
        }
    }

    pub open spec fn spec_status_code(self) -> u16 {
        match self {
            Error::InvalidRequest => 400,
            Error::InvalidToken => 401,
            Error::InsufficientScope => 403,
        }
    }

    /// The HTTP status that goes with the error code.
    pub fn status_code(&self) -> (r: u16)
        ensures
            r == self.spec_status_code(),
    {
        match self {
            Error::InvalidRequest => 400,
            Error::InvalidToken => 401,
            Error::InsufficientScope => 403,
        }
    }
}

/// A `WWW-Authenticate` challenge for the Bearer scheme.
pub struct Bearer {
    pub scope: Option<String>,
    pub realm: Option<String>,
    pub error: Option<Error>,
    pub error_description: Option<String>,
    pub error_uri: Option<String>,
}

/// ` key="value"` for a present field, nothing for an absent one.
pub open spec fn field_text(key: Seq<char>, value: Option<Seq<char>>) -> Seq<char> {
    match value {
        Some(v) => " "@ + key + "=\""@ + v + "\""@,
        None => Seq::empty(),
    }
}

pub open spec fn string_view(value: Option<String>) -> Option<Seq<char>> {
    match value {
        Some(s) => Some(s@),
        None => None,
    }
}

pub open spec fn error_view(value: Option<Error>) -> Option<Seq<char>> {
    match value {
        Some(e) => Some(e.spec_text()),
        None => None,
    }
}

impl Bearer {
    /// The header value: the scheme, then each present field in the order
    /// realm, scope, error, error_description, error_uri.
    pub open spec fn header_text(&self) -> Seq<char> {
        "Bearer"@
            + field_text("realm"@, string_view(self.realm))
            + field_text("scope"@, string_view(self.scope))
            + field_text("error"@, error_view(self.error))
            + field_text("error_description"@, string_view(self.error_description))
            + field_text("error_uri"@, string_view(self.error_uri))
    }

    /// A builder that starts with no field set.
    pub fn build() -> (r: BearerBuilder)
        ensures
            r.0.realm is None,
            r.0.scope is None,
            r.0.error is None,
            r.0.error_description is None,
            r.0.error_uri is None,
    {
        BearerBuilder(Bearer {
            scope: None,
            realm: None,
            error: None,
            error_description: None,
            error_uri: None,
        })
    }

    /// The challenge rendered as a header value.
    pub fn to_string(&self) -> (r: String)
        ensures
            r@ == self.header_text(),
    {
        let mut out = String::from_str("Bearer");
        append_field(&mut out, "realm", opt_str(&self.realm));
        append_field(&mut out, "scope", opt_str(&self.scope));
        let error = match &self.error {
            Some(e) => Some(e.as_str()),
            None => None,
        };
        append_field(&mut out, "error", error);
        append_field(&mut out, "error_description", opt_str(&self.error_description));
        append_field(&mut out, "error_uri", opt_str(&self.error_uri));
        out
    }
}

fn opt_str(value: &Option<String>) -> (r: Option<&str>)
    ensures
        match r {
            Some(s) => value is Some && s@ == value->0@,
            None => value is None,
        },
{
    match value {
        Some(s) => Some(s.as_str()),
        None => None,
    }
}

fn append_field(out: &mut String, key: &str, value: Option<&str>)
    ensures
        final(out)@ == old(out)@ + field_text(
            key@,
            match value {
                Some(v) => Some(v@),
                None => None,
            },
        ),
{
    match value {
        Some(v) => {
            out.append(" ");
            out.append(key);
            out.append("=\"");
            out.append(v);
            out.append("\"");
            assert(out@ =~= old(out)@ + field_text(key@, Some(v@)));
        },
        None => {
            assert(out@ =~= old(out)@ + Seq::<char>::empty());
        },
    }
}

/// A challenge with no field set renders as the bare scheme name, `Bearer`.
pub proof fn lemma_bare_challenge(b: Bearer)
    requires
        b.realm is None,
        b.scope is None,
        b.error is None,
        b.error_description is None,
        b.error_uri is None,
    ensures
        b.header_text() == "Bearer"@,
{
    assert(b.header_text() =~= "Bearer"@);
}

/// Builds a [`Bearer`] challenge field by field.
pub struct BearerBuilder(pub Bearer);

impl BearerBuilder {
    /// Sets the `scope` field: scope tokens separated by spaces.
    pub fn scope(self, value: &str) -> (r: Self)
        ensures
            r.0.scope is Some && r.0.scope->0@ == value@,
            r.0.realm == self.0.realm,
            r.0.error == self.0.error,
            r.0.error_description == self.0.error_description,
            r.0.error_uri == self.0.error_uri,
    {
        let mut b = self;
        b.0.scope = Some(value.to_owned());
        b
    }

    /// Sets the `realm` field.
    pub fn realm(self, value: &str) -> (r: Self)
        ensures
            r.0.realm is Some && r.0.realm->0@ == value@,
            r.0.scope == self.0.scope,
            r.0.error == self.0.error,
            r.0.error_description == self.0.error_description,
            r.0.error_uri == self.0.error_uri,
    {
        let mut b = self;
        b.0.realm = Some(value.to_owned());
        b
    }

    /// Sets the `error` field.
    pub fn error(self, value: Error) -> (r: Self)
        ensures
            r.0.error == Some(value),
            r.0.scope == self.0.scope,
            r.0.realm == self.0.realm,
            r.0.error_description == self.0.error_description,
            r.0.error_uri == self.0.error_uri,
    {
        let mut b = self;
        b.0.error = Some(value);
        b
    }

    /// Sets the `error_description` field.
    pub fn error_description(self, value: &str) -> (r: Self)
        ensures
            r.0.error_description is Some && r.0.error_description->0@ == value@,
            r.0.scope == self.0.scope,
            r.0.realm == self.0.realm,
            r.0.error == self.0.error,
            r.0.error_uri == self.0.error_uri,
    {
        let mut b = self;
        b.0.error_description = Some(value.to_owned());
        b
    }

    /// Sets the `error_uri` field.
    pub fn error_uri(self, value: &str) -> (r: Self)
        ensures
            r.0.error_uri is Some && r.0.error_uri->0@ == value@,
            r.0.scope == self.0.scope,
            r.0.realm == self.0.realm,
            r.0.error == self.0.error,
            r.0.error_description == self.0.error_description,
    {
        let mut b = self;
        b.0.error_uri = Some(value.to_owned());
        b
    }

    /// The challenge built so far.
    pub fn finish(self) -> (r: Bearer)
        ensures
            r == self.0,
    {
        self.0
    }
}

} // verus!
