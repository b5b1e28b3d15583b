use actix_protobuf::{Bearer, Error};

#[test]
fn to_bytes() {
    let b = Bearer::build()
        .error(Error::InvalidToken)
        .error_description("Subject 8740827c-2e0a-447b-9716-d73042e4039d not found")
        .finish();

    assert_eq!(
        "Bearer error=\"invalid_token\" error_description=\"Subject 8740827c-2e0a-447b-9716-d73042e4039d not found\"",
        b.to_string()
    );
}

#[test]
fn bearer_without_fields() {
    assert_eq!("Bearer", Bearer::build().finish().to_string());
}

#[test]
fn bearer_fields_in_fixed_order() {
    let b = Bearer::build()
        .error_uri("https://example.com/err")
        .error(Error::InsufficientScope)
        .scope("read write")
        .realm("example")
        .error_description("more scope needed")
        .finish();
    assert_eq!(
        "Bearer realm=\"example\" scope=\"read write\" error=\"insufficient_scope\" error_description=\"more scope needed\" error_uri=\"https://example.com/err\"",
        b.to_string()
    );
}

#[test]
fn bearer_error_codes() {
    assert_eq!(Error::InvalidRequest.as_str(), "invalid_request");
    assert_eq!(Error::InvalidToken.as_str(), "invalid_token");
    assert_eq!(Error::InsufficientScope.as_str(), "insufficient_scope");
    assert_eq!(Error::InvalidRequest.status_code(), 400);
    assert_eq!(Error::InvalidToken.status_code(), 401);
    assert_eq!(Error::InsufficientScope.status_code(), 403);
}
