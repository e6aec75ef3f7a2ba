use authgate::auth::{authenticate, authenticate_with, extract_token, validate, SharedSecret, TokenValidator, User};
use authgate::errors::{auth_token, unauthorized, Error};
use authgate::reply::{handle_rejection, ErrorMessage, Failure};

fn respond(header: Option<&str>, query: Option<&str>) -> Result<User, ErrorMessage> {
    authenticate(header, query).map_err(|e| handle_rejection(&Failure::Auth(e)))
}

fn reason(r: Result<String, Error>) -> String {
    match r {
        Err(Error::AuthTokenError(m)) => m,
        other => panic!("expected an extraction error, got {:?}", other),
    }
}

#[test]
fn bearer_header_is_accepted() {
    let user = respond(Some("Bearer hello world"), None).unwrap();
    assert_eq!(user.name, "belak");
}

#[test]
fn wrong_bearer_token_is_unauthorized() {
    let err = respond(Some("Bearer wrong"), None).unwrap_err();
    assert_eq!(err.code, 401);
    assert_eq!(err.message, "unauthorized");
}

#[test]
fn query_token_is_accepted() {
    let user = respond(None, Some("hello world")).unwrap();
    assert_eq!(user.name, "belak");
}

#[test]
fn basic_scheme_is_refused() {
    let err = respond(Some("Basic xyz"), None).unwrap_err();
    assert_eq!(err.code, 400);
    assert!(err.message.contains("invalid scheme"));
}

#[test]
fn no_token_is_refused() {
    let err = respond(None, None).unwrap_err();
    assert_eq!(err.code, 400);
    assert!(err.message.contains("no token specified"));
}

#[test]
fn header_and_query_are_refused() {
    let err = respond(Some("Bearer hello world"), Some("hello world")).unwrap_err();
    assert_eq!(err.code, 400);
    assert!(err.message.contains("multiple tokens specified"));
}

#[test]
fn unmatched_route_is_not_found() {
    let err = handle_rejection(&Failure::NotFound);
    assert_eq!(err.code, 404);
    assert_eq!(err.message, "not found");
}

#[test]
fn method_not_allowed_maps_to_405() {
    let err = handle_rejection(&Failure::MethodNotAllowed);
    assert_eq!(err.code, 405);
    assert_eq!(err.message, "method not allowed");
}

#[test]
fn internal_failure_hides_its_cause() {
    let err = handle_rejection(&Failure::Internal);
    assert_eq!(err.code, 500);
    assert_eq!(err.message, "internal server error");
}

#[test]
fn extraction_message_holds_reason_verbatim() {
    let err = handle_rejection(&Failure::Auth(auth_token("some reason")));
    assert_eq!(err.code, 400);
    assert_eq!(err.message, "invalid auth token: some reason");
}

#[test]
fn bearer_token_may_hold_spaces() {
    assert_eq!(extract_token(Some("Bearer a b c"), None).unwrap(), "a b c");
}

#[test]
fn bearer_token_for_any_value() {
    for t in ["x", "hello", "with space", "Bearer"] {
        let header = format!("Bearer {}", t);
        assert_eq!(extract_token(Some(&header), None).unwrap(), t);
    }
}

#[test]
fn header_without_space_is_missing_token() {
    assert_eq!(reason(extract_token(Some("Bearer"), None)), "missing token");
    assert_eq!(reason(extract_token(Some(""), None)), "missing token");
}

#[test]
fn bearer_with_empty_token_is_missing_token() {
    assert_eq!(reason(extract_token(Some("Bearer "), None)), "missing token");
}

#[test]
fn scheme_is_case_sensitive() {
    assert_eq!(reason(extract_token(Some("bearer hello world"), None)), "invalid scheme");
    assert_eq!(reason(extract_token(Some("Basic "), None)), "invalid scheme");
}

#[test]
fn matching_header_and_query_still_refused() {
    assert_eq!(
        reason(extract_token(Some("hello world"), Some("hello world"))),
        "multiple tokens specified"
    );
    assert_eq!(reason(extract_token(Some("Bearer a"), Some("b"))), "multiple tokens specified");
}

#[test]
fn neither_source_is_no_token() {
    assert_eq!(reason(extract_token(None, None)), "no token specified");
}

#[test]
fn empty_query_token_is_the_candidate() {
    assert_eq!(extract_token(None, Some("")).unwrap(), "");
    assert!(matches!(authenticate(None, Some("")), Err(Error::Unauthorized)));
}

#[test]
fn validation_is_deterministic() {
    for t in ["hello world", "wrong", "", "hello  world"] {
        let a = validate(t);
        let b = validate(t);
        match (a, b) {
            (Ok(x), Ok(y)) => assert_eq!(x.name, y.name),
            (Err(Error::Unauthorized), Err(Error::Unauthorized)) => {}
            other => panic!("outcomes differ: {:?}", other),
        }
    }
    assert!(validate("hello world").is_ok());
    assert!(matches!(validate("Hello world"), Err(Error::Unauthorized)));
}

#[test]
fn every_error_body_has_status_and_message() {
    let failures = vec![
        (Failure::NotFound, 404),
        (Failure::Auth(auth_token("")), 400),
        (Failure::Auth(unauthorized()), 401),
        (Failure::MethodNotAllowed, 405),
        (Failure::Internal, 500),
    ];
    for (f, code) in failures {
        let body = handle_rejection(&f);
        assert_eq!(body.code, code);
        assert!(!body.message.is_empty());
    }
}

#[test]
fn error_text_matches_kind() {
    assert_eq!(unauthorized().to_message(), "unauthorized");
    assert_eq!(auth_token("x").to_message(), "invalid auth token: x");
}

#[test]
fn shared_secret_validator_decides_like_validate() {
    let user = authenticate_with(&SharedSecret, Some("Bearer hello world"), None).unwrap();
    assert_eq!(user.name, "belak");
    assert!(matches!(SharedSecret.check("nope"), Err(Error::Unauthorized)));
    assert!(matches!(
        authenticate_with(&SharedSecret, None, None),
        Err(Error::AuthTokenError(ref m)) if m == "no token specified"
    ));
}
