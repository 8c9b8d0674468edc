use prostor::gate::GateResponse;
use prostor::gate::extract_bearer;
use prostor::gate::gate_response;
use prostor::identity::User;
use prostor::identity::UserId;
use prostor::token::AuthError;

#[test]
fn bearer_token_extracted() {
    assert_eq!(extract_bearer("Bearer abc.def.ghi"), Some("abc.def.ghi"));
    assert_eq!(extract_bearer("Bearer "), Some(""));
    assert_eq!(extract_bearer("Bearer tökén"), Some("tökén"));
}

#[test]
fn non_bearer_headers_rejected() {
    assert_eq!(extract_bearer(""), None);
    assert_eq!(extract_bearer("Bearer"), None);
    assert_eq!(extract_bearer("bearer abc"), None);
    assert_eq!(extract_bearer("Basic dXNlcjpwdw=="), None);
    assert_eq!(extract_bearer("Bear"), None);
}

#[test]
fn gate_allows_authenticated_identity() {
    let user = User { id: UserId("user-7".to_string()) };
    match gate_response(Ok(user)) {
        GateResponse::Allow(u) => assert_eq!(u.id.0, "user-7"),
        _ => panic!("an authenticated identity must be allowed through"),
    }
}

#[test]
fn validator_failures_collapse_to_unauthorized() {
    let kinds = vec![
        AuthError::MalformedToken,
        AuthError::UnknownSigningKey,
        AuthError::BadSignature,
        AuthError::TokenExpired,
        AuthError::IssuerMismatch,
        AuthError::MissingSubject,
        AuthError::KeySetFetchError,
    ];
    for e in kinds {
        assert!(matches!(gate_response(Err(e)), GateResponse::Unauthorized));
    }
}

#[test]
fn store_unavailability_is_distinct() {
    assert!(matches!(
        gate_response(Err(AuthError::StoreUnavailable)),
        GateResponse::ServiceUnavailable
    ));
}
