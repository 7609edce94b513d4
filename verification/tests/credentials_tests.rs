use spoticord::utils::spotify::{
    encode_token, next_attempt, renewed_token, session_token_step, stored_credentials, token_credentials,
    AuthenticationType, Credentials, SessionTokenStep, TokenError, SESSION_TOKEN_RETRIES,
};

#[test]
fn stored_tokens_are_decoded() {
    let c = stored_credentials("alice".to_string(), "aGVsbG8=").unwrap();
    assert_eq!(c.username, Some("alice".to_string()));
    assert_eq!(c.auth_type, AuthenticationType::StoredSpotifyCredentials);
    assert_eq!(c.auth_data, b"hello".to_vec());
    assert_eq!(stored_credentials("bob".to_string(), "not base64!"), Err(TokenError::InvalidToken));
}

#[test]
fn access_tokens_become_credentials() {
    let c = token_credentials("alice".to_string(), "tok".to_string());
    assert_eq!(c.auth_type, AuthenticationType::SpotifyToken);
    assert_eq!(c.auth_data, b"tok".to_vec());
    assert_eq!(c.username, Some("alice".to_string()));
}

#[test]
fn tokens_are_encoded() {
    let c = Credentials { username: None, auth_type: AuthenticationType::StoredSpotifyCredentials, auth_data: b"hi".to_vec() };
    assert_eq!(encode_token(&c), "aGk=");
    let back = stored_credentials("x".to_string(), &encode_token(&c)).unwrap();
    assert_eq!(back.auth_data, c.auth_data);
}

#[test]
fn only_changed_credentials_are_stored_again() {
    let old = Credentials { username: None, auth_type: AuthenticationType::StoredSpotifyCredentials, auth_data: b"hi".to_vec() };
    assert_eq!(renewed_token(&old, &old.clone()), None);
    let new = Credentials { auth_data: b"hello".to_vec(), ..old.clone() };
    assert_eq!(renewed_token(&old, &new), Some("aGVsbG8=".to_string()));
}

#[test]
fn connecting_is_tried_four_times() {
    assert_eq!(SESSION_TOKEN_RETRIES, 3);
    let mut tries = 0;
    let mut attempts = 1;
    while let Some(t) = next_attempt(tries) {
        tries = t;
        attempts += 1;
    }
    assert_eq!(attempts, 4);
    assert_eq!(next_attempt(3), None);
    assert_eq!(next_attempt(0), Some(1));
}

#[test]
fn validated_tokens_are_kept_renewed_or_replaced() {
    assert_eq!(session_token_step("old".to_string(), Ok(None)), SessionTokenStep::Keep("old".to_string()));
    assert_eq!(
        session_token_step("old".to_string(), Ok(Some("new".to_string()))),
        SessionTokenStep::Store("new".to_string())
    );
    assert_eq!(session_token_step("old".to_string(), Err(())), SessionTokenStep::RequestNew);
}
