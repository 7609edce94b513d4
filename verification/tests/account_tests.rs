use spoticord::database::{
    link_request_expiry, link_request_from, link_token_from, new_link_request, new_link_token, should_create_user, LINK_TOKEN_LENGTH, Account, DatabaseError, DatabaseResultExt, LinkRequest,
    QueryError, User, LINK_REQUEST_VALIDITY_MS,
};
use rand::rngs::StdRng;
use rand::SeedableRng;
use spoticord::spotify::{refresh_step, token_plan, RefreshStep, RefreshedToken, TokenPlan, REFRESH_MARGIN_MS};

fn account(expires: i64) -> Account {
    Account {
        user_id: "u".to_string(),
        username: "name".to_string(),
        access_token: "access".to_string(),
        refresh_token: "refresh".to_string(),
        session_token: None,
        expires,
    }
}

#[test]
fn accounts_expire_after_their_time() {
    let a = account(1_000);
    assert!(!a.expired_at(1_000));
    assert!(a.expired_at(1_001));
    assert!(!a.expired_offset_at(899, 100));
    assert!(a.expired_offset_at(901, 100));
    assert!(account(0).expired());
    assert!(!account(i64::MAX).expired());
    assert!(!account(i64::MAX).expired_offset(0));
}

#[test]
fn link_requests_expire_after_an_hour() {
    assert_eq!(LINK_REQUEST_VALIDITY_MS, 3_600_000);
    let r = LinkRequest { token: "t".to_string(), user_id: "u".to_string(), expires: link_request_expiry(5) };
    assert_eq!(r.expires, 3_600_005);
    assert!(!r.expired_at(3_600_005));
    assert!(r.expired_at(3_600_006));
    assert!(r.expired_offset_at(3_600_000, 10));
    assert!(LinkRequest { expires: 0, ..r.clone() }.expired());
    assert!(!LinkRequest { expires: i64::MAX, ..r }.expired_offset(1));
}

#[test]
fn query_errors_convert() {
    assert_eq!(DatabaseError::from(QueryError::NotFound), DatabaseError::NotFound);
    assert_eq!(DatabaseError::from(QueryError::Other("boom".to_string())), DatabaseError::Diesel("boom".to_string()));
}

#[test]
fn missing_rows_become_none() {
    let found: Result<u8, DatabaseError> = Ok(3);
    assert_eq!(found.optional(), Ok(Some(3)));
    let missing: Result<u8, DatabaseError> = Err(DatabaseError::NotFound);
    assert_eq!(missing.optional(), Ok(None));
    let failed: Result<u8, DatabaseError> = Err(DatabaseError::Pool("down".to_string()));
    assert_eq!(failed.optional(), Err(DatabaseError::Pool("down".to_string())));
}

#[test]
fn users_are_created_when_missing() {
    assert!(should_create_user(&Err(DatabaseError::NotFound)));
    assert!(!should_create_user(&Err(DatabaseError::RefreshTokenFailure)));
    assert!(!should_create_user(&Ok(User { id: "1".to_string(), device_name: "d".to_string() })));
}

#[test]
fn tokens_are_refreshed_a_minute_early() {
    assert_eq!(REFRESH_MARGIN_MS, 60_000);
    assert_eq!(token_plan(account(100_000), 40_000), TokenPlan::Use("access".to_string()));
    assert_eq!(token_plan(account(100_000), 40_001), TokenPlan::Refresh("refresh".to_string()));
}

#[test]
fn refreshed_tokens_are_stored() {
    assert_eq!(refresh_step(None), RefreshStep::Fail);
    let t = RefreshedToken { access_token: "a2".to_string(), refresh_token: Some("r2".to_string()), expires_at: Some(9) };
    assert_eq!(
        refresh_step(Some(t)),
        RefreshStep::Store { access_token: "a2".to_string(), refresh_token: Some("r2".to_string()), expires: 9 }
    );
}

#[test]
fn link_tokens_are_alphanumeric() {
    let token = new_link_token().unwrap();
    assert_eq!(token.len(), LINK_TOKEN_LENGTH);
    assert!(token.chars().all(|c| c.is_ascii_alphanumeric()));
    assert_ne!(new_link_token().unwrap(), token);
    let request = new_link_request("7".to_string(), 1_000).unwrap();
    assert_eq!(request.user_id, "7");
    assert_eq!(request.expires, 1_000 + LINK_REQUEST_VALIDITY_MS);
    assert_eq!(request.token.len(), 64);
}

#[test]
fn link_tokens_come_from_the_generator() {
    let mut rng = StdRng::seed_from_u64(7);
    let token = link_token_from(&mut rng);
    assert_eq!(token.len(), LINK_TOKEN_LENGTH);
    assert!(token.chars().all(|c| c.is_ascii_alphanumeric()));
    let again = link_token_from(&mut StdRng::seed_from_u64(7));
    assert_eq!(token, again);
    let request = link_request_from("9".to_string(), &mut rng, 5);
    assert_eq!(request.user_id, "9");
    assert_eq!(request.expires, 5 + LINK_REQUEST_VALIDITY_MS);
    assert_eq!(request.token.len(), 64);
    assert_ne!(request.token, token);
}
