use tidder::model::{Claims, User};
use tidder::security::{
    credentials_accepted, login_at, session_claims, verify_password, verify_user, verify_user_at,
    will_show_all, AccessError, Identity, Role, ISSUER, SESSION_SECONDS,
};

fn user(role: &str) -> User {
    User {
        id: "u-1".to_string(),
        username: "alice".to_string(),
        username_lower: "alice".to_string(),
        password: "$2a$04$UuTkLRZZ6QofpDOlMz32MuuxEHA43WOemOYHPz6.SjsVsyO1tDU96".to_string(),
        avatar_url: None,
        created_at: "2024-01-01 00:00:00".to_string(),
        role: role.to_string(),
    }
}

fn claims(role: &str, now: usize) -> Claims {
    session_claims(&user(role), now)
}

#[test]
fn issued_claims_fields() {
    let c = claims("user", 1_700_000_000);
    assert_eq!(c.sub, "u-1");
    assert_eq!(c.iss, ISSUER);
    assert_eq!(c.iss, "tidders");
    assert_eq!(c.iat, 1_700_000_000);
    assert_eq!(c.exp, 1_700_000_000 + 31_536_000);
    assert_eq!(SESSION_SECONDS, 365 * 24 * 60 * 60);
    assert_eq!(c.username, "alice");
    assert_eq!(c.role, "user");
}

#[test]
fn token_round_trip_before_expiry() {
    let c = claims("admin", 1000);
    let id = verify_user_at(Some("tok"), Some("tok"), Some(c.clone()), 1000).unwrap();
    assert_eq!(id.subject, "u-1");
    assert_eq!(id.role, Role::Admin);
    let id = verify_user_at(Some("tok"), Some("tok"), Some(c), (1000 + 31_536_000 - 1) as i64).unwrap();
    assert_eq!(id.role, Role::Admin);
}

#[test]
fn token_fails_from_expiry_on() {
    let c = claims("user", 1000);
    let r = verify_user_at(Some("tok"), Some("tok"), Some(c.clone()), (1000 + 31_536_000) as i64);
    assert_eq!(r.unwrap_err(), AccessError::Unauthorized);
    let r = verify_user_at(Some("tok"), Some("tok"), Some(c), (1000 + 31_536_000 + 50) as i64);
    assert!(r.is_err());
}

#[test]
fn unknown_role_names_are_regular() {
    let id = verify_user_at(Some("t"), Some("t"), Some(claims("Admin", 0)), 5).unwrap();
    assert_eq!(id.role, Role::Regular);
}

#[test]
fn anti_forgery_token_must_match() {
    let c = claims("admin", 1000);
    assert_eq!(
        verify_user_at(Some("tok"), Some("tok2"), Some(c.clone()), 1000).unwrap_err(),
        AccessError::Unauthorized
    );
    assert_eq!(
        verify_user_at(Some("tok"), None, Some(c.clone()), 1000).unwrap_err(),
        AccessError::Unauthorized
    );
    assert!(verify_user_at(None, Some("tok"), Some(c), 1000).is_err());
    assert!(verify_user_at(Some("tok"), Some("tok"), None, 1000).is_err());
}

#[test]
fn fresh_session_resolves_at_the_current_time() {
    let now = chrono::Utc::now().timestamp() as usize;
    let c = claims("user", now);
    let id = verify_user(Some("x.y.z"), Some("x.y.z"), Some(c.clone())).unwrap();
    assert_eq!(id.subject, "u-1");
    let old = claims("user", 1000);
    assert!(verify_user(Some("x.y.z"), Some("x.y.z"), Some(old)).is_err());
}

#[test]
fn show_all_needs_request_resolution_and_admin() {
    let admin: Result<Identity, AccessError> = Ok(Identity { subject: "r".to_string(), role: Role::Admin });
    let regular: Result<Identity, AccessError> = Ok(Identity { subject: "u".to_string(), role: Role::Regular });
    let anon: Result<Identity, AccessError> = Err(AccessError::Unauthorized);
    assert!(will_show_all(Some(true), &admin));
    assert!(!will_show_all(Some(false), &admin));
    assert!(!will_show_all(None, &admin));
    assert!(!will_show_all(Some(true), &regular));
    assert!(!will_show_all(Some(true), &anon));
}

#[test]
fn password_check_against_stored_hash() {
    let u = user("user");
    assert!(verify_password("password", &u.password));
    assert!(!verify_password("Password", &u.password));
    assert!(!verify_password("password", "$2a$04$tjARW6ZON3PhrAIRW2LG/u9a."));
    assert!(!verify_password("password", "not a hash"));
}

#[test]
fn credentials_outcomes() {
    assert!(credentials_accepted(Some(true)));
    assert!(!credentials_accepted(Some(false)));
    assert!(!credentials_accepted(None));
}

#[test]
fn login_issues_claims_on_match_only() {
    let u = user("admin");
    let c = login_at(&u, Some(true), 500).unwrap();
    assert_eq!(c.iat, 500);
    assert_eq!(c.exp, 500 + 31_536_000);
    assert_eq!(c.role, "admin");
    assert_eq!(login_at(&u, Some(false), 500).unwrap_err(), "Invalid credentials");
    assert_eq!(login_at(&u, None, 500).unwrap_err(), "Invalid credentials");
    assert_eq!(login_at(&u, Some(true), -1).unwrap_err(), "Clock out of range");
    let c = tidder::security::login(&u, "password").unwrap();
    assert_eq!(c.sub, "u-1");
    assert_eq!(c.exp, c.iat + 31_536_000);
    assert_eq!(tidder::security::login(&u, "wrong").unwrap_err(), "Invalid credentials");
    let mut broken = user("user");
    broken.password = "not a hash".to_string();
    assert_eq!(tidder::security::login(&broken, "password").unwrap_err(), "Invalid credentials");
}
