use veriflair::auth::{
    authenticate_user, cleanup_expired_sessions, create_session, get_active_sessions_count,
    get_session, health_check, is_admin, is_anonymous, is_authenticated, is_self_authenticating,
    logout, renew_session, require_authenticated_caller, set_user_role, update_last_active,
    validate_session, AuthError, Rejection, UserSession, MAX_SESSION_RENEWAL,
    SESSION_DURATION_NS,
};
use veriflair::models::UserRole;

const USER: [u8; 3] = [9, 9, 2];
const CANISTER: [u8; 3] = [9, 9, 1];
const ANONYMOUS: [u8; 1] = [4];
const ANONYMOUS_WORDS: &str = "Anonymous users cannot create sessions";
const IDENTITY_WORDS: &str = "Only Internet Identity authenticated users allowed";

fn session(created_at: u64, expires_at: u64) -> UserSession {
    UserSession {
        user_principal: USER.to_vec(),
        github_username: None,
        created_at,
        last_active: created_at,
        expires_at,
        role: UserRole::User,
        is_verified: true,
    }
}

fn refusal(remove_session: bool, message: &str) -> Rejection {
    Rejection { remove_session, message: message.to_string() }
}

#[test]
fn session_constants() {
    assert_eq!(SESSION_DURATION_NS, 30 * 60 * 1_000_000_000);
    assert_eq!(MAX_SESSION_RENEWAL, 24 * 60 * 60 * 1_000_000_000);
}

#[test]
fn anonymous_principal_is_the_one_of_candid() {
    assert!(is_anonymous(candid::Principal::anonymous().as_slice()));
    assert!(is_anonymous(&ANONYMOUS));
    assert!(!is_anonymous(&[]));
    assert!(!is_anonymous(&[4, 4]));
    assert!(!is_anonymous(&[2]));
    assert!(!is_anonymous(candid::Principal::management_canister().as_slice()));
}

#[test]
fn self_authenticating_principals_end_in_two() {
    assert!(is_self_authenticating(&[2]));
    assert!(is_self_authenticating(&USER));
    assert!(!is_self_authenticating(&[]));
    assert!(!is_self_authenticating(&CANISTER));
    assert!(!is_self_authenticating(&[2, 0]));
    assert!(!is_self_authenticating(&ANONYMOUS));
}

#[test]
fn callers_are_admitted_or_told_why_not() {
    assert_eq!(require_authenticated_caller(&USER), Ok(()));
    assert_eq!(require_authenticated_caller(&ANONYMOUS), Err(ANONYMOUS_WORDS.to_string()));
    assert_eq!(require_authenticated_caller(&CANISTER), Err(IDENTITY_WORDS.to_string()));
    assert_eq!(require_authenticated_caller(&[]), Err(IDENTITY_WORDS.to_string()));
}

#[test]
fn authentication_opens_a_session() {
    let opened = authenticate_user(&USER, 1_000).unwrap();
    let mut expected = session(1_000, 1_000 + SESSION_DURATION_NS);
    expected.last_active = 1_000;
    assert_eq!(opened, expected);
    assert_eq!(authenticate_user(&ANONYMOUS, 1_000), Err(ANONYMOUS_WORDS.to_string()));
    assert_eq!(authenticate_user(&CANISTER, 1_000), Err(IDENTITY_WORDS.to_string()));
    let late = authenticate_user(&USER, u64::MAX).unwrap();
    assert_eq!(late.expires_at, SESSION_DURATION_NS - 1);
}

#[test]
fn session_validation() {
    assert_eq!(validate_session(None, 5), Err(AuthError::NotAuthenticated));
    let s = session(0, 100);
    assert_eq!(validate_session(Some(s.clone()), 100), Ok(s.clone()));
    assert_eq!(validate_session(Some(s.clone()), 101), Err(AuthError::SessionExpired));
    let mut unverified = s.clone();
    unverified.is_verified = false;
    assert_eq!(validate_session(Some(unverified.clone()), 5), Err(AuthError::NotAuthenticated));
    assert_eq!(validate_session(Some(unverified), 500), Err(AuthError::NotAuthenticated));
}

#[test]
fn session_lookup() {
    let s = session(0, 100);
    assert_eq!(get_session(None, 0), None);
    assert_eq!(get_session(Some(s.clone()), 100), Some(s.clone()));
    assert_eq!(get_session(Some(s.clone()), 101), None);
    let mut unverified = s.clone();
    unverified.is_verified = false;
    assert_eq!(get_session(Some(unverified.clone()), 0), None);
    assert!(is_authenticated(&USER, Some(&s), 100));
    assert!(!is_authenticated(&USER, Some(&s), 101));
    assert!(!is_authenticated(&USER, None, 0));
    assert!(!is_authenticated(&USER, Some(&unverified), 0));
    assert!(!is_authenticated(&ANONYMOUS, Some(&s), 0));
    assert!(is_authenticated(&CANISTER, Some(&s), 0));
}

#[test]
fn create_session_records_the_account() {
    let s = session(0, 100);
    let updated = create_session(&USER, Some(s.clone()), Some("octo".to_string()), 100).unwrap();
    let mut expected = s.clone();
    expected.github_username = Some("octo".to_string());
    expected.last_active = 100;
    assert_eq!(updated, expected);
    let cleared = create_session(&USER, Some(updated), None, 50).unwrap();
    assert_eq!(cleared.github_username, None);
    assert_eq!(cleared.last_active, 50);
    assert_eq!(
        create_session(&USER, Some(s.clone()), None, 101),
        Err(refusal(true, "Session expired. Please authenticate again."))
    );
    assert_eq!(
        create_session(&USER, None, None, 0),
        Err(refusal(false, "No active session found. Please authenticate first."))
    );
    assert_eq!(
        create_session(&ANONYMOUS, Some(s.clone()), None, 0),
        Err(refusal(false, ANONYMOUS_WORDS))
    );
    assert_eq!(create_session(&CANISTER, Some(s), None, 500), Err(refusal(false, IDENTITY_WORDS)));
}

#[test]
fn renewal_is_possible_for_a_day() {
    let s = session(1_000, 2_000);
    let renewed = renew_session(&USER, Some(s.clone()), 1_000 + MAX_SESSION_RENEWAL).unwrap();
    let mut expected = s.clone();
    expected.expires_at = 1_000 + MAX_SESSION_RENEWAL + SESSION_DURATION_NS;
    expected.last_active = 1_000 + MAX_SESSION_RENEWAL;
    assert_eq!(renewed, expected);
    assert_eq!(
        renew_session(&USER, Some(s.clone()), 1_001 + MAX_SESSION_RENEWAL),
        Err(refusal(true, "Session cannot be renewed, please login again"))
    );
    assert_eq!(renew_session(&USER, None, 0), Err(refusal(false, "No session to renew")));
    assert_eq!(renew_session(&ANONYMOUS, Some(s.clone()), 0), Err(refusal(false, ANONYMOUS_WORDS)));
    assert_eq!(renew_session(&CANISTER, None, 0), Err(refusal(false, IDENTITY_WORDS)));
    // A session that ran out can still be renewed within the day.
    assert!(renew_session(&USER, Some(s), 5_000).is_ok());
}

#[test]
fn activity_is_recorded_while_the_session_lasts() {
    let s = session(0, 100);
    let updated = update_last_active(&USER, Some(s.clone()), 70).unwrap();
    let mut expected = s.clone();
    expected.last_active = 70;
    assert_eq!(updated, expected);
    assert_eq!(update_last_active(&USER, Some(s.clone()), 101), Err(refusal(true, "Session expired")));
    assert_eq!(update_last_active(&USER, None, 0), Err(refusal(false, "Session not found")));
    assert_eq!(
        update_last_active(&ANONYMOUS, Some(s), 0),
        Err(refusal(false, ANONYMOUS_WORDS))
    );
}

#[test]
fn logout_answers() {
    assert_eq!(logout(&USER), Ok("Successfully logged out".to_string()));
    assert_eq!(logout(&ANONYMOUS), Err(ANONYMOUS_WORDS.to_string()));
    assert_eq!(logout(&CANISTER), Err(IDENTITY_WORDS.to_string()));
}

#[test]
fn roles_are_set_on_stored_sessions() {
    let s = session(0, 100);
    let updated = set_user_role(Some(s.clone()), UserRole::Admin).unwrap();
    let mut expected = s;
    expected.role = UserRole::Admin;
    assert_eq!(updated, expected);
    assert_eq!(set_user_role(None, UserRole::Admin), Err("User session not found".to_string()));
}

#[test]
fn administrators_need_an_active_session() {
    let mut s = session(0, 100);
    assert_eq!(is_admin(Some(&s), 0), Err("Admin access required".to_string()));
    s.role = UserRole::Moderator;
    assert_eq!(is_admin(Some(&s), 0), Err("Admin access required".to_string()));
    s.role = UserRole::Admin;
    assert_eq!(is_admin(Some(&s), 100), Ok(()));
    assert_eq!(is_admin(Some(&s), 101), Err("Authentication required".to_string()));
    s.is_verified = false;
    assert_eq!(is_admin(Some(&s), 0), Err("Authentication required".to_string()));
    assert_eq!(is_admin(None, 0), Err("Authentication required".to_string()));
}

#[test]
fn active_sessions_are_counted() {
    let mut unverified = session(0, 1_000);
    unverified.is_verified = false;
    let all = [session(0, 10), session(0, 20), unverified, session(0, 30)];
    assert_eq!(get_active_sessions_count(&all, 0), 3);
    assert_eq!(get_active_sessions_count(&all, 20), 2);
    assert_eq!(get_active_sessions_count(&all, 21), 1);
    assert_eq!(get_active_sessions_count(&all, 31), 0);
    assert_eq!(get_active_sessions_count(&[], 0), 0);
    assert_eq!(
        health_check(&all, 20),
        "VeriFlair Auth canister healthy. Active sessions: 2 / Total sessions: 4"
    );
    assert_eq!(
        health_check(&[], 20),
        "VeriFlair Auth canister healthy. Active sessions: 0 / Total sessions: 0"
    );
}

#[test]
fn cleanup_is_for_administrators() {
    let mut admin = session(0, 5);
    admin.role = UserRole::Admin;
    let mut unverified = session(0, 1_000);
    unverified.is_verified = false;
    let all = [session(0, 10), admin.clone(), unverified, session(0, 30), session(0, 11)];
    assert_eq!(
        cleanup_expired_sessions(&USER, Some(&admin), &all, 11),
        Ok((vec![0, 1], "Cleaned up 2 expired sessions".to_string()))
    );
    assert_eq!(
        cleanup_expired_sessions(&USER, Some(&admin), &all, 0),
        Ok((vec![], "Cleaned up 0 expired sessions".to_string()))
    );
    assert_eq!(
        cleanup_expired_sessions(&USER, Some(&admin), &all, 2_000),
        Ok((vec![0, 1, 2, 3, 4], "Cleaned up 5 expired sessions".to_string()))
    );
    assert_eq!(
        cleanup_expired_sessions(&USER, Some(&all[0]), &all, 11),
        Err("Only admins can cleanup expired sessions".to_string())
    );
    assert_eq!(
        cleanup_expired_sessions(&USER, None, &all, 11),
        Err("Only admins can cleanup expired sessions".to_string())
    );
    assert_eq!(
        cleanup_expired_sessions(&ANONYMOUS, Some(&admin), &all, 11),
        Err(ANONYMOUS_WORDS.to_string())
    );
    assert_eq!(
        cleanup_expired_sessions(&CANISTER, Some(&admin), &all, 11),
        Err(IDENTITY_WORDS.to_string())
    );
}
