use tira::controller::sessions::{login_endpoint, logout_endpoint, session_cookie};
use tira::controller::{
    authentication, authentication_at, check_session, session_is_expired, GuardAction,
    TIRA_AUTH_COOKIE,
};
use tira::dao::sessions::{expiration_for, SessionTable, MICROS_PER_MINUTE};
use tira::dao::users::get_user_by_username_and_password;
use tira::errors::{ErrorKind, TiraError};
use tira::models::{Login, Session, User};
use tira::service::security::{hash_password, sha256};
use tira::service::sessions::{login, login_with, logout, profile_of, TOKEN_LENGTH};

fn user(id: i64, username: &str, password: &str) -> User {
    User {
        id,
        username: username.to_string(),
        password: sha256(password),
        email_address: Some(format!("{}@example.org", username)),
        first_name: None,
        last_name: None,
        profile_picture_url: None,
        created: 1_700_000_000_000_000,
        archived: false,
    }
}

fn users() -> Vec<User> {
    vec![user(1, "ada", "lovelace"), user(2, "grace", "hopper")]
}

fn hashed(username: &str, password: &str, remember_me: bool) -> Login {
    Login { username: username.to_string(), password: sha256(password), remember_me }
}

fn plain(username: &str, password: &str, remember_me: bool) -> Login {
    Login { username: username.to_string(), password: password.to_string(), remember_me }
}

const NOW: i64 = 1_750_000_000_000_000;

#[test]
fn the_cookie_is_named_tirauth() {
    assert_eq!(TIRA_AUTH_COOKIE, "tirauth");
}

#[test]
fn a_minute_has_sixty_million_microseconds() {
    assert_eq!(MICROS_PER_MINUTE, 60_000_000);
    assert_eq!(expiration_for(false, 1_000, 1), Some(Some(60_001_000)));
    assert_eq!(expiration_for(false, NOW, 30), Some(Some(NOW + 1_800_000_000)));
    assert_eq!(expiration_for(false, NOW, 0), Some(Some(NOW)));
    assert_eq!(expiration_for(false, NOW, -1), Some(Some(NOW - 60_000_000)));
}

#[test]
fn a_remembered_session_has_no_expiration() {
    assert_eq!(expiration_for(true, NOW, 30), Some(None));
    assert_eq!(expiration_for(true, i64::MAX, i64::MAX), Some(None));
}

#[test]
fn an_expiration_out_of_range_is_refused() {
    assert_eq!(expiration_for(false, i64::MAX, 1), None);
    assert_eq!(expiration_for(false, 0, i64::MAX), None);
    assert_eq!(expiration_for(false, i64::MIN, -1), None);
    // the product alone is out of range, the sum is not
    assert_eq!(expiration_for(false, i64::MIN, 153_722_867_281), Some(Some(5_224_192)));
    assert_eq!(expiration_for(false, i64::MAX - 60_000_000, 1), Some(Some(i64::MAX)));
}

#[test]
fn a_session_runs_out_at_its_expiration() {
    let session =
        Session { uuid: "t".to_string(), user_id: 1, created: NOW, expiration: Some(NOW + 10) };
    assert!(!session_is_expired(&session, NOW));
    assert!(!session_is_expired(&session, NOW + 9));
    assert!(session_is_expired(&session, NOW + 10));
    assert!(session_is_expired(&session, i64::MAX));
    let remembered = Session { uuid: "t".to_string(), user_id: 1, created: NOW, expiration: None };
    assert!(!session_is_expired(&remembered, i64::MAX));
}

#[test]
fn what_the_store_found_is_judged() {
    assert_eq!(
        check_session(None, NOW),
        GuardAction::Reject(TiraError::new(ErrorKind::Unauthenticated, "User not authenticated"))
    );
    let session =
        Session { uuid: "t".to_string(), user_id: 7, created: NOW, expiration: Some(NOW + 10) };
    assert_eq!(check_session(Some(session.clone()), NOW + 9), GuardAction::Admit(session.clone()));
    assert_eq!(
        check_session(Some(session), NOW + 10),
        GuardAction::DeleteAndReject(
            "t".to_string(),
            TiraError::new(ErrorKind::SessionExpired, "Session expired")
        )
    );
    let remembered = Session { uuid: "r".to_string(), user_id: 7, created: NOW, expiration: None };
    assert_eq!(check_session(Some(remembered.clone()), i64::MAX), GuardAction::Admit(remembered));
}

#[test]
fn a_request_without_cookie_is_unauthenticated() {
    let mut sessions = SessionTable::new();
    let e = authentication_at(&mut sessions, None, NOW).unwrap_err();
    assert_eq!(e.kind, ErrorKind::Unauthenticated);
    assert_eq!(e.message, "User not authenticated");
    assert_eq!(sessions.len(), 0);
}

#[test]
fn an_unknown_token_is_unauthenticated() {
    let mut sessions = SessionTable::new();
    sessions
        .create_session_by_session_uuid_and_user_id("known".to_string(), 1, true, NOW, 30)
        .unwrap();
    let e = authentication_at(&mut sessions, Some(&"unknown".to_string()), NOW).unwrap_err();
    assert_eq!(e.kind, ErrorKind::Unauthenticated);
    assert_eq!(sessions.len(), 1);
}

#[test]
fn a_valid_session_is_admitted_with_user_and_token() {
    let mut sessions = SessionTable::new();
    sessions
        .create_session_by_session_uuid_and_user_id("abc".to_string(), 42, false, NOW, 30)
        .unwrap();
    let session = authentication_at(&mut sessions, Some(&"abc".to_string()), NOW + 1).unwrap();
    assert_eq!(
        session,
        Session {
            uuid: "abc".to_string(),
            user_id: 42,
            created: NOW,
            expiration: Some(NOW + 30 * 60_000_000),
        }
    );
    assert_eq!(sessions.len(), 1);
}

#[test]
fn an_expired_session_is_rejected_and_deleted() {
    let mut sessions = SessionTable::new();
    sessions
        .create_session_by_session_uuid_and_user_id("abc".to_string(), 42, false, NOW, 30)
        .unwrap();
    sessions
        .create_session_by_session_uuid_and_user_id("other".to_string(), 43, false, NOW, 30)
        .unwrap();
    let token = "abc".to_string();
    let expiry = NOW + 30 * 60_000_000;
    // just before the end the session is still good
    assert!(authentication_at(&mut sessions, Some(&token), expiry - 1).is_ok());
    let e = authentication_at(&mut sessions, Some(&token), expiry).unwrap_err();
    assert_eq!(e.kind, ErrorKind::SessionExpired);
    assert_eq!(sessions.get_session_from_session_uuid(&token), None);
    assert_eq!(sessions.len(), 1);
    // the second check finds nothing, at whatever time it is made
    let e = authentication_at(&mut sessions, Some(&token), expiry + 1).unwrap_err();
    assert_eq!(e.kind, ErrorKind::Unauthenticated);
    let e = authentication_at(&mut sessions, Some(&token), NOW).unwrap_err();
    assert_eq!(e.kind, ErrorKind::Unauthenticated);
    // the session of the other user is untouched
    assert!(sessions.get_session_from_session_uuid(&"other".to_string()).is_some());
}

#[test]
fn a_remembered_session_is_admitted_at_any_time() {
    let mut sessions = SessionTable::new();
    sessions
        .create_session_by_session_uuid_and_user_id("forever".to_string(), 5, true, NOW, 30)
        .unwrap();
    let token = "forever".to_string();
    for at in [i64::MIN, 0, NOW, NOW + 30 * 60_000_000, NOW + 1_000_000 * 60_000_000, i64::MAX] {
        let session = authentication_at(&mut sessions, Some(&token), at).unwrap();
        assert_eq!(session.user_id, 5);
        assert_eq!(session.expiration, None);
    }
    assert_eq!(sessions.len(), 1);
}

#[test]
fn a_token_is_used_once() {
    let mut sessions = SessionTable::new();
    assert_eq!(
        sessions.create_session_by_session_uuid_and_user_id("abc".to_string(), 1, true, NOW, 30),
        Ok("abc".to_string())
    );
    let e = sessions
        .create_session_by_session_uuid_and_user_id("abc".to_string(), 2, true, NOW, 30)
        .unwrap_err();
    assert_eq!(e.kind, ErrorKind::StorageError);
    assert_eq!(sessions.len(), 1);
    assert_eq!(sessions.get_session_from_session_uuid(&"abc".to_string()).unwrap().user_id, 1);
}

#[test]
fn a_session_that_cannot_expire_in_range_is_not_created() {
    let mut sessions = SessionTable::new();
    let e = sessions
        .create_session_by_session_uuid_and_user_id("abc".to_string(), 1, false, i64::MAX, 1)
        .unwrap_err();
    assert_eq!(e.kind, ErrorKind::Internal);
    assert_eq!(sessions.len(), 0);
}

#[test]
fn deleting_needs_both_user_and_token() {
    let mut sessions = SessionTable::new();
    sessions
        .create_session_by_session_uuid_and_user_id("abc".to_string(), 1, true, NOW, 30)
        .unwrap();
    let token = "abc".to_string();
    assert_eq!(sessions.delete_sessions_by_user_id_and_uuid(2, &token), 0);
    assert_eq!(sessions.delete_sessions_by_user_id_and_uuid(1, &"abd".to_string()), 0);
    assert_eq!(sessions.len(), 1);
    assert_eq!(sessions.delete_sessions_by_user_id_and_uuid(1, &token), 1);
    assert_eq!(sessions.len(), 0);
    assert_eq!(sessions.delete_session_by_uuid(&token), 0);
}

#[test]
fn logout_deletes_one_session_and_fails_the_second_time() {
    let mut sessions = SessionTable::new();
    for (token, user_id) in [("a", 1), ("b", 1), ("c", 2)] {
        sessions
            .create_session_by_session_uuid_and_user_id(token.to_string(), user_id, true, NOW, 30)
            .unwrap();
    }
    let token = "a".to_string();
    assert_eq!(logout(&mut sessions, 1, &token), Ok(()));
    assert_eq!(sessions.len(), 2);
    assert!(sessions.get_session_from_session_uuid(&token).is_none());
    // the other session of the same user stays open
    assert!(sessions.get_session_from_session_uuid(&"b".to_string()).is_some());
    assert!(sessions.get_session_from_session_uuid(&"c".to_string()).is_some());
    let e = logout(&mut sessions, 1, &token).unwrap_err();
    assert_eq!(e.kind, ErrorKind::ConsistencyError);
    assert_eq!(e.message, "No rows affected");
    assert_eq!(sessions.len(), 2);
}

#[test]
fn logout_of_another_users_session_fails() {
    let mut sessions = SessionTable::new();
    sessions
        .create_session_by_session_uuid_and_user_id("c".to_string(), 2, true, NOW, 30)
        .unwrap();
    let e = logout(&mut sessions, 1, &"c".to_string()).unwrap_err();
    assert_eq!(e.kind, ErrorKind::ConsistencyError);
    assert_eq!(e.message, "No rows affected");
    assert_eq!(sessions.len(), 1);
}

#[test]
fn the_logout_endpoint_answers_with_a_message() {
    let mut sessions = SessionTable::new();
    sessions
        .create_session_by_session_uuid_and_user_id("c".to_string(), 2, true, NOW, 30)
        .unwrap();
    let session = sessions.get_session_from_session_uuid(&"c".to_string()).unwrap();
    let response = logout_endpoint(&mut sessions, &session).unwrap();
    assert_eq!(response.message, "Successfully logged out user!");
    let e = logout_endpoint(&mut sessions, &session).unwrap_err();
    assert_eq!(e.kind, ErrorKind::ConsistencyError);
}

#[test]
fn the_user_is_found_by_name_and_hash() {
    let users = users();
    let found = get_user_by_username_and_password(
        &users,
        &"grace".to_string(),
        &sha256("hopper"),
    );
    assert_eq!(found.unwrap().id, 2);
    assert!(get_user_by_username_and_password(&users, &"grace".to_string(), &sha256("Hopper"))
        .is_none());
    assert!(get_user_by_username_and_password(&users, &"Grace".to_string(), &sha256("hopper"))
        .is_none());
    // the plain password is no hash
    assert!(get_user_by_username_and_password(&users, &"grace".to_string(), &"hopper".to_string())
        .is_none());
}

#[test]
fn login_with_wrong_credentials_creates_nothing() {
    let mut sessions = SessionTable::new();
    let users = users();
    let unknown = login_with(
        &mut sessions,
        &users,
        &hashed("nobody", "lovelace", false),
        30,
        "tok".to_string(),
        NOW,
    )
    .unwrap_err();
    let wrong =
        login_with(&mut sessions, &users, &hashed("ada", "byron", false), 30, "tok".to_string(), NOW)
            .unwrap_err();
    assert_eq!(unknown.kind, ErrorKind::InvalidCredentials);
    // an unknown name is not told from a wrong password
    assert_eq!(unknown, wrong);
    assert_eq!(sessions.len(), 0);
}

#[test]
fn login_creates_a_session_that_runs_out() {
    let mut sessions = SessionTable::new();
    let users = users();
    let (token, profile) =
        login_with(&mut sessions, &users, &hashed("ada", "lovelace", false), 30, "tok".to_string(), NOW)
            .unwrap();
    assert_eq!(token, "tok");
    assert_eq!(profile.id, 1);
    assert_eq!(profile.username, "ada");
    assert_eq!(profile.password, "");
    assert_eq!(profile.email_address, Some("ada@example.org".to_string()));
    assert_eq!(
        sessions.get_session_from_session_uuid(&token),
        Some(Session {
            uuid: "tok".to_string(),
            user_id: 1,
            created: NOW,
            expiration: Some(NOW + 1_800_000_000),
        })
    );
}

#[test]
fn login_with_remember_me_creates_a_session_without_end() {
    let mut sessions = SessionTable::new();
    let users = users();
    let (token, _) =
        login_with(&mut sessions, &users, &hashed("grace", "hopper", true), 30, "tok".to_string(), NOW)
            .unwrap();
    let session = sessions.get_session_from_session_uuid(&token).unwrap();
    assert_eq!(session.user_id, 2);
    assert_eq!(session.expiration, None);
}

#[test]
fn login_under_a_taken_token_fails() {
    let mut sessions = SessionTable::new();
    let users = users();
    login_with(&mut sessions, &users, &hashed("ada", "lovelace", true), 30, "tok".to_string(), NOW)
        .unwrap();
    let e =
        login_with(&mut sessions, &users, &hashed("grace", "hopper", true), 30, "tok".to_string(), NOW)
            .unwrap_err();
    assert_eq!(e.kind, ErrorKind::StorageError);
    assert_eq!(sessions.len(), 1);
}

#[test]
fn the_profile_has_no_password() {
    let ada = user(1, "ada", "lovelace");
    let profile = profile_of(ada.clone());
    assert_eq!(profile, User { password: String::new(), ..ada });
}

#[test]
fn a_user_may_have_several_sessions() {
    let mut sessions = SessionTable::new();
    let users = users();
    let login_info = hashed("ada", "lovelace", false);
    let (first, _) = login(&mut sessions, &users, &login_info, 30).unwrap();
    let (second, _) = login(&mut sessions, &users, &login_info, 30).unwrap();
    assert_ne!(first, second);
    assert_eq!(sessions.len(), 2);
    assert_eq!(sessions.get_session_from_session_uuid(&first).unwrap().user_id, 1);
    assert_eq!(sessions.get_session_from_session_uuid(&second).unwrap().user_id, 1);
}

#[test]
fn a_token_is_a_random_uuid() {
    let mut sessions = SessionTable::new();
    let users = users();
    let (token, _) = login(&mut sessions, &users, &hashed("ada", "lovelace", true), 30).unwrap();
    assert_eq!(TOKEN_LENGTH, 36);
    assert_eq!(token.chars().count(), 36);
    let parts: Vec<&str> = token.split('-').collect();
    let lengths: Vec<usize> = parts.iter().map(|p| p.len()).collect();
    assert_eq!(lengths, vec![8, 4, 4, 4, 12]);
    assert!(token.chars().all(|c| c == '-' || c.is_ascii_digit() || ('a'..='f').contains(&c)));
    // version 4, variant 1
    assert_eq!(parts[2].chars().next(), Some('4'));
    assert!(matches!(parts[3].chars().next(), Some('8') | Some('9') | Some('a') | Some('b')));
}

#[test]
fn a_session_is_created_at_the_current_instant() {
    let before = std::time::SystemTime::now()
        .duration_since(std::time::UNIX_EPOCH)
        .unwrap()
        .as_micros() as i64;
    let mut sessions = SessionTable::new();
    let users = users();
    let (token, _) = login(&mut sessions, &users, &hashed("ada", "lovelace", false), 30).unwrap();
    let after = std::time::SystemTime::now()
        .duration_since(std::time::UNIX_EPOCH)
        .unwrap()
        .as_micros() as i64;
    let session = sessions.get_session_from_session_uuid(&token).unwrap();
    assert!(session.created >= 0);
    assert!(before <= session.created && session.created <= after);
    assert_eq!(session.expiration, Some(session.created + 30 * 60_000_000));
}

#[test]
fn login_then_request_then_expiry() {
    let mut sessions = SessionTable::new();
    let users = users();
    let (cookie, profile) =
        login_endpoint(&mut sessions, &users, plain("ada", "lovelace", false), 30).unwrap();
    assert_eq!(cookie.name, "tirauth");
    assert_eq!(profile.id, 1);
    assert_eq!(profile.password, "");
    let stored = sessions.get_session_from_session_uuid(&cookie.value).unwrap();
    assert_eq!(stored.expiration, Some(stored.created + 30 * 60_000_000));
    assert_eq!(cookie.expires, stored.expiration);
    // a request right away is let through
    let session = authentication(&mut sessions, Some(&cookie.value)).unwrap();
    assert_eq!(session.user_id, 1);
    assert_eq!(session.uuid, cookie.value);
    // with the clock past the end, the next request fails and the row goes
    let e = authentication_at(&mut sessions, Some(&cookie.value), stored.created + 30 * 60_000_000)
        .unwrap_err();
    assert_eq!(e.kind, ErrorKind::SessionExpired);
    assert_eq!(sessions.len(), 0);
    let e = authentication(&mut sessions, Some(&cookie.value)).unwrap_err();
    assert_eq!(e.kind, ErrorKind::Unauthenticated);
}

#[test]
fn a_session_of_no_minutes_has_run_out_at_once() {
    let mut sessions = SessionTable::new();
    let users = users();
    let (cookie, _) =
        login_endpoint(&mut sessions, &users, plain("grace", "hopper", false), 0).unwrap();
    assert_eq!(sessions.len(), 1);
    let e = authentication(&mut sessions, Some(&cookie.value)).unwrap_err();
    assert_eq!(e.kind, ErrorKind::SessionExpired);
    assert_eq!(sessions.len(), 0);
    let e = authentication(&mut sessions, Some(&cookie.value)).unwrap_err();
    assert_eq!(e.kind, ErrorKind::Unauthenticated);
}

#[test]
fn the_login_endpoint_hashes_the_password() {
    let mut sessions = SessionTable::new();
    let users = users();
    // the hash itself is no password
    let e = login_endpoint(&mut sessions, &users, plain("ada", &sha256("lovelace"), false), 30)
        .unwrap_err();
    assert_eq!(e.kind, ErrorKind::InvalidCredentials);
    let e = login_endpoint(&mut sessions, &users, plain("ada", "", false), 30).unwrap_err();
    assert_eq!(e.kind, ErrorKind::InvalidCredentials);
    assert_eq!(sessions.len(), 0);
}

#[test]
fn a_remembered_login_sets_a_cookie_without_end() {
    let mut sessions = SessionTable::new();
    let users = users();
    let (cookie, _) =
        login_endpoint(&mut sessions, &users, plain("ada", "lovelace", true), 30).unwrap();
    assert_eq!(cookie.expires, None);
    assert_eq!(cookie.value.len(), 36);
}

#[test]
fn the_cookie_carries_the_token() {
    let session =
        Session { uuid: "abc".to_string(), user_id: 1, created: NOW, expiration: Some(NOW + 5) };
    let cookie = session_cookie(&session);
    assert_eq!(cookie.name, "tirauth");
    assert_eq!(cookie.value, "abc");
    assert_eq!(cookie.expires, Some(NOW + 5));
}

#[test]
fn sha256_of_known_messages() {
    assert_eq!(
        sha256("abc"),
        "ba7816bf8f01cfea414140de5dae2223b00361a396177a9cb410ff61f20015ad"
    );
    assert_eq!(
        sha256(""),
        "e3b0c44298fc1c149afbf4c8996fb92427ae41e4649b934ca495991b7852b855"
    );
    assert_eq!(
        sha256("The quick brown fox jumps over the lazy dog"),
        "d7a8fbb307d7809469ca9abcb0082e4f8d5651e46d3cdb762d02d0bf37c9e592"
    );
    // the bytes of the text are hashed: two for this letter
    assert_eq!(
        sha256("é"),
        "4a99557e4033c3539de2eb65472017cad5f9557f7a0625a09f1c3f6e2ba69c4c"
    );
}

#[test]
fn a_password_is_hashed() {
    assert_eq!(hash_password("abc"), Some(sha256("abc")));
    assert_ne!(hash_password("abc"), Some("abc".to_string()));
}
