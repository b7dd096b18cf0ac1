//! The endpoints for logging in and out.

use crate::controller::TIRA_AUTH_COOKIE;
use crate::dao::sessions::SessionTable;
use crate::errors::{ErrorKind, TiraError};
use crate::models::success::StandardResponse;
use crate::models::{Login, Session, SessionView, User};
use crate::service::{check_only_one_row_changed, is_row_count_error};
use crate::service::security::{hash_password, sha256_hex, SHA256_INPUT_LIMIT};
use crate::service::sessions::{
    login, login_post, logout, owns_session, table_after_logout, TOKEN_LENGTH,
};
use vstd::prelude::*;
use vstd::utf8::encode_utf8;

verus! {

/// The cookie that a login sets. Without an expiration it lasts as long as
/// the browser session.
#[derive(Debug, PartialEq, Eq)]
pub struct SessionCookie {
    pub name: String,
    pub value: String,
    pub expires: Option<i64>,
}

/// The cookie for a session: it carries the token, and runs out when the
/// session does.
pub fn session_cookie(session: &Session) -> (cookie: SessionCookie)
    ensures
        cookie.name@ == TIRA_AUTH_COOKIE@,
        cookie.value@ == session.uuid@,
        cookie.expires == session.expiration,
{
    SessionCookie {
        name: TIRA_AUTH_COOKIE.to_owned(),
        value: session.uuid.clone(),
        expires: session.expiration,
    }
}

/// What the login endpoint does, given the token and the instant of the new
/// session.
pub open spec fn login_endpoint_post(
    before: Map<Seq<char>, SessionView>,
    users: Seq<User>,
    login_info: Login,
    minutes: i64,
    uuid: Seq<char>,
    now: i64,
    after: Map<Seq<char>, SessionView>,
    res: Result<(SessionCookie, User), TiraError>,
) -> bool {
    if encode_utf8(login_info.password@).len() >= SHA256_INPUT_LIMIT {
        &&& after == before
        &&& res is Err
        &&& res->Err_0.kind == ErrorKind::ValidationError
    } else {
        exists|inner: Result<(String, User), TiraError>|
            {
                &&& #[trigger] login_post(
                    before,
                    users,
                    login_info.username@,
                    sha256_hex(login_info.password@),
                    login_info.remember_me,
                    minutes,
                    uuid,
                    now,
                    after,
                    inner,
                )
                &&& match inner {
                    Ok((token, user)) => {
                        &&& res is Ok
                        &&& res->Ok_0.0.name@ == TIRA_AUTH_COOKIE@
                        &&& res->Ok_0.0.value@ == uuid
                        &&& res->Ok_0.0.expires == after[uuid].expiration
                        &&& res->Ok_0.1 == user
                    },
                    Err(e) => res is Err && res->Err_0 == e,
                }
            }
    }
}

/// The login endpoint. Hashes the password, logs the user in, and returns
/// the session cookie with the user's public profile.
pub fn login_endpoint(
    sessions: &mut SessionTable,
    users: &Vec<User>,
    login_info: Login,
    session_length_minutes: i64,
) -> (res: Result<(SessionCookie, User), TiraError>)
    ensures
        exists|uuid: Seq<char>, now: i64|
            uuid.len() == TOKEN_LENGTH && now >= 0 && #[trigger] login_endpoint_post(
                old(sessions)@,
                users@,
                login_info,
                session_length_minutes,
                uuid,
                now,
                final(sessions)@,
                res,
            ),
{
    let ghost before = sessions@;
    let hashed = match hash_password(login_info.password.as_str()) {
        Some(digest) => digest,
        None => {
            let res = Err(TiraError::new(ErrorKind::ValidationError, "Password is too long"));
            assert(login_endpoint_post(
                before,
                users@,
                login_info,
                session_length_minutes,
                Seq::new(TOKEN_LENGTH as nat, |i: int| '0'),
                0,
                sessions@,
                res,
            ));
            return res;
        },
    };
    let hashed_login = Login {
        username: login_info.username.clone(),
        password: hashed,
        remember_me: login_info.remember_me,
    };
    let inner = login(sessions, users, &hashed_login, session_length_minutes);
    let ghost (uuid, now) = choose|uuid: Seq<char>, now: i64|
        uuid.len() == TOKEN_LENGTH && now >= 0 && #[trigger] login_post(
            before,
            users@,
            hashed_login.username@,
            hashed_login.password@,
            hashed_login.remember_me,
            session_length_minutes,
            uuid,
            now,
            sessions@,
            inner,
        );
    let res = match inner {
        Ok((token, user)) => {
            // The cookie runs out when the session that was just stored does.
            let expires = match sessions.get_session_from_session_uuid(&token) {
                Some(session) => session.expiration,
                None => None,
            };
            Ok((SessionCookie { name: TIRA_AUTH_COOKIE.to_owned(), value: token, expires }, user))
        },
        Err(e) => Err(e),
    };
    assert(login_endpoint_post(
        before,
        users@,
        login_info,
        session_length_minutes,
        uuid,
        now,
        sessions@,
        res,
    ));
    res
}

/// The answer to a logout, once the store has said how many sessions it
/// deleted: anything but one row is an error.
pub fn logout_response(sessions_deleted: u64) -> (res: Result<StandardResponse, TiraError>)
    ensures
        res is Ok <==> sessions_deleted == 1,
        res matches Ok(response) ==> response.message@ == "Successfully logged out user!"@,
        res matches Err(e) ==> is_row_count_error(e, sessions_deleted),
{
    match check_only_one_row_changed(sessions_deleted) {
        Ok(()) => Ok(StandardResponse { message: "Successfully logged out user!".to_owned() }),
        Err(e) => Err(e),
    }
}

/// The logout endpoint, behind the guard: logs out the user of `session`
/// from that session.
pub fn logout_endpoint(sessions: &mut SessionTable, session: &Session) -> (res: Result<
    StandardResponse,
    TiraError,
>)
    ensures
        res is Ok <==> owns_session(old(sessions)@, session.user_id, session.uuid@),
        final(sessions)@ == table_after_logout(old(sessions)@, session.user_id, session.uuid@),
        res matches Ok(response) ==> response.message@ == "Successfully logged out user!"@,
        res matches Err(e) ==> e.kind == ErrorKind::ConsistencyError && e.message@
            == "No rows affected"@,
{
    match logout(sessions, session.user_id, &session.uuid) {
        Ok(()) => Ok(StandardResponse { message: "Successfully logged out user!".to_owned() }),
        Err(e) => Err(e),
    }
}

} // verus!
