//! Logging in and out.

use crate::dao::sessions::{expiration_fits, new_session, new_session_row, SessionTable};
use crate::dao::users::{
    get_user_by_username_and_password, is_first_match, some_user_matches,
};
use crate::errors::{ErrorKind, TiraError};
use crate::models::{Login, Session, SessionView, User, UserView};
use crate::service::check_only_one_row_changed;
use chrono::Utc;
use uuid::Uuid;
use vstd::prelude::*;

verus! {

/// The number of characters of a session token.
pub const TOKEN_LENGTH: usize = 36;

/// A fresh session token that cannot be guessed.
///
/// Trusted: calls `uuid::Uuid::new_v4` and formats the result with its
/// `Display`, which writes the hyphenated form of 36 characters. The token is
/// random, so nothing else is said of it. `new_v4` panics where the system
/// has no random bytes to give.
#[verifier::external_body]
fn new_session_uuid() -> (uuid: String)
    ensures
        uuid@.len() == TOKEN_LENGTH,
{
    Uuid::new_v4().to_string()
}

/// The current instant, in microseconds since the Unix epoch.
///
/// Trusted: calls `chrono::Utc::now` and converts the result with
/// `DateTime::timestamp_micros`. `now` reads the system clock and panics
/// where it is set before the epoch, so the instant is never negative.
#[verifier::external_body]
pub(crate) fn current_instant() -> (now: i64)
    ensures
        now >= 0,
{
    Utc::now().timestamp_micros()
}

/// A user as others may see it: the password hash is left out.
pub open spec fn public_profile(user: UserView) -> UserView {
    UserView { password: Seq::<char>::empty(), ..user }
}

/// The profile of a user without the password hash.
pub fn profile_of(user: User) -> (profile: User)
    ensures
        profile@ == public_profile(user@),
{
    User {
        id: user.id,
        username: user.username,
        password: String::new(),
        email_address: user.email_address,
        first_name: user.first_name,
        last_name: user.last_name,
        profile_picture_url: user.profile_picture_url,
        created: user.created,
        archived: user.archived,
    }
}

/// The session that a login opens, given the token and the instant it is
/// made with: none without a user; else the row of the session, with the
/// public profile of the user.
pub open spec fn session_post(
    user: Option<User>,
    remember_me: bool,
    minutes: i64,
    uuid: Seq<char>,
    now: i64,
    res: Result<(Session, User), TiraError>,
) -> bool {
    match user {
        None => res is Err && res->Err_0.kind == ErrorKind::InvalidCredentials,
        Some(u) => if !expiration_fits(remember_me, now, minutes) {
            res is Err && res->Err_0.kind == ErrorKind::Internal
        } else {
            &&& res is Ok
            &&& res->Ok_0.0@ == new_session(uuid, u.id, remember_me, now, minutes)
            &&& res->Ok_0.1@ == public_profile(u@)
        },
    }
}

/// The session to store for a login, under a given token and at a given
/// instant. `user` is the user that the store found for the credentials:
/// without one the login fails, and nothing tells an unknown name from a
/// wrong password.
pub fn open_session_with(
    user: Option<User>,
    remember_me: bool,
    session_length_minutes: i64,
    session_uuid: String,
    now: i64,
) -> (res: Result<(Session, User), TiraError>)
    ensures
        session_post(user, remember_me, session_length_minutes, session_uuid@, now, res),
{
    match user {
        None => Err(TiraError::new(ErrorKind::InvalidCredentials, "Invalid username or password")),
        Some(user) => match new_session_row(
            session_uuid,
            user.id,
            remember_me,
            now,
            session_length_minutes,
        ) {
            None => Err(TiraError::new(ErrorKind::Internal, "Session length out of range")),
            Some(session) => Ok((session, profile_of(user))),
        },
    }
}

/// The session to store for a login: as [`open_session_with`], under a
/// fresh random token and at the current instant.
pub fn open_session(user: Option<User>, remember_me: bool, session_length_minutes: i64) -> (res:
    Result<(Session, User), TiraError>)
    ensures
        exists|uuid: Seq<char>, now: i64|
            uuid.len() == TOKEN_LENGTH && now >= 0 && #[trigger] session_post(
                user,
                remember_me,
                session_length_minutes,
                uuid,
                now,
                res,
            ),
{
    let uuid = new_session_uuid();
    let now: i64 = current_instant();
    open_session_with(user, remember_me, session_length_minutes, uuid, now)
}

/// What a login does, given the token and the instant it was made with:
/// the table after it and its result, from the table before it, the users,
/// the credentials (the password already hashed) and the session length.
pub open spec fn login_post(
    before: Map<Seq<char>, SessionView>,
    users: Seq<User>,
    username: Seq<char>,
    password: Seq<char>,
    remember_me: bool,
    minutes: i64,
    uuid: Seq<char>,
    now: i64,
    after: Map<Seq<char>, SessionView>,
    res: Result<(String, User), TiraError>,
) -> bool {
    if !some_user_matches(users, username, password) {
        &&& after == before
        &&& res is Err
        &&& res->Err_0.kind == ErrorKind::InvalidCredentials
    } else if before.dom().contains(uuid) {
        &&& after == before
        &&& res is Err
        &&& res->Err_0.kind == ErrorKind::StorageError
    } else if !expiration_fits(remember_me, now, minutes) {
        &&& after == before
        &&& res is Err
        &&& res->Err_0.kind == ErrorKind::Internal
    } else {
        &&& res is Ok
        &&& res->Ok_0.0@ == uuid
        &&& exists|i: int|
            is_first_match(users, username, password, i) && res->Ok_0.1@ == public_profile(
                (#[trigger] users[i])@,
            ) && after == before.insert(
                uuid,
                new_session(uuid, users[i].id, remember_me, now, minutes),
            )
    }
}

/// Logs a user in with a given token at a given instant. `login_info` holds
/// the password hash. Where a user has exactly these credentials, a session
/// is created for that user under `session_uuid`, and the token is returned
/// with the user's public profile. Nothing tells an unknown name from a
/// wrong password.
pub fn login_with(
    sessions: &mut SessionTable,
    users: &Vec<User>,
    login_info: &Login,
    session_length_minutes: i64,
    session_uuid: String,
    now: i64,
) -> (res: Result<(String, User), TiraError>)
    ensures
        login_post(
            old(sessions)@,
            users@,
            login_info.username@,
            login_info.password@,
            login_info.remember_me,
            session_length_minutes,
            session_uuid@,
            now,
            final(sessions)@,
            res,
        ),
{
    match get_user_by_username_and_password(users, &login_info.username, &login_info.password) {
        None => Err(TiraError::new(ErrorKind::InvalidCredentials, "Invalid username or password")),
        Some(user) => {
            let created = sessions.create_session_by_session_uuid_and_user_id(
                session_uuid,
                user.id,
                login_info.remember_me,
                now,
                session_length_minutes,
            );
            match created {
                Ok(uuid) => Ok((uuid, profile_of(user))),
                Err(e) => Err(e),
            }
        },
    }
}

/// Logs a user in: as [`login_with`], under a fresh random token and at the
/// current instant.
pub fn login(
    sessions: &mut SessionTable,
    users: &Vec<User>,
    login_info: &Login,
    session_length_minutes: i64,
) -> (res: Result<(String, User), TiraError>)
    ensures
        exists|uuid: Seq<char>, now: i64|
            uuid.len() == TOKEN_LENGTH && now >= 0 && #[trigger] login_post(
                old(sessions)@,
                users@,
                login_info.username@,
                login_info.password@,
                login_info.remember_me,
                session_length_minutes,
                uuid,
                now,
                final(sessions)@,
                res,
            ),
{
    let uuid = new_session_uuid();
    let now: i64 = current_instant();
    login_with(sessions, users, login_info, session_length_minutes, uuid, now)
}

/// Whether the session under this token belongs to this user.
pub open spec fn owns_session(
    table: Map<Seq<char>, SessionView>,
    user_id: i64,
    uuid: Seq<char>,
) -> bool {
    table.dom().contains(uuid) && table[uuid].user_id == user_id
}

/// The table after a logout: without the session, where the user owned it.
pub open spec fn table_after_logout(
    table: Map<Seq<char>, SessionView>,
    user_id: i64,
    uuid: Seq<char>,
) -> Map<Seq<char>, SessionView> {
    if owns_session(table, user_id, uuid) {
        table.remove(uuid)
    } else {
        table
    }
}

/// Logs a user out: deletes the one session that has both this user and
/// this token. Where no row was deleted the logout fails with a consistency
/// error that says so.
pub fn logout(sessions: &mut SessionTable, user_id: i64, session_uuid: &String) -> (res: Result<
    (),
    TiraError,
>)
    ensures
        res is Ok <==> owns_session(old(sessions)@, user_id, session_uuid@),
        final(sessions)@ == table_after_logout(old(sessions)@, user_id, session_uuid@),
        res matches Err(e) ==> e.kind == ErrorKind::ConsistencyError && e.message@
            == "No rows affected"@,
{
    let sessions_deleted: u64 = sessions.delete_sessions_by_user_id_and_uuid(
        user_id,
        session_uuid,
    );
    check_only_one_row_changed(sessions_deleted)
}

/// A second logout finds no row: after a logout, whether it succeeded or
/// not, the same user does not own a session under the same token, so the
/// next logout with the same token fails and changes nothing.
pub proof fn lemma_logout_twice(table: Map<Seq<char>, SessionView>, user_id: i64, uuid: Seq<char>)
    ensures
        !owns_session(table_after_logout(table, user_id, uuid), user_id, uuid),
        table_after_logout(table_after_logout(table, user_id, uuid), user_id, uuid)
            == table_after_logout(table, user_id, uuid),
{
}

/// A logout deletes one row at most, and only the row with both the user and
/// the token: every other session stays as it was.
pub proof fn lemma_logout_deletes_one_row(
    table: Map<Seq<char>, SessionView>,
    user_id: i64,
    uuid: Seq<char>,
    other: Seq<char>,
)
    requires
        other != uuid,
    ensures
        table_after_logout(table, user_id, uuid).dom().contains(other) == table.dom().contains(
            other,
        ),
        table.dom().contains(other) ==> table_after_logout(table, user_id, uuid)[other]
            == table[other],
        owns_session(table, user_id, uuid) ==> !table_after_logout(
            table,
            user_id,
            uuid,
        ).dom().contains(uuid),
        !owns_session(table, user_id, uuid) ==> table_after_logout(table, user_id, uuid) == table,
{
}

} // verus!
