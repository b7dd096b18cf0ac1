//! What stands between a request and the services: the authentication guard,
//! and the endpoints.

use crate::dao::sessions::{expiration_fits, expiry_instant, new_session, SessionTable};
use crate::errors::{ErrorKind, TiraError};
use crate::models::{Session, SessionView};
use crate::service::sessions::current_instant;
use vstd::prelude::*;

pub mod assignments;
pub mod categories;
pub mod comments;
pub mod sessions;
pub mod tickets;
pub mod users;

verus! {

/// The name of the cookie that carries the session token.
pub const TIRA_AUTH_COOKIE: &'static str = "tirauth";

/// How the guard answers a request.
#[derive(Clone, Copy, Debug, PartialEq, Eq, Structural)]
pub enum GuardOutcome {
    /// The token names a session that has not run out.
    Admitted,
    /// There is no token, or it names no session.
    Unauthenticated,
    /// The token names a session that has run out.
    SessionExpired,
}

/// A session has run out at `now` where it has an expiration and `now` is
/// not before it. A session without expiration never runs out.
pub open spec fn is_expired(session: SessionView, now: i64) -> bool {
    session.expiration matches Some(at) && now >= at
}

/// How the guard answers a request that carries `cookie` at `now`.
pub open spec fn guard_outcome(
    table: Map<Seq<char>, SessionView>,
    cookie: Option<Seq<char>>,
    now: i64,
) -> GuardOutcome {
    match cookie {
        None => GuardOutcome::Unauthenticated,
        Some(uuid) => if !table.dom().contains(uuid) {
            GuardOutcome::Unauthenticated
        } else if is_expired(table[uuid], now) {
            GuardOutcome::SessionExpired
        } else {
            GuardOutcome::Admitted
        },
    }
}

/// The table after the guard has answered: a session found to have run out
/// is deleted, and nothing else changes.
pub open spec fn table_after_guard(
    table: Map<Seq<char>, SessionView>,
    cookie: Option<Seq<char>>,
    now: i64,
) -> Map<Seq<char>, SessionView> {
    if guard_outcome(table, cookie, now) == GuardOutcome::SessionExpired {
        table.remove(cookie->0)
    } else {
        table
    }
}

/// The characters of a cookie value that may be absent.
pub open spec fn cookie_text(cookie: Option<&String>) -> Option<Seq<char>> {
    match cookie {
        Some(value) => Some(value@),
        None => None,
    }
}

/// Whether a session has run out at `now`.
pub fn session_is_expired(session: &Session, now: i64) -> (expired: bool)
    ensures
        expired == is_expired(session@, now),
{
    match session.expiration {
        Some(at) => now >= at,
        None => false,
    }
}

/// What the guard does with a request.
#[derive(Debug, PartialEq, Eq)]
pub enum GuardAction {
    /// Let the request through, with the session for the handler.
    Admit(Session),
    /// Reject the request with this error.
    Reject(TiraError),
    /// Delete the session with this token, then reject the request with
    /// this error. A failure to delete does not change the rejection.
    DeleteAndReject(String, TiraError),
}

/// Judges what the store returned for a token. A request without a session
/// is rejected as unauthenticated. A session that has run out is to be
/// deleted, and the request rejected as expired. Else the request is let
/// through with its session.
pub fn check_session(found: Option<Session>, now: i64) -> (action: GuardAction)
    ensures
        match found {
            None => action matches GuardAction::Reject(e) && e.kind == ErrorKind::Unauthenticated
                && e.message@ == "User not authenticated"@,
            Some(session) => if is_expired(session@, now) {
                action matches GuardAction::DeleteAndReject(uuid, e) && uuid@ == session.uuid@
                    && e.kind == ErrorKind::SessionExpired && e.message@ == "Session expired"@
            } else {
                action == GuardAction::Admit(session)
            },
        },
{
    match found {
        None => GuardAction::Reject(
            TiraError::new(ErrorKind::Unauthenticated, "User not authenticated"),
        ),
        Some(session) => {
            if session_is_expired(&session, now) {
                GuardAction::DeleteAndReject(
                    session.uuid,
                    TiraError::new(ErrorKind::SessionExpired, "Session expired"),
                )
            } else {
                GuardAction::Admit(session)
            }
        },
    }
}

/// What the guard does at `now`: the table after it, and its result.
pub open spec fn guard_post(
    before: Map<Seq<char>, SessionView>,
    cookie: Option<Seq<char>>,
    now: i64,
    after: Map<Seq<char>, SessionView>,
    res: Result<Session, TiraError>,
) -> bool {
    &&& after == table_after_guard(before, cookie, now)
    &&& match guard_outcome(before, cookie, now) {
        GuardOutcome::Admitted => res is Ok && res->Ok_0@ == before[cookie->0],
        GuardOutcome::Unauthenticated => res is Err && res->Err_0.kind
            == ErrorKind::Unauthenticated && res->Err_0.message@ == "User not authenticated"@,
        GuardOutcome::SessionExpired => res is Err && res->Err_0.kind == ErrorKind::SessionExpired
            && res->Err_0.message@ == "Session expired"@,
    }
}

/// The authentication guard, at a given instant. Without a cookie, or with a
/// token that names no session, the request is rejected as unauthenticated.
/// A session that has run out is deleted and the request is rejected as
/// expired. Else the session, which holds the user and the token, is
/// returned for the handler.
pub fn authentication_at(sessions: &mut SessionTable, cookie: Option<&String>, now: i64) -> (res:
    Result<Session, TiraError>)
    ensures
        guard_post(old(sessions)@, cookie_text(cookie), now, final(sessions)@, res),
{
    let found = match cookie {
        Some(uuid) => sessions.get_session_from_session_uuid(uuid),
        None => None,
    };
    match check_session(found, now) {
        GuardAction::Admit(session) => Ok(session),
        GuardAction::Reject(e) => Err(e),
        GuardAction::DeleteAndReject(uuid, e) => {
            let _ = sessions.delete_session_by_uuid(&uuid);
            Err(e)
        },
    }
}

/// The authentication guard: as [`authentication_at`], at the current instant.
pub fn authentication(sessions: &mut SessionTable, cookie: Option<&String>) -> (res: Result<
    Session,
    TiraError,
>)
    ensures
        exists|now: i64|
            now >= 0 && #[trigger] guard_post(
                old(sessions)@,
                cookie_text(cookie),
                now,
                final(sessions)@,
                res,
            ),
{
    let now: i64 = current_instant();
    authentication_at(sessions, cookie, now)
}

/// A session with an expiration is rejected as expired by every check at or
/// after that instant, and is gone afterwards: the next check with the same
/// token, whenever it is made, finds no session and rejects the request as
/// unauthenticated.
pub proof fn lemma_expired_session_is_deleted(
    table: Map<Seq<char>, SessionView>,
    uuid: Seq<char>,
    now: i64,
    later: i64,
)
    requires
        table.dom().contains(uuid),
        table[uuid].expiration is Some,
        now >= table[uuid].expiration->0,
    ensures
        guard_outcome(table, Some(uuid), now) == GuardOutcome::SessionExpired,
        !table_after_guard(table, Some(uuid), now).dom().contains(uuid),
        guard_outcome(table_after_guard(table, Some(uuid), now), Some(uuid), later)
            == GuardOutcome::Unauthenticated,
        table_after_guard(table_after_guard(table, Some(uuid), now), Some(uuid), later)
            == table_after_guard(table, Some(uuid), now),
{
}

/// A session without an expiration is admitted at every instant, and the
/// check changes nothing.
pub proof fn lemma_session_without_expiration_is_admitted(
    table: Map<Seq<char>, SessionView>,
    uuid: Seq<char>,
    now: i64,
)
    requires
        table.dom().contains(uuid),
        table[uuid].expiration is None,
    ensures
        guard_outcome(table, Some(uuid), now) == GuardOutcome::Admitted,
        table_after_guard(table, Some(uuid), now) == table,
{
}

/// The life of a session that a login without "remember me" created at
/// `now` for `minutes`: a check before the end of that time admits it and
/// leaves it in place; a check at the end or later rejects it as expired and
/// deletes it.
pub proof fn lemma_session_lifetime(
    table: Map<Seq<char>, SessionView>,
    uuid: Seq<char>,
    user_id: i64,
    now: i64,
    minutes: i64,
    at: i64,
)
    requires
        expiration_fits(false, now, minutes),
    ensures
        ({
            let created = table.insert(uuid, new_session(uuid, user_id, false, now, minutes));
            let outcome = guard_outcome(created, Some(uuid), at);
            let after = table_after_guard(created, Some(uuid), at);
            &&& created[uuid].expiration == Some(expiry_instant(now, minutes) as i64)
            &&& at < expiry_instant(now, minutes) ==> outcome == GuardOutcome::Admitted && after
                == created
            &&& at >= expiry_instant(now, minutes) ==> outcome == GuardOutcome::SessionExpired
                && !after.dom().contains(uuid)
        }),
{
}

} // verus!
