//! The table of sessions, keyed by token.

use crate::errors::{ErrorKind, TiraError};
use crate::models::{Session, SessionView};
use vstd::prelude::*;

verus! {

/// The number of microseconds in a minute.
pub const MICROS_PER_MINUTE: i64 = 60_000_000;

/// The instant at which a session that starts at `now` and lasts `minutes` runs out.
pub open spec fn expiry_instant(now: i64, minutes: i64) -> int {
    now + minutes * MICROS_PER_MINUTE
}

/// The expiration of a new session: none where the user asked to be
/// remembered, else the instant at which it runs out.
pub open spec fn new_expiration(remember_me: bool, now: i64, minutes: i64) -> Option<int> {
    if remember_me {
        None
    } else {
        Some(expiry_instant(now, minutes))
    }
}

/// Whether the expiration of a new session is an instant that can be stored.
pub open spec fn expiration_fits(remember_me: bool, now: i64, minutes: i64) -> bool {
    remember_me || i64::MIN <= expiry_instant(now, minutes) <= i64::MAX
}

/// The row of a new session.
pub open spec fn new_session(
    uuid: Seq<char>,
    user_id: i64,
    remember_me: bool,
    now: i64,
    minutes: i64,
) -> SessionView {
    SessionView {
        uuid,
        user_id,
        created: now,
        expiration: match new_expiration(remember_me, now, minutes) {
            Some(e) => Some(e as i64),
            None => None,
        },
    }
}

/// The expiration of a new session, or nothing where the instant is out of range.
pub fn expiration_for(remember_me: bool, now: i64, minutes: i64) -> (res: Option<Option<i64>>)
    ensures
        res is Some <==> expiration_fits(remember_me, now, minutes),
        res matches Some(e) ==> match new_expiration(remember_me, now, minutes) {
            Some(at) => e == Some(at as i64),
            None => e is None,
        },
{
    if remember_me {
        Some(None)
    } else {
        let at: i128 = now as i128 + (minutes as i128) * (MICROS_PER_MINUTE as i128);
        if at < i64::MIN as i128 || at > i64::MAX as i128 {
            None
        } else {
            Some(Some(at as i64))
        }
    }
}

/// The row of a new session, or nothing where its expiration is out of range.
pub fn new_session_row(
    session_uuid: String,
    user_id: i64,
    remember_me: bool,
    now: i64,
    minutes: i64,
) -> (row: Option<Session>)
    ensures
        row is Some <==> expiration_fits(remember_me, now, minutes),
        row matches Some(session) ==> session@ == new_session(
            session_uuid@,
            user_id,
            remember_me,
            now,
            minutes,
        ),
{
    match expiration_for(remember_me, now, minutes) {
        None => None,
        Some(expiration) => Some(
            Session { uuid: session_uuid, user_id, created: now, expiration },
        ),
    }
}

/// No two rows have the same token.
spec fn distinct_tokens(rows: Seq<Session>) -> bool {
    forall|i: int, j: int| 0 <= i < j < rows.len() ==> rows[i].uuid@ != rows[j].uuid@
}

/// Whether some row has this token.
spec fn has_token(rows: Seq<Session>, uuid: Seq<char>) -> bool {
    exists|i: int| 0 <= i < rows.len() && #[trigger] rows[i].uuid@ == uuid
}

/// The place of a row with this token.
spec fn place_of(rows: Seq<Session>, uuid: Seq<char>) -> int {
    choose|i: int| 0 <= i < rows.len() && #[trigger] rows[i].uuid@ == uuid
}

/// The rows as a map from token to session.
spec fn table_of(rows: Seq<Session>) -> Map<Seq<char>, SessionView> {
    Map::new(|uuid: Seq<char>| has_token(rows, uuid), |uuid: Seq<char>| rows[place_of(rows, uuid)]@)
}

/// Each row is found under its own token.
proof fn lemma_row_is_in_table(rows: Seq<Session>, i: int)
    requires
        distinct_tokens(rows),
        0 <= i < rows.len(),
    ensures
        table_of(rows).dom().contains(rows[i].uuid@),
        table_of(rows)[rows[i].uuid@] == rows[i]@,
{
    let uuid = rows[i].uuid@;
    assert(has_token(rows, uuid));
    let p = place_of(rows, uuid);
    assert(0 <= p < rows.len() && rows[p].uuid@ == uuid);
    assert(p == i);
}

/// A new row with a new token adds one entry to the table.
proof fn lemma_push_is_insert(rows: Seq<Session>, s: Session)
    requires
        distinct_tokens(rows),
        !has_token(rows, s.uuid@),
    ensures
        distinct_tokens(rows.push(s)),
        table_of(rows.push(s)) == table_of(rows).insert(s.uuid@, s@),
{
    let after = rows.push(s);
    assert forall|i: int, j: int| 0 <= i < j < after.len() implies after[i].uuid@
        != after[j].uuid@ by {
        if j == rows.len() {
            assert(rows[i].uuid@ != s.uuid@);
        }
    }
    assert forall|uuid: Seq<char>|
        table_of(after).dom().contains(uuid) <==> #[trigger] table_of(rows).insert(
            s.uuid@,
            s@,
        ).dom().contains(uuid) by {
        if has_token(after, uuid) {
            let p = place_of(after, uuid);
            if p < rows.len() {
                assert(rows[p].uuid@ == uuid);
            }
        }
        if has_token(rows, uuid) {
            let p = place_of(rows, uuid);
            assert(after[p].uuid@ == uuid);
        }
        if uuid == s.uuid@ {
            assert(after[rows.len() as int].uuid@ == uuid);
        }
    }
    assert forall|uuid: Seq<char>| #[trigger] table_of(after).dom().contains(uuid) implies table_of(
        after,
    )[uuid] == table_of(rows).insert(s.uuid@, s@)[uuid] by {
        let p = place_of(after, uuid);
        lemma_row_is_in_table(after, p);
        if p < rows.len() {
            lemma_row_is_in_table(rows, p);
        }
    }
    assert(table_of(after) =~= table_of(rows).insert(s.uuid@, s@));
}

/// Taking a row out takes its entry out of the table, and no other.
proof fn lemma_remove_is_remove(rows: Seq<Session>, i: int)
    requires
        distinct_tokens(rows),
        0 <= i < rows.len(),
    ensures
        distinct_tokens(rows.remove(i)),
        table_of(rows.remove(i)) == table_of(rows).remove(rows[i].uuid@),
{
    let after = rows.remove(i);
    let gone = rows[i].uuid@;
    assert forall|a: int, b: int| 0 <= a < b < after.len() implies after[a].uuid@
        != after[b].uuid@ by {
        let a0 = if a < i { a } else { a + 1 };
        let b0 = if b < i { b } else { b + 1 };
        assert(after[a] == rows[a0] && after[b] == rows[b0]);
    }
    assert forall|uuid: Seq<char>|
        table_of(after).dom().contains(uuid) <==> #[trigger] table_of(rows).remove(
            gone,
        ).dom().contains(uuid) by {
        if has_token(after, uuid) {
            let p = place_of(after, uuid);
            let p0 = if p < i { p } else { p + 1 };
            assert(after[p] == rows[p0]);
            assert(rows[p0].uuid@ == uuid);
            assert(p0 != i);
            if uuid == gone {
                assert(rows[p0].uuid@ == rows[i].uuid@);
            }
        }
        if has_token(rows, uuid) && uuid != gone {
            let p = place_of(rows, uuid);
            let q = if p < i { p } else { p - 1 };
            assert(after[q] == rows[p]);
            assert(after[q].uuid@ == uuid);
        }
    }
    assert forall|uuid: Seq<char>| #[trigger] table_of(after).dom().contains(uuid) implies table_of(
        after,
    )[uuid] == table_of(rows).remove(gone)[uuid] by {
        let p = place_of(after, uuid);
        let p0 = if p < i { p } else { p + 1 };
        assert(after[p] == rows[p0]);
        lemma_row_is_in_table(after, p);
        lemma_row_is_in_table(rows, p0);
    }
    assert(table_of(after) =~= table_of(rows).remove(gone));
}

/// The sessions that are open, each under its token.
pub struct SessionTable {
    rows: Vec<Session>,
}

impl View for SessionTable {
    type V = Map<Seq<char>, SessionView>;

    closed spec fn view(&self) -> Map<Seq<char>, SessionView> {
        table_of(self.rows@)
    }
}

impl SessionTable {
    #[verifier::type_invariant]
    spec fn well_formed(&self) -> bool {
        distinct_tokens(self.rows@)
    }

    /// A table without sessions.
    pub fn new() -> (table: SessionTable)
        ensures
            table@ == Map::<Seq<char>, SessionView>::empty(),
    {
        let table = SessionTable { rows: Vec::new() };
        assert(table@ =~= Map::<Seq<char>, SessionView>::empty());
        table
    }

    /// The place of the row with this token, if there is one.
    fn find(&self, uuid: &String) -> (place: Option<usize>)
        ensures
            place is Some <==> has_token(self.rows@, uuid@),
            place matches Some(i) ==> i < self.rows.len() && self.rows[i as int].uuid@ == uuid@,
    {
        let mut i: usize = 0;
        while i < self.rows.len()
            invariant
                i <= self.rows.len(),
                forall|j: int| 0 <= j < i ==> self.rows[j].uuid@ != uuid@,
            decreases self.rows.len() - i,
        {
            if self.rows[i].uuid == *uuid {
                return Some(i);
            }
            i += 1;
        }
        None
    }

    /// Takes the row at this place out of the table.
    fn remove_row(&mut self, i: usize)
        requires
            i < old(self).rows.len(),
        ensures
            final(self)@ == old(self)@.remove(old(self).rows[i as int].uuid@),
    {
        proof {
            use_type_invariant(&*self);
        }
        let mut rows: Vec<Session> = Vec::new();
        core::mem::swap(&mut self.rows, &mut rows);
        proof {
            lemma_remove_is_remove(rows@, i as int);
        }
        rows.remove(i);
        self.rows = rows;
    }

    /// The session with this token, if there is one.
    pub fn get_session_from_session_uuid(&self, uuid: &String) -> (found: Option<Session>)
        ensures
            found is Some <==> self@.dom().contains(uuid@),
            found matches Some(s) ==> s@ == self@[uuid@] && s.uuid@ == uuid@,
    {
        proof {
            use_type_invariant(self);
        }
        match self.find(uuid) {
            Some(i) => {
                proof {
                    lemma_row_is_in_table(self.rows@, i as int);
                }
                Some(self.rows[i].clone())
            },
            None => None,
        }
    }

    /// Adds a session for this user under this token. The session runs out
    /// `minutes` after `now`, or never where `remember_me` is set.
    /// Fails, and changes nothing, where the token is taken or the
    /// expiration is out of range.
    pub fn create_session_by_session_uuid_and_user_id(
        &mut self,
        session_uuid: String,
        user_id: i64,
        remember_me: bool,
        now: i64,
        minutes: i64,
    ) -> (res: Result<String, TiraError>)
        ensures
            res is Ok <==> !old(self)@.dom().contains(session_uuid@) && expiration_fits(
                remember_me,
                now,
                minutes,
            ),
            res matches Ok(uuid) ==> uuid@ == session_uuid@ && final(self)@ == old(self)@.insert(
                session_uuid@,
                new_session(session_uuid@, user_id, remember_me, now, minutes),
            ),
            res matches Err(e) ==> final(self)@ == old(self)@ && e.kind == (if old(
                self,
            )@.dom().contains(session_uuid@) {
                ErrorKind::StorageError
            } else {
                ErrorKind::Internal
            }),
    {
        proof {
            use_type_invariant(&*self);
        }
        if self.find(&session_uuid).is_some() {
            return Err(TiraError::new(ErrorKind::StorageError, "Session already exists"));
        }
        match new_session_row(session_uuid, user_id, remember_me, now, minutes) {
            None => Err(TiraError::new(ErrorKind::Internal, "Session length out of range")),
            Some(session) => {
                let uuid = session.uuid.clone();
                let mut rows: Vec<Session> = Vec::new();
                core::mem::swap(&mut self.rows, &mut rows);
                proof {
                    lemma_push_is_insert(rows@, session);
                }
                rows.push(session);
                self.rows = rows;
                Ok(uuid)
            },
        }
    }

    /// Deletes the session with this token if it belongs to this user, and
    /// returns the number of rows deleted.
    pub fn delete_sessions_by_user_id_and_uuid(&mut self, user_id: i64, uuid: &String) -> (deleted:
        u64)
        ensures
            deleted == (if old(self)@.dom().contains(uuid@) && old(self)@[uuid@].user_id
                == user_id {
                1u64
            } else {
                0u64
            }),
            final(self)@ == (if deleted == 1 {
                old(self)@.remove(uuid@)
            } else {
                old(self)@
            }),
    {
        proof {
            use_type_invariant(&*self);
        }
        match self.find(uuid) {
            Some(i) => {
                proof {
                    lemma_row_is_in_table(self.rows@, i as int);
                }
                if self.rows[i].user_id == user_id {
                    self.remove_row(i);
                    1
                } else {
                    0
                }
            },
            None => 0,
        }
    }

    /// Deletes the session with this token, whoever owns it, and returns the
    /// number of rows deleted.
    pub fn delete_session_by_uuid(&mut self, uuid: &String) -> (deleted: u64)
        ensures
            deleted == (if old(self)@.dom().contains(uuid@) {
                1u64
            } else {
                0u64
            }),
            final(self)@ == old(self)@.remove(uuid@),
    {
        proof {
            use_type_invariant(&*self);
        }
        match self.find(uuid) {
            Some(i) => {
                self.remove_row(i);
                1
            },
            None => {
                assert(self@.remove(uuid@) =~= self@);
                0
            },
        }
    }

    /// The number of open sessions.
    pub fn len(&self) -> (n: usize)
        ensures
            n == self@.dom().len(),
            self@.dom().finite(),
    {
        proof {
            use_type_invariant(self);
            lemma_table_size(self.rows@);
        }
        self.rows.len()
    }
}

/// A table has as many entries as it has rows.
proof fn lemma_table_size(rows: Seq<Session>)
    requires
        distinct_tokens(rows),
    ensures
        table_of(rows).dom().finite(),
        table_of(rows).dom().len() == rows.len(),
    decreases rows.len(),
{
    if rows.len() == 0 {
        assert(table_of(rows).dom() =~= Set::<Seq<char>>::empty());
    } else {
        let last = rows.last();
        let front = rows.drop_last();
        assert(rows == front.push(last));
        assert(distinct_tokens(front));
        assert(!has_token(front, last.uuid@)) by {
            if has_token(front, last.uuid@) {
                let p = place_of(front, last.uuid@);
                assert(rows[p].uuid@ == rows[rows.len() - 1].uuid@);
            }
        }
        lemma_table_size(front);
        lemma_push_is_insert(front, last);
        assert(table_of(rows).dom() =~= table_of(front).dom().insert(last.uuid@));
        assert(!table_of(front).dom().contains(last.uuid@));
    }
}

} // verus!
