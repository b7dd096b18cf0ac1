//! Selections from the users that the store holds.

use crate::dao::statements::{
    bool_value, column_views, given, push_bool, push_text, text_value, ColumnValue,
    ColumnValueView, RowUpdate,
};
use crate::models::patch::UpdateUser;
use crate::models::User;
use vstd::prelude::*;

verus! {

/// Whether a user has exactly this name and this password hash.
pub open spec fn credentials_match(user: User, username: Seq<char>, password: Seq<char>) -> bool {
    user.username@ == username && user.password@ == password
}

/// Whether `i` is the place of the first user with these credentials.
pub open spec fn is_first_match(
    users: Seq<User>,
    username: Seq<char>,
    password: Seq<char>,
    i: int,
) -> bool {
    &&& 0 <= i < users.len()
    &&& credentials_match(users[i], username, password)
    &&& forall|j: int| 0 <= j < i ==> !credentials_match(#[trigger] users[j], username, password)
}

/// Whether some user has these credentials.
pub open spec fn some_user_matches(
    users: Seq<User>,
    username: Seq<char>,
    password: Seq<char>,
) -> bool {
    exists|i: int|
        0 <= i < users.len() && credentials_match(#[trigger] users[i], username, password)
}

/// The first user whose name and password hash are both exactly the given
/// ones, if there is one.
pub fn get_user_by_username_and_password(
    users: &Vec<User>,
    username: &String,
    password: &String,
) -> (found: Option<User>)
    ensures
        found is Some <==> some_user_matches(users@, username@, password@),
        found matches Some(u) ==> exists|i: int|
            is_first_match(users@, username@, password@, i) && u == #[trigger] users@[i],
{
    let mut i: usize = 0;
    while i < users.len()
        invariant
            i <= users.len(),
            forall|j: int|
                0 <= j < i ==> !credentials_match(#[trigger] users@[j], username@, password@),
        decreases users.len() - i,
    {
        if users[i].username == *username && users[i].password == *password {
            return Some(users[i].clone());
        }
        i += 1;
    }
    None
}

/// The archived flag of the rows that a listing shows: the one asked for,
/// and without a filter the rows that are not archived.
pub open spec fn listed_flag(filter_archived: Option<bool>) -> bool {
    match filter_archived {
        Some(archived) => archived,
        None => false,
    }
}

/// The archived flag of the rows that a listing shows.
pub fn archived_flag(filter_archived: Option<bool>) -> (archived: bool)
    ensures
        archived == listed_flag(filter_archived),
{
    match filter_archived {
        Some(archived) => archived,
        None => false,
    }
}

/// The users that a listing shows: the archived ones where `filter_archived`
/// is `Some(true)`, else the ones that are not archived.
pub open spec fn listed_users(users: Seq<User>, filter_archived: Option<bool>) -> Seq<User> {
    users.filter(|u: User| u.archived == listed_flag(filter_archived))
}

/// The users whose archived flag is the one asked for, in the order of the
/// store; without a filter, the users that are not archived.
pub fn get_users(users: &Vec<User>, filter_archived: Option<bool>) -> (listed: Vec<User>)
    ensures
        listed@ == listed_users(users@, filter_archived),
{
    let archived = archived_flag(filter_archived);
    let ghost keep = |u: User| u.archived == listed_flag(filter_archived);
    let mut listed: Vec<User> = Vec::new();
    let mut i: usize = 0;
    while i < users.len()
        invariant
            i <= users.len(),
            archived == listed_flag(filter_archived),
            keep == (|u: User| u.archived == listed_flag(filter_archived)),
            listed@ == users@.take(i as int).filter(keep),
        decreases users.len() - i,
    {
        proof {
            assert(users@.take(i + 1) =~= users@.take(i as int).push(users@[i as int]));
            lemma_filter_push(users@.take(i as int), users@[i as int], keep);
        }
        if users[i].archived == archived {
            listed.push(users[i].clone());
        }
        i += 1;
    }
    assert(users@.take(users.len() as int) =~= users@);
    listed
}

/// Filtering a sequence with one more item keeps what was kept, and the new
/// item where it passes.
pub proof fn lemma_filter_push<T>(s: Seq<T>, x: T, keep: spec_fn(T) -> bool)
    ensures
        s.push(x).filter(keep) == (if keep(x) {
            s.filter(keep).push(x)
        } else {
            s.filter(keep)
        }),
{
    reveal(Seq::filter);
    assert(s.push(x).drop_last() =~= s);
}

/// The place of the first user with this id.
pub open spec fn is_first_with_id(users: Seq<User>, id: i64, i: int) -> bool {
    &&& 0 <= i < users.len()
    &&& users[i].id == id
    &&& forall|j: int| 0 <= j < i ==> (#[trigger] users[j]).id != id
}

/// Whether some user has this id.
pub open spec fn has_user(users: Seq<User>, id: i64) -> bool {
    exists|i: int| 0 <= i < users.len() && (#[trigger] users[i]).id == id
}

/// The first user with this id.
pub open spec fn user_with_id(users: Seq<User>, id: i64) -> User {
    users[choose|i: int| is_first_with_id(users, id, i)]
}

/// The first of the places at which a user has this id, where there is one.
pub proof fn lemma_first_with_id(users: Seq<User>, id: i64, i: int)
    requires
        is_first_with_id(users, id, i),
    ensures
        has_user(users, id),
        user_with_id(users, id) == users[i],
{
    let c = choose|c: int| is_first_with_id(users, id, c);
    assert(is_first_with_id(users, id, c));
    assert(c == i) by {
        if c < i {
            assert(users[c].id != id);
        }
        if i < c {
            assert(users[i].id != id);
        }
    }
}

/// Among the users up to a place with this id there is a first one.
proof fn lemma_some_place_is_first(users: Seq<User>, id: i64, n: int)
    requires
        0 <= n < users.len(),
        users[n].id == id,
    ensures
        exists|i: int| 0 <= i <= n && is_first_with_id(users, id, i),
    decreases n,
{
    if exists|j: int| 0 <= j < n && (#[trigger] users[j]).id == id {
        let j = choose|j: int| 0 <= j < n && (#[trigger] users[j]).id == id;
        lemma_some_place_is_first(users, id, j);
    } else {
        assert(is_first_with_id(users, id, n));
    }
}

/// Where some user has this id, the user with this id is one of the users,
/// and has this id.
pub proof fn lemma_user_with_id_is_a_user(users: Seq<User>, id: i64)
    requires
        has_user(users, id),
    ensures
        user_with_id(users, id).id == id,
        users.contains(user_with_id(users, id)),
{
    let n = choose|n: int| 0 <= n < users.len() && (#[trigger] users[n]).id == id;
    lemma_some_place_is_first(users, id, n);
    let i = choose|i: int| 0 <= i <= n && is_first_with_id(users, id, i);
    lemma_first_with_id(users, id, i);
}

/// The user with this id, if there is one.
pub fn get_user_by_id(users: &Vec<User>, user_id: i64) -> (found: Option<User>)
    ensures
        found is Some <==> has_user(users@, user_id),
        found matches Some(u) ==> u == user_with_id(users@, user_id) && u.id == user_id,
{
    let mut i: usize = 0;
    while i < users.len()
        invariant
            i <= users.len(),
            forall|j: int| 0 <= j < i ==> (#[trigger] users@[j]).id != user_id,
        decreases users.len() - i,
    {
        if users[i].id == user_id {
            proof {
                lemma_first_with_id(users@, user_id, i as int);
            }
            return Some(users[i].clone());
        }
        i += 1;
    }
    None
}

/// The users whose id is one of `user_ids`, in the order of the store. An
/// id that is asked for twice gives its user once.
pub open spec fn users_with_ids(users: Seq<User>, user_ids: Seq<i64>) -> Seq<User> {
    users.filter(|u: User| user_ids.contains(u.id))
}

/// Whether `id` is one of `ids`.
pub fn contains_id(ids: &Vec<i64>, id: i64) -> (found: bool)
    ensures
        found == ids@.contains(id),
{
    let mut i: usize = 0;
    while i < ids.len()
        invariant
            i <= ids.len(),
            forall|j: int| 0 <= j < i ==> ids@[j] != id,
        decreases ids.len() - i,
    {
        if ids[i] == id {
            return true;
        }
        i += 1;
    }
    false
}

/// The users whose id is one of `user_ids`.
pub fn get_users_by_ids(users: &Vec<User>, user_ids: &Vec<i64>) -> (found: Vec<User>)
    ensures
        found@ == users_with_ids(users@, user_ids@),
{
    let ghost keep = |u: User| user_ids@.contains(u.id);
    let mut found: Vec<User> = Vec::new();
    let mut i: usize = 0;
    while i < users.len()
        invariant
            i <= users.len(),
            keep == (|u: User| user_ids@.contains(u.id)),
            found@ == users@.take(i as int).filter(keep),
        decreases users.len() - i,
    {
        proof {
            assert(users@.take(i + 1) =~= users@.take(i as int).push(users@[i as int]));
            lemma_filter_push(users@.take(i as int), users@[i as int], keep);
        }
        if contains_id(user_ids, users[i].id) {
            found.push(users[i].clone());
        }
        i += 1;
    }
    assert(users@.take(users.len() as int) =~= users@);
    found
}

/// The columns that an update of a user sets, in the order of the fields:
/// one for each field that the update holds.
pub open spec fn user_changes(update: UpdateUser) -> Seq<ColumnValueView> {
    given("username"@, text_value(update.username)) + given(
        "password"@,
        text_value(update.password),
    ) + given("email_address"@, text_value(update.email_address)) + given(
        "first_name"@,
        text_value(update.first_name),
    ) + given("last_name"@, text_value(update.last_name)) + given(
        "profile_picture_url"@,
        text_value(update.profile_picture_url),
    ) + given("archived"@, bool_value(update.archived))
}

/// The update of the user with this id: each field that the update holds
/// is set, and every other field stays.
pub fn update_user_by_id(user: UpdateUser, user_id: i64) -> (update: RowUpdate)
    ensures
        update.id == user_id,
        column_views(update.changes@) == user_changes(user),
{
    let mut changes: Vec<ColumnValue> = Vec::new();
    push_text(&mut changes, "username", user.username);
    push_text(&mut changes, "password", user.password);
    push_text(&mut changes, "email_address", user.email_address);
    push_text(&mut changes, "first_name", user.first_name);
    push_text(&mut changes, "last_name", user.last_name);
    push_text(&mut changes, "profile_picture_url", user.profile_picture_url);
    push_bool(&mut changes, "archived", user.archived);
    RowUpdate { id: user_id, changes }
}

} // verus!
