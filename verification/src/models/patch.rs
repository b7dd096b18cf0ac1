//! Partial updates: a field that is absent is left as it was.

use vstd::prelude::*;

verus! {

/// The fields of a ticket that a client asks to change.
#[derive(Debug, PartialEq, Eq)]
pub struct UpdateTicket {
    pub category_id: Option<i64>,
    pub subject: Option<String>,
    pub description: Option<String>,
    pub status: Option<String>,
    pub priority: Option<String>,
    pub assignee_ids: Option<Vec<i64>>,
}

/// The fields of a user that a client asks to change.
#[derive(Debug, PartialEq, Eq)]
pub struct UpdateUser {
    pub username: Option<String>,
    pub password: Option<String>,
    pub email_address: Option<String>,
    pub first_name: Option<String>,
    pub last_name: Option<String>,
    pub profile_picture_url: Option<String>,
    pub archived: Option<bool>,
}

/// The new content of a comment.
#[derive(Debug, PartialEq, Eq)]
pub struct UpdateComment {
    pub content: String,
}

} // verus!
