//! The records of the tracker, as the rules read them. An instant is a count
//! of microseconds since the Unix epoch.

use vstd::prelude::*;

pub mod patch;
pub mod success;

verus! {

/// The characters of a text that may be absent.
pub open spec fn text_of(text: Option<String>) -> Option<Seq<char>> {
    match text {
        Some(s) => Some(s@),
        None => None,
    }
}

/// A copy of a text that may be absent.
pub fn clone_text(text: &Option<String>) -> (copy: Option<String>)
    ensures
        copy == *text,
{
    match text {
        Some(s) => Some(s.clone()),
        None => None,
    }
}

/// A person who can log in, report tickets and be assigned to them.
/// An archived user is kept, and left out of the default listings.
#[derive(Debug, PartialEq, Eq)]
pub struct User {
    pub id: i64,
    pub username: String,
    pub password: String,
    pub email_address: Option<String>,
    pub first_name: Option<String>,
    pub last_name: Option<String>,
    pub profile_picture_url: Option<String>,
    pub created: i64,
    pub archived: bool,
}

/// A user, with each text as its characters.
pub struct UserView {
    pub id: i64,
    pub username: Seq<char>,
    pub password: Seq<char>,
    pub email_address: Option<Seq<char>>,
    pub first_name: Option<Seq<char>>,
    pub last_name: Option<Seq<char>>,
    pub profile_picture_url: Option<Seq<char>>,
    pub created: i64,
    pub archived: bool,
}

impl View for User {
    type V = UserView;

    open spec fn view(&self) -> UserView {
        UserView {
            id: self.id,
            username: self.username@,
            password: self.password@,
            email_address: text_of(self.email_address),
            first_name: text_of(self.first_name),
            last_name: text_of(self.last_name),
            profile_picture_url: text_of(self.profile_picture_url),
            created: self.created,
            archived: self.archived,
        }
    }
}

impl Clone for User {
    fn clone(&self) -> (copy: User)
        ensures
            copy == *self,
    {
        User {
            id: self.id,
            username: self.username.clone(),
            password: self.password.clone(),
            email_address: clone_text(&self.email_address),
            first_name: clone_text(&self.first_name),
            last_name: clone_text(&self.last_name),
            profile_picture_url: clone_text(&self.profile_picture_url),
            created: self.created,
            archived: self.archived,
        }
    }
}

/// A group that tickets are filed under.
#[derive(Debug, PartialEq, Eq)]
pub struct Category {
    pub id: i64,
    pub name: String,
    pub description: Option<String>,
    pub creator_id: i64,
    pub created: i64,
    pub archived: bool,
}

/// What a client sends to create a category.
#[derive(Debug, PartialEq, Eq)]
pub struct CreateCategory {
    pub name: String,
    pub description: Option<String>,
}

/// What a client sends to comment on a ticket.
#[derive(Debug, PartialEq, Eq)]
pub struct CreateComment {
    pub content: String,
}

/// What a client sends to create a ticket.
#[derive(Debug, PartialEq, Eq)]
pub struct CreateTicket {
    pub category_id: Option<i64>,
    pub subject: String,
    pub description: Option<String>,
    pub status: String,
    pub priority: String,
    pub assignee_ids: Vec<i64>,
}

/// A ticket as it is stored.
#[derive(Debug, PartialEq, Eq)]
pub struct Ticket {
    pub id: i64,
    pub subject: String,
    pub description: Option<String>,
    pub category_id: Option<i64>,
    pub priority: String,
    pub status: String,
    pub created: i64,
    pub reporter_id: i64,
}

/// What a client sends to assign a user to a ticket.
#[derive(Debug, Clone, Copy, PartialEq, Eq, Structural)]
pub struct CreateAssignmentWithUserId {
    pub assignee_id: i64,
}

/// A ticket with its reporter in full.
#[derive(Debug, PartialEq, Eq)]
pub struct TicketWithReporterAsUser {
    pub id: i64,
    pub subject: String,
    pub description: Option<String>,
    pub category_id: Option<i64>,
    pub priority: String,
    pub status: String,
    pub created: i64,
    pub reporter: User,
}

/// A ticket as the listing reads it, without its description.
#[derive(Debug, PartialEq, Eq)]
pub struct TicketWithoutDescription {
    pub id: i64,
    pub subject: String,
    pub category_id: Option<i64>,
    pub priority: String,
    pub status: String,
    pub created: i64,
    pub reporter_id: i64,
}

/// One user assigned to one ticket, and by whom.
#[derive(Debug, Clone, Copy, PartialEq, Eq, Structural)]
pub struct Assignment {
    pub id: i64,
    pub ticket_id: i64,
    pub assignee_id: i64,
    pub assigner_id: i64,
    pub assigned: i64,
}

/// A comment on a ticket.
#[derive(Debug, PartialEq, Eq)]
pub struct Comment {
    pub id: i64,
    pub ticket_id: i64,
    pub commenter_id: i64,
    pub content: String,
    pub commented: i64,
}

/// A login that is still open. The token is the key; a session without an
/// expiration never runs out.
#[derive(Debug, PartialEq, Eq)]
pub struct Session {
    pub uuid: String,
    pub user_id: i64,
    pub created: i64,
    pub expiration: Option<i64>,
}

/// A session, with its token as characters.
pub struct SessionView {
    pub uuid: Seq<char>,
    pub user_id: i64,
    pub created: i64,
    pub expiration: Option<i64>,
}

impl View for Session {
    type V = SessionView;

    open spec fn view(&self) -> SessionView {
        SessionView {
            uuid: self.uuid@,
            user_id: self.user_id,
            created: self.created,
            expiration: self.expiration,
        }
    }
}

impl Clone for Session {
    fn clone(&self) -> (copy: Session)
        ensures
            copy == *self,
    {
        Session {
            uuid: self.uuid.clone(),
            user_id: self.user_id,
            created: self.created,
            expiration: self.expiration,
        }
    }
}

/// What a client sends to log in. The password is plain text until the
/// service has hashed it.
#[derive(Debug, PartialEq, Eq)]
pub struct Login {
    pub username: String,
    pub password: String,
    pub remember_me: bool,
}

/// The result of a counting query; the store may give none.
#[derive(Debug, Clone, Copy, PartialEq, Eq, Structural)]
pub struct Count {
    pub cnt: Option<i64>,
}

/// The id that the store gave to a new row.
#[derive(Debug, Clone, Copy, PartialEq, Eq, Structural)]
pub struct ReturningId {
    pub id: i64,
}

} // verus!
