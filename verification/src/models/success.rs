//! The bodies of successful responses.

use crate::models::{Category, TicketWithReporterAsUser, User};
use vstd::prelude::*;

verus! {

/// A message and nothing else.
#[derive(Debug, PartialEq, Eq)]
pub struct StandardResponse {
    pub message: String,
}

/// A message, and the id of the row that was created or changed.
#[derive(Debug, PartialEq, Eq)]
pub struct AlteredResourceResponse {
    pub message: String,
    pub id: i64,
}

/// The id of the ticket that was edited.
#[derive(Debug, Clone, Copy, PartialEq, Eq, Structural)]
pub struct EditTicketResponse {
    pub id: i64,
}

/// A comment with its author in full.
#[derive(Debug, PartialEq, Eq)]
pub struct CommentResponse {
    pub id: i64,
    pub commenter: User,
    pub content: String,
    pub commented: i64,
}

/// A ticket with its category, reporter and assignees in full.
#[derive(Debug, PartialEq, Eq)]
pub struct TicketResponse {
    pub id: i64,
    pub subject: String,
    pub description: Option<String>,
    pub category: Option<Category>,
    pub priority: String,
    pub status: String,
    pub created: i64,
    pub reporter: User,
    pub assignees: Vec<User>,
}

/// One page of rows, and how many rows there are in all.
#[derive(Debug, PartialEq, Eq)]
pub struct CountResponse<T> {
    pub data: Vec<T>,
    pub total_count: i64,
}

/// A ticket of the listing, with its category, reporter and assignees in full.
#[derive(Debug, PartialEq, Eq)]
pub struct TicketWithoutDescriptionResponse {
    pub id: i64,
    pub subject: String,
    pub category: Option<Category>,
    pub priority: String,
    pub status: String,
    pub created: i64,
    pub reporter: User,
    pub assignees: Vec<User>,
}

/// An assignment with its ticket and assigner in full.
#[derive(Debug, PartialEq, Eq)]
pub struct AssignmentResponse {
    pub id: i64,
    pub ticket: TicketWithReporterAsUser,
    pub assigner: User,
    pub assigned: i64,
}

} // verus!
