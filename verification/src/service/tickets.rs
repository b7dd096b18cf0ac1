//! Creating tickets, comments and assignments: what is checked before
//! anything is written, which rows are written, and who is told.

use crate::errors::{ErrorKind, TiraError};
use crate::models::{clone_text, CreateTicket};
use regex::Regex;
use vstd::prelude::*;

verus! {

/// The error of the `regex` crate: a pattern that does not compile.
#[verifier::external_type_specification]
#[verifier::external_body]
pub struct ExRegexError(regex::Error);

/// The result of replacing every match of a pattern in a text, as the
/// `regex` crate computes it; nothing where the pattern does not compile.
pub uninterp spec fn regex_replace_all(
    pattern: Seq<char>,
    haystack: Seq<char>,
    replacement: Seq<char>,
) -> Option<Seq<char>>;

/// Replaces every match of a pattern in a text.
///
/// Trusted: compiles `pattern` with `regex::Regex::new` and calls
/// `Regex::replace_all` on the haystack with the replacement. Both depend on
/// their arguments alone; the error is that of a pattern that does not
/// compile.
#[verifier::external_body]
fn replace_all(pattern: &str, haystack: &str, replacement: &str) -> (res: Result<
    String,
    regex::Error,
>)
    ensures
        res is Ok <==> regex_replace_all(pattern@, haystack@, replacement@) is Some,
        res matches Ok(text) ==> regex_replace_all(pattern@, haystack@, replacement@) == Some(
            text@,
        ),
{
    match Regex::new(pattern) {
        Ok(regex) => Ok(regex.replace_all(haystack, replacement).into_owned()),
        Err(e) => Err(e),
    }
}

/// What counts for nothing in a comment: a markup tag, closed or cut off by
/// the end of the text, a non-breaking space entity, or a white space
/// character.
pub const MARKUP_PATTERN: &'static str = "(</?[^>]+(>|$)|&nbsp;|\\s)";

/// A comment without its markup tags and white space.
pub open spec fn content_without_tags(comment: Seq<char>) -> Option<Seq<char>> {
    regex_replace_all(MARKUP_PATTERN@, comment, ""@)
}

/// The row of a new comment.
#[derive(Debug, PartialEq, Eq)]
pub struct NewComment {
    pub ticket_id: i64,
    pub commenter_id: i64,
    pub content: String,
}

/// Judges a comment by what is left of it without tags and white space: a
/// comment of which nothing is left is blank, and is rejected.
pub fn check_comment_content(content_without_tags: &str) -> (res: Result<(), TiraError>)
    ensures
        res is Err <==> content_without_tags@.len() == 0,
        res matches Err(e) ==> e.kind == ErrorKind::ValidationError && e.message@
            == "Comment cannot be blank!"@,
{
    if content_without_tags.is_empty() {
        Err(TiraError::new(ErrorKind::ValidationError, "Comment cannot be blank!"))
    } else {
        Ok(())
    }
}

/// Whether a comment may be written: something is left of it once its
/// markup tags and white space are taken out.
pub open spec fn is_acceptable_comment(comment: Seq<char>) -> bool {
    content_without_tags(comment) matches Some(rest) && rest.len() > 0
}

/// Whether `e` is the error that a comment is rejected with: a validation
/// error for a blank comment, and a fault of the service where the comment
/// could not be judged.
pub open spec fn is_comment_fault(e: TiraError, comment: Seq<char>) -> bool {
    match content_without_tags(comment) {
        None => e.kind == ErrorKind::Internal,
        Some(rest) => rest.len() == 0 && e.kind == ErrorKind::ValidationError && e.message@
            == "Comment cannot be blank!"@,
    }
}

/// Judges a comment as it was sent: a comment that is empty once its markup
/// tags and white space are taken out is blank, and is rejected.
pub fn check_comment(comment: &str) -> (res: Result<(), TiraError>)
    ensures
        res is Ok <==> is_acceptable_comment(comment@),
        res matches Err(e) ==> is_comment_fault(e, comment@),
{
    match replace_all(MARKUP_PATTERN, comment, "") {
        Err(_) => Err(TiraError::new(ErrorKind::Internal, "Comment could not be checked")),
        Ok(content_without_tags) => check_comment_content(content_without_tags.as_str()),
    }
}

/// The row to write for a comment on a ticket, as given. A comment that is
/// empty once its markup tags and white space are taken out is rejected, and
/// no row is to be written.
pub fn create_comment_by_ticket_id_and_commenter_id(
    comment: &str,
    ticket_id: i64,
    commenter_id: i64,
) -> (res: Result<NewComment, TiraError>)
    ensures
        res is Ok <==> is_acceptable_comment(comment@),
        res matches Err(e) ==> is_comment_fault(e, comment@),
        res matches Ok(row) ==> row.ticket_id == ticket_id && row.commenter_id == commenter_id
            && row.content@ == comment@,
{
    match check_comment(comment) {
        Err(e) => Err(e),
        Ok(()) => Ok(NewComment { ticket_id, commenter_id, content: comment.to_owned() }),
    }
}

/// The statuses that a ticket can have.
pub open spec fn is_ticket_status(status: Seq<char>) -> bool {
    ||| status == "Backlog"@
    ||| status == "In Progress"@
    ||| status == "Not Deployed Yet"@
    ||| status == "Done"@
    ||| status == "Closed"@
}

/// The priorities that a ticket can have.
pub open spec fn is_ticket_priority(priority: Seq<char>) -> bool {
    ||| priority == "Low"@
    ||| priority == "Medium"@
    ||| priority == "High"@
}

/// Whether a ticket may be created as it was sent.
pub open spec fn is_valid_ticket(ticket: CreateTicket) -> bool {
    &&& ticket.subject@.len() > 0
    &&& is_ticket_status(ticket.status@)
    &&& is_ticket_priority(ticket.priority@)
}

/// What is said of the first rule that a ticket breaks.
pub open spec fn ticket_fault(ticket: CreateTicket) -> Seq<char> {
    if ticket.subject@.len() == 0 {
        "Subject can not be empty"@
    } else if !is_ticket_status(ticket.status@) {
        "Status must be 'Backlog', 'In Progress', 'Not Deployed Yet', 'Done', or 'Closed'"@
    } else {
        "Priority must be 'Low', 'Medium', or 'High'"@
    }
}

/// Whether a text is one of the statuses of a ticket.
pub fn status_is_known(status: &String) -> (known: bool)
    ensures
        known == is_ticket_status(status@),
{
    *status == "Backlog".to_owned() || *status == "In Progress".to_owned() || *status
        == "Not Deployed Yet".to_owned() || *status == "Done".to_owned() || *status
        == "Closed".to_owned()
}

/// Whether a text is one of the priorities of a ticket.
pub fn priority_is_known(priority: &String) -> (known: bool)
    ensures
        known == is_ticket_priority(priority@),
{
    *priority == "Low".to_owned() || *priority == "Medium".to_owned() || *priority
        == "High".to_owned()
}

/// What is written for a new ticket: the row of the ticket, and one
/// assignment by the reporter for each of the assignees.
#[derive(Debug, PartialEq, Eq)]
pub struct NewTicket {
    pub category_id: Option<i64>,
    pub subject: String,
    pub description: Option<String>,
    pub status: String,
    pub priority: String,
    pub reporter_id: i64,
    pub assignee_ids: Vec<i64>,
}

/// The row of a new assignment.
#[derive(Debug, Clone, Copy, PartialEq, Eq, Structural)]
pub struct NewAssignment {
    pub ticket_id: i64,
    pub assignee_id: i64,
    pub assigner_id: i64,
}

/// Judges a ticket as it was sent: it needs a subject, and a status and a
/// priority that are among the known ones. The error names the first of
/// these rules that the ticket breaks.
pub fn check_ticket(ticket: &CreateTicket) -> (res: Result<(), TiraError>)
    ensures
        res is Ok <==> is_valid_ticket(*ticket),
        res matches Err(e) ==> e.kind == ErrorKind::ValidationError && e.message@ == ticket_fault(
            *ticket,
        ),
{
    if ticket.subject.as_str().is_empty() {
        return Err(TiraError::new(ErrorKind::ValidationError, "Subject can not be empty"));
    }
    if !status_is_known(&ticket.status) {
        return Err(
            TiraError::new(
                ErrorKind::ValidationError,
                "Status must be 'Backlog', 'In Progress', 'Not Deployed Yet', 'Done', or 'Closed'",
            ),
        );
    }
    if !priority_is_known(&ticket.priority) {
        return Err(
            TiraError::new(
                ErrorKind::ValidationError,
                "Priority must be 'Low', 'Medium', or 'High'",
            ),
        );
    }
    Ok(())
}

/// What is to be written for a new ticket of this reporter: the ticket,
/// and the reporter's assignments of the assignees asked for. A ticket
/// without a subject, or with a status or a priority that is not one of the
/// known ones, is rejected, and there is nothing to write for it: neither
/// the ticket nor any assignment.
pub fn create_ticket_by_reporter_id(ticket: &CreateTicket, reporter_id: i64) -> (res: Result<
    NewTicket,
    TiraError,
>)
    ensures
        res is Ok <==> is_valid_ticket(*ticket),
        res matches Err(e) ==> e.kind == ErrorKind::ValidationError && e.message@ == ticket_fault(
            *ticket,
        ),
        res matches Ok(row) ==> {
            &&& row.category_id == ticket.category_id
            &&& row.subject == ticket.subject
            &&& row.description == ticket.description
            &&& row.status == ticket.status
            &&& row.priority == ticket.priority
            &&& row.reporter_id == reporter_id
            &&& row.assignee_ids@ == ticket.assignee_ids@
        },
{
    if let Err(e) = check_ticket(ticket) {
        return Err(e);
    }
    Ok(
        NewTicket {
            category_id: ticket.category_id,
            subject: ticket.subject.clone(),
            description: clone_text(&ticket.description),
            status: ticket.status.clone(),
            priority: ticket.priority.clone(),
            reporter_id,
            assignee_ids: copy_ids(&ticket.assignee_ids),
        },
    )
}

/// A copy of a list of ids.
fn copy_ids(ids: &Vec<i64>) -> (copy: Vec<i64>)
    ensures
        copy@ == ids@,
{
    let mut copy: Vec<i64> = Vec::new();
    let mut i: usize = 0;
    while i < ids.len()
        invariant
            i <= ids.len(),
            copy@ == ids@.take(i as int),
        decreases ids.len() - i,
    {
        copy.push(ids[i]);
        i += 1;
    }
    copy
}

impl NewTicket {
    /// The assignment rows of the ticket, once the store has given it its
    /// id: one for each assignee, in their order, with the reporter as the
    /// assigner.
    pub fn assignments(&self, ticket_id: i64) -> (rows: Vec<NewAssignment>)
        ensures
            rows@ == assignment_rows(ticket_id, self.assignee_ids@, self.reporter_id),
    {
        create_assignments_by_ticket_id(ticket_id, &self.assignee_ids, self.reporter_id)
    }
}

/// The row to write for one assignment.
pub fn create_assignment_by_ticket_id_and_assigner_id(
    assignee_id: i64,
    ticket_id: i64,
    assigner_id: i64,
) -> (row: NewAssignment)
    ensures
        row == (NewAssignment { ticket_id, assignee_id, assigner_id }),
{
    NewAssignment { ticket_id, assignee_id, assigner_id }
}

/// One assignment row for each assignee, in their order, all by one assigner.
pub open spec fn assignment_rows(ticket_id: i64, assignee_ids: Seq<i64>, assigner_id: i64) -> Seq<
    NewAssignment,
> {
    Seq::new(
        assignee_ids.len(),
        |i: int| NewAssignment { ticket_id, assignee_id: assignee_ids[i], assigner_id },
    )
}

/// The assignment rows of a ticket: one for each of the assignees, with
/// the given user as the assigner of all of them.
pub fn create_assignments_by_ticket_id(
    ticket_id: i64,
    assignee_ids: &Vec<i64>,
    assigner_id: i64,
) -> (rows: Vec<NewAssignment>)
    ensures
        rows@ == assignment_rows(ticket_id, assignee_ids@, assigner_id),
{
    let mut rows: Vec<NewAssignment> = Vec::new();
    let mut i: usize = 0;
    while i < assignee_ids.len()
        invariant
            i <= assignee_ids.len(),
            rows@ == assignment_rows(ticket_id, assignee_ids@.take(i as int), assigner_id),
        decreases assignee_ids.len() - i,
    {
        rows.push(
            create_assignment_by_ticket_id_and_assigner_id(assignee_ids[i], ticket_id, assigner_id),
        );
        i += 1;
    }
    rows
}

/// A full replacement of the assignments of a ticket, to be applied as one
/// transaction: every assignment of the ticket is deleted, then the rows
/// are inserted.
#[derive(Debug, PartialEq, Eq)]
pub struct AssignmentReplacement {
    pub delete_ticket_id: i64,
    pub insert: Vec<NewAssignment>,
}

/// The replacement of the assignments of a ticket by a new set of
/// assignees, with the given user as the assigner of all of them.
pub fn update_assignments_by_ticket_id(
    ticket_id: i64,
    assignee_ids: &Vec<i64>,
    assigner_id: i64,
) -> (change: AssignmentReplacement)
    ensures
        change.delete_ticket_id == ticket_id,
        change.insert@ == assignment_rows(ticket_id, assignee_ids@, assigner_id),
{
    AssignmentReplacement {
        delete_ticket_id: ticket_id,
        insert: create_assignments_by_ticket_id(ticket_id, assignee_ids, assigner_id),
    }
}

} // verus!
