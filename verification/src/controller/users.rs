//! The endpoints for users.

use crate::dao::tickets::{find_ticket_by_id, has_ticket, ticket_with_id};
use crate::dao::users::{get_user_by_id, has_user, user_with_id};
use crate::errors::{ErrorKind, TiraError};
use crate::models::success::{AlteredResourceResponse, AssignmentResponse};
use crate::models::{
    clone_text, Assignment, Session, Ticket, TicketWithReporterAsUser, User,
};
use crate::service::{check_only_one_row_changed, is_row_count_error};
use vstd::prelude::*;

verus! {

/// The filter of a listing of users: the archived ones, or, by default,
/// the others.
#[derive(Debug, Clone, Copy, PartialEq, Eq, Structural)]
pub struct GetUsersQueryParameters {
    pub archived: Option<bool>,
}

/// Whether the user of a session may edit the user with this id: users
/// edit themselves only.
pub fn check_user_edit(user_id: i64, session: &Session) -> (res: Result<(), TiraError>)
    ensures
        res is Ok <==> user_id == session.user_id,
        res matches Err(e) ==> e.kind == ErrorKind::ValidationError && e.message@
            == "Cannot edit another person's user!"@,
{
    if user_id != session.user_id {
        Err(TiraError::new(ErrorKind::ValidationError, "Cannot edit another person's user!"))
    } else {
        Ok(())
    }
}

/// The endpoint that edits a user, once the store has said how many rows
/// it changed: anything but one row is an error.
pub fn patch_user_by_id_endpoint(session: &Session, users_updated: u64) -> (res: Result<
    AlteredResourceResponse,
    TiraError,
>)
    ensures
        res is Ok <==> users_updated == 1,
        res matches Err(e) ==> is_row_count_error(e, users_updated),
        res matches Ok(response) ==> response.id == session.user_id && response.message@
            == "Successfully edited user!"@,
{
    match check_only_one_row_changed(users_updated) {
        Err(e) => Err(e),
        Ok(()) => Ok(
            AlteredResourceResponse {
                message: "Successfully edited user!".to_owned(),
                id: session.user_id,
            },
        ),
    }
}

/// The endpoint that archives a user, once the store has said how many
/// rows it changed: anything but one row is an error.
pub fn archive_user_by_id_endpoint(user_id: i64, users_archived: u64) -> (res: Result<
    AlteredResourceResponse,
    TiraError,
>)
    ensures
        res is Ok <==> users_archived == 1,
        res matches Err(e) ==> is_row_count_error(e, users_archived),
        res matches Ok(response) ==> response.id == user_id && response.message@
            == "Successfully archived user!"@,
{
    match check_only_one_row_changed(users_archived) {
        Err(e) => Err(e),
        Ok(()) => Ok(
            AlteredResourceResponse {
                message: "Successfully archived user!".to_owned(),
                id: user_id,
            },
        ),
    }
}

/// The endpoint that creates a user, once the user is written: the
/// response with the new id.
pub fn create_user_endpoint(created_user_id: i64) -> (response: AlteredResourceResponse)
    ensures
        response.id == created_user_id,
        response.message@ == "Successfully created user!"@,
{
    AlteredResourceResponse {
        message: "Successfully created user!".to_owned(),
        id: created_user_id,
    }
}

/// The tickets of the assignments, in their order.
pub open spec fn ticket_ids_of(assignments: Seq<Assignment>) -> Seq<i64> {
    assignments.map_values(|a: Assignment| a.ticket_id)
}

/// The assigners of the assignments, in their order.
pub open spec fn assigner_ids_of(assignments: Seq<Assignment>) -> Seq<i64> {
    assignments.map_values(|a: Assignment| a.assigner_id)
}

/// The tickets and the assigners of the assignments, each in the order of
/// the assignments.
pub fn ticket_and_assigner_ids(assignments: &Vec<Assignment>) -> (ids: (Vec<i64>, Vec<i64>))
    ensures
        ids.0@ == ticket_ids_of(assignments@),
        ids.1@ == assigner_ids_of(assignments@),
{
    let mut ticket_ids: Vec<i64> = Vec::new();
    let mut assigner_ids: Vec<i64> = Vec::new();
    let mut i: usize = 0;
    while i < assignments.len()
        invariant
            i <= assignments.len(),
            ticket_ids@ == ticket_ids_of(assignments@.take(i as int)),
            assigner_ids@ == assigner_ids_of(assignments@.take(i as int)),
        decreases assignments.len() - i,
    {
        ticket_ids.push(assignments[i].ticket_id);
        assigner_ids.push(assignments[i].assigner_id);
        i += 1;
    }
    (ticket_ids, assigner_ids)
}

/// The reporters of the tickets, in their order.
pub open spec fn reporter_ids_of(tickets: Seq<Ticket>) -> Seq<i64> {
    tickets.map_values(|t: Ticket| t.reporter_id)
}

/// The reporters of the tickets, in the order of the tickets.
pub fn reporter_ids(tickets: &Vec<Ticket>) -> (ids: Vec<i64>)
    ensures
        ids@ == reporter_ids_of(tickets@),
{
    let mut ids: Vec<i64> = Vec::new();
    let mut i: usize = 0;
    while i < tickets.len()
        invariant
            i <= tickets.len(),
            ids@ == reporter_ids_of(tickets@.take(i as int)),
        decreases tickets.len() - i,
    {
        ids.push(tickets[i].reporter_id);
        i += 1;
    }
    ids
}

/// An assignment with its ticket, the reporter of that ticket and its
/// assigner in full.
pub open spec fn is_assignment_response(
    response: AssignmentResponse,
    assignment: Assignment,
    ticket: Ticket,
    reporter: User,
    assigner: User,
) -> bool {
    &&& response.id == assignment.id
    &&& response.assigned == assignment.assigned
    &&& response.assigner == assigner
    &&& response.ticket.id == ticket.id
    &&& response.ticket.subject == ticket.subject
    &&& response.ticket.description == ticket.description
    &&& response.ticket.category_id == ticket.category_id
    &&& response.ticket.priority == ticket.priority
    &&& response.ticket.status == ticket.status
    &&& response.ticket.created == ticket.created
    &&& response.ticket.reporter == reporter
}

/// Whether the rows that an assignment refers to are among those read: its
/// ticket, the reporter of that ticket, and its assigner.
pub open spec fn assignment_is_complete(
    assignment: Assignment,
    tickets: Seq<Ticket>,
    ticket_reporters: Seq<User>,
    assigners: Seq<User>,
) -> bool {
    &&& has_ticket(tickets, assignment.ticket_id)
    &&& has_user(ticket_reporters, ticket_with_id(tickets, assignment.ticket_id).reporter_id)
    &&& has_user(assigners, assignment.assigner_id)
}

/// The response for an assignment whose rows were all read: the assignment
/// with its own ticket, the reporter of that ticket and its own assigner,
/// each found by its id.
pub open spec fn answers_assignment(
    response: AssignmentResponse,
    assignment: Assignment,
    tickets: Seq<Ticket>,
    ticket_reporters: Seq<User>,
    assigners: Seq<User>,
) -> bool {
    let ticket = ticket_with_id(tickets, assignment.ticket_id);
    &&& is_assignment_response(
        response,
        assignment,
        ticket,
        user_with_id(ticket_reporters, ticket.reporter_id),
        user_with_id(assigners, assignment.assigner_id),
    )
    &&& response.ticket.id == assignment.ticket_id
    &&& response.ticket.reporter.id == ticket.reporter_id
    &&& response.assigner.id == assignment.assigner_id
}

/// The response for one assignment, or nothing where one of the rows that
/// it refers to was not read.
fn assignment_response(
    assignment: &Assignment,
    tickets: &Vec<Ticket>,
    ticket_reporters: &Vec<User>,
    assigners: &Vec<User>,
) -> (response: Option<AssignmentResponse>)
    ensures
        response is Some <==> assignment_is_complete(
            *assignment,
            tickets@,
            ticket_reporters@,
            assigners@,
        ),
        response matches Some(r) ==> answers_assignment(
            r,
            *assignment,
            tickets@,
            ticket_reporters@,
            assigners@,
        ),
{
    let place = match find_ticket_by_id(tickets, assignment.ticket_id) {
        Some(place) => place,
        None => {
            return None;
        },
    };
    let ticket = &tickets[place];
    let reporter = match get_user_by_id(ticket_reporters, ticket.reporter_id) {
        Some(reporter) => reporter,
        None => {
            return None;
        },
    };
    let assigner = match get_user_by_id(assigners, assignment.assigner_id) {
        Some(assigner) => assigner,
        None => {
            return None;
        },
    };
    let ticket_with_reporter_as_user = TicketWithReporterAsUser {
        id: ticket.id,
        subject: ticket.subject.clone(),
        description: clone_text(&ticket.description),
        category_id: ticket.category_id,
        priority: ticket.priority.clone(),
        status: ticket.status.clone(),
        created: ticket.created,
        reporter,
    };
    Some(
        AssignmentResponse {
            id: assignment.id,
            ticket: ticket_with_reporter_as_user,
            assigner,
            assigned: assignment.assigned,
        },
    )
}

/// The endpoint that lists the assignments of a user, once the rows are
/// read: each assignment with its ticket, the reporter of that ticket and
/// its assigner, each found by its id among the rows read, in whatever
/// order those came. Where a row that an assignment refers to was not read,
/// the listing fails as a failure of the store.
pub fn get_assignments_by_user_id_endpoint(
    assignments: &Vec<Assignment>,
    tickets: &Vec<Ticket>,
    ticket_reporters: &Vec<User>,
    assigners: &Vec<User>,
) -> (res: Result<Vec<AssignmentResponse>, TiraError>)
    ensures
        res is Ok <==> forall|i: int|
            0 <= i < assignments.len() ==> assignment_is_complete(
                #[trigger] assignments[i],
                tickets@,
                ticket_reporters@,
                assigners@,
            ),
        res matches Ok(responses) ==> responses.len() == assignments.len() && forall|i: int|
            0 <= i < assignments.len() ==> answers_assignment(
                #[trigger] responses[i],
                assignments[i],
                tickets@,
                ticket_reporters@,
                assigners@,
            ),
        res matches Err(e) ==> e.kind == ErrorKind::StorageError && e.message@
            == "Assignment refers to a row that was not found"@,
{
    let mut responses: Vec<AssignmentResponse> = Vec::new();
    let mut index: usize = 0;
    while index < assignments.len()
        invariant
            index <= assignments.len(),
            responses.len() == index,
            forall|i: int|
                0 <= i < index ==> assignment_is_complete(
                    #[trigger] assignments[i],
                    tickets@,
                    ticket_reporters@,
                    assigners@,
                ),
            forall|i: int|
                0 <= i < index ==> answers_assignment(
                    #[trigger] responses[i],
                    assignments[i],
                    tickets@,
                    ticket_reporters@,
                    assigners@,
                ),
        decreases assignments.len() - index,
    {
        match assignment_response(&assignments[index], tickets, ticket_reporters, assigners) {
            Some(response) => {
                responses.push(response);
            },
            None => {
                return Err(
                    TiraError::new(
                        ErrorKind::StorageError,
                        "Assignment refers to a row that was not found",
                    ),
                );
            },
        }
        index += 1;
    }
    Ok(responses)
}

} // verus!
