//! Tickets among the rows that the store holds, and the update of a stored
//! ticket.

use crate::dao::statements::{
    column_views, given, int_value, push_int, push_text, text_value, ColumnValue,
    ColumnValueView, RowUpdate,
};
use crate::models::patch::UpdateTicket;
use crate::models::{clone_text, Ticket};
use vstd::prelude::*;

verus! {

/// The columns that an update of a ticket sets, in the order of the fields:
/// one for each field that the update holds. The assignees are no column of
/// the ticket: they are replaced through the assignments.
pub open spec fn ticket_changes(update: UpdateTicket) -> Seq<ColumnValueView> {
    given("category_id"@, int_value(update.category_id)) + given(
        "subject"@,
        text_value(update.subject),
    ) + given("description"@, text_value(update.description)) + given(
        "status"@,
        text_value(update.status),
    ) + given("priority"@, text_value(update.priority))
}

/// The update of the ticket with this id: each field that the update holds
/// is set, and every other field stays.
pub fn update_ticket_by_id(ticket: &UpdateTicket, ticket_id: i64) -> (update: RowUpdate)
    ensures
        update.id == ticket_id,
        column_views(update.changes@) == ticket_changes(*ticket),
{
    let mut changes: Vec<ColumnValue> = Vec::new();
    push_int(&mut changes, "category_id", ticket.category_id);
    push_text(&mut changes, "subject", clone_text(&ticket.subject));
    push_text(&mut changes, "description", clone_text(&ticket.description));
    push_text(&mut changes, "status", clone_text(&ticket.status));
    push_text(&mut changes, "priority", clone_text(&ticket.priority));
    RowUpdate { id: ticket_id, changes }
}

/// Whether `i` is the place of the first ticket with this id.
pub open spec fn is_first_ticket_with_id(tickets: Seq<Ticket>, id: i64, i: int) -> bool {
    &&& 0 <= i < tickets.len()
    &&& tickets[i].id == id
    &&& forall|j: int| 0 <= j < i ==> (#[trigger] tickets[j]).id != id
}

/// Whether some ticket has this id.
pub open spec fn has_ticket(tickets: Seq<Ticket>, id: i64) -> bool {
    exists|i: int| 0 <= i < tickets.len() && (#[trigger] tickets[i]).id == id
}

/// The first ticket with this id.
pub open spec fn ticket_with_id(tickets: Seq<Ticket>, id: i64) -> Ticket {
    tickets[choose|i: int| is_first_ticket_with_id(tickets, id, i)]
}

/// The first of the places at which a ticket has this id, where there is one.
pub proof fn lemma_first_ticket_with_id(tickets: Seq<Ticket>, id: i64, i: int)
    requires
        is_first_ticket_with_id(tickets, id, i),
    ensures
        has_ticket(tickets, id),
        ticket_with_id(tickets, id) == tickets[i],
{
    let c = choose|c: int| is_first_ticket_with_id(tickets, id, c);
    assert(is_first_ticket_with_id(tickets, id, c));
    assert(c == i) by {
        if c < i {
            assert(tickets[c].id != id);
        }
        if i < c {
            assert(tickets[i].id != id);
        }
    }
}

/// The place of the ticket with this id, if there is one.
pub fn find_ticket_by_id(tickets: &Vec<Ticket>, ticket_id: i64) -> (place: Option<usize>)
    ensures
        place is Some <==> has_ticket(tickets@, ticket_id),
        place matches Some(i) ==> i < tickets.len() && tickets@[i as int] == ticket_with_id(
            tickets@,
            ticket_id,
        ) && tickets@[i as int].id == ticket_id,
{
    let mut i: usize = 0;
    while i < tickets.len()
        invariant
            i <= tickets.len(),
            forall|j: int| 0 <= j < i ==> (#[trigger] tickets@[j]).id != ticket_id,
        decreases tickets.len() - i,
    {
        if tickets[i].id == ticket_id {
            proof {
                lemma_first_ticket_with_id(tickets@, ticket_id, i as int);
            }
            return Some(i);
        }
        i += 1;
    }
    None
}

} // verus!
