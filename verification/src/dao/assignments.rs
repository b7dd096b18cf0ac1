//! Selections from the assignments that the store holds.

use crate::dao::statements::{
    column_views, given, int_value, push_int, ColumnValue, ColumnValueView,
};
use crate::dao::users::lemma_filter_push;
use crate::models::Assignment;
use vstd::prelude::*;

verus! {

/// Whether an assignment passes the filters: each filter that is given
/// has to hold.
pub open spec fn assignment_matches(
    assignment: Assignment,
    assignee_id: Option<i64>,
    ticket_id: Option<i64>,
) -> bool {
    &&& assignee_id matches Some(a) ==> assignment.assignee_id == a
    &&& ticket_id matches Some(t) ==> assignment.ticket_id == t
}

/// The assignments that pass the filters, in the order of the store.
pub open spec fn selected_assignments(
    assignments: Seq<Assignment>,
    assignee_id: Option<i64>,
    ticket_id: Option<i64>,
) -> Seq<Assignment> {
    assignments.filter(|a: Assignment| assignment_matches(a, assignee_id, ticket_id))
}

/// The assignments of one assignee, of one ticket, of both, or all of
/// them, as the filters say.
pub fn get_assignments(
    assignments: &Vec<Assignment>,
    assignee_id: Option<i64>,
    ticket_id: Option<i64>,
) -> (selected: Vec<Assignment>)
    ensures
        selected@ == selected_assignments(assignments@, assignee_id, ticket_id),
{
    let ghost keep = |a: Assignment| assignment_matches(a, assignee_id, ticket_id);
    let mut selected: Vec<Assignment> = Vec::new();
    let mut i: usize = 0;
    while i < assignments.len()
        invariant
            i <= assignments.len(),
            keep == (|a: Assignment| assignment_matches(a, assignee_id, ticket_id)),
            selected@ == assignments@.take(i as int).filter(keep),
        decreases assignments.len() - i,
    {
        let assignment = assignments[i];
        proof {
            assert(assignments@.take(i + 1) =~= assignments@.take(i as int).push(assignment));
            lemma_filter_push(assignments@.take(i as int), assignment, keep);
        }
        let assignee_passes = match assignee_id {
            Some(a) => assignment.assignee_id == a,
            None => true,
        };
        let ticket_passes = match ticket_id {
            Some(t) => assignment.ticket_id == t,
            None => true,
        };
        if assignee_passes && ticket_passes {
            selected.push(assignment);
        }
        i += 1;
    }
    assert(assignments@.take(assignments.len() as int) =~= assignments@);
    selected
}

/// The conditions of a selection of assignments: one for each filter that
/// is given.
pub open spec fn assignment_conditions(assignee_id: Option<i64>, ticket_id: Option<i64>) -> Seq<
    ColumnValueView,
> {
    given("assignee_id"@, int_value(assignee_id)) + given("ticket_id"@, int_value(ticket_id))
}

/// The conditions that a stored assignment has to meet to pass the filters.
pub fn get_assignments_conditions(assignee_id: Option<i64>, ticket_id: Option<i64>) -> (conditions:
    Vec<ColumnValue>)
    ensures
        column_views(conditions@) == assignment_conditions(assignee_id, ticket_id),
{
    let mut conditions: Vec<ColumnValue> = Vec::new();
    push_int(&mut conditions, "assignee_id", assignee_id);
    push_int(&mut conditions, "ticket_id", ticket_id);
    conditions
}

/// The assignees of the assignments, in their order.
pub open spec fn assignee_ids_of(assignments: Seq<Assignment>) -> Seq<i64> {
    assignments.map_values(|a: Assignment| a.assignee_id)
}

/// The assignees of the assignments, in their order.
pub fn get_assignee_ids(assignments: &Vec<Assignment>) -> (ids: Vec<i64>)
    ensures
        ids@ == assignee_ids_of(assignments@),
{
    let mut ids: Vec<i64> = Vec::new();
    let mut i: usize = 0;
    while i < assignments.len()
        invariant
            i <= assignments.len(),
            ids@ == assignee_ids_of(assignments@.take(i as int)),
        decreases assignments.len() - i,
    {
        ids.push(assignments[i].assignee_id);
        i += 1;
    }
    ids
}

} // verus!
