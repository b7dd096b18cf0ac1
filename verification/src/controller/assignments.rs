//! The endpoint that lists assignments.

use crate::dao::assignments::{get_assignments, selected_assignments};
use crate::models::Assignment;
use vstd::prelude::*;

verus! {

/// The filters of a listing of assignments; a filter that is absent lets
/// every assignment pass.
#[derive(Debug, Clone, Copy, PartialEq, Eq, Structural)]
pub struct AssignmentQueryParams {
    pub assignee_id: Option<i64>,
    pub ticket_id: Option<i64>,
}

/// The endpoint that lists assignments: those that pass the filters of the query.
pub fn get_assignments_endpoint(
    assignments: &Vec<Assignment>,
    query_params: AssignmentQueryParams,
) -> (listed: Vec<Assignment>)
    ensures
        listed@ == selected_assignments(
            assignments@,
            query_params.assignee_id,
            query_params.ticket_id,
        ),
{
    get_assignments(assignments, query_params.assignee_id, query_params.ticket_id)
}

} // verus!
