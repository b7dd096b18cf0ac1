//! The endpoints for categories.

use crate::errors::TiraError;
use crate::models::success::{AlteredResourceResponse, StandardResponse};
use crate::service::{check_only_one_row_changed, is_row_count_error};
use crate::text::{decimal, push_decimal};
use vstd::prelude::*;

verus! {

/// The category to archive.
#[derive(Debug, Clone, Copy, PartialEq, Eq, Structural)]
pub struct ArchiveCategoryQueryParams {
    pub category_id: i64,
}

/// The filter of a listing of categories: the archived ones, or, by
/// default, the others.
#[derive(Debug, Clone, Copy, PartialEq, Eq, Structural)]
pub struct GetCategoryQueryParams {
    pub archived: Option<bool>,
}

/// The endpoint that archives a category, once the store has said how many
/// rows it changed: anything but one row is an error.
pub fn archive_category_by_id_endpoint(
    query_params: ArchiveCategoryQueryParams,
    categories_archived: u64,
) -> (res: Result<StandardResponse, TiraError>)
    ensures
        res is Ok <==> categories_archived == 1,
        res matches Err(e) ==> is_row_count_error(e, categories_archived),
        res matches Ok(response) ==> response.message@ == "Successfully archived category with id "@
            + decimal(query_params.category_id as int) + "!"@,
{
    match check_only_one_row_changed(categories_archived) {
        Err(e) => Err(e),
        Ok(()) => {
            let mut message = String::new();
            message.append("Successfully archived category with id ");
            push_decimal(&mut message, query_params.category_id);
            message.append("!");
            Ok(StandardResponse { message })
        },
    }
}

/// The endpoint that creates a category, once the category is written: the
/// response with the new id. It goes out with the status "created".
pub fn create_category_endpoint(category_id: i64) -> (res: (u16, AlteredResourceResponse))
    ensures
        res.0 == 201,
        res.1.id == category_id,
        res.1.message@ == "Successfully created category with id "@ + decimal(category_id as int),
{
    let mut message = String::new();
    message.append("Successfully created category with id ");
    push_decimal(&mut message, category_id);
    (201, AlteredResourceResponse { message, id: category_id })
}

} // verus!
