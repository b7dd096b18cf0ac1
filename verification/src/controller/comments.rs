//! The endpoint that edits a comment.

use crate::errors::TiraError;
use crate::models::success::AlteredResourceResponse;
use crate::service::{check_only_one_row_changed, is_row_count_error};
use vstd::prelude::*;

verus! {

/// The endpoint that edits a comment, once the store has said how many
/// rows it changed: anything but one row is an error.
pub fn patch_comment_by_id_endpoint(comment_id: i64, comments_updated: u64) -> (res: Result<
    AlteredResourceResponse,
    TiraError,
>)
    ensures
        res is Ok <==> comments_updated == 1,
        res matches Err(e) ==> is_row_count_error(e, comments_updated),
        res matches Ok(response) ==> response.id == comment_id && response.message@
            == "Successfully edited comment!"@,
{
    match check_only_one_row_changed(comments_updated) {
        Err(e) => Err(e),
        Ok(()) => Ok(
            AlteredResourceResponse {
                message: "Successfully edited comment!".to_owned(),
                id: comment_id,
            },
        ),
    }
}

} // verus!
