//! Answers of the stand-in server that the client is exercised against: it
//! stores nothing and fails on request, by the text it is sent.

use vstd::prelude::*;
use vstd::string::*;
use crate::common_error::AppCommonError;

verus! {

/// The id with which the stand-in server accepts a removal.
pub open spec fn accepted_removal_id() -> Seq<char> {
    "67e55044-10b1-426f-9247-bb680e5fe0c8"@
}

/// Saving an item whose title (or content) is "ConflictError" fails as a
/// conflict; any other save succeeds.
pub fn save_outcome(label: &str) -> (r: Result<(), AppCommonError>)
    ensures
        label@ == "ConflictError"@ ==> r == Err::<(), AppCommonError>(AppCommonError::ConflictError),
        label@ != "ConflictError"@ ==> r == Ok::<(), AppCommonError>(()),
{
    if String::from_str(label) == String::from_str("ConflictError") {
        Err(AppCommonError::ConflictError)
    } else {
        Ok(())
    }
}

/// Editing an item whose title (or content) is "NoRecordError" fails as a
/// missing row; any other edit succeeds.
pub fn edit_outcome(label: &str) -> (r: Result<(), AppCommonError>)
    ensures
        label@ == "NoRecordError"@ ==> r == Err::<(), AppCommonError>(AppCommonError::NoRecordError),
        label@ != "NoRecordError"@ ==> r == Ok::<(), AppCommonError>(()),
{
    if String::from_str(label) == String::from_str("NoRecordError") {
        Err(AppCommonError::NoRecordError)
    } else {
        Ok(())
    }
}

/// Removing succeeds for the one accepted id (given as it displays) and fails
/// as a missing row for any other.
pub fn remove_outcome(id: &str) -> (r: Result<(), AppCommonError>)
    ensures
        id@ == accepted_removal_id() ==> r == Ok::<(), AppCommonError>(()),
        id@ != accepted_removal_id() ==> r == Err::<(), AppCommonError>(AppCommonError::NoRecordError),
{
    if String::from_str(id) == String::from_str("67e55044-10b1-426f-9247-bb680e5fe0c8") {
        Ok(())
    } else {
        Err(AppCommonError::NoRecordError)
    }
}

} // verus!
