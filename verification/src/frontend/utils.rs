use vstd::prelude::*;
use crate::common_error::{AppCommonError, message_of, status_of};
use crate::frontend::error::{AppFrontError, front_message_of};

verus! {

/// A status in the 2xx range, as `http::StatusCode::is_success` has it.
pub open spec fn is_success_spec(status: u16) -> bool {
    200 <= status < 300
}

/// Whether an answer with this status carries the asked-for data (otherwise
/// it carries an `AppCommonError`).
pub fn is_success_status(status: u16) -> (b: bool)
    ensures
        b == is_success_spec(status),
{
    200 <= status && status < 300
}

/// The client error for an answer whose body is an error: the server's error
/// when the body could be read as one, otherwise the failure to read it.
pub open spec fn error_answer_spec(decoded: Result<AppCommonError, AppFrontError>) -> AppFrontError {
    match decoded {
        Ok(e) => AppFrontError::CommonError(e),
        Err(f) => f,
    }
}

/// Law: every error that the server answers with and that decodes reaches the
/// caller unchanged, as `CommonError` of that same error, whatever its variant:
/// it keeps its status and its text behind the client's prefix. A failure to
/// decode the answer reaches the caller as that failure, unchanged.
pub proof fn lemma_server_errors_reach_the_caller(decoded: Result<AppCommonError, AppFrontError>)
    ensures
        decoded matches Ok(e) ==> (error_answer_spec(decoded) matches AppFrontError::CommonError(got)
            && got == e
            && status_of(got) == status_of(e)
            && front_message_of(error_answer_spec(decoded)) == "AppFrontError::CommonError: "@ + message_of(e)),
        decoded matches Err(f) ==> error_answer_spec(decoded) == f,
{
}

/// What a non-success answer gives the caller, from the decoding of its body
/// as an `AppCommonError`.
pub fn error_answer<T>(decoded: Result<AppCommonError, AppFrontError>) -> (r: Result<T, AppFrontError>)
    ensures
        r == Err::<T, AppFrontError>(error_answer_spec(decoded)),
{
    match decoded {
        Ok(e) => Err(AppFrontError::from(e)),
        Err(f) => Err(f),
    }
}

/// What an answer without data gives the caller: success for a 2xx status;
/// otherwise `None`, and the body is to be read as an `AppCommonError` and
/// handed to `error_answer`.
pub fn null_answer(status: u16) -> (r: Option<Result<(), AppFrontError>>)
    ensures
        is_success_spec(status) ==> r == Some(Ok::<(), AppFrontError>(())),
        !is_success_spec(status) ==> r is None,
{
    if is_success_status(status) {
        Some(Ok(()))
    } else {
        None
    }
}

} // verus!
