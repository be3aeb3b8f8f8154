use vstd::prelude::*;
use vstd::string::*;
use axum::extract::rejection::{JsonRejection, PathRejection, QueryRejection};

verus! {

#[verifier::external_type_specification]
#[verifier::external_body]
pub struct ExJsonRejection(JsonRejection);

#[verifier::external_type_specification]
#[verifier::external_body]
pub struct ExQueryRejection(QueryRejection);

#[verifier::external_type_specification]
#[verifier::external_body]
pub struct ExPathRejection(PathRejection);

/// Error that the server reports to the client; every variant is carried over
/// the wire, so the payloads are plain text.
#[derive(Debug, Clone, PartialEq, Eq)]
pub enum AppCommonError {
    DomainError(String),
    DBConnectionError(String),
    OtherSQLXError(String),
    DBDecodeError(String),
    ConflictError,
    NoRecordError,
    JsonRejectionError(String),
    QueryStringRejectionError(String),
    PathRejectionError(String),
}

/// Failure reported by the storage layer, each variant with the text that the
/// storage layer renders for it.
#[derive(Debug, Clone, PartialEq, Eq)]
pub enum InfraError {
    DomainError(String),
    DBConnectionError(String),
    OtherSQLXError(String),
    DBDecodeError(String),
    ConflictError,
    NoRecordError,
}

/// HTTP status with which an error is answered.
pub open spec fn status_of(e: AppCommonError) -> u16 {
    match e {
        AppCommonError::JsonRejectionError(_) => 400,
        AppCommonError::QueryStringRejectionError(_) => 400,
        AppCommonError::PathRejectionError(_) => 404,
        _ => 500,
    }
}

/// The text that an error displays.
pub open spec fn message_of(e: AppCommonError) -> Seq<char> {
    match e {
        AppCommonError::DomainError(s) => s@,
        AppCommonError::DBConnectionError(s) => s@,
        AppCommonError::OtherSQLXError(s) => s@,
        AppCommonError::DBDecodeError(s) => s@,
        AppCommonError::ConflictError => "ConflictError:tried to insert duplicated row"@,
        AppCommonError::NoRecordError => "NoRecordError: not existing row accessed"@,
        AppCommonError::JsonRejectionError(s) => "JsonRejectionError: "@ + s@,
        AppCommonError::QueryStringRejectionError(s) => "QueryStringRejectionError: "@ + s@,
        AppCommonError::PathRejectionError(s) => "PathRejectionError: "@ + s@,
    }
}

/// The error into which a storage failure is turned.
pub open spec fn from_infra_spec(e: InfraError) -> AppCommonError {
    match e {
        InfraError::DomainError(s) => AppCommonError::DomainError(s),
        InfraError::DBConnectionError(s) => AppCommonError::DBConnectionError(s),
        InfraError::OtherSQLXError(s) => AppCommonError::OtherSQLXError(s),
        InfraError::DBDecodeError(s) => AppCommonError::DBDecodeError(s),
        InfraError::ConflictError => AppCommonError::ConflictError,
        InfraError::NoRecordError => AppCommonError::NoRecordError,
    }
}

/// The text with which an `axum` JSON body rejection displays itself.
pub uninterp spec fn json_rejection_display(e: JsonRejection) -> Seq<char>;

/// The text with which an `axum` query string rejection displays itself.
pub uninterp spec fn query_rejection_display(e: QueryRejection) -> Seq<char>;

/// The text with which an `axum` path rejection displays itself.
pub uninterp spec fn path_rejection_display(e: PathRejection) -> Seq<char>;

/// Whether an `axum` JSON body rejection is its `MissingJsonContentType`
/// variant, the one for a request that carried no JSON body at all.
pub uninterp spec fn json_rejection_is_missing(e: JsonRejection) -> bool;

/// `Display` text of an `axum` JSON body rejection (`format!("{}", e)`); the
/// contract names it, as a function of the rejection alone.
#[verifier::external_body]
fn json_rejection_text(e: &JsonRejection) -> (text: String)
    ensures
        text@ == json_rejection_display(*e),
{
    format!("{}", e)
}

/// `Display` text of an `axum` query string rejection (`format!("{}", e)`);
/// the contract names it, as a function of the rejection alone.
#[verifier::external_body]
fn query_rejection_text(e: &QueryRejection) -> (text: String)
    ensures
        text@ == query_rejection_display(*e),
{
    format!("{}", e)
}

/// `Display` text of an `axum` path rejection (`format!("{}", e)`); the
/// contract names it, as a function of the rejection alone.
#[verifier::external_body]
fn path_rejection_text(e: &PathRejection) -> (text: String)
    ensures
        text@ == path_rejection_display(*e),
{
    format!("{}", e)
}

/// Whether an `axum` JSON body rejection is its `MissingJsonContentType`
/// variant (a `matches!` on the variant); the contract names the answer.
#[verifier::external_body]
pub(crate) fn json_rejection_is_missing_content_type(e: &JsonRejection) -> (b: bool)
    ensures
        b == json_rejection_is_missing(*e),
{
    matches!(e, JsonRejection::MissingJsonContentType(_))
}

/// A failure of the domain model (an invalid title, URL or date), carried as
/// the text with which it displays itself.
#[derive(Debug, Clone, PartialEq, Eq)]
pub struct DomainError {
    pub message: String,
}

impl AppCommonError {
    /// The HTTP status of the response that carries this error: a malformed
    /// JSON body or query string is a bad request, an unusable path is not
    /// found, anything else is an internal server error.
    pub fn status_code(&self) -> (code: u16)
        ensures
            code == status_of(*self),
    {
        match self {
            AppCommonError::JsonRejectionError(_) => 400,
            AppCommonError::QueryStringRejectionError(_) => 400,
            AppCommonError::PathRejectionError(_) => 404,
            _ => 500,
        }
    }

    /// The text that this error displays.
    pub fn message(&self) -> (text: String)
        ensures
            text@ == message_of(*self),
    {
        match self {
            AppCommonError::DomainError(s) => s.clone(),
            AppCommonError::DBConnectionError(s) => s.clone(),
            AppCommonError::OtherSQLXError(s) => s.clone(),
            AppCommonError::DBDecodeError(s) => s.clone(),
            AppCommonError::ConflictError => {
                proof { reveal_strlit("ConflictError:tried to insert duplicated row"); }
                String::from_str("ConflictError:tried to insert duplicated row")
            },
            AppCommonError::NoRecordError => {
                proof { reveal_strlit("NoRecordError: not existing row accessed"); }
                String::from_str("NoRecordError: not existing row accessed")
            },
            AppCommonError::JsonRejectionError(s) => {
                String::from_str("JsonRejectionError: ").concat(s.as_str())
            },
            AppCommonError::QueryStringRejectionError(s) => {
                String::from_str("QueryStringRejectionError: ").concat(s.as_str())
            },
            AppCommonError::PathRejectionError(s) => {
                String::from_str("PathRejectionError: ").concat(s.as_str())
            },
        }
    }

    /// The error for a request whose JSON body could not be extracted.
    pub fn from_json_rejection(e: &JsonRejection) -> (r: AppCommonError)
        ensures
            r matches AppCommonError::JsonRejectionError(s) && s@ == json_rejection_display(*e),
    {
        AppCommonError::JsonRejectionError(json_rejection_text(e))
    }

    /// The error for a request whose query string could not be extracted.
    pub fn from_query_rejection(e: &QueryRejection) -> (r: AppCommonError)
        ensures
            r matches AppCommonError::QueryStringRejectionError(s) && s@ == query_rejection_display(*e),
    {
        AppCommonError::QueryStringRejectionError(query_rejection_text(e))
    }

    /// The error for a request whose path parameters could not be extracted.
    pub fn from_path_rejection(e: &PathRejection) -> (r: AppCommonError)
        ensures
            r matches AppCommonError::PathRejectionError(s) && s@ == path_rejection_display(*e),
    {
        AppCommonError::PathRejectionError(path_rejection_text(e))
    }
}

impl From<InfraError> for AppCommonError {
    fn from(e: InfraError) -> (r: AppCommonError) {
        match e {
            InfraError::DomainError(s) => AppCommonError::DomainError(s),
            InfraError::DBConnectionError(s) => AppCommonError::DBConnectionError(s),
            InfraError::OtherSQLXError(s) => AppCommonError::OtherSQLXError(s),
            InfraError::DBDecodeError(s) => AppCommonError::DBDecodeError(s),
            InfraError::ConflictError => AppCommonError::ConflictError,
            InfraError::NoRecordError => AppCommonError::NoRecordError,
        }
    }
}

impl From<DomainError> for AppCommonError {
    fn from(e: DomainError) -> (r: AppCommonError) {
        AppCommonError::DomainError(e.message)
    }
}

impl vstd::std_specs::convert::FromSpecImpl<DomainError> for AppCommonError {
    open spec fn obeys_from_spec() -> bool {
        true
    }

    open spec fn from_spec(e: DomainError) -> AppCommonError {
        AppCommonError::DomainError(e.message)
    }
}

impl vstd::std_specs::convert::FromSpecImpl<InfraError> for AppCommonError {
    open spec fn obeys_from_spec() -> bool {
        true
    }

    open spec fn from_spec(e: InfraError) -> AppCommonError {
        from_infra_spec(e)
    }
}

/// Law: every storage failure reaches the client as a server-side error
/// (status 500), and keeps its kind and its text.
pub proof fn lemma_infra_errors_are_server_errors(e: InfraError)
    ensures
        status_of(from_infra_spec(e)) == 500,
        match e {
            InfraError::DomainError(s) => message_of(from_infra_spec(e)) == s@,
            InfraError::DBConnectionError(s) => message_of(from_infra_spec(e)) == s@,
            InfraError::OtherSQLXError(s) => message_of(from_infra_spec(e)) == s@,
            InfraError::DBDecodeError(s) => message_of(from_infra_spec(e)) == s@,
            InfraError::ConflictError => from_infra_spec(e) is ConflictError,
            InfraError::NoRecordError => from_infra_spec(e) is NoRecordError,
        },
{
}

} // verus!
