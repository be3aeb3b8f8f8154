use vstd::prelude::*;
use vstd::string::*;
use crate::common_error::{AppCommonError, message_of};

verus! {

#[verifier::external_type_specification]
#[verifier::external_body]
pub struct ExReqwestError(reqwest::Error);

/// Error met by the client.
#[derive(Debug, Clone, PartialEq, Eq)]
pub enum AppFrontError {
    /// The request could not be sent or its answer not received.
    FetchError(String),
    /// An answer could not be decoded.
    SerdeError(String),
    /// The server answered with an error.
    CommonError(AppCommonError),
}

/// The text that a client error displays.
pub open spec fn front_message_of(e: AppFrontError) -> Seq<char> {
    match e {
        AppFrontError::FetchError(s) => "AppFrontError::FetchError: "@ + s@,
        AppFrontError::SerdeError(s) => "AppFrontError::SerdeError: "@ + s@,
        AppFrontError::CommonError(c) => "AppFrontError::CommonError: "@ + message_of(c),
    }
}

/// Whether a `reqwest` error arose while decoding a response body
/// (`reqwest::Error::is_decode`).
pub uninterp spec fn reqwest_is_decode(e: reqwest::Error) -> bool;

/// The text with which a `reqwest` error displays itself.
pub uninterp spec fn reqwest_display(e: reqwest::Error) -> Seq<char>;

/// `reqwest::Error::is_decode`: whether the error's kind is `Decode`; the
/// contract names the answer, a function of the error alone.
#[verifier::external_body]
fn reqwest_error_is_decode(e: &reqwest::Error) -> (b: bool)
    ensures
        b == reqwest_is_decode(*e),
{
    e.is_decode()
}

/// `Display` text of a `reqwest` error (`format!("{}", e)`); the contract
/// names it, a function of the error alone.
#[verifier::external_body]
fn reqwest_error_text(e: &reqwest::Error) -> (text: String)
    ensures
        text@ == reqwest_display(*e),
{
    format!("{}", e)
}

impl AppFrontError {
    /// The client error for a failure of the HTTP client: a failure to decode
    /// an answer is a decoding error, anything else a fetch error; both keep
    /// the failure's text.
    pub fn fetch_failure(is_decode: bool, text: String) -> (e: AppFrontError)
        ensures
            is_decode ==> e == AppFrontError::SerdeError(text),
            !is_decode ==> e == AppFrontError::FetchError(text),
    {
        if is_decode {
            AppFrontError::SerdeError(text)
        } else {
            AppFrontError::FetchError(text)
        }
    }

    /// The client error for a `reqwest` error.
    pub fn from_reqwest_error(e: &reqwest::Error) -> (r: AppFrontError)
        ensures
            reqwest_is_decode(*e) ==> (r matches AppFrontError::SerdeError(t) && t@ == reqwest_display(*e)),
            !reqwest_is_decode(*e) ==> (r matches AppFrontError::FetchError(t) && t@ == reqwest_display(*e)),
    {
        let is_decode = reqwest_error_is_decode(e);
        AppFrontError::fetch_failure(is_decode, reqwest_error_text(e))
    }

    /// The text that this error displays.
    pub fn message(&self) -> (text: String)
        ensures
            text@ == front_message_of(*self),
    {
        match self {
            AppFrontError::FetchError(s) => String::from_str("AppFrontError::FetchError: ").concat(s.as_str()),
            AppFrontError::SerdeError(s) => String::from_str("AppFrontError::SerdeError: ").concat(s.as_str()),
            AppFrontError::CommonError(c) => {
                let m = c.message();
                String::from_str("AppFrontError::CommonError: ").concat(m.as_str())
            },
        }
    }
}

impl From<AppCommonError> for AppFrontError {
    fn from(e: AppCommonError) -> (r: AppFrontError) {
        AppFrontError::CommonError(e)
    }
}

impl vstd::std_specs::convert::FromSpecImpl<AppCommonError> for AppFrontError {
    open spec fn obeys_from_spec() -> bool {
        true
    }

    open spec fn from_spec(e: AppCommonError) -> AppFrontError {
        AppFrontError::CommonError(e)
    }
}

} // verus!
