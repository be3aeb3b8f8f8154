use orikou_app::common_error::{AppCommonError, DomainError, InfraError};
use orikou_app::config::Config;
use orikou_app::frontend::utils::{error_answer, is_success_status, null_answer};
use orikou_app::frontend::AppFrontError;

use axum::extract::rejection::{JsonRejection, MissingJsonContentType, MissingPathParams, PathRejection};
use axum::extract::{FromRequest, Json, Query};
use std::collections::HashMap;

fn json_syntax_rejection() -> JsonRejection {
    let runtime = tokio::runtime::Builder::new_current_thread().build().unwrap();
    runtime.block_on(async {
        let request = axum::http::Request::builder()
            .header("content-type", "application/json")
            .body(axum::body::Body::from("{"))
            .unwrap();
        match Json::<HashMap<String, String>>::from_request(request, &()).await {
            Ok(_) => panic!("a broken body was accepted"),
            Err(e) => e,
        }
    })
}

#[test]
fn config_default_values() {
    let c = Config::default();
    assert_eq!(c.url_string_lim, 100);
    assert_eq!(c.test_server_addr, "127.0.0.1:8000");
    assert_eq!(c.test_api_domain, "http://127.0.0.1:8000/api");
    assert_eq!(c.api_domain, "/api");
}

#[test]
fn status_codes_of_each_error() {
    let s = || "x".to_string();
    assert_eq!(AppCommonError::JsonRejectionError(s()).status_code(), 400);
    assert_eq!(AppCommonError::QueryStringRejectionError(s()).status_code(), 400);
    assert_eq!(AppCommonError::PathRejectionError(s()).status_code(), 404);
    assert_eq!(AppCommonError::DomainError(s()).status_code(), 500);
    assert_eq!(AppCommonError::DBConnectionError(s()).status_code(), 500);
    assert_eq!(AppCommonError::OtherSQLXError(s()).status_code(), 500);
    assert_eq!(AppCommonError::DBDecodeError(s()).status_code(), 500);
    assert_eq!(AppCommonError::ConflictError.status_code(), 500);
    assert_eq!(AppCommonError::NoRecordError.status_code(), 500);
}

#[test]
fn messages_of_each_error() {
    assert_eq!(AppCommonError::DomainError("bad title".to_string()).message(), "bad title");
    assert_eq!(AppCommonError::DBConnectionError("down".to_string()).message(), "down");
    assert_eq!(AppCommonError::OtherSQLXError("sqlx".to_string()).message(), "sqlx");
    assert_eq!(AppCommonError::DBDecodeError("decode".to_string()).message(), "decode");
    assert_eq!(
        AppCommonError::ConflictError.message(),
        "ConflictError:tried to insert duplicated row"
    );
    assert_eq!(
        AppCommonError::NoRecordError.message(),
        "NoRecordError: not existing row accessed"
    );
    assert_eq!(
        AppCommonError::JsonRejectionError("j".to_string()).message(),
        "JsonRejectionError: j"
    );
    assert_eq!(
        AppCommonError::QueryStringRejectionError("q".to_string()).message(),
        "QueryStringRejectionError: q"
    );
    assert_eq!(
        AppCommonError::PathRejectionError("p".to_string()).message(),
        "PathRejectionError: p"
    );
}

#[test]
fn infra_errors_keep_kind_and_text() {
    assert_eq!(
        AppCommonError::from(InfraError::DomainError("d".to_string())),
        AppCommonError::DomainError("d".to_string())
    );
    assert_eq!(
        AppCommonError::from(InfraError::DBConnectionError("c".to_string())),
        AppCommonError::DBConnectionError("c".to_string())
    );
    assert_eq!(
        AppCommonError::from(InfraError::OtherSQLXError("o".to_string())),
        AppCommonError::OtherSQLXError("o".to_string())
    );
    assert_eq!(
        AppCommonError::from(InfraError::DBDecodeError("e".to_string())),
        AppCommonError::DBDecodeError("e".to_string())
    );
    assert_eq!(AppCommonError::from(InfraError::ConflictError), AppCommonError::ConflictError);
    assert_eq!(AppCommonError::from(InfraError::NoRecordError), AppCommonError::NoRecordError);
    assert_eq!(AppCommonError::from(InfraError::ConflictError).status_code(), 500);
    assert_eq!(AppCommonError::from(InfraError::NoRecordError).status_code(), 500);
}

#[test]
fn json_rejection_becomes_bad_request() {
    let missing = JsonRejection::from(MissingJsonContentType::default());
    let e = AppCommonError::from_json_rejection(&missing);
    assert_eq!(
        e,
        AppCommonError::JsonRejectionError(
            "Expected request with `Content-Type: application/json`".to_string()
        )
    );
    assert_eq!(e.status_code(), 400);

    let syntax = json_syntax_rejection();
    let e = AppCommonError::from_json_rejection(&syntax);
    assert!(matches!(&e, AppCommonError::JsonRejectionError(text) if !text.is_empty()));
    assert_eq!(e.status_code(), 400);
}

#[test]
fn query_rejection_becomes_bad_request() {
    let uri: axum::http::Uri = "http://localhost/q?length=abc".parse().unwrap();
    let rejection = match Query::<HashMap<String, usize>>::try_from_uri(&uri) {
        Ok(_) => panic!("a bad length was accepted"),
        Err(e) => e,
    };
    let e = AppCommonError::from_query_rejection(&rejection);
    assert!(
        matches!(&e, AppCommonError::QueryStringRejectionError(text) if text.starts_with("Failed to deserialize query string"))
    );
    assert_eq!(e.status_code(), 400);
}

#[test]
fn path_rejection_becomes_not_found() {
    let rejection = PathRejection::from(MissingPathParams::default());
    let e = AppCommonError::from_path_rejection(&rejection);
    assert_eq!(
        e,
        AppCommonError::PathRejectionError("No paths parameters found for matched route".to_string())
    );
    assert_eq!(e.status_code(), 404);
}

#[test]
fn front_error_messages() {
    assert_eq!(
        AppFrontError::FetchError("f".to_string()).message(),
        "AppFrontError::FetchError: f"
    );
    assert_eq!(
        AppFrontError::SerdeError("s".to_string()).message(),
        "AppFrontError::SerdeError: s"
    );
    assert_eq!(
        AppFrontError::CommonError(AppCommonError::NoRecordError).message(),
        "AppFrontError::CommonError: NoRecordError: not existing row accessed"
    );
    assert_eq!(
        AppFrontError::from(AppCommonError::ConflictError),
        AppFrontError::CommonError(AppCommonError::ConflictError)
    );
}

#[test]
fn fetch_failures_are_classified() {
    assert_eq!(
        AppFrontError::fetch_failure(true, "decoding".to_string()),
        AppFrontError::SerdeError("decoding".to_string())
    );
    assert_eq!(
        AppFrontError::fetch_failure(false, "refused".to_string()),
        AppFrontError::FetchError("refused".to_string())
    );
    let reqwest_error = reqwest::Client::new().get("not a url").build().unwrap_err();
    let e = AppFrontError::from_reqwest_error(&reqwest_error);
    assert!(matches!(&e, AppFrontError::FetchError(text) if text.starts_with("builder error")));
}

#[test]
fn success_statuses() {
    assert!(!is_success_status(199));
    assert!(is_success_status(200));
    assert!(is_success_status(204));
    assert!(is_success_status(299));
    assert!(!is_success_status(300));
    assert!(!is_success_status(404));
    assert!(!is_success_status(500));
}

#[test]
fn error_answers_reach_the_caller() {
    let r: Result<Vec<u32>, AppFrontError> = error_answer(Ok(AppCommonError::NoRecordError));
    assert_eq!(r, Err(AppFrontError::CommonError(AppCommonError::NoRecordError)));
    let r: Result<(), AppFrontError> = error_answer(Err(AppFrontError::SerdeError("bad".to_string())));
    assert_eq!(r, Err(AppFrontError::SerdeError("bad".to_string())));
    assert_eq!(null_answer(200), Some(Ok(())));
    assert_eq!(null_answer(500), None);
    assert_eq!(null_answer(404), None);
}

#[test]
fn domain_errors_keep_their_text() {
    let e = AppCommonError::from(DomainError { message: "title too long".to_string() });
    assert_eq!(e, AppCommonError::DomainError("title too long".to_string()));
    assert_eq!(e.status_code(), 500);
    assert_eq!(e.message(), "title too long");
}

#[test]
fn rejection_texts_are_the_display_texts() {
    let syntax = json_syntax_rejection();
    assert_eq!(
        AppCommonError::from_json_rejection(&syntax),
        AppCommonError::JsonRejectionError(format!("{}", syntax))
    );
    let uri: axum::http::Uri = "http://localhost/q?length=x".parse().unwrap();
    let rejection = Query::<HashMap<String, usize>>::try_from_uri(&uri).unwrap_err();
    assert_eq!(
        AppCommonError::from_query_rejection(&rejection),
        AppCommonError::QueryStringRejectionError(format!("{}", rejection))
    );
    let reqwest_error = reqwest::Client::new().get("not a url").build().unwrap_err();
    assert_eq!(
        AppFrontError::from_reqwest_error(&reqwest_error),
        AppFrontError::FetchError(format!("{}", reqwest_error))
    );
}
